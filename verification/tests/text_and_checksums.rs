use pyanpm::checksum::{checksum_bytes, checksum_entries, ChecksumEntry};
use pyanpm::error::PyanpmError;
use pyanpm::git::{
    git_ref_steps, git_rev_parse_step, git_sync_step, normalize_git_url, repository_cache_key, repository_cache_root,
    resolve_package_root, validate_git_options, validate_subdir, GitCommandKind,
};
use pyanpm::config::{GitRefKind, GitSourceOptions};
use pyanpm::paths::{extension, file_name, file_stem, path_within};
use pyanpm::text::{i64_to_decimal, to_decimal, u64_to_decimal};
use pyanpm::source::{relativize_or_display, shown_path};
use pyanpm::install::{swap_cleanup, SwapStep};

fn opts(kind: Option<GitRefKind>, git_ref: Option<&str>, subdir: Option<&str>) -> GitSourceOptions {
    GitSourceOptions {
        git_ref_kind: kind,
        git_ref: git_ref.map(|s| s.to_string()),
        git_subdir: subdir.map(|s| s.to_string()),
    }
}

#[test]
fn checksum_of_known_bytes() {
    assert_eq!(checksum_bytes(b"abc"), "ba7816bf8f01cfea414140de5dae2223b00361a396177a9cb410ff61f20015ad");
    assert_eq!(checksum_bytes(b""), "e3b0c44298fc1c149afbf4c8996fb92427ae41e4649b934ca495991b7852b855");
}

#[test]
fn directory_checksum_digests_paths_then_contents() {
    let entries = vec![
        ChecksumEntry { relative: "a.txt".to_string(), contents: Some(b"hello".to_vec()) },
        ChecksumEntry { relative: "inner".to_string(), contents: None },
    ];
    assert_eq!(checksum_entries(&entries), "3da849169bc8407c448743e68bf57b0e40798dd9b616cfbfde0dc3149068ecdf");
}

#[test]
fn decimal_texts() {
    assert_eq!(to_decimal(0), "0");
    assert_eq!(to_decimal(1234), "1234");
    assert_eq!(u64_to_decimal(18446744073709551615), "18446744073709551615");
    assert_eq!(i64_to_decimal(-42), "-42");
    assert_eq!(i64_to_decimal(i64::MIN), "-9223372036854775808");
    assert_eq!(i64_to_decimal(7), "7");
}

#[test]
fn path_components() {
    assert_eq!(file_name(r"C:\a\b.rbxm"), Some("b.rbxm"));
    assert_eq!(file_name("a/b/"), None);
    assert_eq!(file_stem(r"C:\a\.hidden"), Some(".hidden"));
    assert_eq!(file_stem("dir/archive.tar.gz"), Some("archive.tar"));
    assert_eq!(extension("dir/archive.tar.gz"), Some("gz"));
    assert_eq!(extension("dir/.hidden"), None);
    assert!(path_within(r"C:\Plugins\x.rbxm", r"C:\Plugins"));
    assert!(!path_within(r"C:\PluginsEvil\x.rbxm", r"C:\Plugins"));
}

#[test]
fn git_url_normalization() {
    assert_eq!(normalize_git_url("  https://github.com/org/repo.git \n"), Ok("https://github.com/org/repo.git".to_string()));
    assert_eq!(normalize_git_url("git@github.com:org/repo.git"), Ok("git@github.com:org/repo.git".to_string()));
    assert_eq!(normalize_git_url("   "), Err(PyanpmError::InvalidGitUrl("repository URL is empty".to_string())));
    assert_eq!(normalize_git_url("https://a\nb"), Err(PyanpmError::InvalidGitUrl("repository URL must be a single line".to_string())));
    assert_eq!(
        normalize_git_url("github.com/org/repo"),
        Err(PyanpmError::InvalidGitUrl("repository URL must use HTTPS, SSH, or Git transport syntax".to_string()))
    );
    let once = normalize_git_url(" https://x/y ").unwrap();
    assert_eq!(normalize_git_url(&once), Ok(once.clone()));
}

#[test]
fn git_subdirs_stay_inside() {
    assert_eq!(validate_subdir("packages/example"), Ok(()));
    assert_eq!(validate_subdir("a..b/c"), Ok(()));
    assert_eq!(validate_subdir("../up"), Err(PyanpmError::InvalidGitSubdir("../up".to_string())));
    assert_eq!(validate_subdir(r"a\..\b"), Err(PyanpmError::InvalidGitSubdir(r"a\..\b".to_string())));
    assert_eq!(validate_subdir("/abs"), Err(PyanpmError::InvalidGitSubdir("/abs".to_string())));
    assert_eq!(validate_subdir("C:stuff"), Err(PyanpmError::InvalidGitSubdir("C:stuff".to_string())));
}

#[test]
fn git_options_validation() {
    let ok = validate_git_options(&opts(Some(GitRefKind::Tag), Some("  v1.2.3 "), Some(" packages/example/ "))).unwrap();
    assert_eq!(ok.git_ref_kind, Some(GitRefKind::Tag));
    assert_eq!(ok.git_ref.as_deref(), Some("v1.2.3"));
    assert_eq!(ok.git_subdir.as_deref(), Some("packages/example/"));
    assert_eq!(
        validate_git_options(&opts(Some(GitRefKind::Branch), None, None)).err(),
        Some(PyanpmError::InvalidGitRef("Git reference kind and value must both be set.".to_string()))
    );
    assert_eq!(
        validate_git_options(&opts(None, Some("main"), None)).err(),
        Some(PyanpmError::InvalidGitRef("Git reference kind and value must both be set.".to_string()))
    );
    assert!(matches!(validate_git_options(&opts(None, None, Some("../x"))), Err(PyanpmError::InvalidGitSubdir(_))));
    let none = validate_git_options(&opts(None, Some("   "), Some(""))).unwrap();
    assert_eq!(none.git_ref, None);
    assert_eq!(none.git_subdir, None);
}

#[test]
fn git_command_plans() {
    let fetch = git_sync_step("https://x/y.git", "C:/cache/y", true);
    assert_eq!(fetch.args, vec!["fetch", "--prune", "--tags", "origin"]);
    assert!(fetch.in_repository && !fetch.tolerate_failure);
    let clone = git_sync_step("https://x/y.git", "C:/cache/y", false);
    assert_eq!(clone.args, vec!["clone", "--quiet", "https://x/y.git", "C:/cache/y"]);
    assert!(matches!(clone.error_kind, GitCommandKind::Clone));

    let branch = git_ref_steps(&opts(Some(GitRefKind::Branch), Some("main"), None)).unwrap();
    assert_eq!(branch.len(), 1);
    assert_eq!(branch[0].args, vec!["checkout", "--force", "-B", "main", "origin/main"]);
    let tag = git_ref_steps(&opts(Some(GitRefKind::Tag), Some("v1"), None)).unwrap();
    assert_eq!(tag[0].args, vec!["checkout", "--force", "--detach", "tags/v1"]);
    let commit = git_ref_steps(&opts(Some(GitRefKind::Commit), Some("0123abcd"), None)).unwrap();
    assert_eq!(commit.len(), 2);
    assert_eq!(commit[0].args, vec!["fetch", "--tags", "origin", "0123abcd"]);
    assert!(commit[0].tolerate_failure);
    assert_eq!(commit[1].args, vec!["checkout", "--force", "--detach", "0123abcd"]);
    let default = git_ref_steps(&opts(None, None, None)).unwrap();
    assert_eq!(default[0].args, vec!["pull", "--ff-only", "--quiet"]);
    assert!(default[0].tolerate_failure);
    assert_eq!(
        git_ref_steps(&opts(Some(GitRefKind::Tag), None, None)).err(),
        Some(PyanpmError::InvalidGitRef("Git reference kind and value must be provided together.".to_string()))
    );
    assert_eq!(git_rev_parse_step().args, vec!["rev-parse", "HEAD"]);
}

#[test]
fn repository_cache_paths() {
    let url = "https://github.com/org/example.git";
    assert_eq!(repository_cache_key(url, &opts(None, None, None)), "f463cd7b6cbd4f62b1f9489737de221443529d36a34217573141be2b688cb763");
    assert_eq!(
        repository_cache_key(url, &opts(Some(GitRefKind::Tag), Some("v1.2.3"), Some("ignored/subdir"))),
        "efcf000f8a000154e57693451a60c28a2d2db143e60086cb02d50c397d6687e7"
    );
    assert_eq!(
        repository_cache_root(r"C:\cache\git", url, &opts(None, None, None)),
        r"C:\cache\git\f463cd7b6cbd4f62b1f9489737de221443529d36a34217573141be2b688cb763"
    );
    assert_eq!(resolve_package_root("C:/repo", &None), Ok("C:/repo".to_string()));
    assert_eq!(resolve_package_root("C:/repo", &Some("packages/x".to_string())), Ok("C:/repo\\packages/x".to_string()));
    assert_eq!(resolve_package_root("C:/repo", &Some("../x".to_string())), Err(PyanpmError::InvalidGitSubdir("../x".to_string())));
}

#[test]
fn git_checkout_trims_the_commit() {
    let checkout = pyanpm::git::git_checkout("C:/repo".to_string(), "  0123abcd\n");
    assert_eq!(checkout.resolved_commit, "0123abcd");
    assert_eq!(checkout.package_root, "C:/repo");
}

#[test]
fn relativizes_paths_against_the_project_dir() {
    assert_eq!(relativize_or_display("/work/project/plugin.rbxm", "/work/project"), "plugin.rbxm");
    assert_eq!(relativize_or_display("/work/project", "/work/project"), "");
    assert_eq!(relativize_or_display("/work/other/plugin.rbxm", "/work/project"), "../other/plugin.rbxm");
    assert_eq!(relativize_or_display("plugins/a.rbxm", "/work/project"), "plugins/a.rbxm");
}

#[test]
fn shown_paths_use_forward_slashes() {
    assert_eq!(shown_path("C:\\a\\b.rbxm", None), "C:/a/b.rbxm");
    assert_eq!(shown_path("C:\\a\\b.rbxm", Some("..\\x\\b.rbxm".to_string())), "../x/b.rbxm");
    assert_eq!(relativize_or_display("/work/project/plugins/deep/a.rbxm", "/work/project"), "plugins/deep/a.rbxm");
    assert_eq!(relativize_or_display("/work", "/work/project/sub"), "../..");
}

#[test]
fn swapping_an_install_cleans_up_in_order() {
    assert_eq!(swap_cleanup(true, true, true), vec![SwapStep::RemoveStageRoot, SwapStep::RemoveBackup]);
    assert_eq!(
        swap_cleanup(false, true, true),
        vec![SwapStep::RemoveStagedTarget, SwapStep::RemoveStageRoot, SwapStep::RestoreBackup]
    );
    assert_eq!(swap_cleanup(false, false, false), vec![SwapStep::RemoveStagedTarget, SwapStep::RemoveStageRoot]);
}
