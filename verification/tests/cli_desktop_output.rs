use pyanpm::activity::ActivityStore;
use pyanpm::cache::{first_non_metadata_entry, CacheMetadata, CacheStore};
use pyanpm::cli::{
    dispatch, error_text, exit_code, require_confirmation, ActivityCommands, CacheCommands, Commands, GitArgs,
    GitRefKindArg, ServiceCall,
};
use pyanpm::command::PyanpmService;
use pyanpm::config::{GitRefKind, Lockfile, Manifest, ManifestPluginSpec};
use pyanpm::desktop::{normalize_optional_string, save_settings, AppState, DesktopPreferences, SaveSettingsInput};
use pyanpm::error::PyanpmError;
use pyanpm::operations::{
    ActivityRecord, ActivityStatus, CacheEntry, CacheMutationResult, CommandMeta, CompletionSummary, ListResult,
    ListedPlugin,
};
use pyanpm::plugin::PluginSourceKind;
use pyanpm::report::{cache_mutation_lines, list_lines};
use pyanpm::source::{
    parse_plugin_ref, plan_plugin_ref, resolve_from_manifest, source_ref_from_spec, validate_source_ref, ArtifactFound, ParsedPluginRef,
    SourceFound, SourcePlan,
};
use pyanpm::git::GitCheckout;
use pyanpm::plugin::ArtifactKind;
use pyanpm::config::GitSourceOptions;

fn meta() -> CommandMeta {
    CommandMeta { command_id: "id".to_string(), state_path: "C:/state".to_string(), activity_id: None }
}

fn completion(summary: &str, duration_ms: i64) -> CompletionSummary {
    CompletionSummary { affected_plugin_count: 1, warning_count: 0, error_count: 2, duration_ms, summary: summary.to_string() }
}

fn record(id: &str, plugins: &[&str]) -> ActivityRecord {
    ActivityRecord {
        id: id.to_string(),
        command_id: "c".to_string(),
        state_path: "s".to_string(),
        command_name: "install".to_string(),
        command_args_summary: String::new(),
        started_at: 1,
        finished_at: 2,
        duration_ms: 1,
        status: ActivityStatus::Success,
        plugin_names: plugins.iter().map(|p| p.to_string()).collect(),
        summary: "done".to_string(),
        error_code: None,
        error_message: None,
        error_stage: None,
    }
}

fn metadata(id: &str, last_used_at: i64) -> CacheMetadata {
    CacheMetadata {
        cache_id: id.to_string(),
        plugin_name: "p".to_string(),
        version: None,
        source_kind: "file".to_string(),
        source_summary: "file:x".to_string(),
        checksum: id.to_string(),
        size_bytes: 10,
        created_at: 0,
        last_used_at,
        path: format!("C:/cache/{id}/p.rbxm"),
    }
}

#[test]
fn destructive_commands_need_confirmation() {
    assert_eq!(require_confirmation(true, "m"), Ok(()));
    assert_eq!(require_confirmation(false, "m"), Err(PyanpmError::ConfirmationRequired("m".to_string())));
    let (name, call) = dispatch(Commands::Remove { plugin_name: "tool".to_string(), keep_manifest: false, yes: false });
    assert_eq!(name, "remove");
    assert_eq!(call.err(), Some(PyanpmError::ConfirmationRequired("pass --yes to remove a managed plugin".to_string())));
    let (name, call) = dispatch(Commands::Cache { command: CacheCommands::Prune { yes: false } });
    assert_eq!(name, "cache-prune");
    assert_eq!(call.err(), Some(PyanpmError::ConfirmationRequired("pass --yes to prune cache entries".to_string())));
    let (name, call) = dispatch(Commands::Activity { command: ActivityCommands::Clear { yes: true } });
    assert_eq!(name, "activity-clear");
    assert!(matches!(call, Ok(ServiceCall::ActivityClear)));
    let (name, call) = dispatch(Commands::Remove { plugin_name: "tool".to_string(), keep_manifest: true, yes: true });
    assert_eq!(name, "remove");
    assert!(matches!(call, Ok(ServiceCall::Remove { ref plugin_name, keep_manifest: true }) if plugin_name == "tool"));
}

#[test]
fn dispatch_converts_git_arguments() {
    let git = GitArgs { git_ref_kind: Some(GitRefKindArg::Commit), git_ref: Some("abc".to_string()), git_subdir: None };
    let (name, call) = dispatch(Commands::Add { plugin_ref: "git:https://x/y".to_string(), version: None, git });
    assert_eq!(name, "add");
    match call {
        Ok(ServiceCall::Add { plugin_ref, git_options, .. }) => {
            assert_eq!(plugin_ref, "git:https://x/y");
            assert_eq!(git_options.git_ref_kind, Some(GitRefKind::Commit));
            assert_eq!(git_options.git_ref.as_deref(), Some("abc"));
        }
        _ => panic!("expected an add call"),
    }
    assert_eq!(GitRefKind::from(GitRefKindArg::Branch), GitRefKind::Branch);
    assert_eq!(dispatch(Commands::Cache { command: CacheCommands::Info { cache_id: "x".to_string() } }).0, "cache-info");
}

#[test]
fn failed_command_texts() {
    assert_eq!(error_text(&PyanpmError::ManifestMissing("C:/s/pyanpm.toml".to_string()), "C:/s"), "No global pyanpm.toml found in C:/s. Run `pyanpm init` first.");
    assert_eq!(error_text(&PyanpmError::UnknownPlugin("x".to_string()), "C:/s"), "unknown plugin `x`");
    assert_eq!(exit_code(true), 0);
    assert_eq!(exit_code(false), 1);
}

#[test]
fn settings_save_and_read_back() {
    let prefs = DesktopPreferences::load(None, Some("C:/Plugins".to_string()));
    assert_eq!(prefs.last_route, "/");
    assert!(prefs.notifications_enabled);
    let mut state = AppState::new(prefs);
    let shown = state.settings_payload(Some("C:/Plugins".to_string()), None);
    assert_eq!(shown.state_dir, "Unavailable");
    assert_eq!(shown.plugins_dir_override.as_deref(), Some("C:/Plugins"));
    let refused = state.update_preferences(Some("   ".to_string()), None, "/x".to_string(), false, None, None);
    assert_eq!(refused.err().as_deref(), Some("Failed to resolve the Global Config path."));
    let input = SaveSettingsInput {
        state_dir_override: Some("  D:/state  ".to_string()),
        plugins_dir_override: Some(" ".to_string()),
        last_route: "/settings".to_string(),
        notifications_enabled: false,
    };
    let saved = save_settings(&mut state, input, Some("C:/Plugins".to_string()), Some("C:/default".to_string())).unwrap();
    assert_eq!(saved.state_dir, "D:/state");
    assert_eq!(saved.plugins_dir_override.as_deref(), Some("C:/Plugins"));
    assert_eq!(state.preferences.state_dir_override.as_deref(), Some("D:/state"));
    let again = state.settings_payload(Some("C:/Plugins".to_string()), Some("C:/default".to_string()));
    assert_eq!(again.state_dir, saved.state_dir);
    assert_eq!(again.plugins_dir_override, saved.plugins_dir_override);
    assert_eq!(again.last_route, saved.last_route);
    assert_eq!(again.notifications_enabled, saved.notifications_enabled);
    let service = state.service(None);
    assert_eq!(service.state_dir(), "D:/state");
    assert_eq!(normalize_optional_string(Some("\t x \n".to_string())), Some("x".to_string()));
    assert_eq!(normalize_optional_string(Some(" ".to_string())), None);
}

#[test]
fn loaded_preferences_are_cleaned() {
    let stored = DesktopPreferences {
        state_dir_override: Some("  ".to_string()),
        plugins_dir_override: None,
        last_route: String::new(),
        notifications_enabled: false,
    };
    let p = DesktopPreferences::load(Some(stored), Some("C:/Detected".to_string()));
    assert_eq!(p.state_dir_override, None);
    assert_eq!(p.plugins_dir_override.as_deref(), Some("C:/Detected"));
    assert_eq!(p.last_route, "/");
    assert!(!p.notifications_enabled);
}

#[test]
fn printed_lines() {
    let empty = ListResult { meta: meta(), plugins: Vec::new() };
    assert_eq!(list_lines(&empty), vec!["No managed plugins found."]);
    let one = ListResult {
        meta: meta(),
        plugins: vec![ListedPlugin {
            name: "tool".to_string(),
            requested_version: None,
            installed_version: Some("1.0".to_string()),
            source: "file:tool.rbxm".to_string(),
            status: "installed".to_string(),
            target_path: None,
        }],
    };
    assert_eq!(list_lines(&one), vec!["tool\tinstalled\t1.0\t-"]);
    let mutation = CacheMutationResult {
        meta: meta(),
        removed: vec!["aa".to_string()],
        protected: vec!["bb".to_string()],
        reclaimed_size_bytes: 3,
        completion: completion("Pruned 1 cache entrie(s).", -5),
    };
    assert_eq!(
        cache_mutation_lines(&mutation),
        vec![
            "Removed 1 cache entrie(s).",
            "- aa",
            "Protected:",
            "- bb",
            "Summary: Pruned 1 cache entrie(s). (affected: 1, warnings: 0, errors: 2, duration: -5ms)",
        ]
    );
}

#[test]
fn cache_entries_order_and_prune() {
    let store = CacheStore::new("C:/cache".to_string());
    let listed = store.list_entries(vec![metadata("old", 1), metadata("new", 5), metadata("mid", 3)], &vec!["mid".to_string()]);
    let ids: Vec<&str> = listed.iter().map(|e| e.cache_id.as_str()).collect();
    assert_eq!(ids, vec!["new", "mid", "old"]);
    assert!(listed[1].referenced_by_active_lockfile);
    assert_eq!(store.prune_unreferenced(&listed), vec!["new", "old"]);
    let service = PyanpmService::new("C:/state".to_string(), None);
    assert_eq!(service.cache_evict("mid", &vec!["mid".to_string()]), Err(PyanpmError::ProtectedCacheEntry("mid".to_string())));
    assert_eq!(service.cache_evict("old", &vec!["mid".to_string()]), Ok(()));
    let found: Vec<CacheEntry> = listed;
    assert_eq!(store.get_entry(found, "zz").err(), Some(PyanpmError::CacheEntryNotFound("zz".to_string())));
    let names = vec!["entry.json".to_string(), "b.rbxm".to_string(), "a.rbxm".to_string()];
    assert_eq!(first_non_metadata_entry("C:\\cache\\x", &names), Ok("C:\\cache\\x\\a.rbxm".to_string()));
    assert_eq!(
        first_non_metadata_entry("C:\\cache\\x", &vec!["entry.json".to_string()]),
        Err(PyanpmError::CacheEntryNotFound("C:\\cache\\x".to_string()))
    );
}

#[test]
fn activity_history_lookups() {
    let mut store = ActivityStore::new("C:/activity.json".to_string(), Vec::new());
    store.append(record("r1", &["a"]));
    store.append(record("r2", &["b"]));
    store.append(record("r3", &["a", "b"]));
    assert_eq!(store.latest_for_plugin("a").map(|r| r.id.as_str()), Some("r3"));
    assert_eq!(store.latest_for_plugin("c").map(|r| r.id.as_str()), None);
    assert_eq!(store.get("r2").map(|r| r.id.as_str()), Ok("r2"));
    assert_eq!(store.get("zz").err(), Some(PyanpmError::ActivityNotFound("zz".to_string())));
    assert_eq!(store.clear(), 3);
    assert_eq!(store.list().len(), 0);
}

#[test]
fn source_references_plan_and_validate() {
    let none = GitSourceOptions { git_ref_kind: None, git_ref: None, git_subdir: None };
    assert!(matches!(plan_plugin_ref("file:C:/x.rbxm", &none), Ok((SourcePlan::File { ref raw_path }, _)) if raw_path == "C:/x.rbxm"));
    assert!(matches!(plan_plugin_ref("git: https://x/y.git ", &none), Ok((SourcePlan::Git { ref url }, _)) if url == "https://x/y.git"));
    assert_eq!(plan_plugin_ref("ftp:x", &none).err(), Some(PyanpmError::InvalidPluginRef("ftp:x".to_string())));
    let tag = GitSourceOptions { git_ref_kind: Some(GitRefKind::Tag), git_ref: Some("v1".to_string()), git_subdir: None };
    assert_eq!(
        plan_plugin_ref("path:C:/pkg", &tag).err(),
        Some(PyanpmError::InvalidGitRef("Git ref fields can only be used with `git:` sources.".to_string()))
    );
    let spec = ManifestPluginSpec {
        source: PluginSourceKind::Git,
        path: None,
        url: Some("https://x/y.git".to_string()),
        version: None,
        git_ref_kind: Some(GitRefKind::Tag),
        git_ref: Some("v1".to_string()),
        subdir: Some("pkg".to_string()),
    };
    assert_eq!(source_ref_from_spec(&spec), "git:https://x/y.git [tag:v1] [pkg]");
    let empty = validate_source_ref("  ", None);
    assert_eq!(empty.errors.len(), 1);
    assert_eq!(empty.errors[0].code, "source.empty");
    let failed = validate_source_ref("file:", Some(Err(PyanpmError::UnsupportedArtifact(String::new()))));
    assert_eq!(failed.errors[0].code, "source.file.empty_path");
    let bad = validate_source_ref("git:https://x", Some(Err(PyanpmError::MissingGitExecutable)));
    assert_eq!(bad.errors[0].code, "source.git.invalid");
    assert_eq!(bad.errors[0].message, "git executable was not found in PATH");
    let ok = validate_source_ref("git:https://x/y.git", Some(Ok(ParsedPluginRef { name: "y".to_string(), spec })));
    assert!(ok.errors.is_empty());
    assert_eq!(ok.plugin_name.as_deref(), Some("y"));
    assert_eq!(ok.normalized_source_ref.as_deref(), Some("git:https://x/y.git [tag:v1] [pkg]"));
}

#[test]
fn manifest_keeps_names_sorted_and_lockfile_sorts_on_save() {
    let mut manifest = Manifest::new();
    let spec = |p: &str| ManifestPluginSpec {
        source: PluginSourceKind::File,
        path: Some(p.to_string()),
        url: None,
        version: None,
        git_ref_kind: None,
        git_ref: None,
        subdir: None,
    };
    manifest.insert("b".to_string(), spec("b.rbxm"));
    manifest.insert("a".to_string(), spec("a.rbxm"));
    manifest.insert("b".to_string(), spec("b2.rbxm"));
    assert_eq!(manifest.names(), vec!["a", "b"]);
    assert_eq!(manifest.get("b").unwrap().path.as_deref(), Some("b2.rbxm"));
    manifest.remove("a");
    assert_eq!(manifest.len(), 1);
    assert!(manifest.get("a").is_none());
    let mut lock = Lockfile::default();
    assert_eq!(lock.version, 0);
    assert_eq!(Manifest::path_in("C:\\s"), "C:\\s\\pyanpm.toml");
    assert_eq!(Lockfile::path_in("C:\\s"), "C:\\s\\pyanpm.lock");
    lock.prepare_save(12);
    assert_eq!(lock.generated_at, Some(12));
}

fn package(name: &str, version: Option<&str>) -> pyanpm::config::PackageMetadata {
    pyanpm::config::PackageMetadata {
        name: name.to_string(),
        version: version.map(|v| v.to_string()),
        display_name: None,
        entry: "plugin.rbxm".to_string(),
    }
}

#[test]
fn parsed_references_become_manifest_entries() {
    let none = GitSourceOptions { git_ref_kind: None, git_ref: None, git_subdir: None };
    let file = parse_plugin_ref("C:\\state", SourceFound::File { canonical_path: "C:\\Plugins\\tool.rbxm".to_string() }, &none, Some("1.0".to_string())).unwrap();
    assert_eq!(file.name, "tool");
    assert_eq!(file.spec.source, PluginSourceKind::File);
    assert_eq!(file.spec.version.as_deref(), Some("1.0"));
    assert!(!file.spec.path.unwrap().contains('\\'));
    let bad = parse_plugin_ref(
        "C:\\state",
        SourceFound::Path { canonical_path: "C:\\pkg".to_string(), metadata: package("bad/name", None) },
        &none,
        None,
    );
    assert_eq!(bad.err(), Some(PyanpmError::InvalidPluginName("bad/name".to_string())));
    let tag = GitSourceOptions { git_ref_kind: Some(GitRefKind::Tag), git_ref: Some("v1".to_string()), git_subdir: Some("pkg".to_string()) };
    let git = parse_plugin_ref(
        "C:\\state",
        SourceFound::Git {
            url: "https://x/y.git".to_string(),
            checkout: GitCheckout { package_root: "C:\\cache\\y\\pkg".to_string(), resolved_commit: "abc".to_string() },
            metadata: package("repo-plugin", Some("2.0")),
        },
        &tag,
        None,
    )
    .unwrap();
    assert_eq!(git.name, "repo-plugin");
    assert_eq!(git.spec.url.as_deref(), Some("https://x/y.git"));
    assert_eq!(git.spec.git_ref.as_deref(), Some("v1"));
    assert_eq!(git.spec.subdir.as_deref(), Some("pkg"));
    assert_eq!(git.spec.path, None);
}

#[test]
fn manifest_entries_resolve_by_kind() {
    let file_spec = ManifestPluginSpec {
        source: PluginSourceKind::File,
        path: Some("tool.rbxm".to_string()),
        url: None,
        version: Some("1.0".to_string()),
        git_ref_kind: None,
        git_ref: None,
        subdir: None,
    };
    let found = ArtifactFound::File { artifact_path: "C:\\x\\Tool.RBXM".to_string(), checksum: "sum".to_string() };
    let resolved = resolve_from_manifest("tool", &file_spec, found).unwrap();
    assert_eq!(resolved.install_name, "tool.rbxm");
    assert_eq!(resolved.resolved_version.as_deref(), Some("1.0"));
    let refused = resolve_from_manifest("CON", &file_spec, ArtifactFound::File { artifact_path: "C:\\x\\a.rbxm".to_string(), checksum: "s".to_string() });
    assert_eq!(refused.err(), Some(PyanpmError::InvalidPluginName("CON".to_string())));
    let unsupported = resolve_from_manifest("tool", &file_spec, ArtifactFound::File { artifact_path: "C:\\x\\a.lua".to_string(), checksum: "s".to_string() });
    assert_eq!(unsupported.err(), Some(PyanpmError::UnsupportedArtifact("C:\\x\\a.lua".to_string())));

    let path_spec = ManifestPluginSpec { source: PluginSourceKind::Path, path: Some("pkg".to_string()), ..file_spec.duplicate() };
    let mismatch = resolve_from_manifest(
        "tool",
        &path_spec,
        ArtifactFound::Path {
            source_dir: "C:\\pkg".to_string(),
            metadata: package("other", None),
            artifact_path: "C:\\pkg\\plugin.rbxm".to_string(),
            artifact_kind: ArtifactKind::File,
            checksum: "s".to_string(),
        },
    );
    assert_eq!(
        mismatch.err(),
        Some(PyanpmError::InvalidMetadata("manifest plugin key `tool` does not match metadata name `other`".to_string()))
    );
    let versioned = resolve_from_manifest(
        "tool",
        &path_spec,
        ArtifactFound::Path {
            source_dir: "C:\\pkg".to_string(),
            metadata: package("tool", Some("3.1")),
            artifact_path: "C:\\pkg\\plugin".to_string(),
            artifact_kind: ArtifactKind::Directory,
            checksum: "s".to_string(),
        },
    )
    .unwrap();
    assert_eq!(versioned.resolved_version.as_deref(), Some("3.1"));
    assert_eq!(versioned.install_name, "tool");

    let git_spec = ManifestPluginSpec { source: PluginSourceKind::Git, path: None, url: Some("https://x/y.git".to_string()), ..file_spec.duplicate() };
    let git = resolve_from_manifest(
        "tool",
        &git_spec,
        ArtifactFound::Git {
            url: "https://x/y.git".to_string(),
            checkout: GitCheckout { package_root: "C:\\cache\\y".to_string(), resolved_commit: "0123abcd".to_string() },
            metadata: package("tool", None),
            artifact_path: "C:\\cache\\y\\plugin.rbxmx".to_string(),
            artifact_kind: ArtifactKind::File,
            checksum: "s".to_string(),
        },
    )
    .unwrap();
    assert_eq!(git.git_resolved_commit.as_deref(), Some("0123abcd"));
    assert_eq!(git.source_url.as_deref(), Some("https://x/y.git"));
    assert_eq!(git.install_name, "tool.rbxmx");
}

#[test]
fn bad_git_options_are_refused_before_the_reference_is_read() {
    let kind_only = GitSourceOptions { git_ref_kind: Some(GitRefKind::Tag), git_ref: None, git_subdir: None };
    assert_eq!(
        plan_plugin_ref("ftp:x", &kind_only).err(),
        Some(PyanpmError::InvalidGitRef("Git reference kind and value must both be set.".to_string()))
    );
    let climbing = GitSourceOptions { git_ref_kind: None, git_ref: None, git_subdir: Some("../x".to_string()) };
    assert_eq!(plan_plugin_ref("file:a.rbxm", &climbing).err(), Some(PyanpmError::InvalidGitSubdir("../x".to_string())));
    let subdir_only = GitSourceOptions { git_ref_kind: None, git_ref: None, git_subdir: Some("pkg".to_string()) };
    assert_eq!(
        plan_plugin_ref("file:a.rbxm", &subdir_only).err(),
        Some(PyanpmError::InvalidGitRef("Git ref fields can only be used with `git:` sources.".to_string()))
    );
}

#[test]
fn file_and_path_entries_store_paths_relative_to_the_project() {
    let none = GitSourceOptions { git_ref_kind: None, git_ref: None, git_subdir: None };
    let file = parse_plugin_ref(
        "/work/project",
        SourceFound::File { canonical_path: "/work/project/tool.rbxm".to_string() },
        &none,
        None,
    )
    .unwrap();
    assert_eq!(file.spec.path.as_deref(), Some("tool.rbxm"));
    let folder = parse_plugin_ref(
        "/work/project",
        SourceFound::Path { canonical_path: "/work/project".to_string(), metadata: package("pkg", None) },
        &none,
        None,
    )
    .unwrap();
    assert_eq!(folder.spec.path.as_deref(), Some(""));
}
