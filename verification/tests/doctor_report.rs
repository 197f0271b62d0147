use pyanpm::audit::{has_git_sources, run_doctor, should_resolve, DoctorFacts, FindingLevel, PluginsDirCheck};
use pyanpm::config::{LockedPlugin, Lockfile, Manifest, ManifestPluginSpec};
use pyanpm::error::PyanpmError;
use pyanpm::plugin::{ArtifactKind, PluginSourceKind, ResolvedPlugin};

fn spec(source: PluginSourceKind, path: Option<&str>, url: Option<&str>) -> ManifestPluginSpec {
    ManifestPluginSpec {
        source,
        path: path.map(|s| s.to_string()),
        url: url.map(|s| s.to_string()),
        version: None,
        git_ref_kind: None,
        git_ref: None,
        subdir: None,
    }
}

fn locked(name: &str, source: PluginSourceKind) -> LockedPlugin {
    LockedPlugin {
        name: name.to_string(),
        requested_version: None,
        resolved_version: None,
        source,
        source_path: format!("C:/src/{name}"),
        source_url: None,
        source_subdir: None,
        git_ref_kind: None,
        git_requested_ref: None,
        git_resolved_commit: None,
        checksum: "sum".to_string(),
        artifact_kind: ArtifactKind::File,
        target_path: format!("C:/Plugins/{name}.rbxm"),
        installed_at: 0,
    }
}

fn resolved(name: &str, install_name: &str) -> ResolvedPlugin {
    ResolvedPlugin {
        name: name.to_string(),
        requested_version: None,
        resolved_version: None,
        source: PluginSourceKind::File,
        source_path: format!("C:/src/{name}.rbxm"),
        source_url: None,
        source_subdir: None,
        git_ref_kind: None,
        git_requested_ref: None,
        git_resolved_commit: None,
        artifact_path: format!("C:/src/{name}.rbxm"),
        artifact_kind: ArtifactKind::File,
        checksum: "sum".to_string(),
        install_name: install_name.to_string(),
    }
}

fn codes(facts: &DoctorFacts) -> (bool, Vec<(FindingLevel, String)>) {
    let report = run_doctor(facts);
    (report.healthy, report.findings.into_iter().map(|f| (f.level, f.code)).collect())
}

#[test]
fn doctor_reports_healthy_install_facts() {
    let mut manifest = Manifest::new();
    manifest.insert("tool".to_string(), spec(PluginSourceKind::File, Some("tool.rbxm"), None));
    let lockfile = Lockfile { version: 1, generated_at: Some(1), plugins: vec![locked("tool", PluginSourceKind::File)] };
    let manifest = Ok(manifest);
    let lockfile = Ok(Some(lockfile));
    assert!(!has_git_sources(&manifest, &lockfile));
    let facts = DoctorFacts {
        manifest,
        lockfile,
        git: None,
        cache_root: Ok("C:/cache".to_string()),
        plugins_dir: Ok(PluginsDirCheck { dir: "C:/Plugins".to_string(), write_probe: None, installed: vec![Some("sum".to_string())] }),
        sources: vec![Some(Ok(resolved("tool", "tool.rbxm")))],
    };
    let (healthy, found) = codes(&facts);
    assert!(healthy);
    assert_eq!(
        found,
        vec![
            (FindingLevel::Pass, "manifest".to_string()),
            (FindingLevel::Pass, "lockfile".to_string()),
            (FindingLevel::Pass, "cache.access".to_string()),
            (FindingLevel::Pass, "plugins_dir.access".to_string()),
            (FindingLevel::Pass, "plugin.tool.checksum".to_string()),
        ]
    );
    let report = run_doctor(&facts);
    assert_eq!(report.findings[2].message, "Cache directory is accessible at C:/cache.");
}

#[test]
fn doctor_reports_problems() {
    let mut manifest = Manifest::new();
    manifest.insert("a".to_string(), spec(PluginSourceKind::File, Some("a.rbxm"), None));
    manifest.insert("b".to_string(), spec(PluginSourceKind::File, Some("b.rbxm"), None));
    manifest.insert("repo".to_string(), spec(PluginSourceKind::Git, None, Some("https://x/y.git")));
    let lockfile = Lockfile {
        version: 1,
        generated_at: None,
        plugins: vec![locked("a", PluginSourceKind::File), locked("old", PluginSourceKind::Git), locked("a", PluginSourceKind::File)],
    };
    let manifest = Ok(manifest);
    let lockfile = Ok(Some(lockfile));
    assert!(has_git_sources(&manifest, &lockfile));
    assert!(!should_resolve(&spec(PluginSourceKind::Git, None, Some("u")), false));
    let facts = DoctorFacts {
        manifest,
        lockfile,
        git: Some(Err(PyanpmError::MissingGitExecutable)),
        cache_root: Err(PyanpmError::MissingDefaultCacheDir),
        plugins_dir: Ok(PluginsDirCheck {
            dir: "C:/Plugins".to_string(),
            write_probe: Some(Err("denied".to_string())),
            installed: vec![Some("drifted".to_string()), None, Some("sum".to_string())],
        }),
        sources: vec![Some(Ok(resolved("a", "same.rbxm"))), Some(Ok(resolved("b", "same.rbxm"))), None],
    };
    let (healthy, found) = codes(&facts);
    assert!(!healthy);
    let found: Vec<String> = found.into_iter().map(|(_, code)| code).collect();
    assert_eq!(
        found,
        vec![
            "manifest",
            "lockfile",
            "lockfile.duplicate.a",
            "git.access",
            "cache.access",
            "plugins_dir.access",
            "plugins_dir.write_probe",
            "plugin.a.checksum",
            "lockfile.git.old.source_url",
            "lockfile.git.old.resolved_commit",
            "plugin.old.missing",
            "plugin.a.checksum",
            "lockfile.missing.b",
            "lockfile.missing.repo",
            "lockfile.stale.old",
            "targets.duplicate.same.rbxm",
            "source.git.repo.git_missing",
        ]
    );
}
