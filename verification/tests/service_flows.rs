use pyanpm::cache::CachedArtifact;
use pyanpm::command::{
    build_locked_plugin, failure_stage, find_locked, flag_summary, format_source_args, managed_names,
    missing_manifest_message, remove_args_summary, update_args_summary, upsert_locked_plugin, value_summary,
    OperationSession, PyanpmService,
};
use pyanpm::config::{GitRefKind, GitSourceOptions, LockedPlugin, Lockfile, Manifest, ManifestPluginSpec};
use pyanpm::diff::{
    diff_result, is_managed_target, managed_snapshots, observation_plan, plugin_snapshot, unmanaged_snapshot, PluginObservation,
};
use pyanpm::error::PyanpmError;
use pyanpm::installation::InstallRun;
use pyanpm::operations::{ActivityStatus, InstalledPluginSummary, PluginStateKind, ProgressSeverity};
use pyanpm::plugin::{ArtifactKind, PluginSourceKind, ResolvedPlugin};
use pyanpm::source::{validate_source_ref, ParsedPluginRef};
use pyanpm::update::{changed_names, update_candidate, update_result};

fn file_spec(path: &str, version: Option<&str>) -> ManifestPluginSpec {
    ManifestPluginSpec {
        source: PluginSourceKind::File,
        path: Some(path.to_string()),
        url: None,
        version: version.map(|v| v.to_string()),
        git_ref_kind: None,
        git_ref: None,
        subdir: None,
    }
}

fn locked(name: &str, checksum: &str, version: Option<&str>) -> LockedPlugin {
    LockedPlugin {
        name: name.to_string(),
        requested_version: None,
        resolved_version: version.map(|v| v.to_string()),
        source: PluginSourceKind::File,
        source_path: format!("C:/src/{name}.rbxm"),
        source_url: None,
        source_subdir: None,
        git_ref_kind: None,
        git_requested_ref: None,
        git_resolved_commit: None,
        checksum: checksum.to_string(),
        artifact_kind: ArtifactKind::File,
        target_path: format!("C:/Plugins/{name}.rbxm"),
        installed_at: 10,
    }
}

fn resolved(name: &str, checksum: &str, version: Option<&str>) -> ResolvedPlugin {
    ResolvedPlugin {
        name: name.to_string(),
        requested_version: None,
        resolved_version: version.map(|v| v.to_string()),
        source: PluginSourceKind::File,
        source_path: format!("C:/src/{name}.rbxm"),
        source_url: None,
        source_subdir: None,
        git_ref_kind: None,
        git_requested_ref: None,
        git_resolved_commit: None,
        artifact_path: format!("C:/src/{name}.rbxm"),
        artifact_kind: ArtifactKind::File,
        checksum: checksum.to_string(),
        install_name: format!("{name}.rbxm"),
    }
}

fn lockfile(plugins: Vec<LockedPlugin>) -> Lockfile {
    Lockfile { version: 1, generated_at: None, plugins }
}

fn session(persist: bool) -> OperationSession {
    OperationSession::new("C:/state".to_string(), "install", "args".to_string(), vec!["a".to_string()], persist)
}

#[test]
fn session_records_success_and_failure() {
    let mut s = session(true);
    assert_eq!(s.command_id.len(), 36);
    assert_eq!(s.command_id.chars().filter(|c| *c == '-').count(), 4);
    s.emit(Some("a"), "resolve", "Resolving.", Some(1), Some(2), ProgressSeverity::Info);
    assert_eq!(s.progress.len(), 1);
    assert_eq!(s.progress[0].plugin_name.as_deref(), Some("a"));
    assert_eq!(s.progress[0].stage, "resolve");
    assert_eq!(s.progress[0].current, Some(1));
    let done = s.success("Installed 1 plugin(s).".to_string(), 1, 0, 2);
    let record = done.record.expect("kept history");
    assert_eq!(record.status, ActivityStatus::Partial);
    assert_eq!(done.meta.activity_id, Some(record.id.clone()));
    assert_eq!(done.completion.error_count, 2);
    let failed = s.failure(&PyanpmError::UnknownPlugin("x".to_string()), Some("install")).expect("kept history");
    assert_eq!(failed.status, ActivityStatus::Failed);
    assert_eq!(failed.error_code.as_deref(), Some("unknown_plugin"));
    assert_eq!(failed.error_message.as_deref(), Some("unknown plugin `x`"));
    assert_eq!(failed.error_stage.as_deref(), Some("install"));
    let quiet = session(false);
    assert!(quiet.success("x".to_string(), 0, 0, 0).record.is_none());
    assert!(quiet.failure(&PyanpmError::MissingGitExecutable, None).is_none());
}

#[test]
fn argument_summaries() {
    assert_eq!(flag_summary("force", true), "force=true");
    assert_eq!(value_summary("cache_id", "abc"), "cache_id=abc");
    assert_eq!(remove_args_summary("tool", false), "plugin=tool, keep_manifest=false");
    assert_eq!(update_args_summary(Some("tool"), false, true), "plugin=Some(\"tool\"), all=false, dry_run=true");
    assert_eq!(update_args_summary(Some("a\"b"), true, false), "plugin=Some(\"a\\\"b\"), all=true, dry_run=false");
    assert_eq!(update_args_summary(None, true, false), "plugin=None, all=true, dry_run=false");
    let git = GitSourceOptions { git_ref_kind: Some(GitRefKind::Tag), git_ref: Some("v1".to_string()), git_subdir: Some("  ".to_string()) };
    assert_eq!(format_source_args("git:https://x/y", &git), "source=git:https://x/y, git_ref_kind=tag, git_ref=v1");
    assert_eq!(missing_manifest_message("C:/state"), "No global pyanpm.toml found in C:/state. Run `pyanpm init` first.");
    assert_eq!(failure_stage("remove"), Some("cleanup"));
    assert_eq!(failure_stage("cache-prune"), Some("cache"));
    assert_eq!(failure_stage("reinstall"), Some("install"));
    assert_eq!(failure_stage("list"), None);
}

#[test]
fn init_refuses_existing_manifest() {
    let service = PyanpmService::new("C:\\state".to_string(), None);
    assert_eq!(service.init(false, true), Err(PyanpmError::ManifestExists("C:\\state\\pyanpm.toml".to_string())));
    assert_eq!(service.init(true, true), Ok("C:\\state\\pyanpm.toml".to_string()));
    assert_eq!(service.init(false, false), Ok("C:\\state\\pyanpm.toml".to_string()));
}

#[test]
fn add_refuses_duplicate_names() {
    let service = PyanpmService::new("C:/state".to_string(), None);
    let mut manifest = Manifest::new();
    let first = ParsedPluginRef { name: "tool".to_string(), spec: file_spec("tool.rbxm", None) };
    assert_eq!(service.add(&mut manifest, first), Ok("tool".to_string()));
    assert!(manifest.contains_key("tool"));
    let again = ParsedPluginRef { name: "tool".to_string(), spec: file_spec("other.rbxm", None) };
    assert_eq!(service.add(&mut manifest, again), Err(PyanpmError::PluginAlreadyExists("tool".to_string())));
    assert_eq!(manifest.get("tool").unwrap().path.as_deref(), Some("tool.rbxm"));
}

#[test]
fn remove_drops_lock_and_manifest_entries() {
    let service = PyanpmService::new("C:/state".to_string(), None);
    let mut manifest = Manifest::new();
    manifest.insert("a".to_string(), file_spec("a.rbxm", None));
    manifest.insert("b".to_string(), file_spec("b.rbxm", None));
    let mut lock = lockfile(vec![locked("a", "c1", None), locked("b", "c2", None)]);
    let removed = service.remove(&mut manifest, &mut lock, "a", false).expect("was locked");
    assert_eq!(removed.checksum, "c1");
    assert_eq!(lock.plugins.len(), 1);
    assert_eq!(lock.plugins[0].name, "b");
    assert!(!manifest.contains_key("a"));
    assert!(manifest.contains_key("b"));
    let kept = service.remove(&mut manifest, &mut lock, "b", true);
    assert!(kept.is_some());
    assert!(manifest.contains_key("b"));
    assert!(service.remove(&mut manifest, &mut lock, "zzz", false).is_none());
}

#[test]
fn upsert_replaces_first_entry_or_appends() {
    let mut lock = lockfile(vec![locked("a", "c1", None), locked("b", "c2", None)]);
    upsert_locked_plugin(&mut lock, locked("b", "c3", None));
    assert_eq!(lock.plugins.len(), 2);
    assert_eq!(lock.plugins[1].checksum, "c3");
    upsert_locked_plugin(&mut lock, locked("c", "c4", None));
    assert_eq!(lock.plugins.len(), 3);
    assert_eq!(find_locked(&lock, "c"), Some(2));
    assert_eq!(find_locked(&lock, "nope"), None);
}

#[test]
fn managed_names_are_sorted_and_unique() {
    let mut manifest = Manifest::new();
    manifest.insert("zeta".to_string(), file_spec("z.rbxm", None));
    manifest.insert("alpha".to_string(), file_spec("a.rbxm", None));
    let lock = lockfile(vec![locked("mid", "c", None), locked("alpha", "c", None)]);
    assert_eq!(managed_names(&manifest, &lock), vec!["alpha", "mid", "zeta"]);
}

#[test]
fn update_candidates_compare_checksum_and_version() {
    let lock = lockfile(vec![locked("a", "c1", Some("1.0.0"))]);
    let same = update_candidate("a", &resolved("a", "c1", Some("1.0.0")), &lock);
    assert!(!same.will_change);
    assert_eq!(same.reason, "already up to date");
    let newer = update_candidate("a", &resolved("a", "c1", Some("1.1.0")), &lock);
    assert!(newer.will_change);
    assert_eq!(newer.current_version.as_deref(), Some("1.0.0"));
    assert_eq!(newer.reason, "source content or resolved version changed");
    let fresh = update_candidate("b", &resolved("b", "c9", None), &lock);
    assert!(fresh.will_change);
    assert_eq!(fresh.current_checksum, None);
    let candidates = vec![same, newer, fresh];
    assert_eq!(changed_names(&candidates), vec!["a", "b"]);
    let (dry, record) = update_result(session(true), candidates, true, Vec::new());
    assert!(dry.dry_run);
    assert_eq!(dry.completion.summary, "Computed 3 update candidate(s).");
    assert_eq!(dry.completion.affected_plugin_count, 2);
    assert!(record.is_some());
    let (none, _) = update_result(session(false), vec![update_candidate("a", &resolved("a", "c1", Some("1.0.0")), &lock)], false, Vec::new());
    assert_eq!(none.completion.summary, "No updates were needed.");
}

#[test]
fn installed_plugin_is_then_up_to_date() {
    let mut lock = lockfile(vec![locked("a", "old", Some("1.0.0"))]);
    let r = resolved("a", "new", Some("2.0.0"));
    let cached = CachedArtifact { checksum: "new".to_string(), artifact_kind: ArtifactKind::File, stored_path: "C:/cache/new/a.rbxm".to_string() };
    upsert_locked_plugin(&mut lock, build_locked_plugin(&r, &cached, "C:/Plugins/a.rbxm", 99));
    let candidate = update_candidate("a", &r, &lock);
    assert!(!candidate.will_change);
    assert_eq!(lock.plugins[0].installed_at, 99);
}

#[test]
fn install_run_reports_and_records() {
    let mut run = InstallRun::new(session(true), lockfile(vec![locked("b", "x", None)]), 1, false);
    run.start_plugin(0, "a");
    run.source_resolved("a");
    run.artifact_cached("a");
    let stages: Vec<&str> = run.session.progress.iter().map(|e| e.stage.as_str()).collect();
    assert_eq!(stages, vec!["resolve", "checksum", "fetch", "install"]);
    assert_eq!(run.session.progress[0].message, "Resolving plugin source.");
    assert_eq!(run.session.progress[0].current, Some(1));
    assert_eq!(run.session.progress[0].total, Some(1));
    let r = resolved("a", "sum", None);
    let cached = CachedArtifact { checksum: "sum".to_string(), artifact_kind: ArtifactKind::File, stored_path: "C:/cache/sum/a.rbxm".to_string() };
    run.plugin_installed(&r, &cached, "C:/Plugins/a.rbxm", 5);
    run.seal_lockfile(77);
    let lock = Lockfile { version: run.lockfile.version, generated_at: run.lockfile.generated_at, plugins: run.lockfile.plugins.iter().map(|p| p.duplicate()).collect() };
    let (result, record) = run.finish("C:/state/pyanpm.lock".to_string(), "C:/Plugins".to_string());
    assert_eq!(result.installed.len(), 1);
    assert_eq!(result.installed[0].source, "file");
    assert_eq!(result.completion.summary, "Installed 1 plugin(s).");
    assert!(record.is_some());
    assert_eq!(lock.generated_at, Some(77));
    let names: Vec<&str> = lock.plugins.iter().map(|p| p.name.as_str()).collect();
    assert_eq!(names, vec!["a", "b"]);

    let mut relock = InstallRun::new(session(false), lockfile(Vec::new()), 1, true);
    relock.start_plugin(0, "a");
    relock.source_resolved("a");
    assert_eq!(relock.session.progress[0].message, "Resolving plugin from lockfile source.");
    assert_eq!(relock.session.progress[1].message, "Caching resolved artifact.");
    assert!(relock.fail(&PyanpmError::MissingGitExecutable).is_none());
}

#[test]
fn diff_classifies_plugin_states() {
    let spec = file_spec("a.rbxm", Some("1.0.0"));
    let lock_entry = locked("a", "sum", None);
    let obs = |resolved: Option<&str>, installed: Option<&str>| PluginObservation {
        resolved_checksum: resolved.map(|s| s.to_string()),
        installed_checksum: installed.map(|s| s.to_string()),
        last_activity_id: None,
    };
    let only_manifest = plugin_snapshot("a", Some(&spec), None, obs(None, Some("ignored"))).unwrap();
    assert_eq!(only_manifest.state, PluginStateKind::ManifestOnly);
    assert_eq!(only_manifest.recommended_action, "install");
    assert_eq!(only_manifest.manifest_source.as_deref(), Some("file:a.rbxm"));
    assert_eq!(only_manifest.installed_checksum, None);
    let only_lock = plugin_snapshot("a", None, Some(&lock_entry), obs(None, Some("sum"))).unwrap();
    assert_eq!(only_lock.state, PluginStateKind::LockOnly);
    assert_eq!(only_lock.recommended_action, "remove-stale-lock-entry");
    let unreadable = plugin_snapshot("a", Some(&spec), Some(&lock_entry), obs(None, Some("sum"))).unwrap();
    assert_eq!(unreadable.state, PluginStateKind::SourceUnreadable);
    let missing = plugin_snapshot("a", Some(&spec), Some(&lock_entry), obs(Some("sum"), None)).unwrap();
    assert_eq!(missing.state, PluginStateKind::MissingInstall);
    let drift = plugin_snapshot("a", Some(&spec), Some(&lock_entry), obs(Some("sum"), Some("edited"))).unwrap();
    assert_eq!(drift.state, PluginStateKind::ChecksumDrift);
    assert_eq!(drift.recommended_action, "reinstall");
    let stale = plugin_snapshot("a", Some(&spec), Some(&lock_entry), obs(Some("newer"), Some("sum"))).unwrap();
    assert_eq!(stale.state, PluginStateKind::StaleInstall);
    assert_eq!(stale.recommended_action, "update");
    let synced = plugin_snapshot("a", Some(&spec), Some(&lock_entry), obs(Some("sum"), Some("sum"))).unwrap();
    assert_eq!(synced.state, PluginStateKind::Synced);
    assert_eq!(synced.recommended_action, "none");
    assert!(plugin_snapshot("a", None, None, obs(None, None)).is_none());
}

#[test]
fn diff_lists_managed_and_unmanaged_plugins_by_name() {
    let mut manifest = Manifest::new();
    manifest.insert("b".to_string(), file_spec("b.rbxm", None));
    let lock = lockfile(vec![locked("a", "sum", None)]);
    let names = managed_names(&manifest, &lock);
    let observations = names
        .iter()
        .map(|_| PluginObservation { resolved_checksum: None, installed_checksum: Some("sum".to_string()), last_activity_id: Some("act".to_string()) })
        .collect();
    let mut snapshots = managed_snapshots(&manifest, &lock, &names, observations);
    assert_eq!(snapshots.len(), 2);
    assert_eq!(snapshots[0].state, PluginStateKind::LockOnly);
    assert_eq!(snapshots[1].state, PluginStateKind::ManifestOnly);
    assert_eq!(snapshots[1].last_activity_id.as_deref(), Some("act"));
    let managed = vec!["C:\\Plugins\\a.rbxm".to_string()];
    assert!(is_managed_target(&managed, "C:\\Plugins\\a.rbxm"));
    assert!(!is_managed_target(&managed, "C:\\Plugins\\Aaa.rbxm"));
    let stray = unmanaged_snapshot("C:\\Plugins\\Aaa.rbxm".to_string(), Some("x".to_string()));
    assert_eq!(stray.plugin_name, "Aaa");
    assert_eq!(stray.state, PluginStateKind::UnmanagedInstalledPlugin);
    assert_eq!(stray.recommended_action, "leave-unmanaged");
    snapshots.insert(0, stray);
    let result = diff_result(&session(false), snapshots);
    let ordered: Vec<&str> = result.snapshots.iter().map(|s| s.plugin_name.as_str()).collect();
    assert_eq!(ordered, vec!["Aaa", "a", "b"]);
}

#[test]
fn diff_observes_sources_only_of_tracked_plugins() {
    let mut manifest = Manifest::new();
    manifest.insert("a".to_string(), file_spec("a.rbxm", None));
    manifest.insert("b".to_string(), file_spec("b.rbxm", None));
    let lock = lockfile(vec![locked("a", "sum", None), locked("c", "sum", None)]);
    let both = observation_plan(&manifest, &lock, "a");
    assert!(both.resolve_source);
    assert_eq!(both.installed_target.as_deref(), Some("C:/Plugins/a.rbxm"));
    let manifest_only = observation_plan(&manifest, &lock, "b");
    assert!(!manifest_only.resolve_source);
    assert_eq!(manifest_only.installed_target, None);
    let lock_only = observation_plan(&manifest, &lock, "c");
    assert!(!lock_only.resolve_source);
    assert_eq!(lock_only.installed_target.as_deref(), Some("C:/Plugins/c.rbxm"));
}

#[test]
fn source_validation_with_errors_records_a_partial_run() {
    let service = PyanpmService::new("C:/state".to_string(), None);
    let validation = validate_source_ref("ftp:x", Some(Err(PyanpmError::InvalidPluginRef("ftp:x".to_string()))));
    assert_eq!(validation.errors.len(), 1);
    let (done, record) = service.validate_source(&session(true), validation);
    assert!(!done.valid);
    let record = record.expect("kept history");
    assert_eq!(record.status, ActivityStatus::Partial);
    assert_eq!(record.summary, "Source validation reported errors.");
    assert_eq!(done.meta.activity_id, Some(record.id.clone()));
    let passed = validate_source_ref("  ", None);
    let (_, none_kept) = service.validate_source(&session(false), passed);
    assert!(none_kept.is_none());
}

#[test]
fn update_reports_the_changed_plugins_it_installed() {
    let lock = lockfile(vec![locked("a", "c1", Some("1.0.0"))]);
    let candidates = vec![
        update_candidate("a", &resolved("a", "c1", Some("1.0.0")), &lock),
        update_candidate("b", &resolved("b", "c9", None), &lock),
    ];
    let updated = vec![InstalledPluginSummary {
        name: "b".to_string(),
        source: "file".to_string(),
        checksum: "c9".to_string(),
        target_path: "C:/Plugins/b.rbxm".to_string(),
    }];
    let (done, record) = update_result(session(true), candidates, false, updated);
    assert_eq!(done.updated.len(), 1);
    assert_eq!(done.updated[0].name, "b");
    assert_eq!(done.completion.summary, "Updated 1 plugin(s).");
    assert_eq!(record.expect("kept history").status, ActivityStatus::Success);
}
