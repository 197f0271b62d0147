//! An installation run over several plugins.  For each plugin the caller
//! resolves the source, caches the artifact and copies it into the plugins
//! directory; between those steps the run reports progress, and after them it
//! records the plugin in the lockfile and in its summary.
use vstd::prelude::*;
use crate::cache::CachedArtifact;
use crate::command::{OperationSession, build_locked_plugin, installed_summary, records_installation, upsert_locked_plugin, upserted};
use crate::config::{LockedPlugin, Lockfile, is_stable_sort_by_name};
use crate::error::{PyanpmError, error_code_spec, error_message};
use crate::operations::{ActivityRecord, ActivityStatus, InstallResult, InstalledPluginSummary, ProgressSeverity};
use crate::plugin::{ResolvedPlugin, source_kind_name};
use crate::text::{concat3, decimal_spec, opt_view, to_decimal};

verus! {

/// `new` is `old` with one more progress event of the given content; the rest
/// of the session is unchanged.
pub open spec fn one_more_event(old: OperationSession, new: OperationSession, plugin: Seq<char>, stage: Seq<char>, message: Seq<char>, current: Option<u32>, total: Option<u32>) -> bool {
    let e = new.progress@.last();
    &&& new.progress@.len() == old.progress@.len() + 1
    &&& new.progress@.subrange(0, old.progress@.len() as int) == old.progress@
    &&& e.command_id == old.command_id
    &&& e.state_path == old.state_path
    &&& opt_view(e.plugin_name) == Some(plugin)
    &&& e.stage@ == stage
    &&& e.message@ == message
    &&& e.current == current
    &&& e.total == total
    &&& e.severity == ProgressSeverity::Info
    &&& new.command_id == old.command_id
    &&& new.state_path == old.state_path
    &&& new.command_name == old.command_name
    &&& new.command_args_summary == old.command_args_summary
    &&& new.started_at == old.started_at
    &&& new.plugin_names == old.plugin_names
    &&& new.persist_activity == old.persist_activity
}

/// An installation in progress: the session reporting it, the lockfile being
/// updated, the plugins installed so far and how many are to be installed.
/// `from_lock` tells a reinstall from lock entries from an install from
/// manifest entries.
#[derive(Debug)]
pub struct InstallRun {
    pub session: OperationSession,
    pub lockfile: Lockfile,
    pub installed: Vec<InstalledPluginSummary>,
    pub total: usize,
    pub from_lock: bool,
}

impl InstallRun {
    /// Starts a run of `total` plugins over `lockfile`.
    pub fn new(session: OperationSession, lockfile: Lockfile, total: usize, from_lock: bool) -> (r: Self)
        ensures
            r.session == session,
            r.lockfile == lockfile,
            r.installed@.len() == 0,
            r.total == total,
            r.from_lock == from_lock,
    {
        InstallRun { session, lockfile, installed: Vec::new(), total, from_lock }
    }

    /// Reports that the `index`-th plugin (counting from 0), `name`, is being
    /// resolved.
    pub fn start_plugin(&mut self, index: usize, name: &str)
        requires
            index < old(self).total,
        ensures
            one_more_event(old(self).session, final(self).session, name@, "resolve"@,
                if old(self).from_lock { "Resolving plugin from lockfile source."@ } else { "Resolving plugin source."@ },
                Some((index + 1) as u32), Some(old(self).total as u32)),
            final(self).lockfile == old(self).lockfile,
            final(self).installed == old(self).installed,
            final(self).total == old(self).total,
            final(self).from_lock == old(self).from_lock,
    {
        let current = (index + 1) as u32;
        let total = self.total as u32;
        let message = if self.from_lock { "Resolving plugin from lockfile source." } else { "Resolving plugin source." };
        self.session.emit(Some(name), "resolve", message, Some(current), Some(total), ProgressSeverity::Info);
    }

    /// Reports that `name` was resolved and its artifact is being cached;
    /// from manifest entries the checksum step is reported first.
    pub fn source_resolved(&mut self, name: &str)
        ensures
            old(self).from_lock ==> one_more_event(old(self).session, final(self).session, name@, "fetch"@, "Caching resolved artifact."@, None, None),
            !old(self).from_lock ==> exists|mid: OperationSession|
                one_more_event(old(self).session, mid, name@, "checksum"@, "Computing artifact checksum."@, None, None)
                && one_more_event(mid, final(self).session, name@, "fetch"@, "Caching artifact."@, None, None),
            final(self).lockfile == old(self).lockfile,
            final(self).installed == old(self).installed,
            final(self).total == old(self).total,
            final(self).from_lock == old(self).from_lock,
    {
        if self.from_lock {
            self.session.emit(Some(name), "fetch", "Caching resolved artifact.", None, None, ProgressSeverity::Info);
        } else {
            let ghost before = self.session;
            self.session.emit(Some(name), "checksum", "Computing artifact checksum.", None, None, ProgressSeverity::Info);
            let ghost mid = self.session;
            self.session.emit(Some(name), "fetch", "Caching artifact.", None, None, ProgressSeverity::Info);
            assert(one_more_event(before, mid, name@, "checksum"@, "Computing artifact checksum."@, None, None));
        }
    }

    /// Reports that the artifact of `name` is cached and being installed.
    pub fn artifact_cached(&mut self, name: &str)
        ensures
            one_more_event(old(self).session, final(self).session, name@, "install"@, "Installing cached artifact."@, None, None),
            final(self).lockfile == old(self).lockfile,
            final(self).installed == old(self).installed,
            final(self).total == old(self).total,
            final(self).from_lock == old(self).from_lock,
    {
        self.session.emit(Some(name), "install", "Installing cached artifact.", None, None, ProgressSeverity::Info);
    }

    /// Records the plugin installed at `target_path` from `resolved` and its
    /// cached artifact: its lock entry replaces the first one of its name (or
    /// is added), and its summary is appended.
    pub fn plugin_installed(&mut self, resolved: &ResolvedPlugin, cached: &CachedArtifact, target_path: &str, installed_at: i64)
        ensures
            exists|l: LockedPlugin| records_installation(l, *resolved, *cached, target_path@, installed_at)
                && final(self).lockfile.plugins@ == upserted(old(self).lockfile.plugins@, l),
            final(self).lockfile.version == old(self).lockfile.version,
            final(self).lockfile.generated_at == old(self).lockfile.generated_at,
            final(self).installed@.len() == old(self).installed@.len() + 1,
            final(self).installed@.subrange(0, old(self).installed@.len() as int) == old(self).installed@,
            final(self).installed@.last().name == resolved.name,
            final(self).installed@.last().source@ == source_kind_name(resolved.source),
            final(self).installed@.last().checksum == cached.checksum,
            final(self).installed@.last().target_path@ == target_path@,
            final(self).session == old(self).session,
            final(self).total == old(self).total,
            final(self).from_lock == old(self).from_lock,
    {
        let plugin = build_locked_plugin(resolved, cached, target_path, installed_at);
        let ghost gp = plugin;
        upsert_locked_plugin(&mut self.lockfile, plugin);
        let summary = installed_summary(resolved, cached, target_path);
        let ghost before = self.installed@;
        self.installed.push(summary);
        assert(self.installed@.subrange(0, before.len() as int) =~= before);
    }

    /// Orders the lockfile's entries by name (stably) and stamps it with
    /// `saved_at`, ready to be written.
    pub fn seal_lockfile(&mut self, saved_at: i64)
        ensures
            is_stable_sort_by_name(old(self).lockfile.plugins@, final(self).lockfile.plugins@),
            final(self).lockfile.generated_at == Some(saved_at),
            final(self).lockfile.version == old(self).lockfile.version,
            final(self).session == old(self).session,
            final(self).installed == old(self).installed,
            final(self).total == old(self).total,
            final(self).from_lock == old(self).from_lock,
    {
        self.lockfile.prepare_save(saved_at);
    }

    /// Ends the run: its answer, with the lockfile and plugins directory it
    /// wrote to.
    pub fn finish(self, lockfile_path: String, plugins_dir: String) -> (r: (InstallResult, Option<ActivityRecord>))
        ensures
            r.0.installed == self.installed,
            r.0.lockfile_path == lockfile_path,
            r.0.plugins_dir == plugins_dir,
            r.0.progress == self.session.progress,
            r.0.meta.command_id == self.session.command_id,
            r.0.completion.summary@ == "Installed "@ + decimal_spec(self.installed@.len() as nat) + " plugin(s)."@,
            r.0.completion.affected_plugin_count == self.installed@.len(),
            r.0.completion.warning_count == 0 && r.0.completion.error_count == 0,
            self.session.persist_activity <==> r.1 is Some,
            crate::command::ends_run(self.session, r.0.meta, r.1, r.0.completion.summary@, 0),
    {
        let InstallRun { session, installed, .. } = self;
        let count = to_decimal(installed.len());
        let done = session.success(concat3("Installed ", count.as_str(), " plugin(s)."), installed.len(), 0, 0);
        let OperationSession { progress, .. } = session;
        (InstallResult { meta: done.meta, installed, lockfile_path, plugins_dir, progress, completion: done.completion }, done.record)
    }

    /// Ends the run with an error: the activity record of the failure, at the
    /// install stage, when the run keeps history.
    pub fn fail(self, error: &PyanpmError) -> (r: Option<ActivityRecord>)
        ensures
            self.session.persist_activity <==> r is Some,
            r matches Some(rec) ==> {
                &&& rec.command_id == self.session.command_id
                &&& rec.command_name == self.session.command_name
                &&& rec.status == ActivityStatus::Failed
                &&& rec.plugin_names@ == self.session.plugin_names@
                &&& rec.summary@ == error_message(*error)
                &&& opt_view(rec.error_code) == Some(error_code_spec(*error))
                &&& opt_view(rec.error_stage) == Some("install"@)
            },
    {
        self.session.failure(error, Some("install"))
    }
}

} // verus!
