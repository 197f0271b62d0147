//! The `diff` view: how each plugin's manifest entry, lock entry and
//! installed files relate, and what to do about it.
use vstd::prelude::*;
use crate::command::{OperationSession, first_locked, find_locked, lemma_first_locked};
use crate::config::{LockedPlugin, Lockfile, Manifest, ManifestPluginSpec, lookup, locked_names};
use crate::operations::{DiffResult, PluginStateKind, PluginStateSnapshot};
use crate::order::{is_stable_order, stable_order, views, lemma_views_push};
use crate::paths::{file_stem, file_stem_spec};
use crate::source::{source_ref_from_spec, source_ref_spec};
use crate::text::{clone_opt, opt_view, str_eq};

verus! {

/// What was observed of one plugin outside the manifest and lockfile: the
/// checksum its manifest source resolves to (`None` when it could not be
/// resolved), the checksum of its installed target (`None` when nothing is
/// installed there) and the id of the latest activity that named it.
#[derive(Debug)]
pub struct PluginObservation {
    pub resolved_checksum: Option<String>,
    pub installed_checksum: Option<String>,
    pub last_activity_id: Option<String>,
}

/// State and recommended action of a plugin that is both in the manifest and
/// in the lockfile.
pub open spec fn tracked_state(locked: LockedPlugin, resolved: Option<Seq<char>>, installed: Option<Seq<char>>) -> (PluginStateKind, Seq<char>) {
    match resolved {
        None => (PluginStateKind::SourceUnreadable, "inspect-source"@),
        Some(c) => if installed is None {
            (PluginStateKind::MissingInstall, "install"@)
        } else if installed != Some(locked.checksum@) {
            (PluginStateKind::ChecksumDrift, "reinstall"@)
        } else if c != locked.checksum@ {
            (PluginStateKind::StaleInstall, "update"@)
        } else {
            (PluginStateKind::Synced, "none"@)
        },
    }
}

/// `s` is the snapshot of the plugin `name`, given its manifest entry, its
/// lock entry and what was observed of it.
pub open spec fn is_plugin_snapshot(name: Seq<char>, spec: Option<ManifestPluginSpec>, locked: Option<LockedPlugin>, obs: PluginObservation, s: PluginStateSnapshot) -> bool {
    &&& s.plugin_name@ == name
    &&& s.last_activity_id == obs.last_activity_id
    &&& match (spec, locked) {
        (Some(sp), None) => {
            &&& opt_view(s.manifest_source) == Some(source_ref_spec(sp))
            &&& s.manifest_version_constraint == sp.version
            &&& s.lock_version is None
            &&& s.lock_checksum is None
            &&& s.installed_path is None
            &&& s.installed_checksum is None
            &&& s.state == PluginStateKind::ManifestOnly
            &&& s.recommended_action@ == "install"@
        },
        (None, Some(l)) => {
            &&& s.manifest_source is None
            &&& s.manifest_version_constraint is None
            &&& s.lock_version == l.resolved_version
            &&& s.lock_checksum == Some(l.checksum)
            &&& s.installed_path == Some(l.target_path)
            &&& s.installed_checksum == obs.installed_checksum
            &&& s.state == PluginStateKind::LockOnly
            &&& s.recommended_action@ == "remove-stale-lock-entry"@
        },
        (Some(sp), Some(l)) => {
            let st = tracked_state(l, opt_view(obs.resolved_checksum), opt_view(obs.installed_checksum));
            &&& opt_view(s.manifest_source) == Some(source_ref_spec(sp))
            &&& s.manifest_version_constraint == sp.version
            &&& s.lock_version == l.resolved_version
            &&& s.lock_checksum == Some(l.checksum)
            &&& s.installed_path == Some(l.target_path)
            &&& s.installed_checksum == obs.installed_checksum
            &&& s.state == st.0
            &&& s.recommended_action@ == st.1
        },
        (None, None) => false,
    }
}

fn opt_eq(a: &Option<String>, b: &Option<String>) -> (r: bool)
    ensures
        r == (opt_view(*a) == opt_view(*b)),
{
    match (a, b) {
        (Some(x), Some(y)) => str_eq(x.as_str(), y.as_str()),
        (None, None) => true,
        _ => false,
    }
}

/// The snapshot of the plugin `name` from its manifest entry and lock entry,
/// or `None` when it has neither.
pub fn plugin_snapshot(name: &str, spec: Option<&ManifestPluginSpec>, locked: Option<&LockedPlugin>, obs: PluginObservation) -> (r: Option<PluginStateSnapshot>)
    ensures
        (spec is None && locked is None) <==> r is None,
        r matches Some(s) ==> is_plugin_snapshot(name@, match spec { Some(x) => Some(*x), None => None }, match locked { Some(x) => Some(*x), None => None }, obs, s),
        spec is Some && locked is Some && obs.resolved_checksum is None ==> (r matches Some(s)
            && s.state == PluginStateKind::SourceUnreadable && s.recommended_action@ == "inspect-source"@),
        spec is Some && locked is Some && obs.resolved_checksum is Some && obs.installed_checksum is None ==> (r matches Some(s)
            && s.state == PluginStateKind::MissingInstall && s.recommended_action@ == "install"@),
        spec is Some && locked is Some && obs.resolved_checksum is Some && obs.installed_checksum is Some
            && obs.installed_checksum->Some_0@ != locked->Some_0.checksum@ ==> (r matches Some(s)
            && s.state == PluginStateKind::ChecksumDrift && s.recommended_action@ == "reinstall"@),
        spec is Some && locked is Some && obs.resolved_checksum is Some && obs.installed_checksum is Some
            && obs.installed_checksum->Some_0@ == locked->Some_0.checksum@
            && obs.resolved_checksum->Some_0@ != locked->Some_0.checksum@ ==> (r matches Some(s)
            && s.state == PluginStateKind::StaleInstall && s.recommended_action@ == "update"@),
        spec is Some && locked is Some && obs.resolved_checksum is Some && obs.installed_checksum is Some
            && obs.installed_checksum->Some_0@ == locked->Some_0.checksum@
            && obs.resolved_checksum->Some_0@ == locked->Some_0.checksum@ ==> (r matches Some(s)
            && s.state == PluginStateKind::Synced && s.recommended_action@ == "none"@),
{
    let ghost gobs = obs;
    let PluginObservation { resolved_checksum, installed_checksum, last_activity_id } = obs;
    match (spec, locked) {
        (Some(sp), None) => Some(PluginStateSnapshot {
            plugin_name: String::from_str(name),
            manifest_source: Some(source_ref_from_spec(sp)),
            manifest_version_constraint: clone_opt(&sp.version),
            lock_version: None,
            lock_checksum: None,
            installed_path: None,
            installed_checksum: None,
            state: PluginStateKind::ManifestOnly,
            recommended_action: String::from_str("install"),
            last_activity_id,
        }),
        (None, Some(l)) => Some(PluginStateSnapshot {
            plugin_name: String::from_str(name),
            manifest_source: None,
            manifest_version_constraint: None,
            lock_version: clone_opt(&l.resolved_version),
            lock_checksum: Some(l.checksum.clone()),
            installed_path: Some(l.target_path.clone()),
            installed_checksum,
            state: PluginStateKind::LockOnly,
            recommended_action: String::from_str("remove-stale-lock-entry"),
            last_activity_id,
        }),
        (Some(sp), Some(l)) => {
            let locked_checksum = Some(l.checksum.clone());
            let (state, action) = match &resolved_checksum {
                None => (PluginStateKind::SourceUnreadable, "inspect-source"),
                Some(c) => if installed_checksum.is_none() {
                    (PluginStateKind::MissingInstall, "install")
                } else if !opt_eq(&installed_checksum, &locked_checksum) {
                    (PluginStateKind::ChecksumDrift, "reinstall")
                } else if !str_eq(c.as_str(), l.checksum.as_str()) {
                    (PluginStateKind::StaleInstall, "update")
                } else {
                    (PluginStateKind::Synced, "none")
                },
            };
            Some(PluginStateSnapshot {
                plugin_name: String::from_str(name),
                manifest_source: Some(source_ref_from_spec(sp)),
                manifest_version_constraint: clone_opt(&sp.version),
                lock_version: clone_opt(&l.resolved_version),
                lock_checksum: locked_checksum,
                installed_path: Some(l.target_path.clone()),
                installed_checksum,
                state,
                recommended_action: String::from_str(action),
                last_activity_id,
            })
        },
        (None, None) => None,
    }
}

/// The lock entry of `name` that `diff` consults: the first one of that name.
pub open spec fn locked_entry(ps: Seq<LockedPlugin>, name: Seq<char>) -> Option<LockedPlugin> {
    let i = first_locked(ps, name);
    if i >= 0 {
        Some(ps[i])
    } else {
        None
    }
}

/// What `diff` looks at for one managed plugin besides the manifest and the
/// lockfile: whether its manifest source is resolved, and the installed
/// target whose checksum is read.
#[derive(Debug)]
pub struct ObservationPlan {
    pub resolve_source: bool,
    pub installed_target: Option<String>,
}

/// The plan for the plugin `name`: its source is resolved only when it is in
/// both the manifest and the lockfile, and the target of its lock entry, when
/// it has one, is the one whose checksum is read.
pub fn observation_plan(manifest: &Manifest, lockfile: &Lockfile, name: &str) -> (r: ObservationPlan)
    ensures
        r.resolve_source == (lookup(manifest@, name@) is Some && locked_entry(lockfile.plugins@, name@) is Some),
        r.installed_target == match locked_entry(lockfile.plugins@, name@) {
            Some(l) => Some(l.target_path),
            None => None::<String>,
        },
{
    let spec = manifest.get(name);
    let li = find_locked(lockfile, name);
    match li {
        Some(k) => ObservationPlan { resolve_source: spec.is_some(), installed_target: Some(lockfile.plugins[k].target_path.clone()) },
        None => ObservationPlan { resolve_source: false, installed_target: None },
    }
}

/// The snapshots of the managed plugins `names`, one each, in the order of
/// `names`, with `observations[i]` what was observed of `names[i]`.
pub fn managed_snapshots(manifest: &Manifest, lockfile: &Lockfile, names: &Vec<String>, observations: Vec<PluginObservation>) -> (r: Vec<PluginStateSnapshot>)
    requires
        observations@.len() == names@.len(),
        forall|i: int| 0 <= i < names@.len() ==> lookup(manifest@, #[trigger] names@[i]@) is Some || locked_names(lockfile.plugins@).contains(names@[i]@),
    ensures
        r@.len() == names@.len(),
        forall|i: int| 0 <= i < names@.len() ==> is_plugin_snapshot(names@[i]@, lookup(manifest@, names@[i]@), locked_entry(lockfile.plugins@, names@[i]@), observations@[i], #[trigger] r@[i]),
{
    let ghost obs0 = observations@;
    let mut rest = observations;
    let mut out: Vec<PluginStateSnapshot> = Vec::new();
    let mut i: usize = 0;
    while i < names.len()
        invariant
            i <= names@.len(),
            obs0.len() == names@.len(),
            rest@.len() == names@.len() - i,
            rest@ == obs0.subrange(i as int, obs0.len() as int),
            forall|k: int| 0 <= k < names@.len() ==> lookup(manifest@, #[trigger] names@[k]@) is Some || locked_names(lockfile.plugins@).contains(names@[k]@),
            out@.len() == i,
            forall|k: int| 0 <= k < i ==> is_plugin_snapshot(names@[k]@, lookup(manifest@, names@[k]@), locked_entry(lockfile.plugins@, names@[k]@), obs0[k], #[trigger] out@[k]),
        decreases names.len() - i,
    {
        let name = names[i].as_str();
        let ob = rest.remove(0);
        assert(ob == obs0[i as int]);
        let spec = manifest.get(name);
        let li = find_locked(lockfile, name);
        proof {
            lemma_first_locked(lockfile.plugins@, name@);
            if spec is None && li is None {
                let lnames = locked_names(lockfile.plugins@);
                assert(lnames.contains(name@));
                let k = choose|k: int| 0 <= k < lnames.len() && lnames[k] == name@;
                assert(lockfile.plugins@[k].name@ == name@);
                assert(false);
            }
        }
        let locked = match li {
            Some(k) => Some(&lockfile.plugins[k]),
            None => None,
        };
        let s = plugin_snapshot(name, spec, locked, ob);
        out.push(s.unwrap());
        i = i + 1;
    }
    out
}

/// The snapshot of a file or directory in the plugins directory that no lock
/// entry installed.
pub fn unmanaged_snapshot(path: String, installed_checksum: Option<String>) -> (r: PluginStateSnapshot)
    ensures
        r.plugin_name@ == match file_stem_spec(path@) {
            Some(s) => s,
            None => "unknown"@,
        },
        r.manifest_source is None,
        r.manifest_version_constraint is None,
        r.lock_version is None,
        r.lock_checksum is None,
        r.installed_path == Some(path),
        r.installed_checksum == installed_checksum,
        r.state == PluginStateKind::UnmanagedInstalledPlugin,
        r.recommended_action@ == "leave-unmanaged"@,
        r.last_activity_id is None,
{
    let plugin_name = match file_stem(path.as_str()) {
        Some(s) => String::from_str(s),
        None => String::from_str("unknown"),
    };
    PluginStateSnapshot {
        plugin_name,
        manifest_source: None,
        manifest_version_constraint: None,
        lock_version: None,
        lock_checksum: None,
        installed_path: Some(path),
        installed_checksum,
        state: PluginStateKind::UnmanagedInstalledPlugin,
        recommended_action: String::from_str("leave-unmanaged"),
        last_activity_id: None,
    }
}

/// Whether `target` is one of the managed targets.
pub fn is_managed_target(managed_targets: &Vec<String>, target: &str) -> (r: bool)
    ensures
        r == views(managed_targets@).contains(target@),
{
    let mut i: usize = 0;
    while i < managed_targets.len()
        invariant
            i <= managed_targets@.len(),
            forall|k: int| 0 <= k < i ==> (#[trigger] managed_targets@[k])@ != target@,
        decreases managed_targets.len() - i,
    {
        if str_eq(managed_targets[i].as_str(), target) {
            assert(views(managed_targets@)[i as int] == target@);
            return true;
        }
        i = i + 1;
    }
    proof {
        if views(managed_targets@).contains(target@) {
            let k = choose|k: int| 0 <= k < views(managed_targets@).len() && views(managed_targets@)[k] == target@;
            assert(managed_targets@[k]@ == target@);
        }
    }
    false
}

impl PluginStateSnapshot {
    /// A copy of the snapshot.
    pub fn duplicate(&self) -> (r: Self)
        ensures
            r == *self,
    {
        PluginStateSnapshot {
            plugin_name: self.plugin_name.clone(),
            manifest_source: clone_opt(&self.manifest_source),
            manifest_version_constraint: clone_opt(&self.manifest_version_constraint),
            lock_version: clone_opt(&self.lock_version),
            lock_checksum: clone_opt(&self.lock_checksum),
            installed_path: clone_opt(&self.installed_path),
            installed_checksum: clone_opt(&self.installed_checksum),
            state: self.state,
            recommended_action: self.recommended_action.clone(),
            last_activity_id: clone_opt(&self.last_activity_id),
        }
    }
}

/// The names of snapshots.
pub open spec fn snapshot_names(s: Seq<PluginStateSnapshot>) -> Seq<Seq<char>> {
    s.map_values(|p: PluginStateSnapshot| p.plugin_name@)
}

/// `new` is `old` sorted by plugin name, snapshots of one name kept in their
/// order.
pub open spec fn is_sorted_by_plugin_name(old: Seq<PluginStateSnapshot>, new: Seq<PluginStateSnapshot>) -> bool {
    exists|p: Seq<usize>|
        is_stable_order(snapshot_names(old), p) && new.len() == p.len() && forall|i: int|
            0 <= i < p.len() ==> #[trigger] new[i] == old[p[i] as int]
}

/// The answer of `diff`: the snapshots ordered by plugin name.
pub fn diff_result(session: &OperationSession, snapshots: Vec<PluginStateSnapshot>) -> (r: DiffResult)
    ensures
        r.meta.command_id == session.command_id,
        r.meta.activity_id is None,
        is_sorted_by_plugin_name(snapshots@, r.snapshots@),
{
    let n = snapshots.len();
    let mut names: Vec<String> = Vec::new();
    let mut i: usize = 0;
    while i < n
        invariant
            n == snapshots@.len(),
            i <= n,
            views(names@) == snapshot_names(snapshots@).subrange(0, i as int),
        decreases n - i,
    {
        let nm = snapshots[i].plugin_name.clone();
        proof {
            lemma_views_push(names@, nm);
            assert(snapshot_names(snapshots@).subrange(0, i + 1) =~= snapshot_names(snapshots@).subrange(0, i as int).push(snapshots@[i as int].plugin_name@));
        }
        names.push(nm);
        i = i + 1;
    }
    assert(snapshot_names(snapshots@).subrange(0, n as int) =~= snapshot_names(snapshots@));
    let order = stable_order(&names);
    let mut sorted: Vec<PluginStateSnapshot> = Vec::new();
    let mut k: usize = 0;
    while k < n
        invariant
            n == snapshots@.len(),
            order@.len() == n,
            is_stable_order(snapshot_names(snapshots@), order@),
            k <= n,
            sorted@.len() == k,
            forall|j: int| 0 <= j < k ==> #[trigger] sorted@[j] == snapshots@[order@[j] as int],
        decreases n - k,
    {
        let idx = order[k];
        assert((order@[k as int] as int) < n);
        sorted.push(snapshots[idx].duplicate());
        k = k + 1;
    }
    DiffResult { meta: session.meta(), snapshots: sorted }
}

/// How `diff` classifies a plugin that is in both the manifest and the
/// lockfile: a source that cannot be resolved is reported as unreadable
/// whatever is installed; otherwise a missing install is to be installed, an
/// installed copy that differs from the lock entry has drifted, a lock entry
/// that differs from what the source now gives is stale, and else the
/// plugin is in sync.
pub proof fn lemma_tracked_plugin_state(name: Seq<char>, spec: ManifestPluginSpec, locked: LockedPlugin, obs: PluginObservation, s: PluginStateSnapshot)
    requires
        is_plugin_snapshot(name, Some(spec), Some(locked), obs, s),
    ensures
        obs.resolved_checksum is None ==> s.state == PluginStateKind::SourceUnreadable && s.recommended_action@ == "inspect-source"@,
        obs.resolved_checksum is Some && obs.installed_checksum is None ==> s.state == PluginStateKind::MissingInstall && s.recommended_action@ == "install"@,
        obs.resolved_checksum is Some && obs.installed_checksum is Some && obs.installed_checksum->Some_0@ != locked.checksum@
            ==> s.state == PluginStateKind::ChecksumDrift && s.recommended_action@ == "reinstall"@,
        obs.resolved_checksum is Some && obs.installed_checksum is Some && obs.installed_checksum->Some_0@ == locked.checksum@
            && obs.resolved_checksum->Some_0@ != locked.checksum@
            ==> s.state == PluginStateKind::StaleInstall && s.recommended_action@ == "update"@,
        obs.resolved_checksum is Some && obs.installed_checksum is Some && obs.installed_checksum->Some_0@ == locked.checksum@
            && obs.resolved_checksum->Some_0@ == locked.checksum@
            ==> s.state == PluginStateKind::Synced && s.recommended_action@ == "none"@,
        s.installed_checksum == obs.installed_checksum,
        s.lock_checksum == Some(locked.checksum),
{
}

} // verus!
