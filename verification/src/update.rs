//! The `update` decision: which manifest plugins resolve to something other
//! than what is locked, and the answer the command gives.
use vstd::prelude::*;
use crate::command::{OperationSession, find_locked, first_locked, lemma_first_locked, lemma_upsert_then_find, upserted};
use crate::config::{LockedPlugin, Lockfile};
use crate::diff::locked_entry;
use crate::operations::{ActivityRecord, InstalledPluginSummary, UpdateCandidate, UpdateResult};
use crate::plugin::ResolvedPlugin;
use crate::text::{clone_opt, concat3, decimal_spec, opt_view, str_eq, to_decimal};

verus! {

/// Whether updating to `resolved` changes what is locked: always when nothing
/// is locked, else when the checksum or the resolved version differs.
pub open spec fn will_change_spec(current: Option<LockedPlugin>, resolved: ResolvedPlugin) -> bool {
    match current {
        Some(l) => l.checksum@ != resolved.checksum@ || opt_view(l.resolved_version) != opt_view(resolved.resolved_version),
        None => true,
    }
}

/// `c` is the update candidate of `name` resolving to `resolved`, with
/// `current` its lock entry.
pub open spec fn is_update_candidate(name: Seq<char>, resolved: ResolvedPlugin, current: Option<LockedPlugin>, c: UpdateCandidate) -> bool {
    &&& c.plugin_name@ == name
    &&& c.current_version == match current {
        Some(l) => l.resolved_version,
        None => None,
    }
    &&& c.candidate_version == resolved.resolved_version
    &&& c.current_checksum == match current {
        Some(l) => Some(l.checksum),
        None => None,
    }
    &&& c.candidate_checksum == resolved.checksum
    &&& c.will_change == will_change_spec(current, resolved)
    &&& c.reason@ == if c.will_change {
        "source content or resolved version changed"@
    } else {
        "already up to date"@
    }
}

fn opt_eq(a: &Option<String>, b: &Option<String>) -> (r: bool)
    ensures
        r == (opt_view(*a) == opt_view(*b)),
{
    match (a, b) {
        (Some(x), Some(y)) => str_eq(x.as_str(), y.as_str()),
        (None, None) => true,
        _ => false,
    }
}

/// The update candidate of `name`, whose manifest source resolved to
/// `resolved`, against its first lock entry.
pub fn update_candidate(name: &str, resolved: &ResolvedPlugin, lockfile: &Lockfile) -> (r: UpdateCandidate)
    ensures
        is_update_candidate(name@, *resolved, locked_entry(lockfile.plugins@, name@), r),
        locked_entry(lockfile.plugins@, name@) is None ==> r.will_change,
        locked_entry(lockfile.plugins@, name@) matches Some(l) ==> (r.will_change
            <==> (l.checksum@ != resolved.checksum@ || opt_view(l.resolved_version) != opt_view(resolved.resolved_version))),
        r.will_change ==> r.reason@ == "source content or resolved version changed"@,
        !r.will_change ==> r.reason@ == "already up to date"@,
{
    let li = find_locked(lockfile, name);
    proof {
        lemma_first_locked(lockfile.plugins@, name@);
    }
    let (current_version, current_checksum, will_change) = match li {
        Some(k) => {
            let l = &lockfile.plugins[k];
            let changed = !str_eq(l.checksum.as_str(), resolved.checksum.as_str()) || !opt_eq(&l.resolved_version, &resolved.resolved_version);
            (clone_opt(&l.resolved_version), Some(l.checksum.clone()), changed)
        },
        None => (None, None, true),
    };
    UpdateCandidate {
        plugin_name: String::from_str(name),
        current_version,
        candidate_version: clone_opt(&resolved.resolved_version),
        current_checksum,
        candidate_checksum: resolved.checksum.clone(),
        will_change,
        reason: if will_change {
            String::from_str("source content or resolved version changed")
        } else {
            String::from_str("already up to date")
        },
    }
}

/// The names of the candidates that will change, in order.
pub open spec fn changed_names_spec(cs: Seq<UpdateCandidate>) -> Seq<Seq<char>>
    decreases cs.len(),
{
    if cs.len() == 0 {
        Seq::empty()
    } else {
        let before = changed_names_spec(cs.drop_last());
        if cs.last().will_change {
            before.push(cs.last().plugin_name@)
        } else {
            before
        }
    }
}

/// The names of the candidates that will change, in order.
pub fn changed_names(candidates: &Vec<UpdateCandidate>) -> (r: Vec<String>)
    ensures
        r@.map_values(|s: String| s@) == changed_names_spec(candidates@),
{
    let mut out: Vec<String> = Vec::new();
    let mut i: usize = 0;
    while i < candidates.len()
        invariant
            i <= candidates@.len(),
            out@.map_values(|s: String| s@) == changed_names_spec(candidates@.subrange(0, i as int)),
        decreases candidates.len() - i,
    {
        let ghost pre = candidates@.subrange(0, i + 1);
        assert(pre.drop_last() =~= candidates@.subrange(0, i as int));
        if candidates[i].will_change {
            let ghost before = out@;
            out.push(candidates[i].plugin_name.clone());
            assert(out@.map_values(|s: String| s@) =~= before.map_values(|s: String| s@).push(candidates@[i as int].plugin_name@));
        }
        i = i + 1;
    }
    assert(candidates@.subrange(0, candidates@.len() as int) =~= candidates@);
    out
}

/// The summary line of an update run.
pub open spec fn update_summary_spec(dry_run: bool, candidate_count: nat, changed_count: nat) -> Seq<char> {
    if dry_run {
        "Computed "@ + decimal_spec(candidate_count) + " update candidate(s)."@
    } else if changed_count == 0 {
        "No updates were needed."@
    } else {
        "Updated "@ + decimal_spec(changed_count) + " plugin(s)."@
    }
}

/// The names of installed plugins, in order.
pub open spec fn installed_names(s: Seq<InstalledPluginSummary>) -> Seq<Seq<char>> {
    s.map_values(|p: InstalledPluginSummary| p.name@)
}

/// The answer of `update`: the candidates, and, unless it was a dry run, the
/// plugins that the installation of the changed ones installed, which are
/// the changing candidates, in order.
pub fn update_result(session: OperationSession, candidates: Vec<UpdateCandidate>, dry_run: bool, updated: Vec<InstalledPluginSummary>) -> (r: (UpdateResult, Option<ActivityRecord>))
    requires
        !dry_run ==> installed_names(updated@) == changed_names_spec(candidates@),
    ensures
        !dry_run ==> installed_names(r.0.updated@) == changed_names_spec(candidates@),
        r.0.dry_run == dry_run,
        r.0.candidates == candidates,
        dry_run ==> r.0.updated@.len() == 0,
        !dry_run ==> r.0.updated == updated,
        r.0.progress == session.progress,
        r.0.meta.command_id == session.command_id,
        r.0.completion.summary@ == update_summary_spec(dry_run, candidates@.len(), changed_names_spec(candidates@).len()),
        r.0.completion.affected_plugin_count == changed_names_spec(candidates@).len(),
        r.0.completion.warning_count == 0 && r.0.completion.error_count == 0,
        session.persist_activity <==> r.1 is Some,
        crate::command::ends_run(session, r.0.meta, r.1, r.0.completion.summary@, 0),
{
    let changed = changed_names(&candidates);
    proof {
        assert(changed@.map_values(|s: String| s@).len() == changed@.len());
    }
    let summary = if dry_run {
        let n = to_decimal(candidates.len());
        concat3("Computed ", n.as_str(), " update candidate(s).")
    } else if changed.len() == 0 {
        String::from_str("No updates were needed.")
    } else {
        let n = to_decimal(changed.len());
        concat3("Updated ", n.as_str(), " plugin(s).")
    };
    let done = session.success(summary, changed.len(), 0, 0);
    let OperationSession { progress, .. } = session;
    let updated = if dry_run { Vec::new() } else { updated };
    (UpdateResult { meta: done.meta, dry_run, candidates, updated, progress, completion: done.completion }, done.record)
}

/// Once a plugin is recorded in the lockfile with the checksum and resolved
/// version its source resolves to, updating it changes nothing.
pub proof fn lemma_recorded_plugin_is_up_to_date(plugins: Seq<LockedPlugin>, recorded: LockedPlugin, resolved: ResolvedPlugin)
    requires
        recorded.name@ == resolved.name@,
        recorded.checksum@ == resolved.checksum@,
        recorded.resolved_version == resolved.resolved_version,
    ensures
        locked_entry(upserted(plugins, recorded), resolved.name@) == Some(recorded),
        !will_change_spec(locked_entry(upserted(plugins, recorded), resolved.name@), resolved),
{
    lemma_upsert_then_find(plugins, recorded, resolved.name@);
}

/// What decides an update: a plugin with no lock entry is always updated;
/// one with a lock entry is updated exactly when its source now resolves to
/// other content (another checksum) or another resolved version, so a change
/// of content alone triggers an update, and a plugin whose checksum and
/// version both match is left alone.
pub proof fn lemma_update_follows_content_and_version(name: Seq<char>, resolved: ResolvedPlugin, locked: Seq<LockedPlugin>, c: UpdateCandidate)
    requires
        is_update_candidate(name, resolved, locked_entry(locked, name), c),
    ensures
        locked_entry(locked, name) is None ==> c.will_change,
        forall|k: int| 0 <= k < locked.len() && (#[trigger] locked[k]).name@ == name
            && locked[k].checksum@ != resolved.checksum@ && (forall|j: int| 0 <= j < k ==> locked[j].name@ != name)
            ==> c.will_change,
        forall|k: int| 0 <= k < locked.len() && (#[trigger] locked[k]).name@ == name
            && opt_view(locked[k].resolved_version) != opt_view(resolved.resolved_version)
            && (forall|j: int| 0 <= j < k ==> locked[j].name@ != name)
            ==> c.will_change,
        forall|k: int| 0 <= k < locked.len() && (#[trigger] locked[k]).name@ == name
            && locked[k].checksum@ == resolved.checksum@
            && opt_view(locked[k].resolved_version) == opt_view(resolved.resolved_version)
            && (forall|j: int| 0 <= j < k ==> locked[j].name@ != name)
            ==> !c.will_change,
        c.will_change ==> c.reason@ == "source content or resolved version changed"@,
        c.candidate_checksum == resolved.checksum,
{
    lemma_first_locked(locked, name);
    assert forall|k: int| 0 <= k < locked.len() && (#[trigger] locked[k]).name@ == name
        && (forall|j: int| 0 <= j < k ==> locked[j].name@ != name) implies first_locked(locked, name) == k by {
        let f = first_locked(locked, name);
        if f < 0 {
        } else if f < k {
            assert(locked[f].name@ != name);
        } else if f > k {
        }
    }
}

} // verus!
