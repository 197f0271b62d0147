//! The activity history: the records of past operations, oldest first.
use vstd::prelude::*;
use crate::error::PyanpmError;
use crate::operations::ActivityRecord;
use crate::order::views;
use crate::text::{clone_opt, clone_strings, str_eq};

verus! {

/// The history file's records, as loaded.  Reading and writing the file is
/// left to the caller; the store decides what the history holds.
#[derive(Debug)]
pub struct ActivityStore {
    path: String,
    records: Vec<ActivityRecord>,
}

/// The record names the plugin.
pub open spec fn names_plugin(r: ActivityRecord, plugin: Seq<char>) -> bool {
    views(r.plugin_names@).contains(plugin)
}

impl ActivityStore {
    pub closed spec fn records_view(&self) -> Seq<ActivityRecord> {
        self.records@
    }

    pub closed spec fn path_view(&self) -> Seq<char> {
        self.path@
    }

    /// The store of the history file at `path`, holding `records`.
    pub fn new(path: String, records: Vec<ActivityRecord>) -> (r: Self)
        ensures
            r.records_view() == records@,
            r.path_view() == path@,
    {
        ActivityStore { path, records }
    }

    /// Path of the history file.
    pub fn path(&self) -> (r: &String)
        ensures
            r@ == self.path_view(),
    {
        &self.path
    }

    /// Adds a record at the end of the history.
    pub fn append(&mut self, record: ActivityRecord)
        ensures
            final(self).records_view() == old(self).records_view().push(record),
            final(self).path_view() == old(self).path_view(),
    {
        self.records.push(record);
    }

    /// Every record, oldest first.
    pub fn list(&self) -> (r: &Vec<ActivityRecord>)
        ensures
            r@ == self.records_view(),
    {
        &self.records
    }

    /// The most recent record that names `plugin_name`.
    pub fn latest_for_plugin(&self, plugin_name: &str) -> (r: Option<&ActivityRecord>)
        ensures
            r is None ==> forall|i: int| 0 <= i < self.records_view().len() ==> !names_plugin(#[trigger] self.records_view()[i], plugin_name@),
            r matches Some(rec) ==> exists|i: int| 0 <= i < self.records_view().len() && self.records_view()[i] == *rec
                && names_plugin(*rec, plugin_name@)
                && forall|j: int| i < j < self.records_view().len() ==> !names_plugin(#[trigger] self.records_view()[j], plugin_name@),
    {
        let mut i: usize = self.records.len();
        while i > 0
            invariant
                i <= self.records@.len(),
                forall|j: int| i <= j < self.records@.len() ==> !names_plugin(#[trigger] self.records@[j], plugin_name@),
            decreases i,
        {
            let rec = &self.records[i - 1];
            let mut k: usize = 0;
            let mut found = false;
            while k < rec.plugin_names.len()
                invariant
                    k <= rec.plugin_names.len(),
                    !found ==> forall|t: int| 0 <= t < k ==> rec.plugin_names@[t]@ != plugin_name@,
                    found ==> names_plugin(*rec, plugin_name@),
                decreases rec.plugin_names.len() - k,
            {
                if str_eq(rec.plugin_names[k].as_str(), plugin_name) {
                    assert(views(rec.plugin_names@)[k as int] == plugin_name@);
                    found = true;
                }
                k = k + 1;
            }
            if found {
                assert(self.records_view()[(i - 1) as int] == *rec);
                return Some(rec);
            }
            proof {
                if names_plugin(*rec, plugin_name@) {
                    let t = choose|t: int| 0 <= t < views(rec.plugin_names@).len() && views(rec.plugin_names@)[t] == plugin_name@;
                    assert(rec.plugin_names@[t]@ == plugin_name@);
                }
            }
            i = i - 1;
        }
        None
    }

    /// The first record with identifier `id`.
    pub fn get(&self, id: &str) -> (r: Result<&ActivityRecord, PyanpmError>)
        ensures
            r matches Ok(rec) ==> exists|i: int| 0 <= i < self.records_view().len() && self.records_view()[i] == *rec
                && rec.id@ == id@ && forall|j: int| 0 <= j < i ==> (#[trigger] self.records_view()[j]).id@ != id@,
            r is Err ==> (forall|i: int| 0 <= i < self.records_view().len() ==> (#[trigger] self.records_view()[i]).id@ != id@)
                && (r matches Err(PyanpmError::ActivityNotFound(x)) && x@ == id@),
    {
        let mut i: usize = 0;
        while i < self.records.len()
            invariant
                i <= self.records@.len(),
                forall|j: int| 0 <= j < i ==> (#[trigger] self.records@[j]).id@ != id@,
            decreases self.records.len() - i,
        {
            if str_eq(self.records[i].id.as_str(), id) {
                return Ok(&self.records[i]);
            }
            i = i + 1;
        }
        Err(PyanpmError::ActivityNotFound(String::from_str(id)))
    }

    /// Empties the history and tells how many records it held.
    pub fn clear(&mut self) -> (r: usize)
        ensures
            r == old(self).records_view().len(),
            final(self).records_view().len() == 0,
            final(self).path_view() == old(self).path_view(),
    {
        let total_before = self.records.len();
        let kept: Vec<ActivityRecord> = Vec::new();
        let kept_len = kept.len();
        self.records = kept;
        total_before - kept_len
    }
}

/// After a record is appended, any record `latest_for_plugin` may give for a
/// plugin the new record names is the new record.
pub proof fn lemma_append_then_latest(before: Seq<ActivityRecord>, record: ActivityRecord, plugin: Seq<char>)
    requires
        names_plugin(record, plugin),
    ensures
        forall|i: int|
            0 <= i < before.len() + 1 && names_plugin(#[trigger] before.push(record)[i], plugin) && (forall|j: int|
                i < j < before.len() + 1 ==> !names_plugin(#[trigger] before.push(record)[j], plugin))
                ==> before.push(record)[i] == record,
{
    let after = before.push(record);
    assert forall|i: int|
        0 <= i < before.len() + 1 && names_plugin(#[trigger] before.push(record)[i], plugin) && (forall|j: int|
            i < j < before.len() + 1 ==> !names_plugin(#[trigger] before.push(record)[j], plugin))
        implies before.push(record)[i] == record by {
        if i < before.len() {
            assert(names_plugin(before.push(record)[before.len() as int], plugin));
        }
    }
}

/// Two records hold the same values.
pub open spec fn same_record(a: ActivityRecord, b: ActivityRecord) -> bool {
    &&& a.id == b.id
    &&& a.command_id == b.command_id
    &&& a.state_path == b.state_path
    &&& a.command_name == b.command_name
    &&& a.command_args_summary == b.command_args_summary
    &&& a.started_at == b.started_at
    &&& a.finished_at == b.finished_at
    &&& a.duration_ms == b.duration_ms
    &&& a.status == b.status
    &&& a.plugin_names@ == b.plugin_names@
    &&& a.summary == b.summary
    &&& a.error_code == b.error_code
    &&& a.error_message == b.error_message
    &&& a.error_stage == b.error_stage
}

impl ActivityRecord {
    /// A copy of the record.
    pub fn duplicate(&self) -> (r: Self)
        ensures
            same_record(r, *self),
    {
        ActivityRecord {
            id: self.id.clone(),
            command_id: self.command_id.clone(),
            state_path: self.state_path.clone(),
            command_name: self.command_name.clone(),
            command_args_summary: self.command_args_summary.clone(),
            started_at: self.started_at,
            finished_at: self.finished_at,
            duration_ms: self.duration_ms,
            status: self.status,
            plugin_names: clone_strings(&self.plugin_names),
            summary: self.summary.clone(),
            error_code: clone_opt(&self.error_code),
            error_message: clone_opt(&self.error_message),
            error_stage: clone_opt(&self.error_stage),
        }
    }
}

/// A copy of a list of records.
pub fn clone_records(v: &Vec<ActivityRecord>) -> (r: Vec<ActivityRecord>)
    ensures
        r@.len() == v@.len(),
        forall|i: int| 0 <= i < v@.len() ==> same_record(#[trigger] r@[i], v@[i]),
{
    let mut out: Vec<ActivityRecord> = Vec::new();
    let mut i: usize = 0;
    while i < v.len()
        invariant
            i <= v@.len(),
            out@.len() == i,
            forall|k: int| 0 <= k < i ==> same_record(#[trigger] out@[k], v@[k]),
        decreases v.len() - i,
    {
        out.push(v[i].duplicate());
        i = i + 1;
    }
    out
}

} // verus!
