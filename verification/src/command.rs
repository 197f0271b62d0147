//! The operations of pyanPM over the global manifest: what each decides and
//! the records it hands back.  Reading and writing files, running git and
//! appending activity records are done by the caller, in the order these
//! functions lay out.
use vstd::prelude::*;
use crate::activity::{ActivityStore, clone_records, same_record};
use crate::audit::{DoctorReport, FindingLevel, findings_view};
use crate::cache::{CachedArtifact, size_sum, total_size_bytes};
use crate::config::{GitSourceOptions, LockedPlugin, Lockfile, Manifest, ManifestPluginSpec, MANIFEST_FILE_NAME, git_ref_kind_name, lookup, locked_names};
use crate::error::{PyanpmError, error_message, error_code_spec};
use crate::ids::{is_hyphenated_id, new_id, now_millis};
use crate::operations::{ActivityClearResult, ActivityListResult, ActivityShowResult, CacheEntry, CacheInfoResult, CacheListResult, ActivityRecord, ActivityStatus, CacheMutationResult, CommandMeta, CompletionSummary, InitResult, InstalledPluginSummary, ListResult, ListedPlugin, ProgressEvent, ProgressSeverity, RemoveResult, RemovedPluginSummary, ValidateSourceResult};
use crate::order::{views, seq_lt, str_lt, lemma_seq_lt_total, lemma_seq_lt_transitive};
use crate::paths::{join_spec};
use crate::plugin::{PluginSourceKind, ResolvedPlugin, source_kind_name};
use crate::source::{ParsedPluginRef, SourceValidation, source_ref_from_spec, source_ref_spec};
use crate::text::{clone_opt, clone_strings, concat2, concat3, concat4, concat5, opt_view, str_eq, to_decimal, decimal_spec, trim, is_blank};

verus! {

pub const API_VERSION: &'static str = "1";

/// Milliseconds from `start` to `end`, clamped to the `i64` range.
pub open spec fn elapsed_spec(start: i64, end: i64) -> i64 {
    let d = end - start;
    if d > i64::MAX {
        i64::MAX
    } else if d < i64::MIN {
        i64::MIN
    } else {
        d as i64
    }
}

fn elapsed_ms(start: i64, end: i64) -> (r: i64)
    ensures
        r == elapsed_spec(start, end),
{
    let d = (end as i128) - (start as i128);
    if d > (i64::MAX as i128) {
        i64::MAX
    } else if d < (i64::MIN as i128) {
        i64::MIN
    } else {
        d as i64
    }
}

/// One run of a command: its identity, start time, the plugins it concerns
/// and the progress it reported.
#[derive(Debug)]
pub struct OperationSession {
    pub command_id: String,
    pub state_path: String,
    pub command_name: String,
    pub command_args_summary: String,
    pub started_at: i64,
    pub plugin_names: Vec<String>,
    pub progress: Vec<ProgressEvent>,
    pub persist_activity: bool,
}

/// `meta` and `record` end the run of `session` successfully with `summary`
/// after counting `error_count` errors: the run's identity and, when the run
/// keeps history, its record (partial when errors were counted), whose id
/// `meta` carries.
pub open spec fn ends_run(session: OperationSession, meta: CommandMeta, record: Option<ActivityRecord>, summary: Seq<char>, error_count: int) -> bool {
    &&& meta.command_id == session.command_id
    &&& meta.state_path == session.state_path
    &&& (session.persist_activity <==> record is Some)
    &&& (record is None ==> meta.activity_id is None)
    &&& (record matches Some(rec) ==> {
        &&& meta.activity_id == Some(rec.id)
        &&& rec.command_id == session.command_id
        &&& rec.state_path == session.state_path
        &&& rec.command_name == session.command_name
        &&& rec.command_args_summary == session.command_args_summary
        &&& rec.started_at == session.started_at
        &&& rec.status == if error_count > 0 { ActivityStatus::Partial } else { ActivityStatus::Success }
        &&& rec.plugin_names@ == session.plugin_names@
        &&& rec.summary@ == summary
        &&& rec.error_code is None && rec.error_message is None && rec.error_stage is None
    })
}

/// How a command ended successfully: its identity, its completion summary and,
/// when the command keeps history, the activity record to append.
pub struct SessionSuccess {
    pub meta: CommandMeta,
    pub completion: CompletionSummary,
    pub record: Option<ActivityRecord>,
}

impl OperationSession {
    /// Starts a command run with a fresh identifier at the current time.
    pub fn new(state_path: String, command_name: &str, command_args_summary: String, plugin_names: Vec<String>, persist_activity: bool) -> (r: Self)
        ensures
            is_hyphenated_id(r.command_id@),
            r.state_path == state_path,
            r.command_name@ == command_name@,
            r.command_args_summary == command_args_summary,
            r.plugin_names == plugin_names,
            r.progress@.len() == 0,
            r.persist_activity == persist_activity,
    {
        OperationSession {
            command_id: new_id(),
            state_path,
            command_name: String::from_str(command_name),
            command_args_summary,
            started_at: now_millis(),
            plugin_names,
            progress: Vec::new(),
            persist_activity,
        }
    }

    /// Reports a step of the run, stamped with the current time.
    pub fn emit(&mut self, plugin_name: Option<&str>, stage: &str, message: &str, current: Option<u32>, total: Option<u32>, severity: ProgressSeverity)
        ensures
            final(self).progress@.len() == old(self).progress@.len() + 1,
            final(self).progress@.subrange(0, old(self).progress@.len() as int) == old(self).progress@,
            ({
                let e = final(self).progress@.last();
                &&& e.command_id == old(self).command_id
                &&& e.state_path == old(self).state_path
                &&& opt_view(e.plugin_name) == match plugin_name {
                    Some(p) => Some(p@),
                    None => None::<Seq<char>>,
                }
                &&& e.stage@ == stage@
                &&& e.message@ == message@
                &&& e.current == current
                &&& e.total == total
                &&& e.severity == severity
            }),
            final(self).command_id == old(self).command_id,
            final(self).state_path == old(self).state_path,
            final(self).command_name == old(self).command_name,
            final(self).command_args_summary == old(self).command_args_summary,
            final(self).started_at == old(self).started_at,
            final(self).plugin_names == old(self).plugin_names,
            final(self).persist_activity == old(self).persist_activity,
    {
        let event = ProgressEvent {
            command_id: self.command_id.clone(),
            state_path: self.state_path.clone(),
            plugin_name: match plugin_name {
                Some(p) => Some(String::from_str(p)),
                None => None,
            },
            stage: String::from_str(stage),
            message: String::from_str(message),
            current,
            total,
            severity,
            timestamp: now_millis(),
        };
        self.progress.push(event);
        assert(self.progress@.subrange(0, old(self).progress@.len() as int) =~= old(self).progress@);
    }

    /// The run's identity, with no activity record.
    pub fn meta(&self) -> (r: CommandMeta)
        ensures
            r.command_id == self.command_id,
            r.state_path == self.state_path,
            r.activity_id is None,
    {
        CommandMeta { command_id: self.command_id.clone(), state_path: self.state_path.clone(), activity_id: None }
    }

    /// Ends the run successfully: the completion summary with the run's
    /// duration and, when the run keeps history, a record of it (partial when
    /// errors were counted) whose identifier the returned identity carries.
    pub fn success(&self, summary: String, affected_plugin_count: usize, warning_count: usize, error_count: usize) -> (r: SessionSuccess)
        ensures
            r.completion.affected_plugin_count == affected_plugin_count,
            r.completion.warning_count == warning_count,
            r.completion.error_count == error_count,
            r.completion.summary == summary,
            r.meta.command_id == self.command_id,
            r.meta.state_path == self.state_path,
            self.persist_activity <==> r.record is Some,
            r.record is None ==> r.meta.activity_id is None,
            r.record matches Some(rec) ==> {
                &&& r.meta.activity_id == Some(rec.id)
                &&& rec.command_id == self.command_id
                &&& rec.state_path == self.state_path
                &&& rec.command_name == self.command_name
                &&& rec.command_args_summary == self.command_args_summary
                &&& rec.started_at == self.started_at
                &&& rec.duration_ms == r.completion.duration_ms
                &&& rec.status == if error_count > 0 { ActivityStatus::Partial } else { ActivityStatus::Success }
                &&& rec.plugin_names@ == self.plugin_names@
                &&& rec.summary == summary
                &&& rec.error_code is None && rec.error_message is None && rec.error_stage is None
            },
            ends_run(*self, r.meta, r.record, summary@, error_count as int),
    {
        let now = now_millis();
        let completion = CompletionSummary {
            affected_plugin_count,
            warning_count,
            error_count,
            duration_ms: elapsed_ms(self.started_at, now),
            summary: summary.clone(),
        };
        if self.persist_activity {
            let record = ActivityRecord {
                id: new_id(),
                command_id: self.command_id.clone(),
                state_path: self.state_path.clone(),
                command_name: self.command_name.clone(),
                command_args_summary: self.command_args_summary.clone(),
                started_at: self.started_at,
                finished_at: now_millis(),
                duration_ms: completion.duration_ms,
                status: if error_count > 0 { ActivityStatus::Partial } else { ActivityStatus::Success },
                plugin_names: clone_strings(&self.plugin_names),
                summary,
                error_code: None,
                error_message: None,
                error_stage: None,
            };
            let meta = CommandMeta {
                command_id: self.command_id.clone(),
                state_path: self.state_path.clone(),
                activity_id: Some(record.id.clone()),
            };
            SessionSuccess { meta, completion, record: Some(record) }
        } else {
            SessionSuccess { meta: self.meta(), completion, record: None }
        }
    }

    /// Ends the run with an error: when the run keeps history, the record of
    /// the failure with the error's message and code and the stage it failed
    /// in.
    pub fn failure(&self, error: &PyanpmError, error_stage: Option<&str>) -> (r: Option<ActivityRecord>)
        ensures
            self.persist_activity <==> r is Some,
            r matches Some(rec) ==> {
                &&& rec.command_id == self.command_id
                &&& rec.state_path == self.state_path
                &&& rec.command_name == self.command_name
                &&& rec.command_args_summary == self.command_args_summary
                &&& rec.started_at == self.started_at
                &&& rec.duration_ms == elapsed_spec(self.started_at, rec.finished_at)
                &&& rec.status == ActivityStatus::Failed
                &&& rec.plugin_names@ == self.plugin_names@
                &&& rec.summary@ == error_message(*error)
                &&& opt_view(rec.error_code) == Some(error_code_spec(*error))
                &&& opt_view(rec.error_message) == Some(error_message(*error))
                &&& opt_view(rec.error_stage) == match error_stage {
                    Some(s) => Some(s@),
                    None => None::<Seq<char>>,
                }
            },
    {
        if !self.persist_activity {
            return None;
        }
        let finished_at = now_millis();
        Some(ActivityRecord {
            id: new_id(),
            command_id: self.command_id.clone(),
            state_path: self.state_path.clone(),
            command_name: self.command_name.clone(),
            command_args_summary: self.command_args_summary.clone(),
            started_at: self.started_at,
            finished_at,
            duration_ms: elapsed_ms(self.started_at, finished_at),
            status: ActivityStatus::Failed,
            plugin_names: clone_strings(&self.plugin_names),
            summary: error.message(),
            error_code: Some(error.code()),
            error_message: Some(error.message()),
            error_stage: match error_stage {
                Some(s) => Some(String::from_str(s)),
                None => None,
            },
        })
    }
}

/// The answer of a command in machine-readable output.
#[derive(Debug)]
pub struct JsonEnvelope<T> {
    pub api_version: String,
    pub command: String,
    pub success: bool,
    pub data: Option<T>,
    pub error: Option<String>,
}

impl<T> JsonEnvelope<T> {
    /// A successful answer carrying `data`.
    pub fn success(command: &str, data: T) -> (r: Self)
        ensures
            r.api_version@ == API_VERSION@,
            r.command@ == command@,
            r.success,
            r.data == Some(data),
            r.error is None,
    {
        JsonEnvelope { api_version: String::from_str(API_VERSION), command: String::from_str(command), success: true, data: Some(data), error: None }
    }

    /// A failed answer carrying the error's message.
    pub fn failure(command: &str, error: &PyanpmError) -> (r: Self)
        ensures
            r.api_version@ == API_VERSION@,
            r.command@ == command@,
            !r.success,
            r.data is None,
            opt_view(r.error) == Some(error_message(*error)),
    {
        JsonEnvelope { api_version: String::from_str(API_VERSION), command: String::from_str(command), success: false, data: None, error: Some(error.message()) }
    }
}

/// The hint shown when the global manifest does not exist yet.
pub fn missing_manifest_message(state_dir: &str) -> (r: String)
    ensures
        r@ == "No global "@ + MANIFEST_FILE_NAME@ + " found in "@ + state_dir@ + ". Run `pyanpm init` first."@,
{
    concat5("No global ", MANIFEST_FILE_NAME, " found in ", state_dir, ". Run `pyanpm init` first.")
}

/// The summary of a source reference and its git options kept in activity
/// history.
pub open spec fn source_args_spec(source_ref: Seq<char>, o: GitSourceOptions) -> Seq<char> {
    "source="@ + source_ref + match o.git_ref_kind {
        Some(k) => ", git_ref_kind="@ + git_ref_kind_name(k),
        None => Seq::empty(),
    } + match o.git_ref {
        Some(r) => if is_blank(r@) { Seq::empty() } else { ", git_ref="@ + r@ },
        None => Seq::empty(),
    } + match o.git_subdir {
        Some(s) => if is_blank(s@) { Seq::empty() } else { ", git_subdir="@ + s@ },
        None => Seq::empty(),
    }
}

/// Summarizes a source reference and its git options.
pub fn format_source_args(source_ref: &str, git_options: &GitSourceOptions) -> (r: String)
    ensures
        r@ == source_args_spec(source_ref@, *git_options),
{
    let mut s = concat2("source=", source_ref);
    match git_options.git_ref_kind {
        Some(k) => {
            let name = k.name();
            s.append(concat2(", git_ref_kind=", name.as_str()).as_str());
        },
        None => {},
    }
    match &git_options.git_ref {
        Some(r) => {
            if trim(r.as_str()).unicode_len() != 0 {
                s.append(concat2(", git_ref=", r.as_str()).as_str());
            }
        },
        None => {},
    }
    match &git_options.git_subdir {
        Some(d) => {
            if trim(d.as_str()).unicode_len() != 0 {
                s.append(concat2(", git_subdir=", d.as_str()).as_str());
            }
        },
        None => {},
    }
    assert(s@ =~= source_args_spec(source_ref@, *git_options));
    s
}

/// `true` or `false`, as `bool` displays.
pub open spec fn bool_text(b: bool) -> Seq<char> {
    if b {
        "true"@
    } else {
        "false"@
    }
}

fn bool_str(b: bool) -> (r: &'static str)
    ensures
        r@ == bool_text(b),
{
    if b {
        "true"
    } else {
        "false"
    }
}

/// `key=value` for a flag.
pub fn flag_summary(key: &str, value: bool) -> (r: String)
    ensures
        r@ == key@ + "="@ + bool_text(value),
{
    concat3(key, "=", bool_str(value))
}

/// `key=value` for a text value.
pub fn value_summary(key: &str, value: &str) -> (r: String)
    ensures
        r@ == key@ + "="@ + value@,
{
    concat3(key, "=", value)
}

/// The history summary of `remove`.
pub fn remove_args_summary(plugin_name: &str, keep_manifest: bool) -> (r: String)
    ensures
        r@ == "plugin="@ + plugin_name@ + ", keep_manifest="@ + bool_text(keep_manifest),
{
    concat4("plugin=", plugin_name, ", keep_manifest=", bool_str(keep_manifest))
}

/// What std's `Debug` writes for a string: the string in double quotes, with
/// quotes, backslashes and characters that do not print escaped.
pub uninterp spec fn debug_quoted_spec(s: Seq<char>) -> Seq<char>;

/// `format!("{:?}", s)` for a string slice.
#[verifier::external_body]
fn debug_quoted(s: &str) -> (r: String)
    ensures
        r@ == debug_quoted_spec(s@),
{
    format!("{:?}", s)
}

/// The history summary of `update`, with the plugin name written as an
/// optional value is debug-printed.
pub fn update_args_summary(plugin_name: Option<&str>, all: bool, dry_run: bool) -> (r: String)
    ensures
        r@ == "plugin="@ + match plugin_name {
            Some(p) => "Some("@ + debug_quoted_spec(p@) + ")"@,
            None => "None"@,
        } + ", all="@ + bool_text(all) + ", dry_run="@ + bool_text(dry_run),
{
    let plugin = match plugin_name {
        Some(p) => {
            let q = debug_quoted(p);
            concat3("Some(", q.as_str(), ")")
        },
        None => String::from_str("None"),
    };
    let mut s = concat2("plugin=", plugin.as_str());
    s.append(concat4(", all=", bool_str(all), ", dry_run=", bool_str(dry_run)).as_str());
    s
}

/// The answer of the doctor.
#[derive(Debug)]
pub struct DoctorResult {
    pub meta: CommandMeta,
    pub report: DoctorReport,
    pub completion: CompletionSummary,
}

/// Index of the first locked plugin named `name`, or -1.
pub open spec fn first_locked(ps: Seq<LockedPlugin>, name: Seq<char>) -> int
    decreases ps.len(),
{
    if ps.len() == 0 {
        -1
    } else if ps[0].name@ == name {
        0
    } else {
        let r = first_locked(ps.drop_first(), name);
        if r < 0 {
            -1
        } else {
            r + 1
        }
    }
}

pub proof fn lemma_first_locked(ps: Seq<LockedPlugin>, name: Seq<char>)
    ensures
        -1 <= first_locked(ps, name) < ps.len(),
        first_locked(ps, name) >= 0 ==> ps[first_locked(ps, name)].name@ == name,
        forall|j: int| 0 <= j < ps.len() && (first_locked(ps, name) < 0 || j < first_locked(ps, name)) ==> (#[trigger] ps[j]).name@ != name,
    decreases ps.len(),
{
    if ps.len() > 0 && ps[0].name@ != name {
        lemma_first_locked(ps.drop_first(), name);
        assert forall|j: int| 0 <= j < ps.len() && (first_locked(ps, name) < 0 || j < first_locked(ps, name)) implies (#[trigger] ps[j]).name@ != name by {
            if j > 0 {
                assert(ps[j] == ps.drop_first()[j - 1]);
            }
        }
    }
}

/// Finds the first locked plugin named `name`.
pub fn find_locked(lockfile: &Lockfile, name: &str) -> (r: Option<usize>)
    ensures
        r matches Some(i) ==> i as int == first_locked(lockfile.plugins@, name@),
        r matches Some(i) ==> i < lockfile.plugins@.len() && lockfile.plugins@[i as int].name@ == name@,
        r is None ==> first_locked(lockfile.plugins@, name@) == -1,
{
    proof {
        lemma_first_locked(lockfile.plugins@, name@);
    }
    let mut i: usize = 0;
    while i < lockfile.plugins.len()
        invariant
            i <= lockfile.plugins.len(),
            forall|j: int| 0 <= j < i ==> (#[trigger] lockfile.plugins@[j]).name@ != name@,
            -1 <= first_locked(lockfile.plugins@, name@) < lockfile.plugins@.len(),
            first_locked(lockfile.plugins@, name@) >= 0 ==> lockfile.plugins@[first_locked(lockfile.plugins@, name@)].name@ == name@,
            forall|j: int| 0 <= j < lockfile.plugins@.len() && (first_locked(lockfile.plugins@, name@) < 0 || j < first_locked(lockfile.plugins@, name@)) ==> (#[trigger] lockfile.plugins@[j]).name@ != name@,
        decreases lockfile.plugins.len() - i,
    {
        if str_eq(lockfile.plugins[i].name.as_str(), name) {
            return Some(i);
        }
        i = i + 1;
    }
    None
}

/// Strictly increasing names.
pub open spec fn strictly_sorted(s: Seq<Seq<char>>) -> bool {
    forall|i: int, j: int| 0 <= i < j < s.len() ==> crate::order::seq_lt(s[i], s[j])
}

fn insert_name_sorted(v: &mut Vec<String>, name: &str)
    requires
        strictly_sorted(views(old(v)@)),
    ensures
        strictly_sorted(views(final(v)@)),
        forall|x: Seq<char>| views(final(v)@).contains(x) <==> (views(old(v)@).contains(x) || x == name@),
{
    let ghost old_v = views(v@);
    let mut pos: usize = 0;
    while pos < v.len() && str_lt(v[pos].as_str(), name)
        invariant
            pos <= v.len(),
            old_v == views(v@),
            forall|j: int| 0 <= j < pos ==> seq_lt(#[trigger] old_v[j], name@),
        decreases v.len() - pos,
    {
        pos = pos + 1;
    }
    proof {
        assert forall|j: int| pos <= j < old_v.len() implies !seq_lt(#[trigger] old_v[j], name@) by {
            assert(!seq_lt(old_v[pos as int], name@));
            if j > pos {
                assert(seq_lt(old_v[pos as int], old_v[j]));
                if seq_lt(old_v[j], name@) {
                    lemma_seq_lt_transitive(old_v[pos as int], old_v[j], name@);
                }
            }
        }
    }
    if pos < v.len() && str_eq(v[pos].as_str(), name) {
        assert(old_v[pos as int] == name@);
        return;
    }
    proof {
        if pos < old_v.len() {
            lemma_seq_lt_total(old_v[pos as int], name@);
        }
    }
    let s = String::from_str(name);
    v.insert(pos, s);
    proof {
        let nv = views(v@);
        assert(nv =~= old_v.insert(pos as int, name@));
        assert forall|i: int, j: int| 0 <= i < j < nv.len() implies seq_lt(nv[i], nv[j]) by {
            if j < pos {
            } else if j == pos {
            } else if i == pos {
                assert(!seq_lt(old_v[j - 1], name@));
                lemma_seq_lt_total(old_v[j - 1], name@);
                if old_v[j - 1] == name@ {
                    assert(j - 1 >= pos);
                    if j - 1 > pos {
                        assert(seq_lt(old_v[pos as int], old_v[j - 1]));
                        lemma_seq_lt_total(old_v[pos as int], name@);
                    }
                }
            } else if i < pos {
                assert(!seq_lt(old_v[j - 1], name@));
                lemma_seq_lt_total(old_v[j - 1], name@);
                if old_v[j - 1] == name@ {
                    if j - 1 > pos {
                        assert(seq_lt(old_v[pos as int], old_v[j - 1]));
                        lemma_seq_lt_total(old_v[pos as int], name@);
                    }
                } else {
                    lemma_seq_lt_transitive(old_v[i], name@, old_v[j - 1]);
                }
            } else {
            }
        }
        assert forall|x: Seq<char>| nv.contains(x) <==> (old_v.contains(x) || x == name@) by {
            if nv.contains(x) {
                let k = choose|k: int| 0 <= k < nv.len() && nv[k] == x;
                if k < pos {
                    assert(old_v[k] == x);
                } else if k > pos {
                    assert(old_v[k - 1] == x);
                }
            }
            if old_v.contains(x) {
                let k = choose|k: int| 0 <= k < old_v.len() && old_v[k] == x;
                if k < pos {
                    assert(nv[k] == x);
                } else {
                    assert(nv[k + 1] == x);
                }
            }
            if x == name@ {
                assert(nv[pos as int] == x);
            }
        }
    }
}

/// Every plugin name known to the manifest or the lockfile, once each, in
/// increasing order.
pub fn managed_names(manifest: &Manifest, lockfile: &Lockfile) -> (r: Vec<String>)
    ensures
        strictly_sorted(views(r@)),
        forall|x: Seq<char>| views(r@).contains(x) <==> (lookup(manifest@, x) is Some || locked_names(lockfile.plugins@).contains(x)),
{
    let mut names = manifest.names();
    proof {
        assert forall|x: Seq<char>| views(names@).contains(x) <==> lookup(manifest@, x) is Some by {
            crate::config::lemma_lookup_some(manifest@, x);
            if views(names@).contains(x) {
                let k = choose|k: int| 0 <= k < views(names@).len() && views(names@)[k] == x;
                assert(manifest@[k].0 == x);
            }
            if lookup(manifest@, x) is Some {
                let k = choose|k: int| 0 <= k < manifest@.len() && manifest@[k].0 == x;
                assert(views(names@)[k] == x);
            }
        }
    }
    let ghost lnames = locked_names(lockfile.plugins@);
    let mut i: usize = 0;
    while i < lockfile.plugins.len()
        invariant
            i <= lockfile.plugins.len(),
            lnames == locked_names(lockfile.plugins@),
            strictly_sorted(views(names@)),
            forall|x: Seq<char>| views(names@).contains(x) <==> (lookup(manifest@, x) is Some || lnames.subrange(0, i as int).contains(x)),
        decreases lockfile.plugins.len() - i,
    {
        let ghost before = views(names@);
        insert_name_sorted(&mut names, lockfile.plugins[i].name.as_str());
        proof {
            let pre1 = lnames.subrange(0, i + 1);
            let pre0 = lnames.subrange(0, i as int);
            assert(pre1 =~= pre0.push(lnames[i as int]));
            assert forall|x: Seq<char>| pre1.contains(x) <==> (pre0.contains(x) || x == lnames[i as int]) by {
                if pre1.contains(x) {
                    let k = choose|k: int| 0 <= k < pre1.len() && pre1[k] == x;
                    if k < i {
                        assert(pre0[k] == x);
                    }
                }
                if pre0.contains(x) {
                    let k = choose|k: int| 0 <= k < pre0.len() && pre0[k] == x;
                    assert(pre1[k] == x);
                }
                if x == lnames[i as int] {
                    assert(pre1[i as int] == x);
                }
            }
        }
        i = i + 1;
    }
    assert(lnames.subrange(0, lockfile.plugins.len() as int) =~= lnames);
    names
}

/// What `list` shows for a plugin: its requested and installed versions, its
/// source, whether it is installed, missing or only in the manifest, and its
/// target.
pub open spec fn listed_spec(manifest: Seq<(Seq<char>, ManifestPluginSpec)>, locked: Seq<LockedPlugin>, target_exists: Seq<bool>, name: Seq<char>, p: ListedPlugin) -> bool {
    let spec = lookup(manifest, name);
    let li = first_locked(locked, name);
    &&& p.name@ == name
    &&& p.requested_version == match spec {
        Some(s) => s.version,
        None => None,
    }
    &&& p.installed_version == if li >= 0 { locked[li].resolved_version } else { None }
    &&& p.source@ == match spec {
        Some(s) => source_ref_spec(s),
        None => if li >= 0 { source_kind_name(locked[li].source) } else { "unknown"@ },
    }
    &&& p.status@ == if li < 0 { "manifest-only"@ } else if target_exists[li] { "installed"@ } else { "missing"@ }
    &&& p.target_path == if li >= 0 { Some(locked[li].target_path) } else { None }
}

/// The service over one state directory (where the global manifest and
/// lockfile live) and an optional plugins directory override.
#[derive(Debug)]
pub struct PyanpmService {
    state_dir: String,
    plugins_dir_override: Option<String>,
}

impl PyanpmService {
    pub closed spec fn state_dir_view(&self) -> Seq<char> {
        self.state_dir@
    }

    pub closed spec fn plugins_dir_override_view(&self) -> Option<String> {
        self.plugins_dir_override
    }

    /// The service over `state_dir`.
    pub fn new(state_dir: String, plugins_dir_override: Option<String>) -> (r: Self)
        ensures
            r.state_dir_view() == state_dir@,
            r.plugins_dir_override_view() == plugins_dir_override,
    {
        PyanpmService { state_dir, plugins_dir_override }
    }

    /// The service over the global state directory, once it is known.
    pub fn global(state_dir: Result<String, PyanpmError>, plugins_dir_override: Option<String>) -> (r: Result<Self, PyanpmError>)
        ensures
            state_dir matches Ok(d) ==> (r matches Ok(s) && s.state_dir_view() == d@ && s.plugins_dir_override_view() == plugins_dir_override),
            state_dir matches Err(e) ==> r == Err::<Self, PyanpmError>(e),
    {
        match state_dir {
            Ok(d) => Ok(PyanpmService::new(d, plugins_dir_override)),
            Err(e) => Err(e),
        }
    }

    /// The state directory.
    pub fn state_dir(&self) -> (r: &str)
        ensures
            r@ == self.state_dir_view(),
    {
        self.state_dir.as_str()
    }

    /// The plugins directory override.
    pub fn plugins_dir_override(&self) -> (r: &Option<String>)
        ensures
            *r == self.plugins_dir_override_view(),
    {
        &self.plugins_dir_override
    }

    /// Where `init` writes the manifest, refusing to overwrite an existing
    /// one unless forced.
    pub fn init(&self, force: bool, manifest_exists: bool) -> (r: Result<String, PyanpmError>)
        ensures
            manifest_exists && !force ==> (r matches Err(PyanpmError::ManifestExists(p)) && p@ == join_spec(self.state_dir_view(), MANIFEST_FILE_NAME@)),
            !(manifest_exists && !force) ==> (r matches Ok(p) && p@ == join_spec(self.state_dir_view(), MANIFEST_FILE_NAME@)),
    {
        let path = Manifest::path_in(self.state_dir.as_str());
        if manifest_exists && !force {
            Err(PyanpmError::ManifestExists(path))
        } else {
            Ok(path)
        }
    }

    /// The answer of a successful `init`.
    pub fn init_result(&self, session: &OperationSession, manifest_path: String) -> (r: (InitResult, Option<ActivityRecord>))
        ensures
            r.0.manifest_path == manifest_path,
            r.0.completion.summary@ == "Initialized the global pyanPM manifest."@,
            r.0.completion.affected_plugin_count == 0,
            r.0.completion.warning_count == 0 && r.0.completion.error_count == 0,
            session.persist_activity <==> r.1 is Some,
            ends_run(*session, r.0.meta, r.1, r.0.completion.summary@, 0),
    {
        let done = session.success(String::from_str("Initialized the global pyanPM manifest."), 0, 0, 0);
        (InitResult { meta: done.meta, manifest_path, completion: done.completion }, done.record)
    }

    /// The plugins `list` shows: every managed name in order, with
    /// `target_exists` telling, for each lockfile entry, whether its target is
    /// on disk.
    pub fn list(&self, session: &OperationSession, manifest: &Manifest, lockfile: &Lockfile, target_exists: &Vec<bool>) -> (r: ListResult)
        requires
            target_exists@.len() == lockfile.plugins@.len(),
        ensures
            r.meta.command_id == session.command_id,
            r.meta.activity_id is None,
            strictly_sorted(r.plugins@.map_values(|p: ListedPlugin| p.name@)),
            forall|x: Seq<char>| r.plugins@.map_values(|p: ListedPlugin| p.name@).contains(x) <==> (lookup(manifest@, x) is Some || locked_names(lockfile.plugins@).contains(x)),
            forall|i: int| 0 <= i < r.plugins@.len() ==> listed_spec(manifest@, lockfile.plugins@, target_exists@, r.plugins@[i].name@, #[trigger] r.plugins@[i]),
            forall|i: int, k: int| #![trigger r.plugins@[i], lockfile.plugins@[k]]
                0 <= i < r.plugins@.len() && is_first_entry(lockfile.plugins@, r.plugins@[i].name@, k)
                ==> r.plugins@[i].status@ == if target_exists@[k] { "installed"@ } else { "missing"@ },
            forall|i: int| 0 <= i < r.plugins@.len() && !locked_names(lockfile.plugins@).contains(r.plugins@[i].name@)
                ==> (#[trigger] r.plugins@[i]).status@ == "manifest-only"@,
    {
        let names = managed_names(manifest, lockfile);
        let mut plugins: Vec<ListedPlugin> = Vec::new();
        let mut i: usize = 0;
        while i < names.len()
            invariant
                i <= names.len(),
                target_exists@.len() == lockfile.plugins@.len(),
                plugins@.len() == i,
                forall|k: int| 0 <= k < i ==> (#[trigger] plugins@[k]).name@ == names@[k]@,
                forall|k: int| 0 <= k < i ==> listed_spec(manifest@, lockfile.plugins@, target_exists@, names@[k]@, #[trigger] plugins@[k]),
            decreases names.len() - i,
        {
            let name = names[i].as_str();
            let spec = manifest.get(name);
            let li = find_locked(lockfile, name);
            proof {
                lemma_first_locked(lockfile.plugins@, name@);
            }
            let source = match spec {
                Some(s) => source_ref_from_spec(s),
                None => match li {
                    Some(k) => lockfile.plugins[k].source.name(),
                    None => String::from_str("unknown"),
                },
            };
            let status = match li {
                Some(k) => if target_exists[k] { String::from_str("installed") } else { String::from_str("missing") },
                None => String::from_str("manifest-only"),
            };
            let p = ListedPlugin {
                name: names[i].clone(),
                requested_version: match spec {
                    Some(s) => clone_opt(&s.version),
                    None => None,
                },
                installed_version: match li {
                    Some(k) => clone_opt(&lockfile.plugins[k].resolved_version),
                    None => None,
                },
                source,
                status,
                target_path: match li {
                    Some(k) => Some(lockfile.plugins[k].target_path.clone()),
                    None => None,
                },
            };
            plugins.push(p);
            i = i + 1;
        }
        proof {
            let pv = plugins@.map_values(|p: ListedPlugin| p.name@);
            assert(pv =~= views(names@));
            assert forall|i: int, k: int| #![trigger plugins@[i], lockfile.plugins@[k]]
                0 <= i < plugins@.len() && is_first_entry(lockfile.plugins@, plugins@[i].name@, k)
                implies plugins@[i].status@ == if target_exists@[k] { "installed"@ } else { "missing"@ } by {
                lemma_listed_status(manifest@, lockfile.plugins@, target_exists@, plugins@[i].name@, plugins@[i]);
            }
            assert forall|i: int| 0 <= i < plugins@.len() && !locked_names(lockfile.plugins@).contains(plugins@[i].name@)
                implies (#[trigger] plugins@[i]).status@ == "manifest-only"@ by {
                lemma_listed_status(manifest@, lockfile.plugins@, target_exists@, plugins@[i].name@, plugins@[i]);
            }
        }
        ListResult { meta: session.meta(), plugins }
    }
}

/// `k` is the first lock entry named `name`.
pub open spec fn is_first_entry(locked: Seq<LockedPlugin>, name: Seq<char>, k: int) -> bool {
    &&& 0 <= k < locked.len()
    &&& locked[k].name@ == name
    &&& forall|j: int| 0 <= j < k ==> (#[trigger] locked[j]).name@ != name
}

/// What `list` shows of a plugin's install: a plugin with a lock entry is
/// "installed" when the target of its first lock entry exists on disk and
/// "missing" when it does not; a plugin with no lock entry is
/// "manifest-only".
pub proof fn lemma_listed_status(manifest: Seq<(Seq<char>, ManifestPluginSpec)>, locked: Seq<LockedPlugin>, target_exists: Seq<bool>, name: Seq<char>, p: ListedPlugin)
    requires
        listed_spec(manifest, locked, target_exists, name, p),
    ensures
        forall|k: int| #[trigger] is_first_entry(locked, name, k) ==> p.status@ == if target_exists[k] { "installed"@ } else { "missing"@ },
        !locked_names(locked).contains(name) ==> p.status@ == "manifest-only"@,
        forall|k: int| #[trigger] is_first_entry(locked, name, k) ==> p.target_path == Some(locked[k].target_path),
{
    lemma_first_locked(locked, name);
    assert forall|k: int| #[trigger] is_first_entry(locked, name, k) implies first_locked(locked, name) == k by {
        let f = first_locked(locked, name);
        if f >= 0 && f < k {
            assert(locked[f].name@ != name);
        }
    }
    if !locked_names(locked).contains(name) {
        let f = first_locked(locked, name);
        if f >= 0 {
            assert(locked_names(locked)[f] == name);
        }
    }
}

/// Number of findings at a level.
pub open spec fn count_level(fs: Seq<(FindingLevel, Seq<char>, Seq<char>)>, level: FindingLevel) -> nat
    decreases fs.len(),
{
    if fs.len() == 0 {
        0
    } else {
        count_level(fs.drop_last(), level) + if fs.last().0 == level { 1nat } else { 0nat }
    }
}

proof fn lemma_count_level_bound(fs: Seq<(FindingLevel, Seq<char>, Seq<char>)>, level: FindingLevel)
    ensures
        count_level(fs, level) <= fs.len(),
    decreases fs.len(),
{
    if fs.len() > 0 {
        lemma_count_level_bound(fs.drop_last(), level);
    }
}

fn count_findings(report: &DoctorReport, level: FindingLevel) -> (r: usize)
    ensures
        r == count_level(findings_view(report.findings@), level),
{
    let ghost fs = findings_view(report.findings@);
    let mut n: usize = 0;
    let mut i: usize = 0;
    while i < report.findings.len()
        invariant
            i <= report.findings.len(),
            fs == findings_view(report.findings@),
            n == count_level(fs.subrange(0, i as int), level),
        decreases report.findings.len() - i,
    {
        assert(fs.subrange(0, i + 1).drop_last() =~= fs.subrange(0, i as int));
        assert(fs[i as int].0 == report.findings@[i as int].level);
        proof {
            lemma_count_level_bound(fs.subrange(0, i as int), level);
        }
        if report.findings[i].level == level {
            n = n + 1;
        }
        i = i + 1;
    }
    assert(fs.subrange(0, report.findings.len() as int) =~= fs);
    n
}

impl PyanpmService {
    /// The answer of the doctor: the report with its warnings and errors
    /// counted.
    pub fn doctor_with_options(&self, session: &OperationSession, report: DoctorReport) -> (r: (DoctorResult, Option<ActivityRecord>))
        ensures
            r.0.report == report,
            r.0.completion.warning_count == count_level(findings_view(report.findings@), FindingLevel::Warn),
            r.0.completion.error_count == count_level(findings_view(report.findings@), FindingLevel::Error),
            r.0.completion.affected_plugin_count == 0,
            r.0.completion.summary@ == if report.healthy { "Doctor completed without errors."@ } else { "Doctor completed with findings."@ },
            session.persist_activity <==> r.1 is Some,
            ends_run(*session, r.0.meta, r.1, r.0.completion.summary@, r.0.completion.error_count as int),
    {
        let warning_count = count_findings(&report, FindingLevel::Warn);
        let error_count = count_findings(&report, FindingLevel::Error);
        let summary = if report.healthy {
            String::from_str("Doctor completed without errors.")
        } else {
            String::from_str("Doctor completed with findings.")
        };
        let done = session.success(summary, 0, warning_count, error_count);
        (DoctorResult { meta: done.meta, report, completion: done.completion }, done.record)
    }

    /// The answer of the doctor run without the write probe: the same as
    /// `doctor_with_options` on the report gathered that way.
    pub fn doctor(&self, session: &OperationSession, report: DoctorReport) -> (r: (DoctorResult, Option<ActivityRecord>))
        ensures
            r.0.report == report,
            r.0.completion.warning_count == count_level(findings_view(report.findings@), FindingLevel::Warn),
            r.0.completion.error_count == count_level(findings_view(report.findings@), FindingLevel::Error),
            r.0.completion.affected_plugin_count == 0,
            r.0.completion.summary@ == if report.healthy { "Doctor completed without errors."@ } else { "Doctor completed with findings."@ },
            session.persist_activity <==> r.1 is Some,
            ends_run(*session, r.0.meta, r.1, r.0.completion.summary@, r.0.completion.error_count as int),
    {
        self.doctor_with_options(session, report)
    }

    /// The answer of `validate-source`: valid when the validation found no
    /// error.
    pub fn validate_source(&self, session: &OperationSession, validation: SourceValidation) -> (r: (ValidateSourceResult, Option<ActivityRecord>))
        ensures
            r.0.valid == (validation.errors@.len() == 0),
            r.0.normalized_source_ref == validation.normalized_source_ref,
            r.0.plugin_name == validation.plugin_name,
            r.0.errors == validation.errors,
            session.persist_activity <==> r.1 is Some,
            r.1 matches Some(rec) ==> rec.summary@ == if validation.errors@.len() == 0 { "Source validation passed."@ } else { "Source validation reported errors."@ },
            ends_run(*session, r.0.meta, r.1, if validation.errors@.len() == 0 { "Source validation passed."@ } else { "Source validation reported errors."@ }, validation.errors@.len() as int),
    {
        let error_count = validation.errors.len();
        let summary = if error_count == 0 {
            String::from_str("Source validation passed.")
        } else {
            String::from_str("Source validation reported errors.")
        };
        let affected: usize = match &validation.plugin_name {
            Some(_) => 1,
            None => 0,
        };
        let done = session.success(summary, affected, 0, error_count);
        (ValidateSourceResult {
            meta: done.meta,
            valid: error_count == 0,
            normalized_source_ref: validation.normalized_source_ref,
            plugin_name: validation.plugin_name,
            errors: validation.errors,
        }, done.record)
    }

    /// Clears the activity history and answers how many records it held.
    pub fn activity_clear(&self, session: &OperationSession, store: &mut ActivityStore) -> (r: ActivityClearResult)
        ensures
            r.cleared == old(store).records_view().len(),
            final(store).records_view().len() == 0,
            r.meta.command_id == session.command_id,
    {
        ActivityClearResult { meta: session.meta(), cleared: store.clear() }
    }

    /// Adds a parsed plugin to the manifest, refusing a name it already has;
    /// answers with the name to install.
    pub fn add(&self, manifest: &mut Manifest, parsed: ParsedPluginRef) -> (r: Result<String, PyanpmError>)
        ensures
            lookup(old(manifest)@, parsed.name@) is Some ==> (r matches Err(PyanpmError::PluginAlreadyExists(n)) && n == parsed.name && final(manifest)@ == old(manifest)@),
            lookup(old(manifest)@, parsed.name@) is None ==> (r matches Ok(n) && n == parsed.name
                && lookup(final(manifest)@, parsed.name@) == Some(parsed.spec)
                && forall|x: Seq<char>| x != parsed.name@ ==> lookup(final(manifest)@, x) == lookup(old(manifest)@, x)),
    {
        let ParsedPluginRef { spec, name } = parsed;
        if manifest.contains_key(name.as_str()) {
            return Err(PyanpmError::PluginAlreadyExists(name));
        }
        manifest.insert(name.clone(), spec);
        Ok(name)
    }

    /// The answer of `activity list`.
    pub fn activity_list(&self, session: &OperationSession, store: &ActivityStore) -> (r: ActivityListResult)
        ensures
            r.records@.len() == store.records_view().len(),
            forall|i: int| 0 <= i < r.records@.len() ==> same_record(#[trigger] r.records@[i], store.records_view()[i]),
            r.meta.command_id == session.command_id,
            r.meta.activity_id is None,
    {
        let records = clone_records(store.list());
        ActivityListResult { meta: session.meta(), records }
    }

    /// The answer of `activity show`: the record with the id, or
    /// `ActivityNotFound`.
    pub fn activity_show(&self, session: &OperationSession, store: &ActivityStore, activity_id: &str) -> (r: Result<ActivityShowResult, PyanpmError>)
        ensures
            r matches Ok(res) ==> exists|i: int| 0 <= i < store.records_view().len() && same_record(res.record, store.records_view()[i]) && res.record.id@ == activity_id@,
            r matches Ok(res) ==> res.meta.command_id == session.command_id,
            r is Err <==> forall|i: int| 0 <= i < store.records_view().len() ==> (#[trigger] store.records_view()[i]).id@ != activity_id@,
            r matches Err(e) ==> (e matches PyanpmError::ActivityNotFound(x) && x@ == activity_id@),
    {
        match store.get(activity_id) {
            Ok(record) => Ok(ActivityShowResult { meta: session.meta(), record: record.duplicate() }),
            Err(e) => Err(e),
        }
    }

    /// The answer of `cache list`: the entries and their total size.
    pub fn cache_list(&self, session: &OperationSession, entries: Vec<CacheEntry>) -> (r: CacheListResult)
        requires
            size_sum(entries@) <= u64::MAX,
        ensures
            r.entries == entries,
            r.total_size_bytes == size_sum(entries@),
            r.meta.command_id == session.command_id,
    {
        let total = match total_size_bytes(&entries) {
            Some(t) => t,
            None => 0,
        };
        CacheListResult { meta: session.meta(), total_size_bytes: total, entries }
    }

    /// The answer of `cache info`.
    pub fn cache_info(&self, session: &OperationSession, entry: CacheEntry) -> (r: CacheInfoResult)
        ensures
            r.entry == entry,
            r.meta.command_id == session.command_id,
    {
        CacheInfoResult { meta: session.meta(), entry }
    }

    /// Refuses to evict a cache entry the active lockfile references.
    pub fn cache_evict(&self, cache_id: &str, active_checksums: &Vec<String>) -> (r: Result<(), PyanpmError>)
        ensures
            r is Ok <==> !views(active_checksums@).contains(cache_id@),
            r is Err ==> (r matches Err(PyanpmError::ProtectedCacheEntry(x)) && x@ == cache_id@),
    {
        let mut i: usize = 0;
        while i < active_checksums.len()
            invariant
                i <= active_checksums.len(),
                forall|k: int| 0 <= k < i ==> active_checksums@[k]@ != cache_id@,
            decreases active_checksums.len() - i,
        {
            if str_eq(active_checksums[i].as_str(), cache_id) {
                assert(views(active_checksums@)[i as int] == cache_id@);
                return Err(PyanpmError::ProtectedCacheEntry(String::from_str(cache_id)));
            }
            i = i + 1;
        }
        proof {
            if views(active_checksums@).contains(cache_id@) {
                let k = choose|k: int| 0 <= k < views(active_checksums@).len() && views(active_checksums@)[k] == cache_id@;
                assert(active_checksums@[k]@ == cache_id@);
            }
        }
        Ok(())
    }

    /// The answer of a cache eviction that reclaimed `reclaimed_size_bytes`.
    pub fn cache_evict_result(&self, session: &OperationSession, cache_id: &str, reclaimed_size_bytes: u64) -> (r: (CacheMutationResult, Option<ActivityRecord>))
        ensures
            views(r.0.removed@) == seq![cache_id@],
            r.0.protected@.len() == 0,
            r.0.reclaimed_size_bytes == reclaimed_size_bytes,
            r.0.completion.summary@ == "Evicted cache entry `"@ + cache_id@ + "`."@,
            session.persist_activity <==> r.1 is Some,
            ends_run(*session, r.0.meta, r.1, r.0.completion.summary@, 0),
    {
        let done = session.success(concat3("Evicted cache entry `", cache_id, "`."), 0, 0, 0);
        let mut removed: Vec<String> = Vec::new();
        removed.push(String::from_str(cache_id));
        assert(views(removed@) =~= seq![cache_id@]);
        (CacheMutationResult { meta: done.meta, removed, protected: Vec::new(), reclaimed_size_bytes, completion: done.completion }, done.record)
    }

    /// The answer of a cache prune that removed `removed`.
    pub fn cache_prune(&self, session: &OperationSession, removed: Vec<String>, reclaimed_size_bytes: u64) -> (r: (CacheMutationResult, Option<ActivityRecord>))
        ensures
            r.0.removed == removed,
            r.0.protected@.len() == 0,
            r.0.reclaimed_size_bytes == reclaimed_size_bytes,
            r.0.completion.summary@ == "Pruned "@ + decimal_spec(removed@.len() as nat) + " cache entrie(s)."@,
            session.persist_activity <==> r.1 is Some,
            ends_run(*session, r.0.meta, r.1, r.0.completion.summary@, 0),
    {
        let count = to_decimal(removed.len());
        let done = session.success(concat3("Pruned ", count.as_str(), " cache entrie(s)."), 0, 0, 0);
        (CacheMutationResult { meta: done.meta, removed, protected: Vec::new(), reclaimed_size_bytes, completion: done.completion }, done.record)
    }

    /// The checksums the active lockfile references.
    pub fn active_lock_checksums(lockfile: &Lockfile) -> (r: Vec<String>)
        ensures
            r@.len() == lockfile.plugins@.len(),
            forall|i: int| 0 <= i < r@.len() ==> #[trigger] r@[i] == lockfile.plugins@[i].checksum,
    {
        let mut out: Vec<String> = Vec::new();
        let mut i: usize = 0;
        while i < lockfile.plugins.len()
            invariant
                i <= lockfile.plugins.len(),
                out@.len() == i,
                forall|k: int| 0 <= k < i ==> #[trigger] out@[k] == lockfile.plugins@[k].checksum,
            decreases lockfile.plugins.len() - i,
        {
            out.push(lockfile.plugins[i].checksum.clone());
            i = i + 1;
        }
        out
    }

    /// Removes a plugin from the lockfile (its first entry) and, unless the
    /// manifest entry is kept, from the manifest; answers the removed lock
    /// entry, whose target is to be deleted.
    pub fn remove(&self, manifest: &mut Manifest, lockfile: &mut Lockfile, plugin_name: &str, keep_manifest: bool) -> (r: Option<LockedPlugin>)
        ensures
            first_locked(old(lockfile).plugins@, plugin_name@) < 0 ==> r is None && final(lockfile).plugins@ == old(lockfile).plugins@,
            first_locked(old(lockfile).plugins@, plugin_name@) >= 0 ==> r == Some(old(lockfile).plugins@[first_locked(old(lockfile).plugins@, plugin_name@)])
                && final(lockfile).plugins@ == old(lockfile).plugins@.remove(first_locked(old(lockfile).plugins@, plugin_name@)),
            final(lockfile).version == old(lockfile).version,
            final(lockfile).generated_at == old(lockfile).generated_at,
            keep_manifest ==> final(manifest)@ == old(manifest)@,
            !keep_manifest ==> lookup(final(manifest)@, plugin_name@) is None
                && forall|n: Seq<char>| n != plugin_name@ ==> lookup(final(manifest)@, n) == lookup(old(manifest)@, n),
    {
        let locked = match find_locked(lockfile, plugin_name) {
            Some(i) => Some(lockfile.plugins.remove(i)),
            None => None,
        };
        if !keep_manifest {
            manifest.remove(plugin_name);
        }
        locked
    }

    /// Reports that the installed target of `plugin_name` is being removed.
    pub fn report_cleanup(&self, session: &mut OperationSession, plugin_name: &str)
        ensures
            crate::installation::one_more_event(*old(session), *final(session), plugin_name@, "cleanup"@, "Removing managed plugin target."@, None, None),
    {
        session.emit(Some(plugin_name), "cleanup", "Removing managed plugin target.", None, None, ProgressSeverity::Info);
    }

    /// The answer of `remove`.
    pub fn remove_result(&self, session: OperationSession, plugin_name: &str, keep_manifest: bool, removed_target_path: Option<String>) -> (r: (RemoveResult, Option<ActivityRecord>))
        ensures
            r.0.removed.name@ == plugin_name@,
            r.0.removed.keep_manifest == keep_manifest,
            r.0.removed.removed_manifest_entry == !keep_manifest,
            r.0.removed.removed_target_path == removed_target_path,
            r.0.progress == session.progress,
            r.0.completion.summary@ == "Removed managed plugin `"@ + plugin_name@ + "`."@,
            r.0.completion.affected_plugin_count == 1,
            session.persist_activity <==> r.1 is Some,
            ends_run(session, r.0.meta, r.1, r.0.completion.summary@, 0),
    {
        let done = session.success(concat3("Removed managed plugin `", plugin_name, "`."), 1, 0, 0);
        let OperationSession { progress, .. } = session;
        (RemoveResult {
            meta: done.meta,
            removed: RemovedPluginSummary {
                name: String::from_str(plugin_name),
                keep_manifest,
                removed_manifest_entry: !keep_manifest,
                removed_target_path,
            },
            progress,
            completion: done.completion,
        }, done.record)
    }

    /// Whether `reinstall` takes the plugin from the manifest (else from the
    /// lockfile).
    pub fn reinstall_from_manifest(manifest: &Manifest, plugin_name: &str) -> (r: bool)
        ensures
            r == (lookup(manifest@, plugin_name@) is Some),
    {
        manifest.contains_key(plugin_name)
    }

    /// The lock entry `reinstall` reinstalls when the manifest lacks the
    /// plugin: its first entry in the lockfile.
    pub fn locked_for_reinstall(lockfile: &Lockfile, plugin_name: &str) -> (r: Result<LockedPlugin, PyanpmError>)
        ensures
            first_locked(lockfile.plugins@, plugin_name@) >= 0 ==> r == Ok::<LockedPlugin, PyanpmError>(lockfile.plugins@[first_locked(lockfile.plugins@, plugin_name@)]),
            first_locked(lockfile.plugins@, plugin_name@) < 0 ==> (r matches Err(PyanpmError::UnknownPlugin(n)) && n@ == plugin_name@),
    {
        match find_locked(lockfile, plugin_name) {
            Some(i) => Ok(lockfile.plugins[i].duplicate()),
            None => Err(PyanpmError::UnknownPlugin(String::from_str(plugin_name))),
        }
    }

    /// The plugins `update` considers: all manifest plugins with `all`, else
    /// the named one.
    pub fn update_targets(manifest: &Manifest, plugin_name: Option<&str>, all: bool) -> (r: Result<Vec<String>, PyanpmError>)
        ensures
            all ==> (r matches Ok(v) && views(v@) == crate::config::key_seq(manifest@)),
            !all && plugin_name is Some ==> (r matches Ok(v) && views(v@) == seq![plugin_name->Some_0@]),
            !all && plugin_name is None ==> (r matches Err(PyanpmError::InvalidPluginRef(m)) && m@ == "provide a plugin name or use --all"@),
    {
        if all {
            Ok(manifest.names())
        } else {
            match plugin_name {
                Some(n) => {
                    let mut v: Vec<String> = Vec::new();
                    v.push(String::from_str(n));
                    assert(views(v@) =~= seq![n@]);
                    Ok(v)
                },
                None => Err(PyanpmError::InvalidPluginRef(String::from_str("provide a plugin name or use --all"))),
            }
        }
    }

    /// The manifest entries of `names`, in order; the first name the manifest
    /// lacks is an unknown plugin.
    pub fn select_manifest_specs(manifest: &Manifest, names: &Vec<String>) -> (r: Result<Vec<(String, ManifestPluginSpec)>, PyanpmError>)
        ensures
            r matches Ok(v) ==> v@.len() == names@.len() && forall|i: int| 0 <= i < v@.len() ==> (#[trigger] v@[i]).0 == names@[i]
                && lookup(manifest@, names@[i]@) == Some(v@[i].1),
            r is Err ==> exists|i: int| 0 <= i < names@.len() && lookup(manifest@, (#[trigger] names@[i])@) is None
                && (forall|j: int| 0 <= j < i ==> lookup(manifest@, (#[trigger] names@[j])@) is Some)
                && (r matches Err(PyanpmError::UnknownPlugin(n)) && n@ == names@[i]@),
    {
        let mut out: Vec<(String, ManifestPluginSpec)> = Vec::new();
        let mut i: usize = 0;
        while i < names.len()
            invariant
                i <= names.len(),
                out@.len() == i,
                forall|k: int| 0 <= k < i ==> (#[trigger] out@[k]).0 == names@[k] && lookup(manifest@, names@[k]@) == Some(out@[k].1),
            decreases names.len() - i,
        {
            match manifest.get(names[i].as_str()) {
                Some(spec) => {
                    out.push((names[i].clone(), spec.duplicate()));
                },
                None => {
                    proof {
                        assert forall|j: int| 0 <= j < i implies lookup(manifest@, (#[trigger] names@[j])@) is Some by {
                            assert(out@[j].0 == names@[j]);
                        }
                    }
                    return Err(PyanpmError::UnknownPlugin(names[i].clone()));
                },
            }
            i = i + 1;
        }
        Ok(out)
    }

    /// Every manifest entry in name order, as `install` installs them.
    pub fn all_manifest_specs(manifest: &Manifest) -> (r: Vec<(String, ManifestPluginSpec)>)
        ensures
            r@.len() == manifest@.len(),
            forall|i: int| 0 <= i < r@.len() ==> (#[trigger] r@[i]).0@ == manifest@[i].0 && r@[i].1 == manifest@[i].1,
    {
        let n = manifest.len();
        let mut out: Vec<(String, ManifestPluginSpec)> = Vec::new();
        let mut i: usize = 0;
        while i < n
            invariant
                n == manifest@.len(),
                i <= n,
                out@.len() == i,
                forall|k: int| 0 <= k < i ==> (#[trigger] out@[k]).0@ == manifest@[k].0 && out@[k].1 == manifest@[k].1,
            decreases n - i,
        {
            let (name, spec) = manifest.entry(i);
            out.push((name.clone(), spec.duplicate()));
            i = i + 1;
        }
        out
    }
}

/// `l` is the lock entry recording the installation of `resolved` from the
/// cached artifact `cached` at `target`, at time `at`.
pub open spec fn records_installation(l: LockedPlugin, resolved: ResolvedPlugin, cached: CachedArtifact, target: Seq<char>, at: i64) -> bool {
    &&& l.name == resolved.name
    &&& l.requested_version == resolved.requested_version
    &&& l.resolved_version == resolved.resolved_version
    &&& l.source == resolved.source
    &&& l.source_path == resolved.source_path
    &&& l.source_url == resolved.source_url
    &&& l.source_subdir == resolved.source_subdir
    &&& l.git_ref_kind == resolved.git_ref_kind
    &&& l.git_requested_ref == resolved.git_requested_ref
    &&& l.git_resolved_commit == resolved.git_resolved_commit
    &&& l.checksum == cached.checksum
    &&& l.artifact_kind == cached.artifact_kind
    &&& l.target_path@ == target
    &&& l.installed_at == at
}

/// The lock entry recording an installation.
pub fn build_locked_plugin(resolved: &ResolvedPlugin, cached: &CachedArtifact, target_path: &str, installed_at: i64) -> (r: LockedPlugin)
    ensures
        records_installation(r, *resolved, *cached, target_path@, installed_at),
{
    LockedPlugin {
        name: resolved.name.clone(),
        requested_version: clone_opt(&resolved.requested_version),
        resolved_version: clone_opt(&resolved.resolved_version),
        source: resolved.source,
        source_path: resolved.source_path.clone(),
        source_url: clone_opt(&resolved.source_url),
        source_subdir: clone_opt(&resolved.source_subdir),
        git_ref_kind: resolved.git_ref_kind,
        git_requested_ref: clone_opt(&resolved.git_requested_ref),
        git_resolved_commit: clone_opt(&resolved.git_resolved_commit),
        checksum: cached.checksum.clone(),
        artifact_kind: cached.artifact_kind,
        target_path: String::from_str(target_path),
        installed_at,
    }
}

/// The lock entries after recording `plugin`: it replaces the first entry of
/// the same name, or is added at the end.
pub open spec fn upserted(ps: Seq<LockedPlugin>, plugin: LockedPlugin) -> Seq<LockedPlugin> {
    let i = first_locked(ps, plugin.name@);
    if i >= 0 {
        ps.update(i, plugin)
    } else {
        ps.push(plugin)
    }
}

/// Records a plugin in the lockfile: it replaces the first entry of the same
/// name, or is added at the end.
pub fn upsert_locked_plugin(lockfile: &mut Lockfile, plugin: LockedPlugin)
    ensures
        final(lockfile).plugins@ == upserted(old(lockfile).plugins@, plugin),
        final(lockfile).version == old(lockfile).version,
        final(lockfile).generated_at == old(lockfile).generated_at,
{
    match find_locked(lockfile, plugin.name.as_str()) {
        Some(i) => {
            lockfile.plugins.set(i, plugin);
        },
        None => {
            lockfile.plugins.push(plugin);
        },
    }
}

/// The lockfile keeps what a git installation resolved: the repository URL,
/// the requested reference and its kind, the subdirectory and the commit the
/// checkout ended on.
pub proof fn lemma_lock_records_git_resolution(l: LockedPlugin, resolved: ResolvedPlugin, cached: CachedArtifact, target: Seq<char>, at: i64)
    requires
        records_installation(l, resolved, cached, target, at),
        resolved.source == PluginSourceKind::Git,
    ensures
        l.source == PluginSourceKind::Git,
        l.source_url == resolved.source_url,
        l.git_ref_kind == resolved.git_ref_kind,
        l.git_requested_ref == resolved.git_requested_ref,
        l.source_subdir == resolved.source_subdir,
        l.git_resolved_commit == resolved.git_resolved_commit,
{
}

/// After an upsert, the first lock entry of the plugin's name is the plugin,
/// and no other name gains or loses its first entry.
pub proof fn lemma_upsert_then_find(old_plugins: Seq<LockedPlugin>, plugin: LockedPlugin, other: Seq<char>)
    ensures
        ({
            let new_plugins = upserted(old_plugins, plugin);
            &&& first_locked(new_plugins, plugin.name@) >= 0
            &&& new_plugins[first_locked(new_plugins, plugin.name@)] == plugin
            &&& other != plugin.name@ ==> first_locked(new_plugins, other) == first_locked(old_plugins, other)
        }),
{
    let i = first_locked(old_plugins, plugin.name@);
    let new_plugins = if i >= 0 { old_plugins.update(i, plugin) } else { old_plugins.push(plugin) };
    lemma_first_locked(old_plugins, plugin.name@);
    lemma_first_locked(new_plugins, plugin.name@);
    lemma_first_locked(old_plugins, other);
    lemma_first_locked(new_plugins, other);
    let a = first_locked(new_plugins, plugin.name@);
    if i >= 0 {
        assert(new_plugins[i].name@ == plugin.name@);
        if a != i {
            if a < i {
                assert(new_plugins[a] == old_plugins[a]);
            }
        }
    } else {
        assert(new_plugins[old_plugins.len() as int].name@ == plugin.name@);
        if a < old_plugins.len() {
            assert(new_plugins[a] == old_plugins[a]);
        }
    }
    if other != plugin.name@ {
        let b = first_locked(old_plugins, other);
        let c = first_locked(new_plugins, other);
        if b >= 0 {
            assert(new_plugins[b].name@ == other) by {
                if i >= 0 && b == i {
                } else if i >= 0 {
                    assert(new_plugins[b] == old_plugins[b]);
                } else {
                    assert(new_plugins[b] == old_plugins[b]);
                }
            }
            if c < b {
                if i >= 0 && c == i {
                } else {
                    assert(new_plugins[c] == old_plugins[c]);
                }
            }
        } else {
            if c >= 0 {
                if i >= 0 && c == i {
                } else if c < old_plugins.len() {
                    assert(new_plugins[c] == old_plugins[c]);
                }
            }
        }
    }
}

/// The summary of one installed plugin.
pub fn installed_summary(resolved: &ResolvedPlugin, cached: &CachedArtifact, target_path: &str) -> (r: InstalledPluginSummary)
    ensures
        r.name == resolved.name,
        r.source@ == source_kind_name(resolved.source),
        r.checksum == cached.checksum,
        r.target_path@ == target_path@,
{
    InstalledPluginSummary {
        name: resolved.name.clone(),
        source: resolved.source.name(),
        checksum: cached.checksum.clone(),
        target_path: String::from_str(target_path),
    }
}

/// The stage a failed command records in its history: where each command
/// that keeps history can fail once it has started.
pub open spec fn failure_stage_spec(command_name: Seq<char>) -> Option<Seq<char>> {
    if command_name == "init"@ {
        Some("manifest"@)
    } else if command_name == "doctor"@ {
        Some("doctor"@)
    } else if command_name == "remove"@ {
        Some("cleanup"@)
    } else if command_name == "update"@ {
        Some("update"@)
    } else if command_name == "cache-evict"@ || command_name == "cache-prune"@ {
        Some("cache"@)
    } else if command_name == "add"@ || command_name == "install"@ || command_name == "reinstall"@ {
        Some("install"@)
    } else {
        None
    }
}

/// The stage a failed command records in its history.
pub fn failure_stage(command_name: &str) -> (r: Option<&'static str>)
    ensures
        opt_str_view(r) == failure_stage_spec(command_name@),
{
    proof {
        reveal_strlit("init");
        reveal_strlit("doctor");
        reveal_strlit("remove");
        reveal_strlit("update");
        reveal_strlit("cache-evict");
        reveal_strlit("cache-prune");
        reveal_strlit("add");
        reveal_strlit("install");
        reveal_strlit("reinstall");
    }
    if str_eq(command_name, "init") {
        Some("manifest")
    } else if str_eq(command_name, "doctor") {
        Some("doctor")
    } else if str_eq(command_name, "remove") {
        Some("cleanup")
    } else if str_eq(command_name, "update") {
        Some("update")
    } else if str_eq(command_name, "cache-evict") || str_eq(command_name, "cache-prune") {
        Some("cache")
    } else if str_eq(command_name, "add") || str_eq(command_name, "install") || str_eq(command_name, "reinstall") {
        Some("install")
    } else {
        None
    }
}

/// The view of an optional string slice.
pub open spec fn opt_str_view(o: Option<&str>) -> Option<Seq<char>> {
    match o {
        Some(s) => Some(s@),
        None => None,
    }
}

} // verus!
