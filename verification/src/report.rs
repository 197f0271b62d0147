//! The text the command line prints for each result, line by line.
use vstd::prelude::*;
use crate::audit::{DoctorFinding, FindingLevel};
use crate::command::DoctorResult;
use crate::operations::{
    ActivityClearResult, ActivityListResult, ActivityRecord, ActivityShowResult, ActivityStatus, CacheEntry,
    CacheInfoResult, CacheListResult, CacheMutationResult, CompletionSummary, DiffResult, InitResult,
    InstallResult, InstalledPluginSummary, ListResult, ListedPlugin, PluginStateKind, PluginStateSnapshot,
    ProgressEvent, ProgressSeverity, RemoveResult, UpdateCandidate, UpdateResult, ValidateSourceResult,
    ValidationIssue, ValidationSeverity,
};
use crate::order::{views, lemma_views_push};
use crate::text::{concat2, concat3, concat4, concat5, decimal_spec, i64_to_decimal, signed_decimal_spec, to_decimal, u64_to_decimal};

verus! {

/// An optional text, or `-` when absent.
pub open spec fn or_dash(o: Option<String>) -> Seq<char> {
    match o {
        Some(s) => s@,
        None => "-"@,
    }
}

fn dash_str(o: &Option<String>) -> (r: &str)
    ensures
        r@ == or_dash(*o),
{
    match o {
        Some(s) => s.as_str(),
        None => "-",
    }
}

/// Four fields separated by tabs.
pub open spec fn tab4(a: Seq<char>, b: Seq<char>, c: Seq<char>, d: Seq<char>) -> Seq<char> {
    a + "\t"@ + b + "\t"@ + c + "\t"@ + d
}

fn tab_join4(a: &str, b: &str, c: &str, d: &str) -> (r: String)
    ensures
        r@ == tab4(a@, b@, c@, d@),
{
    let mut s = concat3(a, "\t", b);
    s.append(concat4("\t", c, "\t", d).as_str());
    s
}

fn pair_line(a: &str, b: &str) -> (r: String)
    ensures
        r@ == a@ + b@,
{
    concat2(a, b)
}

pub open spec fn severity_text(s: ProgressSeverity) -> Seq<char> {
    match s {
        ProgressSeverity::Info => "Info"@,
        ProgressSeverity::Warn => "Warn"@,
        ProgressSeverity::Error => "Error"@,
    }
}

fn severity_str(s: ProgressSeverity) -> (r: &'static str)
    ensures
        r@ == severity_text(s),
{
    match s {
        ProgressSeverity::Info => "Info",
        ProgressSeverity::Warn => "Warn",
        ProgressSeverity::Error => "Error",
    }
}

pub open spec fn level_text(l: FindingLevel) -> Seq<char> {
    match l {
        FindingLevel::Pass => "Ok"@,
        FindingLevel::Warn => "Warn"@,
        FindingLevel::Error => "Error"@,
    }
}

fn level_str(l: FindingLevel) -> (r: &'static str)
    ensures
        r@ == level_text(l),
{
    match l {
        FindingLevel::Pass => "Ok",
        FindingLevel::Warn => "Warn",
        FindingLevel::Error => "Error",
    }
}

pub open spec fn validation_severity_text(s: ValidationSeverity) -> Seq<char> {
    match s {
        ValidationSeverity::Info => "Info"@,
        ValidationSeverity::Warning => "Warning"@,
        ValidationSeverity::Error => "Error"@,
    }
}

fn validation_severity_str(s: ValidationSeverity) -> (r: &'static str)
    ensures
        r@ == validation_severity_text(s),
{
    match s {
        ValidationSeverity::Info => "Info",
        ValidationSeverity::Warning => "Warning",
        ValidationSeverity::Error => "Error",
    }
}

pub open spec fn status_text(s: ActivityStatus) -> Seq<char> {
    match s {
        ActivityStatus::Success => "Success"@,
        ActivityStatus::Failed => "Failed"@,
        ActivityStatus::Partial => "Partial"@,
    }
}

fn status_str(s: ActivityStatus) -> (r: &'static str)
    ensures
        r@ == status_text(s),
{
    match s {
        ActivityStatus::Success => "Success",
        ActivityStatus::Failed => "Failed",
        ActivityStatus::Partial => "Partial",
    }
}

pub open spec fn state_text(s: PluginStateKind) -> Seq<char> {
    match s {
        PluginStateKind::Synced => "Synced"@,
        PluginStateKind::ManifestOnly => "ManifestOnly"@,
        PluginStateKind::LockOnly => "LockOnly"@,
        PluginStateKind::MissingInstall => "MissingInstall"@,
        PluginStateKind::StaleInstall => "StaleInstall"@,
        PluginStateKind::ChecksumDrift => "ChecksumDrift"@,
        PluginStateKind::SourceUnreadable => "SourceUnreadable"@,
        PluginStateKind::UnmanagedInstalledPlugin => "UnmanagedInstalledPlugin"@,
        PluginStateKind::TargetWriteRisk => "TargetWriteRisk"@,
    }
}

fn state_str(s: PluginStateKind) -> (r: &'static str)
    ensures
        r@ == state_text(s),
{
    match s {
        PluginStateKind::Synced => "Synced",
        PluginStateKind::ManifestOnly => "ManifestOnly",
        PluginStateKind::LockOnly => "LockOnly",
        PluginStateKind::MissingInstall => "MissingInstall",
        PluginStateKind::StaleInstall => "StaleInstall",
        PluginStateKind::ChecksumDrift => "ChecksumDrift",
        PluginStateKind::SourceUnreadable => "SourceUnreadable",
        PluginStateKind::UnmanagedInstalledPlugin => "UnmanagedInstalledPlugin",
        PluginStateKind::TargetWriteRisk => "TargetWriteRisk",
    }
}

/// The line of a progress event.
pub open spec fn progress_line(e: ProgressEvent) -> Seq<char> {
    "["@ + severity_text(e.severity) + "] "@ + or_dash(e.plugin_name) + " "@ + e.stage@ + ": "@ + e.message@
}

/// The closing line of a command's completion summary.
pub open spec fn completion_line(c: CompletionSummary) -> Seq<char> {
    "Summary: "@ + c.summary@ + " (affected: "@ + decimal_spec(c.affected_plugin_count as nat) + ", warnings: "@
        + decimal_spec(c.warning_count as nat) + ", errors: "@ + decimal_spec(c.error_count as nat) + ", duration: "@
        + signed_decimal_spec(c.duration_ms as int) + "ms)"@
}

fn completion_text(c: &CompletionSummary) -> (r: String)
    ensures
        r@ == completion_line(*c),
{
    let a = to_decimal(c.affected_plugin_count);
    let w = to_decimal(c.warning_count);
    let e = to_decimal(c.error_count);
    let d = i64_to_decimal(c.duration_ms);
    let mut s = concat4("Summary: ", c.summary.as_str(), " (affected: ", a.as_str());
    s.append(concat4(", warnings: ", w.as_str(), ", errors: ", e.as_str()).as_str());
    s.append(concat3(", duration: ", d.as_str(), "ms)").as_str());
    s
}

fn push_line(out: &mut Vec<String>, line: String)
    ensures
        views(final(out)@) == views(old(out)@).push(line@),
{
    proof {
        lemma_views_push(out@, line);
    }
    out.push(line);
}

fn push_progress_lines(out: &mut Vec<String>, events: &Vec<ProgressEvent>)
    ensures
        views(final(out)@) == views(old(out)@) + events@.map_values(|e: ProgressEvent| progress_line(e)),
{
    let ghost start = views(out@);
    let mut i: usize = 0;
    while i < events.len()
        invariant
            i <= events@.len(),
            views(out@) == start + events@.subrange(0, i as int).map_values(|e: ProgressEvent| progress_line(e)),
        decreases events.len() - i,
    {
        let e = &events[i];
        let mut line = concat4("[", severity_str(e.severity), "] ", dash_str(&e.plugin_name));
        line.append(concat4(" ", e.stage.as_str(), ": ", e.message.as_str()).as_str());
        assert(line@ =~= progress_line(*e));
        push_line(out, line);
        assert(events@.subrange(0, i + 1).map_values(|e: ProgressEvent| progress_line(e)) =~= events@.subrange(0, i as int).map_values(|e: ProgressEvent| progress_line(e)).push(progress_line(events@[i as int])));
        i = i + 1;
    }
    assert(events@.subrange(0, events@.len() as int) =~= events@);
}

/// What `init` prints.
pub open spec fn init_lines_spec(r: InitResult) -> Seq<Seq<char>> {
    seq!["Created manifest at "@ + r.manifest_path@, completion_line(r.completion)]
}

pub fn init_lines(r: &InitResult) -> (out: Vec<String>)
    ensures
        views(out@) == init_lines_spec(*r),
{
    let mut out: Vec<String> = Vec::new();
    push_line(&mut out, pair_line("Created manifest at ", r.manifest_path.as_str()));
    push_line(&mut out, completion_text(&r.completion));
    assert(views(out@) =~= init_lines_spec(*r));
    out
}

/// The line of an installed plugin.
pub open spec fn installed_line(p: InstalledPluginSummary) -> Seq<char> {
    "- "@ + p.name@ + " -> "@ + p.target_path@
}

/// What `add`, `install` and `reinstall` print.
pub open spec fn install_lines_spec(r: InstallResult) -> Seq<Seq<char>> {
    r.progress@.map_values(|e: ProgressEvent| progress_line(e))
        + seq!["Installed "@ + decimal_spec(r.installed@.len() as nat) + " plugin(s) into "@ + r.plugins_dir@]
        + r.installed@.map_values(|p: InstalledPluginSummary| installed_line(p))
        + seq![completion_line(r.completion)]
}

pub fn install_lines(r: &InstallResult) -> (out: Vec<String>)
    ensures
        views(out@) == install_lines_spec(*r),
{
    let mut out: Vec<String> = Vec::new();
    push_progress_lines(&mut out, &r.progress);
    let n = to_decimal(r.installed.len());
    push_line(&mut out, concat4("Installed ", n.as_str(), " plugin(s) into ", r.plugins_dir.as_str()));
    let ghost start = views(out@);
    let mut i: usize = 0;
    while i < r.installed.len()
        invariant
            i <= r.installed@.len(),
            views(out@) == start + r.installed@.subrange(0, i as int).map_values(|p: InstalledPluginSummary| installed_line(p)),
        decreases r.installed.len() - i,
    {
        let p = &r.installed[i];
        push_line(&mut out, concat4("- ", p.name.as_str(), " -> ", p.target_path.as_str()));
        assert(r.installed@.subrange(0, i + 1).map_values(|p: InstalledPluginSummary| installed_line(p)) =~= r.installed@.subrange(0, i as int).map_values(|p: InstalledPluginSummary| installed_line(p)).push(installed_line(r.installed@[i as int])));
        i = i + 1;
    }
    assert(r.installed@.subrange(0, r.installed@.len() as int) =~= r.installed@);
    push_line(&mut out, completion_text(&r.completion));
    assert(views(out@) =~= install_lines_spec(*r));
    out
}

/// The line of a listed plugin.
pub open spec fn listed_line(p: ListedPlugin) -> Seq<char> {
    tab4(p.name@, p.status@, or_dash(p.installed_version), or_dash(p.target_path))
}

/// What `list` prints.
pub open spec fn list_lines_spec(r: ListResult) -> Seq<Seq<char>> {
    if r.plugins@.len() == 0 {
        seq!["No managed plugins found."@]
    } else {
        r.plugins@.map_values(|p: ListedPlugin| listed_line(p))
    }
}

pub fn list_lines(r: &ListResult) -> (out: Vec<String>)
    ensures
        views(out@) == list_lines_spec(*r),
{
    let mut out: Vec<String> = Vec::new();
    if r.plugins.len() == 0 {
        push_line(&mut out, String::from_str("No managed plugins found."));
        assert(views(out@) =~= list_lines_spec(*r));
        return out;
    }
    let mut i: usize = 0;
    while i < r.plugins.len()
        invariant
            i <= r.plugins@.len(),
            views(out@) == r.plugins@.subrange(0, i as int).map_values(|p: ListedPlugin| listed_line(p)),
        decreases r.plugins.len() - i,
    {
        let p = &r.plugins[i];
        push_line(&mut out, tab_join4(p.name.as_str(), p.status.as_str(), dash_str(&p.installed_version), dash_str(&p.target_path)));
        assert(r.plugins@.subrange(0, i + 1).map_values(|p: ListedPlugin| listed_line(p)) =~= r.plugins@.subrange(0, i as int).map_values(|p: ListedPlugin| listed_line(p)).push(listed_line(r.plugins@[i as int])));
        i = i + 1;
    }
    assert(r.plugins@.subrange(0, r.plugins@.len() as int) =~= r.plugins@);
    out
}


/// The line of a doctor finding.
pub open spec fn finding_line(f: DoctorFinding) -> Seq<char> {
    "["@ + level_text(f.level) + "] "@ + f.code@ + ": "@ + f.message@
}

/// What `doctor` prints.
pub open spec fn doctor_lines_spec(r: DoctorResult) -> Seq<Seq<char>> {
    seq!["Doctor status: "@ + if r.report.healthy { "healthy"@ } else { "issues found"@ }]
        + r.report.findings@.map_values(|f: DoctorFinding| finding_line(f))
        + seq![completion_line(r.completion)]
}

pub fn doctor_lines(r: &DoctorResult) -> (out: Vec<String>)
    ensures
        views(out@) == doctor_lines_spec(*r),
{
    let mut out: Vec<String> = Vec::new();
    push_line(&mut out, pair_line("Doctor status: ", if r.report.healthy { "healthy" } else { "issues found" }));
    let ghost start = views(out@);
    let fs = &r.report.findings;
    let mut i: usize = 0;
    while i < fs.len()
        invariant
            i <= fs@.len(),
            views(out@) == start + fs@.subrange(0, i as int).map_values(|f: DoctorFinding| finding_line(f)),
        decreases fs.len() - i,
    {
        let f = &fs[i];
        let line = concat5("[", level_str(f.level), "] ", f.code.as_str(), pair_line(": ", f.message.as_str()).as_str());
        assert(line@ =~= finding_line(*f));
        push_line(&mut out, line);
        assert(fs@.subrange(0, i + 1).map_values(|f: DoctorFinding| finding_line(f)) =~= fs@.subrange(0, i as int).map_values(|f: DoctorFinding| finding_line(f)).push(finding_line(fs@[i as int])));
        i = i + 1;
    }
    assert(fs@.subrange(0, fs@.len() as int) =~= fs@);
    push_line(&mut out, completion_text(&r.completion));
    assert(views(out@) =~= doctor_lines_spec(*r));
    out
}

/// The line of a validation issue.
pub open spec fn issue_line(i: ValidationIssue) -> Seq<char> {
    "["@ + validation_severity_text(i.severity) + "] "@ + i.field@ + " "@ + i.code@ + ": "@ + i.message@
}

/// What `validate-source` prints.
pub open spec fn validate_source_lines_spec(r: ValidateSourceResult) -> Seq<Seq<char>> {
    seq!["Validation status: "@ + if r.valid { "valid"@ } else { "invalid"@ }]
        + match r.normalized_source_ref {
            Some(n) => seq!["Normalized source: "@ + n@],
            None => Seq::empty(),
        }
        + match r.plugin_name {
            Some(n) => seq!["Plugin name: "@ + n@],
            None => Seq::empty(),
        }
        + r.errors@.map_values(|i: ValidationIssue| issue_line(i))
}

pub fn validate_source_lines(r: &ValidateSourceResult) -> (out: Vec<String>)
    ensures
        views(out@) == validate_source_lines_spec(*r),
{
    let mut out: Vec<String> = Vec::new();
    push_line(&mut out, pair_line("Validation status: ", if r.valid { "valid" } else { "invalid" }));
    match &r.normalized_source_ref {
        Some(n) => push_line(&mut out, pair_line("Normalized source: ", n.as_str())),
        None => {},
    }
    match &r.plugin_name {
        Some(n) => push_line(&mut out, pair_line("Plugin name: ", n.as_str())),
        None => {},
    }
    let ghost start = views(out@);
    let es = &r.errors;
    let mut i: usize = 0;
    while i < es.len()
        invariant
            i <= es@.len(),
            views(out@) == start + es@.subrange(0, i as int).map_values(|i: ValidationIssue| issue_line(i)),
        decreases es.len() - i,
    {
        let e = &es[i];
        let mut line = concat5("[", validation_severity_str(e.severity), "] ", e.field.as_str(), " ");
        line.append(concat3(e.code.as_str(), ": ", e.message.as_str()).as_str());
        assert(line@ =~= issue_line(*e));
        push_line(&mut out, line);
        assert(es@.subrange(0, i + 1).map_values(|i: ValidationIssue| issue_line(i)) =~= es@.subrange(0, i as int).map_values(|i: ValidationIssue| issue_line(i)).push(issue_line(es@[i as int])));
        i = i + 1;
    }
    assert(es@.subrange(0, es@.len() as int) =~= es@);
    assert(views(out@) =~= validate_source_lines_spec(*r));
    out
}

/// The line of a plugin state snapshot.
pub open spec fn snapshot_line(s: PluginStateSnapshot) -> Seq<char> {
    tab4(s.plugin_name@, state_text(s.state), s.recommended_action@, or_dash(s.installed_path))
}

/// What `diff` prints.
pub open spec fn diff_lines_spec(r: DiffResult) -> Seq<Seq<char>> {
    if r.snapshots@.len() == 0 {
        seq!["No plugin state snapshots found."@]
    } else {
        r.snapshots@.map_values(|s: PluginStateSnapshot| snapshot_line(s))
    }
}

pub fn diff_lines(r: &DiffResult) -> (out: Vec<String>)
    ensures
        views(out@) == diff_lines_spec(*r),
{
    let mut out: Vec<String> = Vec::new();
    if r.snapshots.len() == 0 {
        push_line(&mut out, String::from_str("No plugin state snapshots found."));
        assert(views(out@) =~= diff_lines_spec(*r));
        return out;
    }
    let ss = &r.snapshots;
    let mut i: usize = 0;
    while i < ss.len()
        invariant
            i <= ss@.len(),
            views(out@) == ss@.subrange(0, i as int).map_values(|s: PluginStateSnapshot| snapshot_line(s)),
        decreases ss.len() - i,
    {
        let s = &ss[i];
        push_line(&mut out, tab_join4(s.plugin_name.as_str(), state_str(s.state), s.recommended_action.as_str(), dash_str(&s.installed_path)));
        assert(ss@.subrange(0, i + 1).map_values(|s: PluginStateSnapshot| snapshot_line(s)) =~= ss@.subrange(0, i as int).map_values(|s: PluginStateSnapshot| snapshot_line(s)).push(snapshot_line(ss@[i as int])));
        i = i + 1;
    }
    assert(ss@.subrange(0, ss@.len() as int) =~= ss@);
    out
}

/// What `remove` prints.
pub open spec fn remove_lines_spec(r: RemoveResult) -> Seq<Seq<char>> {
    r.progress@.map_values(|e: ProgressEvent| progress_line(e))
        + seq!["Removed plugin "@ + r.removed.name@ + " (manifest removed: "@ + crate::command::bool_text(r.removed.removed_manifest_entry)
            + ", target: "@ + or_dash(r.removed.removed_target_path) + ")"@]
        + seq![completion_line(r.completion)]
}

pub fn remove_lines(r: &RemoveResult) -> (out: Vec<String>)
    ensures
        views(out@) == remove_lines_spec(*r),
{
    let mut out: Vec<String> = Vec::new();
    push_progress_lines(&mut out, &r.progress);
    let flag = if r.removed.removed_manifest_entry { "true" } else { "false" };
    let mut line = concat4("Removed plugin ", r.removed.name.as_str(), " (manifest removed: ", flag);
    line.append(concat3(", target: ", dash_str(&r.removed.removed_target_path), ")").as_str());
    assert(line@ =~= "Removed plugin "@ + r.removed.name@ + " (manifest removed: "@ + crate::command::bool_text(r.removed.removed_manifest_entry)
        + ", target: "@ + or_dash(r.removed.removed_target_path) + ")"@);
    push_line(&mut out, line);
    push_line(&mut out, completion_text(&r.completion));
    assert(views(out@) =~= remove_lines_spec(*r));
    out
}

/// The line of an update candidate.
pub open spec fn candidate_line(c: UpdateCandidate) -> Seq<char> {
    tab4(c.plugin_name@, or_dash(c.current_version), or_dash(c.candidate_version), c.reason@)
}

/// What `update` prints.
pub open spec fn update_lines_spec(r: UpdateResult) -> Seq<Seq<char>> {
    r.progress@.map_values(|e: ProgressEvent| progress_line(e))
        + seq![if r.dry_run { "Dry-run update candidates:"@ } else { "Updated "@ + decimal_spec(r.updated@.len() as nat) + " plugin(s)"@ }]
        + r.candidates@.map_values(|c: UpdateCandidate| candidate_line(c))
        + seq![completion_line(r.completion)]
}

pub fn update_lines(r: &UpdateResult) -> (out: Vec<String>)
    ensures
        views(out@) == update_lines_spec(*r),
{
    let mut out: Vec<String> = Vec::new();
    push_progress_lines(&mut out, &r.progress);
    if r.dry_run {
        push_line(&mut out, String::from_str("Dry-run update candidates:"));
    } else {
        let n = to_decimal(r.updated.len());
        push_line(&mut out, concat3("Updated ", n.as_str(), " plugin(s)"));
    }
    let ghost start = views(out@);
    let cs = &r.candidates;
    let mut i: usize = 0;
    while i < cs.len()
        invariant
            i <= cs@.len(),
            views(out@) == start + cs@.subrange(0, i as int).map_values(|c: UpdateCandidate| candidate_line(c)),
        decreases cs.len() - i,
    {
        let c = &cs[i];
        push_line(&mut out, tab_join4(c.plugin_name.as_str(), dash_str(&c.current_version), dash_str(&c.candidate_version), c.reason.as_str()));
        assert(cs@.subrange(0, i + 1).map_values(|c: UpdateCandidate| candidate_line(c)) =~= cs@.subrange(0, i as int).map_values(|c: UpdateCandidate| candidate_line(c)).push(candidate_line(cs@[i as int])));
        i = i + 1;
    }
    assert(cs@.subrange(0, cs@.len() as int) =~= cs@);
    push_line(&mut out, completion_text(&r.completion));
    assert(views(out@) =~= update_lines_spec(*r));
    out
}

/// The line of an activity record in the history list.
pub open spec fn record_line(r: ActivityRecord) -> Seq<char> {
    tab4(r.id@, status_text(r.status), r.command_name@, r.summary@)
}

/// What `activity list` prints.
pub open spec fn activity_list_lines_spec(r: ActivityListResult) -> Seq<Seq<char>> {
    if r.records@.len() == 0 {
        seq!["No activity records found."@]
    } else {
        r.records@.map_values(|a: ActivityRecord| record_line(a))
    }
}

pub fn activity_list_lines(r: &ActivityListResult) -> (out: Vec<String>)
    ensures
        views(out@) == activity_list_lines_spec(*r),
{
    let mut out: Vec<String> = Vec::new();
    if r.records.len() == 0 {
        push_line(&mut out, String::from_str("No activity records found."));
        assert(views(out@) =~= activity_list_lines_spec(*r));
        return out;
    }
    let rs = &r.records;
    let mut i: usize = 0;
    while i < rs.len()
        invariant
            i <= rs@.len(),
            views(out@) == rs@.subrange(0, i as int).map_values(|a: ActivityRecord| record_line(a)),
        decreases rs.len() - i,
    {
        let a = &rs[i];
        push_line(&mut out, tab_join4(a.id.as_str(), status_str(a.status), a.command_name.as_str(), a.summary.as_str()));
        assert(rs@.subrange(0, i + 1).map_values(|a: ActivityRecord| record_line(a)) =~= rs@.subrange(0, i as int).map_values(|a: ActivityRecord| record_line(a)).push(record_line(rs@[i as int])));
        i = i + 1;
    }
    assert(rs@.subrange(0, rs@.len() as int) =~= rs@);
    out
}

/// What `activity show` prints.
pub open spec fn activity_show_lines_spec(r: ActivityShowResult) -> Seq<Seq<char>> {
    let a = r.record;
    seq!["id: "@ + a.id@, "command: "@ + a.command_name@, "state: "@ + a.state_path@, "status: "@ + status_text(a.status), "summary: "@ + a.summary@]
        + match a.error_message {
            Some(m) => seq!["error: "@ + m@],
            None => Seq::empty(),
        }
}

pub fn activity_show_lines(r: &ActivityShowResult) -> (out: Vec<String>)
    ensures
        views(out@) == activity_show_lines_spec(*r),
{
    let a = &r.record;
    let mut out: Vec<String> = Vec::new();
    push_line(&mut out, pair_line("id: ", a.id.as_str()));
    push_line(&mut out, pair_line("command: ", a.command_name.as_str()));
    push_line(&mut out, pair_line("state: ", a.state_path.as_str()));
    push_line(&mut out, pair_line("status: ", status_str(a.status)));
    push_line(&mut out, pair_line("summary: ", a.summary.as_str()));
    match &a.error_message {
        Some(m) => push_line(&mut out, pair_line("error: ", m.as_str())),
        None => {},
    }
    assert(views(out@) =~= activity_show_lines_spec(*r));
    out
}

/// What `activity clear` prints.
pub open spec fn activity_clear_lines_spec(r: ActivityClearResult) -> Seq<Seq<char>> {
    seq!["Cleared "@ + decimal_spec(r.cleared as nat) + " activity record(s)."@]
}

pub fn activity_clear_lines(r: &ActivityClearResult) -> (out: Vec<String>)
    ensures
        views(out@) == activity_clear_lines_spec(*r),
{
    let mut out: Vec<String> = Vec::new();
    let n = to_decimal(r.cleared);
    push_line(&mut out, concat3("Cleared ", n.as_str(), " activity record(s)."));
    assert(views(out@) =~= activity_clear_lines_spec(*r));
    out
}

/// The line of a cache entry in the cache list.
pub open spec fn cache_entry_line(e: CacheEntry) -> Seq<char> {
    tab4(e.cache_id@, e.plugin_name@, decimal_spec(e.size_bytes as nat), e.path@)
}

/// What `cache list` prints.
pub open spec fn cache_list_lines_spec(r: CacheListResult) -> Seq<Seq<char>> {
    seq!["Total cache size: "@ + decimal_spec(r.total_size_bytes as nat) + " bytes"@]
        + r.entries@.map_values(|e: CacheEntry| cache_entry_line(e))
}

pub fn cache_list_lines(r: &CacheListResult) -> (out: Vec<String>)
    ensures
        views(out@) == cache_list_lines_spec(*r),
{
    let mut out: Vec<String> = Vec::new();
    let total = u64_to_decimal(r.total_size_bytes);
    push_line(&mut out, concat3("Total cache size: ", total.as_str(), " bytes"));
    let ghost start = views(out@);
    let es = &r.entries;
    let mut i: usize = 0;
    while i < es.len()
        invariant
            i <= es@.len(),
            views(out@) == start + es@.subrange(0, i as int).map_values(|e: CacheEntry| cache_entry_line(e)),
        decreases es.len() - i,
    {
        let e = &es[i];
        let size = u64_to_decimal(e.size_bytes);
        push_line(&mut out, tab_join4(e.cache_id.as_str(), e.plugin_name.as_str(), size.as_str(), e.path.as_str()));
        assert(es@.subrange(0, i + 1).map_values(|e: CacheEntry| cache_entry_line(e)) =~= es@.subrange(0, i as int).map_values(|e: CacheEntry| cache_entry_line(e)).push(cache_entry_line(es@[i as int])));
        i = i + 1;
    }
    assert(es@.subrange(0, es@.len() as int) =~= es@);
    assert(views(out@) =~= cache_list_lines_spec(*r));
    out
}

/// What `cache info` prints.
pub open spec fn cache_info_lines_spec(r: CacheInfoResult) -> Seq<Seq<char>> {
    let e = r.entry;
    seq!["cache id: "@ + e.cache_id@, "plugin: "@ + e.plugin_name@, "checksum: "@ + e.checksum@, "size: "@ + decimal_spec(e.size_bytes as nat), "path: "@ + e.path@]
}

pub fn cache_info_lines(r: &CacheInfoResult) -> (out: Vec<String>)
    ensures
        views(out@) == cache_info_lines_spec(*r),
{
    let e = &r.entry;
    let mut out: Vec<String> = Vec::new();
    push_line(&mut out, pair_line("cache id: ", e.cache_id.as_str()));
    push_line(&mut out, pair_line("plugin: ", e.plugin_name.as_str()));
    push_line(&mut out, pair_line("checksum: ", e.checksum.as_str()));
    let size = u64_to_decimal(e.size_bytes);
    push_line(&mut out, pair_line("size: ", size.as_str()));
    push_line(&mut out, pair_line("path: ", e.path.as_str()));
    assert(views(out@) =~= cache_info_lines_spec(*r));
    out
}

/// The lines listing cache ids, each as `- id`.
pub open spec fn id_lines(ids: Seq<String>) -> Seq<Seq<char>> {
    ids.map_values(|s: String| "- "@ + s@)
}

fn push_id_lines(out: &mut Vec<String>, ids: &Vec<String>)
    ensures
        views(final(out)@) == views(old(out)@) + id_lines(ids@),
{
    let ghost start = views(out@);
    let mut i: usize = 0;
    while i < ids.len()
        invariant
            i <= ids@.len(),
            views(out@) == start + id_lines(ids@.subrange(0, i as int)),
        decreases ids.len() - i,
    {
        push_line(out, pair_line("- ", ids[i].as_str()));
        assert(id_lines(ids@.subrange(0, i + 1)) =~= id_lines(ids@.subrange(0, i as int)).push("- "@ + ids@[i as int]@));
        i = i + 1;
    }
    assert(ids@.subrange(0, ids@.len() as int) =~= ids@);
}

/// What `cache evict` and `cache prune` print.
pub open spec fn cache_mutation_lines_spec(r: CacheMutationResult) -> Seq<Seq<char>> {
    seq!["Removed "@ + decimal_spec(r.removed@.len() as nat) + " cache entrie(s)."@]
        + id_lines(r.removed@)
        + if r.protected@.len() == 0 { Seq::empty() } else { seq!["Protected:"@] + id_lines(r.protected@) }
        + seq![completion_line(r.completion)]
}

pub fn cache_mutation_lines(r: &CacheMutationResult) -> (out: Vec<String>)
    ensures
        views(out@) == cache_mutation_lines_spec(*r),
{
    let mut out: Vec<String> = Vec::new();
    let n = to_decimal(r.removed.len());
    push_line(&mut out, concat3("Removed ", n.as_str(), " cache entrie(s)."));
    push_id_lines(&mut out, &r.removed);
    if r.protected.len() != 0 {
        push_line(&mut out, String::from_str("Protected:"));
        push_id_lines(&mut out, &r.protected);
    }
    push_line(&mut out, completion_text(&r.completion));
    assert(views(out@) =~= cache_mutation_lines_spec(*r));
    out
}

} // verus!
