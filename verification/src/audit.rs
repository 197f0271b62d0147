//! The doctor: a health report over the manifest, the lockfile, git, the
//! cache, the Studio plugins directory and every plugin source.
use vstd::prelude::*;
use crate::config::{Lockfile, LockedPlugin, Manifest, ManifestPluginSpec, locked_names, lookup};
use crate::error::{PyanpmError, error_message};
use crate::plugin::{PluginSourceKind, ResolvedPlugin};
use crate::text::{concat2, concat3, concat4, concat5, opt_view, str_eq};

verus! {

#[derive(Debug, Clone, Copy, PartialEq, Eq, Structural)]
pub enum FindingLevel {
    Pass,
    Warn,
    Error,
}

/// One observation of the doctor.
#[derive(Debug)]
pub struct DoctorFinding {
    pub level: FindingLevel,
    pub code: String,
    pub message: String,
}

/// The doctor's report: healthy when no finding is an error.
#[derive(Debug)]
pub struct DoctorReport {
    pub healthy: bool,
    pub findings: Vec<DoctorFinding>,
}

/// A finding as level, code and message.
pub open spec fn fv(f: DoctorFinding) -> (FindingLevel, Seq<char>, Seq<char>) {
    (f.level, f.code@, f.message@)
}

pub open spec fn findings_view(s: Seq<DoctorFinding>) -> Seq<(FindingLevel, Seq<char>, Seq<char>)> {
    s.map_values(|f: DoctorFinding| fv(f))
}

proof fn lemma_findings_push(s: Seq<DoctorFinding>, f: DoctorFinding)
    ensures
        findings_view(s.push(f)) == findings_view(s).push(fv(f)),
{
    assert(findings_view(s.push(f)) =~= findings_view(s).push(fv(f)));
}

pub open spec fn okf(code: Seq<char>, message: Seq<char>) -> (FindingLevel, Seq<char>, Seq<char>) {
    (FindingLevel::Pass, code, message)
}

pub open spec fn warnf(code: Seq<char>, message: Seq<char>) -> (FindingLevel, Seq<char>, Seq<char>) {
    (FindingLevel::Warn, code, message)
}

pub open spec fn errf(code: Seq<char>, message: Seq<char>) -> (FindingLevel, Seq<char>, Seq<char>) {
    (FindingLevel::Error, code, message)
}

/// A finding that something is fine.
pub fn ok(code: &str, message: &str) -> (r: DoctorFinding)
    ensures
        fv(r) == okf(code@, message@),
{
    DoctorFinding { level: FindingLevel::Pass, code: String::from_str(code), message: String::from_str(message) }
}

/// A finding that needs attention but is not an error.
pub fn warn(code: &str, message: &str) -> (r: DoctorFinding)
    ensures
        fv(r) == warnf(code@, message@),
{
    DoctorFinding { level: FindingLevel::Warn, code: String::from_str(code), message: String::from_str(message) }
}

/// A finding that makes the report unhealthy.
pub fn error(code: &str, message: &str) -> (r: DoctorFinding)
    ensures
        fv(r) == errf(code@, message@),
{
    DoctorFinding { level: FindingLevel::Error, code: String::from_str(code), message: String::from_str(message) }
}

/// The code suffix and message of a git source that could not be resolved.
pub open spec fn git_source_error_spec(name: Seq<char>, e: PyanpmError) -> (Seq<char>, Seq<char>) {
    let who = "Git source for `"@ + name + "`"@;
    match e {
        PyanpmError::MissingGitExecutable => ("git_missing"@, who + " cannot be resolved because Git is not available in PATH."@),
        PyanpmError::GitCloneFailed { message, .. } => ("clone_failed"@, who + " could not be cloned: "@ + message@),
        PyanpmError::GitFetchFailed { message, .. } => ("fetch_failed"@, who + " could not be refreshed: "@ + message@),
        PyanpmError::GitCheckoutFailed { message, .. } => ("checkout_failed"@, who + " could not be checked out: "@ + message@),
        PyanpmError::InvalidGitUrl(d) => ("invalid_url"@, who + " has an invalid URL: "@ + d@),
        PyanpmError::InvalidGitRef(d) => ("invalid_ref"@, who + " has an invalid ref: "@ + d@),
        PyanpmError::InvalidGitSubdir(d) => ("invalid_subdir"@, who + " has an invalid subdirectory: "@ + d@),
        PyanpmError::MissingMetadata(p) => ("missing_metadata"@, who + " is missing `pyanpm.plugin.toml` at "@ + p@ + "."@),
        PyanpmError::InvalidMetadata(d) => ("invalid_metadata"@, who + " has invalid metadata: "@ + d@),
        PyanpmError::UnsupportedArtifact(p) => ("unsupported_artifact"@, who + " points to an unsupported artifact at "@ + p@ + "."@),
        other => ("unreadable"@, who + " is unreadable: "@ + error_message(other)),
    }
}

pub open spec fn git_source_error_finding(name: Seq<char>, e: PyanpmError) -> (FindingLevel, Seq<char>, Seq<char>) {
    errf("source.git."@ + name + "."@ + git_source_error_spec(name, e).0, git_source_error_spec(name, e).1)
}

/// The finding for a git source that failed to resolve, by the kind of
/// failure.
pub fn git_source_error(name: &str, e: &PyanpmError) -> (r: DoctorFinding)
    ensures
        fv(r) == git_source_error_finding(name@, *e),
{
    let who = concat3("Git source for `", name, "`");
    let (suffix, message) = match e {
        PyanpmError::MissingGitExecutable => ("git_missing", concat2(who.as_str(), " cannot be resolved because Git is not available in PATH.")),
        PyanpmError::GitCloneFailed { message, .. } => ("clone_failed", concat3(who.as_str(), " could not be cloned: ", message.as_str())),
        PyanpmError::GitFetchFailed { message, .. } => ("fetch_failed", concat3(who.as_str(), " could not be refreshed: ", message.as_str())),
        PyanpmError::GitCheckoutFailed { message, .. } => ("checkout_failed", concat3(who.as_str(), " could not be checked out: ", message.as_str())),
        PyanpmError::InvalidGitUrl(d) => ("invalid_url", concat3(who.as_str(), " has an invalid URL: ", d.as_str())),
        PyanpmError::InvalidGitRef(d) => ("invalid_ref", concat3(who.as_str(), " has an invalid ref: ", d.as_str())),
        PyanpmError::InvalidGitSubdir(d) => ("invalid_subdir", concat3(who.as_str(), " has an invalid subdirectory: ", d.as_str())),
        PyanpmError::MissingMetadata(p) => ("missing_metadata", concat4(who.as_str(), " is missing `pyanpm.plugin.toml` at ", p.as_str(), ".")),
        PyanpmError::InvalidMetadata(d) => ("invalid_metadata", concat3(who.as_str(), " has invalid metadata: ", d.as_str())),
        PyanpmError::UnsupportedArtifact(p) => ("unsupported_artifact", concat4(who.as_str(), " points to an unsupported artifact at ", p.as_str(), ".")),
        other => {
            let m = other.message();
            ("unreadable", concat3(who.as_str(), " is unreadable: ", m.as_str()))
        },
    };
    let code = concat4("source.git.", name, ".", suffix);
    let r = DoctorFinding { level: FindingLevel::Error, code, message };
    r
}

/// What the doctor learned about the Studio plugins directory.
pub struct PluginsDirCheck {
    /// The directory as resolved.
    pub dir: String,
    /// The outcome of the write probe, when one was asked for (the message
    /// of the write error on failure).
    pub write_probe: Option<Result<(), String>>,
    /// For each lockfile entry in order: the checksum of its installed
    /// target, or `None` when the target is missing.  Empty without a
    /// lockfile.
    pub installed: Vec<Option<String>>,
}

/// Everything the doctor observed, gathered in the order it looks.
pub struct DoctorFacts {
    /// Loading the manifest.
    pub manifest: Result<Manifest, PyanpmError>,
    /// Loading the lockfile (`None` when it does not exist).
    pub lockfile: Result<Option<Lockfile>, PyanpmError>,
    /// Whether git can run, checked only when some source is a git source.
    pub git: Option<Result<(), PyanpmError>>,
    /// The cache root, or why it is not accessible.
    pub cache_root: Result<String, PyanpmError>,
    /// The plugins directory, or why it cannot be resolved.
    pub plugins_dir: Result<PluginsDirCheck, PyanpmError>,
    /// For each manifest entry in order: the outcome of resolving its
    /// source, `None` for an entry the doctor does not resolve.
    pub sources: Vec<Option<Result<ResolvedPlugin, PyanpmError>>>,
}

/// Some manifest entry or lock entry is a git source.
pub open spec fn has_git_sources_spec(manifest: Seq<(Seq<char>, ManifestPluginSpec)>, locked: Seq<LockedPlugin>) -> bool {
    (exists|i: int| 0 <= i < manifest.len() && manifest[i].1.source == PluginSourceKind::Git)
        || (exists|i: int| 0 <= i < locked.len() && locked[i].source == PluginSourceKind::Git)
}

pub open spec fn loaded_manifest_view(m: Result<Manifest, PyanpmError>) -> Seq<(Seq<char>, ManifestPluginSpec)> {
    match m {
        Ok(m) => m@,
        Err(_) => Seq::empty(),
    }
}

pub open spec fn loaded_locked(l: Result<Option<Lockfile>, PyanpmError>) -> Seq<LockedPlugin> {
    match l {
        Ok(Some(l)) => l.plugins@,
        _ => Seq::empty(),
    }
}

/// Whether the doctor must check git: some loaded source is a git source.
pub fn has_git_sources(manifest: &Result<Manifest, PyanpmError>, lockfile: &Result<Option<Lockfile>, PyanpmError>) -> (r: bool)
    ensures
        r == has_git_sources_spec(loaded_manifest_view(*manifest), loaded_locked(*lockfile)),
{
    let mut found = false;
    match manifest {
        Ok(m) => {
            let n = m.len();
            let mut i: usize = 0;
            while i < n
                invariant
                    n == m@.len(),
                    i <= n,
                    !found ==> forall|j: int| 0 <= j < i ==> m@[j].1.source != PluginSourceKind::Git,
                    found ==> exists|j: int| 0 <= j < m@.len() && m@[j].1.source == PluginSourceKind::Git,
                decreases n - i,
            {
                let (_, spec) = m.entry(i);
                if spec.source == PluginSourceKind::Git {
                    found = true;
                }
                i = i + 1;
            }
        },
        Err(_) => {},
    }
    let mut found_lock = false;
    match lockfile {
        Ok(Some(l)) => {
            let mut i: usize = 0;
            while i < l.plugins.len()
                invariant
                    i <= l.plugins.len(),
                    !found_lock ==> forall|j: int| 0 <= j < i ==> l.plugins@[j].source != PluginSourceKind::Git,
                    found_lock ==> exists|j: int| 0 <= j < l.plugins@.len() && l.plugins@[j].source == PluginSourceKind::Git,
                decreases l.plugins.len() - i,
            {
                if l.plugins[i].source == PluginSourceKind::Git {
                    found_lock = true;
                }
                i = i + 1;
            }
        },
        _ => {},
    }
    found || found_lock
}

/// Whether the doctor resolves a manifest entry: all entries are, except git
/// sources when git is not available.
pub fn should_resolve(spec: &ManifestPluginSpec, git_available: bool) -> (r: bool)
    ensures
        r == !(spec.source == PluginSourceKind::Git && !git_available),
{
    !(spec.source == PluginSourceKind::Git && !git_available)
}

/// Git is available, or was not needed.
pub open spec fn git_available_spec(git: Option<Result<(), PyanpmError>>) -> bool {
    match git {
        Some(Err(_)) => false,
        _ => true,
    }
}

pub open spec fn manifest_findings(m: Result<Manifest, PyanpmError>) -> Seq<(FindingLevel, Seq<char>, Seq<char>)> {
    match m {
        Ok(_) => seq![okf("manifest"@, "Manifest parsed successfully."@)],
        Err(e) => seq![errf("manifest.parse"@, error_message(e))],
    }
}

/// An error for every lock entry whose name appeared earlier.
pub open spec fn duplicate_findings(names: Seq<Seq<char>>) -> Seq<(FindingLevel, Seq<char>, Seq<char>)>
    decreases names.len(),
{
    if names.len() == 0 {
        Seq::empty()
    } else {
        let n = names.last();
        duplicate_findings(names.drop_last()) + if names.drop_last().contains(n) {
            seq![errf("lockfile.duplicate."@ + n, "Lockfile contains duplicate entries for `"@ + n + "`."@)]
        } else {
            Seq::empty()
        }
    }
}

pub open spec fn lockfile_findings(l: Result<Option<Lockfile>, PyanpmError>) -> Seq<(FindingLevel, Seq<char>, Seq<char>)> {
    match l {
        Ok(Some(lf)) => seq![okf("lockfile"@, "Lockfile parsed successfully."@)] + duplicate_findings(locked_names(lf.plugins@)),
        Ok(None) => seq![warnf("lockfile.missing"@, "Lockfile does not exist yet."@)],
        Err(e) => seq![errf("lockfile.parse"@, error_message(e))],
    }
}

pub open spec fn git_findings(g: Option<Result<(), PyanpmError>>) -> Seq<(FindingLevel, Seq<char>, Seq<char>)> {
    match g {
        None => Seq::empty(),
        Some(Ok(())) => seq![okf("git.access"@, "Git is available in PATH."@)],
        Some(Err(e)) => seq![errf("git.access"@, error_message(e))],
    }
}

pub open spec fn cache_findings(c: Result<String, PyanpmError>) -> Seq<(FindingLevel, Seq<char>, Seq<char>)> {
    match c {
        Ok(root) => seq![okf("cache.access"@, "Cache directory is accessible at "@ + root@ + "."@)],
        Err(e) => seq![errf("cache.access"@, error_message(e))],
    }
}

pub open spec fn probe_findings(p: Option<Result<(), String>>) -> Seq<(FindingLevel, Seq<char>, Seq<char>)> {
    match p {
        None => Seq::empty(),
        Some(Ok(())) => seq![okf("plugins_dir.write_probe"@, "Write probe succeeded in the Studio plugins directory."@)],
        Some(Err(m)) => seq![errf("plugins_dir.write_probe"@, "Write probe failed in the Studio plugins directory: "@ + m@)],
    }
}

/// Findings on one lock entry: missing git details, then its installed copy.
pub open spec fn locked_plugin_findings(p: LockedPlugin, installed: Option<String>) -> Seq<(FindingLevel, Seq<char>, Seq<char>)> {
    let n = p.name@;
    let git_url = if p.source == PluginSourceKind::Git && p.source_url is None {
        seq![errf("lockfile.git."@ + n + ".source_url"@, "Git lockfile entry `"@ + n + "` is missing its source URL."@)]
    } else {
        Seq::empty()
    };
    let git_commit = if p.source == PluginSourceKind::Git && p.git_resolved_commit is None {
        seq![errf("lockfile.git."@ + n + ".resolved_commit"@, "Git lockfile entry `"@ + n + "` is missing its resolved commit."@)]
    } else {
        Seq::empty()
    };
    let install = match installed {
        None => errf("plugin."@ + n + ".missing"@, "Managed plugin `"@ + n + "` is missing from disk."@),
        Some(c) => if c@ == p.checksum@ {
            okf("plugin."@ + n + ".checksum"@, "Installed plugin `"@ + n + "` matches the recorded checksum."@)
        } else {
            errf("plugin."@ + n + ".checksum"@, "Installed plugin `"@ + n + "` has checksum drift."@)
        },
    };
    git_url + git_commit + seq![install]
}

pub open spec fn locked_findings(ps: Seq<LockedPlugin>, installed: Seq<Option<String>>) -> Seq<(FindingLevel, Seq<char>, Seq<char>)>
    decreases ps.len(),
{
    if ps.len() == 0 {
        Seq::empty()
    } else {
        locked_findings(ps.drop_last(), installed) + locked_plugin_findings(ps.last(), installed[ps.len() - 1])
    }
}

pub open spec fn plugins_dir_findings(p: Result<PluginsDirCheck, PyanpmError>, l: Result<Option<Lockfile>, PyanpmError>) -> Seq<(FindingLevel, Seq<char>, Seq<char>)> {
    match p {
        Ok(check) => seq![okf("plugins_dir.access"@, "Studio plugins directory is accessible at "@ + check.dir@ + "."@)]
            + probe_findings(check.write_probe) + locked_findings(loaded_locked(l), check.installed@),
        Err(e) => seq![errf("plugins_dir.access"@, error_message(e))],
    }
}

/// Warnings for manifest entries the lockfile lacks.
pub open spec fn unlocked_findings(entries: Seq<(Seq<char>, ManifestPluginSpec)>, locked: Seq<LockedPlugin>) -> Seq<(FindingLevel, Seq<char>, Seq<char>)>
    decreases entries.len(),
{
    if entries.len() == 0 {
        Seq::empty()
    } else {
        let n = entries.last().0;
        unlocked_findings(entries.drop_last(), locked) + if locked_names(locked).contains(n) {
            Seq::empty()
        } else {
            seq![warnf("lockfile.missing."@ + n, "Manifest plugin `"@ + n + "` is not present in the lockfile yet."@)]
        }
    }
}

/// Warnings for lock entries the manifest lacks.
pub open spec fn stale_findings(entries: Seq<(Seq<char>, ManifestPluginSpec)>, locked: Seq<LockedPlugin>) -> Seq<(FindingLevel, Seq<char>, Seq<char>)>
    decreases locked.len(),
{
    if locked.len() == 0 {
        Seq::empty()
    } else {
        let n = locked.last().name@;
        stale_findings(entries, locked.drop_last()) + if lookup(entries, n) is Some {
            Seq::empty()
        } else {
            seq![warnf("lockfile.stale."@ + n, "Lockfile entry `"@ + n
                + "` is not present in the manifest. Suggested action: remove the stale lock entry or run install."@)]
        }
    }
}

pub open spec fn consistency_findings(m: Result<Manifest, PyanpmError>, l: Result<Option<Lockfile>, PyanpmError>) -> Seq<(FindingLevel, Seq<char>, Seq<char>)> {
    match (m, l) {
        (Ok(m), Ok(Some(lf))) => unlocked_findings(m@, lf.plugins@) + stale_findings(m@, lf.plugins@),
        _ => Seq::empty(),
    }
}

/// The entry at `j` resolved and registered its install target.
pub open spec fn registers_target(entries: Seq<(Seq<char>, ManifestPluginSpec)>, sources: Seq<Option<Result<ResolvedPlugin, PyanpmError>>>, git_ok: bool, j: int) -> bool {
    !(entries[j].1.source == PluginSourceKind::Git && !git_ok) && sources[j] matches Some(Ok(_))
}

/// The last entry before `i` that resolved to the install target `target`.
pub open spec fn previous_owner(entries: Seq<(Seq<char>, ManifestPluginSpec)>, sources: Seq<Option<Result<ResolvedPlugin, PyanpmError>>>, git_ok: bool, i: int, target: Seq<char>) -> Option<Seq<char>>
    decreases i,
{
    if i <= 0 {
        None
    } else if registers_target(entries, sources, git_ok, i - 1) && sources[i - 1]->Some_0->Ok_0.install_name@ == target {
        Some(entries[i - 1].0)
    } else {
        previous_owner(entries, sources, git_ok, i - 1, target)
    }
}

/// Findings on the source of manifest entry `i`.
pub open spec fn source_entry_findings(entries: Seq<(Seq<char>, ManifestPluginSpec)>, sources: Seq<Option<Result<ResolvedPlugin, PyanpmError>>>, git_ok: bool, i: int) -> Seq<(FindingLevel, Seq<char>, Seq<char>)> {
    let n = entries[i].0;
    let spec = entries[i].1;
    if spec.source == PluginSourceKind::Git && !git_ok {
        seq![errf("source.git."@ + n + ".git_missing"@, "Git source for `"@ + n + "` cannot be resolved because Git is not available in PATH."@)]
    } else {
        match sources[i] {
            Some(Ok(res)) => {
                let readable = if spec.source == PluginSourceKind::Git {
                    seq![okf("source.git."@ + n, "Git source for `"@ + n + "` is readable at commit "@ + match res.git_resolved_commit {
                        Some(c) => c@,
                        None => "unknown"@,
                    } + "."@)]
                } else {
                    Seq::empty()
                };
                readable + match previous_owner(entries, sources, git_ok, i, res.install_name@) {
                    Some(existing) => seq![errf("targets.duplicate."@ + res.install_name@, "Plugins `"@ + existing + "` and `"@ + n
                        + "` resolve to the same target `"@ + res.install_name@ + "`."@)],
                    None => Seq::empty(),
                }
            },
            Some(Err(e)) => if spec.source == PluginSourceKind::Git {
                seq![git_source_error_finding(n, e)]
            } else {
                seq![errf("source.unreadable."@ + n, "Source for `"@ + n + "` is unreadable: "@ + error_message(e))]
            },
            None => Seq::empty(),
        }
    }
}

pub open spec fn source_findings_upto(entries: Seq<(Seq<char>, ManifestPluginSpec)>, sources: Seq<Option<Result<ResolvedPlugin, PyanpmError>>>, git_ok: bool, i: int) -> Seq<(FindingLevel, Seq<char>, Seq<char>)>
    decreases i,
{
    if i <= 0 {
        Seq::empty()
    } else {
        source_findings_upto(entries, sources, git_ok, i - 1) + source_entry_findings(entries, sources, git_ok, i - 1)
    }
}

pub open spec fn source_findings(m: Result<Manifest, PyanpmError>, sources: Seq<Option<Result<ResolvedPlugin, PyanpmError>>>, git_ok: bool) -> Seq<(FindingLevel, Seq<char>, Seq<char>)> {
    match m {
        Ok(m) => source_findings_upto(m@, sources, git_ok, m@.len() as int),
        Err(_) => Seq::empty(),
    }
}

/// Every finding of the doctor, in report order.
pub open spec fn doctor_findings(f: DoctorFacts) -> Seq<(FindingLevel, Seq<char>, Seq<char>)> {
    manifest_findings(f.manifest) + lockfile_findings(f.lockfile) + git_findings(f.git) + cache_findings(f.cache_root)
        + plugins_dir_findings(f.plugins_dir, f.lockfile) + consistency_findings(f.manifest, f.lockfile)
        + source_findings(f.manifest, f.sources@, git_available_spec(f.git))
}

/// The facts are complete: git was checked exactly when needed, every lock
/// entry has its installed state, and every entry the doctor resolves has
/// its outcome.
pub open spec fn facts_complete(f: DoctorFacts) -> bool {
    &&& (f.git is Some) == has_git_sources_spec(loaded_manifest_view(f.manifest), loaded_locked(f.lockfile))
    &&& (f.plugins_dir matches Ok(check) ==> check.installed@.len() == loaded_locked(f.lockfile).len())
    &&& (f.manifest matches Ok(m) ==> f.sources@.len() == m@.len() && forall|i: int| 0 <= i < m@.len()
        && !(m@[i].1.source == PluginSourceKind::Git && !git_available_spec(f.git)) ==> (#[trigger] f.sources@[i]) is Some)
}

fn push_finding(out: &mut Vec<DoctorFinding>, f: DoctorFinding)
    ensures
        findings_view(final(out)@) == findings_view(old(out)@).push(fv(f)),
{
    proof {
        lemma_findings_push(out@, f);
    }
    out.push(f);
}

fn error_text(e: &PyanpmError) -> (r: String)
    ensures
        r@ == error_message(*e),
{
    e.message()
}

fn push_manifest_findings(out: &mut Vec<DoctorFinding>, m: &Result<Manifest, PyanpmError>)
    ensures
        findings_view(final(out)@) == findings_view(old(out)@) + manifest_findings(*m),
{
    // Manifest names are unique by construction, so there is no duplicate to report.
    match m {
        Ok(_) => push_finding(out, ok("manifest", "Manifest parsed successfully.")),
        Err(e) => {
            let msg = error_text(e);
            push_finding(out, error("manifest.parse", msg.as_str()));
        },
    }
    assert(findings_view(out@) =~= findings_view(old(out)@) + manifest_findings(*m));
}

fn name_before(plugins: &Vec<LockedPlugin>, i: usize) -> (r: bool)
    requires
        i < plugins.len(),
    ensures
        r == locked_names(plugins@).subrange(0, i as int).contains(plugins@[i as int].name@),
{
    let ghost names = locked_names(plugins@);
    let mut j: usize = 0;
    while j < i
        invariant
            i < plugins.len(),
            names == locked_names(plugins@),
            j <= i,
            forall|k: int| 0 <= k < j ==> names[k] != plugins@[i as int].name@,
        decreases i - j,
    {
        if str_eq(plugins[j].name.as_str(), plugins[i].name.as_str()) {
            assert(names.subrange(0, i as int)[j as int] == plugins@[i as int].name@);
            return true;
        }
        j = j + 1;
    }
    proof {
        if names.subrange(0, i as int).contains(plugins@[i as int].name@) {
            let k = choose|k: int| 0 <= k < i && names.subrange(0, i as int)[k] == plugins@[i as int].name@;
            assert(names[k] == plugins@[i as int].name@);
        }
    }
    false
}

fn push_lockfile_findings(out: &mut Vec<DoctorFinding>, l: &Result<Option<Lockfile>, PyanpmError>)
    ensures
        findings_view(final(out)@) == findings_view(old(out)@) + lockfile_findings(*l),
{
    match l {
        Ok(Some(lf)) => {
            push_finding(out, ok("lockfile", "Lockfile parsed successfully."));
            let ghost base = findings_view(out@);
            let ghost names = locked_names(lf.plugins@);
            let mut i: usize = 0;
            while i < lf.plugins.len()
                invariant
                    i <= lf.plugins.len(),
                    names == locked_names(lf.plugins@),
                    findings_view(out@) == base + duplicate_findings(names.subrange(0, i as int)),
                decreases lf.plugins.len() - i,
            {
                assert(names.subrange(0, i + 1).drop_last() =~= names.subrange(0, i as int));
                if name_before(&lf.plugins, i) {
                    let n = lf.plugins[i].name.as_str();
                    push_finding(out, error(concat2("lockfile.duplicate.", n).as_str(), concat3("Lockfile contains duplicate entries for `", n, "`.").as_str()));
                    assert(findings_view(out@) =~= base + duplicate_findings(names.subrange(0, i + 1)));
                } else {
                    assert(findings_view(out@) =~= base + duplicate_findings(names.subrange(0, i + 1)));
                }
                i = i + 1;
            }
            assert(names.subrange(0, lf.plugins.len() as int) =~= names);
        },
        Ok(None) => push_finding(out, warn("lockfile.missing", "Lockfile does not exist yet.")),
        Err(e) => {
            let msg = error_text(e);
            push_finding(out, error("lockfile.parse", msg.as_str()));
        },
    }
    assert(findings_view(out@) =~= findings_view(old(out)@) + lockfile_findings(*l));
}

fn push_git_findings(out: &mut Vec<DoctorFinding>, g: &Option<Result<(), PyanpmError>>)
    ensures
        findings_view(final(out)@) == findings_view(old(out)@) + git_findings(*g),
{
    match g {
        None => {},
        Some(Ok(())) => push_finding(out, ok("git.access", "Git is available in PATH.")),
        Some(Err(e)) => {
            let msg = error_text(e);
            push_finding(out, error("git.access", msg.as_str()));
        },
    }
    assert(findings_view(out@) =~= findings_view(old(out)@) + git_findings(*g));
}

fn push_cache_findings(out: &mut Vec<DoctorFinding>, c: &Result<String, PyanpmError>)
    ensures
        findings_view(final(out)@) == findings_view(old(out)@) + cache_findings(*c),
{
    match c {
        Ok(root) => push_finding(out, ok("cache.access", concat3("Cache directory is accessible at ", root.as_str(), ".").as_str())),
        Err(e) => {
            let msg = error_text(e);
            push_finding(out, error("cache.access", msg.as_str()));
        },
    }
    assert(findings_view(out@) =~= findings_view(old(out)@) + cache_findings(*c));
}

fn push_locked_plugin_findings(out: &mut Vec<DoctorFinding>, p: &LockedPlugin, installed: &Option<String>)
    ensures
        findings_view(final(out)@) == findings_view(old(out)@) + locked_plugin_findings(*p, *installed),
{
    let n = p.name.as_str();
    let ghost start = findings_view(out@);
    if p.source == PluginSourceKind::Git && p.source_url.is_none() {
        push_finding(out, error(concat3("lockfile.git.", n, ".source_url").as_str(), concat3("Git lockfile entry `", n, "` is missing its source URL.").as_str()));
    }
    if p.source == PluginSourceKind::Git && p.git_resolved_commit.is_none() {
        push_finding(out, error(concat3("lockfile.git.", n, ".resolved_commit").as_str(), concat3("Git lockfile entry `", n, "` is missing its resolved commit.").as_str()));
    }
    match installed {
        None => push_finding(out, error(concat3("plugin.", n, ".missing").as_str(), concat3("Managed plugin `", n, "` is missing from disk.").as_str())),
        Some(c) => {
            if str_eq(c.as_str(), p.checksum.as_str()) {
                push_finding(out, ok(concat3("plugin.", n, ".checksum").as_str(), concat3("Installed plugin `", n, "` matches the recorded checksum.").as_str()));
            } else {
                push_finding(out, error(concat3("plugin.", n, ".checksum").as_str(), concat3("Installed plugin `", n, "` has checksum drift.").as_str()));
            }
        },
    }
    assert(findings_view(out@) =~= start + locked_plugin_findings(*p, *installed));
}

fn push_plugins_dir_findings(out: &mut Vec<DoctorFinding>, p: &Result<PluginsDirCheck, PyanpmError>, l: &Result<Option<Lockfile>, PyanpmError>)
    requires
        p matches Ok(check) ==> check.installed@.len() == loaded_locked(*l).len(),
    ensures
        findings_view(final(out)@) == findings_view(old(out)@) + plugins_dir_findings(*p, *l),
{
    match p {
        Ok(check) => {
            push_finding(out, ok("plugins_dir.access", concat3("Studio plugins directory is accessible at ", check.dir.as_str(), ".").as_str()));
            match &check.write_probe {
                None => {},
                Some(Ok(())) => push_finding(out, ok("plugins_dir.write_probe", "Write probe succeeded in the Studio plugins directory.")),
                Some(Err(m)) => push_finding(out, error("plugins_dir.write_probe", concat2("Write probe failed in the Studio plugins directory: ", m.as_str()).as_str())),
            }
            let ghost base = findings_view(out@);
            match l {
                Ok(Some(lf)) => {
                    let ghost ps = lf.plugins@;
                    let mut i: usize = 0;
                    while i < lf.plugins.len()
                        invariant
                            i <= lf.plugins.len(),
                            ps == lf.plugins@,
                            check.installed@.len() == ps.len(),
                            findings_view(out@) == base + locked_findings(ps.subrange(0, i as int), check.installed@),
                        decreases lf.plugins.len() - i,
                    {
                        assert(ps.subrange(0, i + 1).drop_last() =~= ps.subrange(0, i as int));
                        push_locked_plugin_findings(out, &lf.plugins[i], &check.installed[i]);
                        assert(findings_view(out@) =~= base + locked_findings(ps.subrange(0, i + 1), check.installed@));
                        i = i + 1;
                    }
                    assert(ps.subrange(0, ps.len() as int) =~= ps);
                },
                _ => {},
            }
        },
        Err(e) => {
            let msg = error_text(e);
            push_finding(out, error("plugins_dir.access", msg.as_str()));
        },
    }
    assert(findings_view(out@) =~= findings_view(old(out)@) + plugins_dir_findings(*p, *l));
}

fn is_locked_name(plugins: &Vec<LockedPlugin>, name: &str) -> (r: bool)
    ensures
        r == locked_names(plugins@).contains(name@),
{
    let ghost names = locked_names(plugins@);
    let mut j: usize = 0;
    while j < plugins.len()
        invariant
            names == locked_names(plugins@),
            j <= plugins.len(),
            forall|k: int| 0 <= k < j ==> names[k] != name@,
        decreases plugins.len() - j,
    {
        if str_eq(plugins[j].name.as_str(), name) {
            assert(names[j as int] == name@);
            return true;
        }
        j = j + 1;
    }
    false
}

fn push_consistency_findings(out: &mut Vec<DoctorFinding>, m: &Result<Manifest, PyanpmError>, l: &Result<Option<Lockfile>, PyanpmError>)
    ensures
        findings_view(final(out)@) == findings_view(old(out)@) + consistency_findings(*m, *l),
{
    match (m, l) {
        (Ok(man), Ok(Some(lf))) => {
            let ghost base = findings_view(out@);
            let ghost es = man@;
            let n = man.len();
            let mut i: usize = 0;
            while i < n
                invariant
                    n == man@.len(),
                    es == man@,
                    i <= n,
                    findings_view(out@) == base + unlocked_findings(es.subrange(0, i as int), lf.plugins@),
                decreases n - i,
            {
                let (name, _) = man.entry(i);
                assert(es.subrange(0, i + 1).drop_last() =~= es.subrange(0, i as int));
                if !is_locked_name(&lf.plugins, name.as_str()) {
                    push_finding(out, warn(concat2("lockfile.missing.", name.as_str()).as_str(), concat3("Manifest plugin `", name.as_str(), "` is not present in the lockfile yet.").as_str()));
                }
                assert(findings_view(out@) =~= base + unlocked_findings(es.subrange(0, i + 1), lf.plugins@));
                i = i + 1;
            }
            assert(es.subrange(0, n as int) =~= es);
            let ghost mid = findings_view(out@);
            let ghost ps = lf.plugins@;
            let mut k: usize = 0;
            while k < lf.plugins.len()
                invariant
                    k <= lf.plugins.len(),
                    ps == lf.plugins@,
                    es == man@,
                    findings_view(out@) == mid + stale_findings(es, ps.subrange(0, k as int)),
                decreases lf.plugins.len() - k,
            {
                assert(ps.subrange(0, k + 1).drop_last() =~= ps.subrange(0, k as int));
                let locked_name = lf.plugins[k].name.as_str();
                if !man.contains_key(locked_name) {
                    push_finding(out, warn(concat2("lockfile.stale.", locked_name).as_str(), concat3("Lockfile entry `", locked_name, "` is not present in the manifest. Suggested action: remove the stale lock entry or run install.").as_str()));
                }
                assert(findings_view(out@) =~= mid + stale_findings(es, ps.subrange(0, k + 1)));
                k = k + 1;
            }
            assert(ps.subrange(0, ps.len() as int) =~= ps);
        },
        _ => {},
    }
    assert(findings_view(out@) =~= findings_view(old(out)@) + consistency_findings(*m, *l));
}

fn find_previous_owner(man: &Manifest, sources: &Vec<Option<Result<ResolvedPlugin, PyanpmError>>>, git_ok: bool, i: usize, target: &str) -> (r: Option<String>)
    requires
        i <= man@.len(),
        sources@.len() == man@.len(),
    ensures
        opt_view(r) == previous_owner(man@, sources@, git_ok, i as int, target@),
{
    let mut j: usize = i;
    while j > 0
        invariant
            j <= i,
            i <= man@.len(),
            sources@.len() == man@.len(),
            previous_owner(man@, sources@, git_ok, i as int, target@) == previous_owner(man@, sources@, git_ok, j as int, target@),
        decreases j,
    {
        let (name, spec) = man.entry(j - 1);
        let registers = !(spec.source == PluginSourceKind::Git && !git_ok);
        if registers {
            match &sources[j - 1] {
                Some(Ok(res)) => {
                    if str_eq(res.install_name.as_str(), target) {
                        return Some(name.clone());
                    }
                },
                _ => {},
            }
        }
        j = j - 1;
    }
    None
}

fn push_source_entry_findings(out: &mut Vec<DoctorFinding>, man: &Manifest, sources: &Vec<Option<Result<ResolvedPlugin, PyanpmError>>>, git_ok: bool, i: usize)
    requires
        i < man@.len(),
        sources@.len() == man@.len(),
    ensures
        findings_view(final(out)@) == findings_view(old(out)@) + source_entry_findings(man@, sources@, git_ok, i as int),
{
    let (name, spec) = man.entry(i);
    let n = name.as_str();
    let ghost start = findings_view(out@);
    if spec.source == PluginSourceKind::Git && !git_ok {
        push_finding(out, error(concat3("source.git.", n, ".git_missing").as_str(), concat3("Git source for `", n, "` cannot be resolved because Git is not available in PATH.").as_str()));
    } else {
        match &sources[i] {
            Some(Ok(res)) => {
                if spec.source == PluginSourceKind::Git {
                    let commit = match &res.git_resolved_commit {
                        Some(c) => c.as_str(),
                        None => "unknown",
                    };
                    push_finding(out, ok(concat2("source.git.", n).as_str(), concat5("Git source for `", n, "` is readable at commit ", commit, ".").as_str()));
                }
                match find_previous_owner(man, sources, git_ok, i, res.install_name.as_str()) {
                    Some(existing) => {
                        let code = concat2("targets.duplicate.", res.install_name.as_str());
                        let msg = concat5("Plugins `", existing.as_str(), "` and `", n, "` resolve to the same target `");
                        let msg2 = concat3(msg.as_str(), res.install_name.as_str(), "`.");
                        push_finding(out, error(code.as_str(), msg2.as_str()));
                    },
                    None => {},
                }
            },
            Some(Err(e)) => {
                if spec.source == PluginSourceKind::Git {
                    push_finding(out, git_source_error(n, e));
                } else {
                    let msg = error_text(e);
                    push_finding(out, error(concat2("source.unreadable.", n).as_str(), concat4("Source for `", n, "` is unreadable: ", msg.as_str()).as_str()));
                }
            },
            None => {},
        }
    }
    assert(findings_view(out@) =~= start + source_entry_findings(man@, sources@, git_ok, i as int));
}

fn push_source_findings(out: &mut Vec<DoctorFinding>, m: &Result<Manifest, PyanpmError>, sources: &Vec<Option<Result<ResolvedPlugin, PyanpmError>>>, git_ok: bool)
    requires
        m matches Ok(man) ==> sources@.len() == man@.len(),
    ensures
        findings_view(final(out)@) == findings_view(old(out)@) + source_findings(*m, sources@, git_ok),
{
    match m {
        Ok(man) => {
            let ghost base = findings_view(out@);
            let n = man.len();
            let mut i: usize = 0;
            while i < n
                invariant
                    n == man@.len(),
                    sources@.len() == man@.len(),
                    i <= n,
                    findings_view(out@) == base + source_findings_upto(man@, sources@, git_ok, i as int),
                decreases n - i,
            {
                push_source_entry_findings(out, man, sources, git_ok, i);
                assert(findings_view(out@) =~= base + source_findings_upto(man@, sources@, git_ok, i + 1));
                i = i + 1;
            }
        },
        Err(_) => {},
    }
    assert(findings_view(out@) =~= findings_view(old(out)@) + source_findings(*m, sources@, git_ok));
}

/// The installed copy of lock entry `k` was found with a checksum other than
/// the one the lockfile records for it.
pub open spec fn checksum_drift_at(f: DoctorFacts, k: int) -> bool {
    match (f.plugins_dir, f.lockfile) {
        (Ok(check), Ok(Some(lf))) => {
            &&& 0 <= k < lf.plugins@.len()
            &&& k < check.installed@.len()
            &&& check.installed@[k] is Some
            &&& check.installed@[k]->Some_0@ != lf.plugins@[k].checksum@
        },
        _ => false,
    }
}

/// The name of lock entry `k`.
pub open spec fn locked_name_at(f: DoctorFacts, k: int) -> Seq<char> {
    loaded_locked(f.lockfile)[k].name@
}

proof fn lemma_locked_findings_drift(ps: Seq<LockedPlugin>, installed: Seq<Option<String>>, k: int)
    requires
        0 <= k < ps.len(),
        k < installed.len(),
        installed[k] is Some,
        installed[k]->Some_0@ != ps[k].checksum@,
    ensures
        exists|i: int| 0 <= i < locked_findings(ps, installed).len()
            && (#[trigger] locked_findings(ps, installed)[i]).0 == FindingLevel::Error
            && locked_findings(ps, installed)[i].1 == "plugin."@ + ps[k].name@ + ".checksum"@,
    decreases ps.len(),
{
    let pre = locked_findings(ps.drop_last(), installed);
    let lp = locked_plugin_findings(ps.last(), installed[ps.len() - 1]);
    assert(locked_findings(ps, installed) == pre + lp);
    if k == ps.len() - 1 {
        let i = pre.len() + lp.len() - 1;
        assert(locked_findings(ps, installed)[i] == lp[lp.len() - 1]);
    } else {
        lemma_locked_findings_drift(ps.drop_last(), installed, k);
        assert(ps.drop_last()[k] == ps[k]);
        let i = choose|i: int| 0 <= i < pre.len()
            && (#[trigger] pre[i]).0 == FindingLevel::Error
            && pre[i].1 == "plugin."@ + ps[k].name@ + ".checksum"@;
        assert(locked_findings(ps, installed)[i] == pre[i]);
    }
}

/// Checksum drift is an error: when the installed copy of a lock entry has
/// another checksum than the recorded one, the doctor reports an error on
/// that plugin's checksum, so the report is not healthy.
pub proof fn lemma_checksum_drift_is_an_error(f: DoctorFacts, k: int)
    requires
        checksum_drift_at(f, k),
    ensures
        exists|i: int| 0 <= i < doctor_findings(f).len()
            && (#[trigger] doctor_findings(f)[i]).0 == FindingLevel::Error
            && doctor_findings(f)[i].1 == "plugin."@ + locked_name_at(f, k) + ".checksum"@,
        !no_errors(doctor_findings(f)),
{
    let check = f.plugins_dir->Ok_0;
    let ps = loaded_locked(f.lockfile);
    lemma_locked_findings_drift(ps, check.installed@, k);
    let lf = locked_findings(ps, check.installed@);
    let j = choose|j: int| 0 <= j < lf.len() && (#[trigger] lf[j]).0 == FindingLevel::Error
        && lf[j].1 == "plugin."@ + ps[k].name@ + ".checksum"@;
    let head = manifest_findings(f.manifest) + lockfile_findings(f.lockfile) + git_findings(f.git) + cache_findings(f.cache_root);
    let pd = plugins_dir_findings(f.plugins_dir, f.lockfile);
    let front = seq![okf("plugins_dir.access"@, "Studio plugins directory is accessible at "@ + check.dir@ + "."@)]
        + probe_findings(check.write_probe);
    assert(pd == front + lf);
    assert(pd[front.len() + j] == lf[j]);
    let rest = consistency_findings(f.manifest, f.lockfile) + source_findings(f.manifest, f.sources@, git_available_spec(f.git));
    assert(doctor_findings(f) =~= head + pd + rest);
    let i = head.len() + front.len() + j;
    assert(doctor_findings(f)[i] == pd[front.len() + j]);
}

/// No finding is an error.
pub open spec fn no_errors(fs: Seq<(FindingLevel, Seq<char>, Seq<char>)>) -> bool {
    forall|i: int| 0 <= i < fs.len() ==> #[trigger] fs[i].0 != FindingLevel::Error
}

/// The doctor's report from what it observed: every finding in order, and
/// healthy exactly when none is an error.
pub fn run_doctor(facts: &DoctorFacts) -> (r: DoctorReport)
    requires
        facts_complete(*facts),
    ensures
        findings_view(r.findings@) == doctor_findings(*facts),
        r.healthy == no_errors(doctor_findings(*facts)),
        r.healthy == forall|i: int| 0 <= i < r.findings@.len() ==> #[trigger] r.findings@[i].level != FindingLevel::Error,
        forall|k: int| #[trigger] checksum_drift_at(*facts, k) ==> !r.healthy && exists|i: int| 0 <= i < r.findings@.len()
            && (#[trigger] r.findings@[i]).level == FindingLevel::Error
            && r.findings@[i].code@ == "plugin."@ + locked_name_at(*facts, k) + ".checksum"@,
{
    let mut out: Vec<DoctorFinding> = Vec::new();
    assert(findings_view(out@) =~= Seq::<(FindingLevel, Seq<char>, Seq<char>)>::empty());
    push_manifest_findings(&mut out, &facts.manifest);
    push_lockfile_findings(&mut out, &facts.lockfile);
    push_git_findings(&mut out, &facts.git);
    push_cache_findings(&mut out, &facts.cache_root);
    push_plugins_dir_findings(&mut out, &facts.plugins_dir, &facts.lockfile);
    push_consistency_findings(&mut out, &facts.manifest, &facts.lockfile);
    let git_ok = match &facts.git {
        Some(Err(_)) => false,
        _ => true,
    };
    push_source_findings(&mut out, &facts.manifest, &facts.sources, git_ok);
    assert(findings_view(out@) =~= doctor_findings(*facts));
    let mut healthy = true;
    let mut i: usize = 0;
    while i < out.len()
        invariant
            i <= out.len(),
            healthy == forall|k: int| 0 <= k < i ==> #[trigger] findings_view(out@)[k].0 != FindingLevel::Error,
        decreases out.len() - i,
    {
        assert(findings_view(out@)[i as int].0 == out@[i as int].level);
        if out[i].level == FindingLevel::Error {
            healthy = false;
        }
        i = i + 1;
    }
    proof {
        assert forall|k: int| 0 <= k < out@.len() implies (#[trigger] out@[k]).level == findings_view(out@)[k].0 by {}
        assert forall|k: int| #[trigger] checksum_drift_at(*facts, k) implies !healthy && exists|i: int| 0 <= i < out@.len()
            && (#[trigger] out@[i]).level == FindingLevel::Error
            && out@[i].code@ == "plugin."@ + locked_name_at(*facts, k) + ".checksum"@ by {
            lemma_checksum_drift_is_an_error(*facts, k);
            let d = doctor_findings(*facts);
            let i = choose|i: int| 0 <= i < d.len() && (#[trigger] d[i]).0 == FindingLevel::Error
                && d[i].1 == "plugin."@ + locked_name_at(*facts, k) + ".checksum"@;
            assert(findings_view(out@)[i] == fv(out@[i]));
            assert(out@[i].level == FindingLevel::Error);
        }
    }
    DoctorReport { healthy, findings: out }
}

} // verus!
