//! The records that operations hand back.  Times are Unix milliseconds.
use vstd::prelude::*;

verus! {

/// Identity of one command run.
#[derive(Debug)]
pub struct CommandMeta {
    pub command_id: String,
    pub state_path: String,
    pub activity_id: Option<String>,
}

/// Counts and summary text at the end of an operation.
#[derive(Debug)]
pub struct CompletionSummary {
    pub affected_plugin_count: usize,
    pub warning_count: usize,
    pub error_count: usize,
    pub duration_ms: i64,
    pub summary: String,
}

#[derive(Debug, Clone, Copy, PartialEq, Eq, Structural)]
pub enum ProgressSeverity {
    Info,
    Warn,
    Error,
}

/// One step reported while an operation runs.
#[derive(Debug)]
pub struct ProgressEvent {
    pub command_id: String,
    pub state_path: String,
    pub plugin_name: Option<String>,
    pub stage: String,
    pub message: String,
    pub current: Option<u32>,
    pub total: Option<u32>,
    pub severity: ProgressSeverity,
    pub timestamp: i64,
}

#[derive(Debug, Clone, Copy, PartialEq, Eq, Structural)]
pub enum ValidationSeverity {
    Info,
    Warning,
    Error,
}

/// A problem found with a source reference.
#[derive(Debug)]
pub struct ValidationIssue {
    pub field: String,
    pub source_ref: String,
    pub code: String,
    pub severity: ValidationSeverity,
    pub message: String,
    pub suggested_fix: Option<String>,
}

#[derive(Debug)]
pub struct ValidateSourceResult {
    pub meta: CommandMeta,
    pub valid: bool,
    pub normalized_source_ref: Option<String>,
    pub plugin_name: Option<String>,
    pub errors: Vec<ValidationIssue>,
}

#[derive(Debug, Clone, Copy, PartialEq, Eq, Structural)]
pub enum ActivityStatus {
    Success,
    Failed,
    Partial,
}

/// One entry of the activity history.
#[derive(Debug)]
pub struct ActivityRecord {
    pub id: String,
    pub command_id: String,
    pub state_path: String,
    pub command_name: String,
    pub command_args_summary: String,
    pub started_at: i64,
    pub finished_at: i64,
    pub duration_ms: i64,
    pub status: ActivityStatus,
    pub plugin_names: Vec<String>,
    pub summary: String,
    pub error_code: Option<String>,
    pub error_message: Option<String>,
    pub error_stage: Option<String>,
}

#[derive(Debug)]
pub struct ActivityListResult {
    pub meta: CommandMeta,
    pub records: Vec<ActivityRecord>,
}

#[derive(Debug)]
pub struct ActivityShowResult {
    pub meta: CommandMeta,
    pub record: ActivityRecord,
}

#[derive(Debug)]
pub struct ActivityClearResult {
    pub meta: CommandMeta,
    pub cleared: usize,
}

/// How a plugin's manifest entry, lock entry and installed files relate.
#[derive(Debug, Clone, Copy, PartialEq, Eq, Structural)]
pub enum PluginStateKind {
    Synced,
    ManifestOnly,
    LockOnly,
    MissingInstall,
    StaleInstall,
    ChecksumDrift,
    SourceUnreadable,
    UnmanagedInstalledPlugin,
    TargetWriteRisk,
}

/// The state of one plugin as `diff` reports it.
#[derive(Debug)]
pub struct PluginStateSnapshot {
    pub plugin_name: String,
    pub manifest_source: Option<String>,
    pub manifest_version_constraint: Option<String>,
    pub lock_version: Option<String>,
    pub lock_checksum: Option<String>,
    pub installed_path: Option<String>,
    pub installed_checksum: Option<String>,
    pub state: PluginStateKind,
    pub recommended_action: String,
    pub last_activity_id: Option<String>,
}

#[derive(Debug)]
pub struct DiffResult {
    pub meta: CommandMeta,
    pub snapshots: Vec<PluginStateSnapshot>,
}

/// One artifact in the download cache.
#[derive(Debug)]
pub struct CacheEntry {
    pub cache_id: String,
    pub plugin_name: String,
    pub version: Option<String>,
    pub source_kind: String,
    pub source_summary: String,
    pub checksum: String,
    pub size_bytes: u64,
    pub created_at: i64,
    pub last_used_at: i64,
    pub referenced_by_active_lockfile: bool,
    pub path: String,
}

#[derive(Debug)]
pub struct CacheListResult {
    pub meta: CommandMeta,
    pub total_size_bytes: u64,
    pub entries: Vec<CacheEntry>,
}

#[derive(Debug)]
pub struct CacheInfoResult {
    pub meta: CommandMeta,
    pub entry: CacheEntry,
}

#[derive(Debug)]
pub struct CacheMutationResult {
    pub meta: CommandMeta,
    pub removed: Vec<String>,
    pub protected: Vec<String>,
    pub reclaimed_size_bytes: u64,
    pub completion: CompletionSummary,
}

#[derive(Debug)]
pub struct RemovedPluginSummary {
    pub name: String,
    pub keep_manifest: bool,
    pub removed_manifest_entry: bool,
    pub removed_target_path: Option<String>,
}

#[derive(Debug)]
pub struct RemoveResult {
    pub meta: CommandMeta,
    pub removed: RemovedPluginSummary,
    pub progress: Vec<ProgressEvent>,
    pub completion: CompletionSummary,
}

#[derive(Debug)]
pub struct InstalledPluginSummary {
    pub name: String,
    pub source: String,
    pub checksum: String,
    pub target_path: String,
}

#[derive(Debug)]
pub struct InstallResult {
    pub meta: CommandMeta,
    pub installed: Vec<InstalledPluginSummary>,
    pub lockfile_path: String,
    pub plugins_dir: String,
    pub progress: Vec<ProgressEvent>,
    pub completion: CompletionSummary,
}

#[derive(Debug)]
pub struct InitResult {
    pub meta: CommandMeta,
    pub manifest_path: String,
    pub completion: CompletionSummary,
}

/// One plugin as `list` shows it.
#[derive(Debug)]
pub struct ListedPlugin {
    pub name: String,
    pub requested_version: Option<String>,
    pub installed_version: Option<String>,
    pub source: String,
    pub status: String,
    pub target_path: Option<String>,
}

#[derive(Debug)]
pub struct ListResult {
    pub meta: CommandMeta,
    pub plugins: Vec<ListedPlugin>,
}

/// What updating one plugin would change.
#[derive(Debug)]
pub struct UpdateCandidate {
    pub plugin_name: String,
    pub current_version: Option<String>,
    pub candidate_version: Option<String>,
    pub current_checksum: Option<String>,
    pub candidate_checksum: String,
    pub will_change: bool,
    pub reason: String,
}

#[derive(Debug)]
pub struct UpdateResult {
    pub meta: CommandMeta,
    pub dry_run: bool,
    pub candidates: Vec<UpdateCandidate>,
    pub updated: Vec<InstalledPluginSummary>,
    pub progress: Vec<ProgressEvent>,
    pub completion: CompletionSummary,
}

} // verus!
