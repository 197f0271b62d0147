//! The command line: its commands and options as plain values, which service
//! call each command makes, and the confirmations the destructive ones need.
use vstd::prelude::*;
use vstd::std_specs::convert::FromSpecImpl;
use crate::command::missing_manifest_message;
use crate::config::{GitRefKind, GitSourceOptions, MANIFEST_FILE_NAME};
use crate::error::{PyanpmError, error_message};
use crate::text::clone_opt;

verus! {

/// The `--git-ref-kind` values.
#[derive(Debug, Clone, Copy, PartialEq, Eq, Structural)]
pub enum GitRefKindArg {
    Branch,
    Tag,
    Commit,
}

pub open spec fn ref_kind_of(value: GitRefKindArg) -> GitRefKind {
    match value {
        GitRefKindArg::Branch => GitRefKind::Branch,
        GitRefKindArg::Tag => GitRefKind::Tag,
        GitRefKindArg::Commit => GitRefKind::Commit,
    }
}

impl From<GitRefKindArg> for GitRefKind {
    fn from(value: GitRefKindArg) -> (r: GitRefKind) {
        match value {
            GitRefKindArg::Branch => GitRefKind::Branch,
            GitRefKindArg::Tag => GitRefKind::Tag,
            GitRefKindArg::Commit => GitRefKind::Commit,
        }
    }
}

impl FromSpecImpl<GitRefKindArg> for GitRefKind {
    open spec fn obeys_from_spec() -> bool {
        true
    }

    open spec fn from_spec(v: GitRefKindArg) -> GitRefKind {
        ref_kind_of(v)
    }
}

/// The git options of `add` and `validate-source`.
#[derive(Debug, Clone, Default)]
pub struct GitArgs {
    pub git_ref_kind: Option<GitRefKindArg>,
    pub git_ref: Option<String>,
    pub git_subdir: Option<String>,
}

impl GitArgs {
    /// The options as the library takes them.
    pub fn to_core(&self) -> (r: GitSourceOptions)
        ensures
            r.git_ref_kind == match self.git_ref_kind {
                Some(k) => Some(ref_kind_of(k)),
                None => None,
            },
            r.git_ref == self.git_ref,
            r.git_subdir == self.git_subdir,
    {
        GitSourceOptions {
            git_ref_kind: match self.git_ref_kind {
                Some(k) => Some(GitRefKind::from(k)),
                None => None,
            },
            git_ref: clone_opt(&self.git_ref),
            git_subdir: clone_opt(&self.git_subdir),
        }
    }
}

/// How results are shown: as JSON, or as text unless quiet.
#[derive(Debug, Clone, Copy)]
pub struct OutputOptions {
    pub json: bool,
    pub quiet: bool,
}

/// The command line: global options and a command.
#[derive(Debug)]
pub struct Cli {
    pub json: bool,
    pub quiet: bool,
    pub verbose: bool,
    pub plugins_dir: Option<String>,
    pub command: Commands,
}

#[derive(Debug)]
pub enum Commands {
    Init { force: bool },
    Add { plugin_ref: String, version: Option<String>, git: GitArgs },
    Install,
    List,
    Doctor { write_probe: bool },
    ValidateSource { source_ref: String, git: GitArgs },
    Diff,
    Remove { plugin_name: String, keep_manifest: bool, yes: bool },
    Reinstall { plugin_name: String },
    Update { plugin_name: Option<String>, all: bool, dry_run: bool },
    Activity { command: ActivityCommands },
    Cache { command: CacheCommands },
}

#[derive(Debug)]
pub enum ActivityCommands {
    List,
    Show { activity_id: String },
    Clear { yes: bool },
}

#[derive(Debug)]
pub enum CacheCommands {
    List,
    Info { cache_id: String },
    Evict { cache_id: String, yes: bool },
    Prune { yes: bool },
}

/// The service operation a command runs, with its arguments.
#[derive(Debug)]
pub enum ServiceCall {
    Init { force: bool },
    Add { plugin_ref: String, version: Option<String>, git_options: GitSourceOptions },
    Install,
    List,
    Doctor { write_probe: bool },
    ValidateSource { source_ref: String, git_options: GitSourceOptions },
    Diff,
    Remove { plugin_name: String, keep_manifest: bool },
    Reinstall { plugin_name: String },
    Update { plugin_name: Option<String>, all: bool, dry_run: bool },
    ActivityList,
    ActivityShow { activity_id: String },
    ActivityClear,
    CacheList,
    CacheInfo { cache_id: String },
    CacheEvict { cache_id: String },
    CachePrune,
}

/// Continues when the user confirmed with `--yes`; otherwise the error asks
/// for the confirmation with `message`.
pub fn require_confirmation(yes: bool, message: &str) -> (r: Result<(), PyanpmError>)
    ensures
        yes ==> r is Ok,
        !yes ==> (r matches Err(PyanpmError::ConfirmationRequired(m)) && m@ == message@),
{
    if yes {
        Ok(())
    } else {
        Err(PyanpmError::ConfirmationRequired(String::from_str(message)))
    }
}

/// The name under which a command reports its result.
pub open spec fn command_name_spec(c: Commands) -> Seq<char> {
    match c {
        Commands::Init { .. } => "init"@,
        Commands::Add { .. } => "add"@,
        Commands::Install => "install"@,
        Commands::List => "list"@,
        Commands::Doctor { .. } => "doctor"@,
        Commands::ValidateSource { .. } => "validate-source"@,
        Commands::Diff => "diff"@,
        Commands::Remove { .. } => "remove"@,
        Commands::Reinstall { .. } => "reinstall"@,
        Commands::Update { .. } => "update"@,
        Commands::Activity { command } => match command {
            ActivityCommands::List => "activity-list"@,
            ActivityCommands::Show { .. } => "activity-show"@,
            ActivityCommands::Clear { .. } => "activity-clear"@,
        },
        Commands::Cache { command } => match command {
            CacheCommands::List => "cache-list"@,
            CacheCommands::Info { .. } => "cache-info"@,
            CacheCommands::Evict { .. } => "cache-evict"@,
            CacheCommands::Prune { .. } => "cache-prune"@,
        },
    }
}

/// The confirmation a command needs: `Some(message)` when it is destructive
/// and `--yes` was not given.
pub open spec fn missing_confirmation(c: Commands) -> Option<Seq<char>> {
    match c {
        Commands::Remove { yes, .. } => if yes { None } else { Some("pass --yes to remove a managed plugin"@) },
        Commands::Activity { command: ActivityCommands::Clear { yes } } => if yes { None } else { Some("pass --yes to clear activity history"@) },
        Commands::Cache { command: CacheCommands::Evict { yes, .. } } => if yes { None } else { Some("pass --yes to evict a cache entry"@) },
        Commands::Cache { command: CacheCommands::Prune { yes } } => if yes { None } else { Some("pass --yes to prune cache entries"@) },
        _ => None,
    }
}

/// `call` is the service call that command `c` makes.
pub open spec fn is_call_of(c: Commands, call: ServiceCall) -> bool {
    match c {
        Commands::Init { force } => call == ServiceCall::Init { force },
        Commands::Add { plugin_ref, version, git } => call matches ServiceCall::Add { plugin_ref: p, version: v, git_options: o } && p == plugin_ref && v == version
            && o.git_ref_kind == match git.git_ref_kind {
                Some(k) => Some(ref_kind_of(k)),
                None => None,
            } && o.git_ref == git.git_ref && o.git_subdir == git.git_subdir,
        Commands::Install => call is Install,
        Commands::List => call is List,
        Commands::Doctor { write_probe } => call == ServiceCall::Doctor { write_probe },
        Commands::ValidateSource { source_ref, git } => call matches ServiceCall::ValidateSource { source_ref: s, git_options: o } && s == source_ref
            && o.git_ref_kind == match git.git_ref_kind {
                Some(k) => Some(ref_kind_of(k)),
                None => None,
            } && o.git_ref == git.git_ref && o.git_subdir == git.git_subdir,
        Commands::Diff => call is Diff,
        Commands::Remove { plugin_name, keep_manifest, .. } => call == ServiceCall::Remove { plugin_name, keep_manifest },
        Commands::Reinstall { plugin_name } => call == ServiceCall::Reinstall { plugin_name },
        Commands::Update { plugin_name, all, dry_run } => call == ServiceCall::Update { plugin_name, all, dry_run },
        Commands::Activity { command } => match command {
            ActivityCommands::List => call is ActivityList,
            ActivityCommands::Show { activity_id } => call == ServiceCall::ActivityShow { activity_id },
            ActivityCommands::Clear { .. } => call is ActivityClear,
        },
        Commands::Cache { command } => match command {
            CacheCommands::List => call is CacheList,
            CacheCommands::Info { cache_id } => call == ServiceCall::CacheInfo { cache_id },
            CacheCommands::Evict { cache_id, .. } => call == ServiceCall::CacheEvict { cache_id },
            CacheCommands::Prune { .. } => call is CachePrune,
        },
    }
}

/// The name a command reports under and the service call it makes, or the
/// confirmation error of a destructive command run without `--yes`.
pub fn dispatch(command: Commands) -> (r: (&'static str, Result<ServiceCall, PyanpmError>))
    ensures
        r.0@ == command_name_spec(command),
        missing_confirmation(command) matches Some(m) ==> (r.1 matches Err(PyanpmError::ConfirmationRequired(e)) && e@ == m),
        missing_confirmation(command) is None ==> (r.1 matches Ok(call) && is_call_of(command, call)),
{
    let ghost c = command;
    match command {
        Commands::Init { force } => ("init", Ok(ServiceCall::Init { force })),
        Commands::Add { plugin_ref, version, git } => {
            let git_options = git.to_core();
            ("add", Ok(ServiceCall::Add { plugin_ref, version, git_options }))
        },
        Commands::Install => ("install", Ok(ServiceCall::Install)),
        Commands::List => ("list", Ok(ServiceCall::List)),
        Commands::Doctor { write_probe } => ("doctor", Ok(ServiceCall::Doctor { write_probe })),
        Commands::ValidateSource { source_ref, git } => {
            let git_options = git.to_core();
            ("validate-source", Ok(ServiceCall::ValidateSource { source_ref, git_options }))
        },
        Commands::Diff => ("diff", Ok(ServiceCall::Diff)),
        Commands::Remove { plugin_name, keep_manifest, yes } => {
            let call = match require_confirmation(yes, "pass --yes to remove a managed plugin") {
                Ok(()) => Ok(ServiceCall::Remove { plugin_name, keep_manifest }),
                Err(e) => Err(e),
            };
            ("remove", call)
        },
        Commands::Reinstall { plugin_name } => ("reinstall", Ok(ServiceCall::Reinstall { plugin_name })),
        Commands::Update { plugin_name, all, dry_run } => ("update", Ok(ServiceCall::Update { plugin_name, all, dry_run })),
        Commands::Activity { command } => match command {
            ActivityCommands::List => ("activity-list", Ok(ServiceCall::ActivityList)),
            ActivityCommands::Show { activity_id } => ("activity-show", Ok(ServiceCall::ActivityShow { activity_id })),
            ActivityCommands::Clear { yes } => {
                let call = match require_confirmation(yes, "pass --yes to clear activity history") {
                    Ok(()) => Ok(ServiceCall::ActivityClear),
                    Err(e) => Err(e),
                };
                ("activity-clear", call)
            },
        },
        Commands::Cache { command } => match command {
            CacheCommands::List => ("cache-list", Ok(ServiceCall::CacheList)),
            CacheCommands::Info { cache_id } => ("cache-info", Ok(ServiceCall::CacheInfo { cache_id })),
            CacheCommands::Evict { cache_id, yes } => {
                let call = match require_confirmation(yes, "pass --yes to evict a cache entry") {
                    Ok(()) => Ok(ServiceCall::CacheEvict { cache_id }),
                    Err(e) => Err(e),
                };
                ("cache-evict", call)
            },
            CacheCommands::Prune { yes } => {
                let call = match require_confirmation(yes, "pass --yes to prune cache entries") {
                    Ok(()) => Ok(ServiceCall::CachePrune),
                    Err(e) => Err(e),
                };
                ("cache-prune", call)
            },
        },
    }
}

/// The text shown on standard error for a failed command: a missing
/// manifest points to `pyanpm init`; any other error shows its message.
pub fn error_text(error: &PyanpmError, state_dir: &str) -> (r: String)
    ensures
        error is ManifestMissing ==> r@ == "No global "@ + MANIFEST_FILE_NAME@ + " found in "@ + state_dir@ + ". Run `pyanpm init` first."@,
        !(error is ManifestMissing) ==> r@ == error_message(*error),
{
    match error {
        PyanpmError::ManifestMissing(_) => missing_manifest_message(state_dir),
        _ => error.message(),
    }
}

/// The exit status of a command: 0 when it succeeded, 1 when it failed.
pub fn exit_code(succeeded: bool) -> (r: i32)
    ensures
        r == if succeeded { 0i32 } else { 1i32 },
{
    if succeeded {
        0
    } else {
        1
    }
}

} // verus!
