//! Installing artifacts into the Roblox Studio plugins directory.
use vstd::prelude::*;
use crate::error::PyanpmError;
use crate::ids::{is_hyphenated_id, new_id};
use crate::paths::{is_sep, join_path, join_spec, path_within, within_spec};
use crate::plugin::{ArtifactKind, ResolvedPlugin, install_name_spec, validate_plugin_name, valid_plugin_name};
use crate::text::concat2;

verus! {

/// Studio's plugins directory under a Windows `%LOCALAPPDATA%`.
pub fn windows_plugins_dir(local_app_data: &str) -> (r: String)
    ensures
        r@ == join_spec(join_spec(local_app_data@, "Roblox"@), "Plugins"@),
{
    let roblox = join_path(local_app_data, "Roblox");
    join_path(roblox.as_str(), "Plugins")
}

/// The plugins directory to use before it is created: the override when
/// given, else Studio's directory under `%LOCALAPPDATA%` on Windows.
pub fn plugins_dir_candidate(override_dir: Option<String>, is_windows: bool, local_app_data: Option<String>) -> (r: Result<String, PyanpmError>)
    ensures
        override_dir matches Some(d) ==> r == Ok::<String, PyanpmError>(d),
        override_dir is None && is_windows && local_app_data is Some ==> (r matches Ok(d)
            && d@ == join_spec(join_spec(local_app_data->Some_0@, "Roblox"@), "Plugins"@)),
        override_dir is None && !(is_windows && local_app_data is Some) ==> r == Err::<String, PyanpmError>(PyanpmError::MissingDefaultPluginsDir),
{
    match override_dir {
        Some(d) => Ok(d),
        None => {
            if is_windows {
                match local_app_data {
                    Some(base) => Ok(windows_plugins_dir(base.as_str())),
                    None => Err(PyanpmError::MissingDefaultPluginsDir),
                }
            } else {
                Err(PyanpmError::MissingDefaultPluginsDir)
            }
        },
    }
}

/// The paths an installation moves through.
pub struct InstallPlan {
    /// Where the plugin ends up.
    pub target_path: String,
    /// A fresh staging directory in the plugins directory.
    pub stage_root: String,
    /// Where an existing target is kept until the new one is in place.
    pub backup_path: String,
    /// The staged copy of the artifact.
    pub staged_target: String,
}

/// Plans installing `resolved` into `plugins_dir`: the plugin name must be
/// valid; the target is the install name in the directory, staged through a
/// fresh hidden directory, with a fresh backup name for any existing target.
pub fn install_plan(plugins_dir: &str, resolved: &ResolvedPlugin) -> (r: Result<InstallPlan, PyanpmError>)
    ensures
        r is Ok <==> valid_plugin_name(resolved.name@),
        r is Err ==> (r matches Err(PyanpmError::InvalidPluginName(n)) && n@ == resolved.name@),
        r matches Ok(p) ==> {
            &&& p.target_path@ == join_spec(plugins_dir@, resolved.install_name@)
            &&& exists|id: Seq<char>| p.stage_root@ == join_spec(plugins_dir@, ".pyanpm-stage-"@ + id) && is_hyphenated_id(id)
            &&& exists|id: Seq<char>| p.backup_path@ == join_spec(plugins_dir@, ".pyanpm-backup-"@ + id) && is_hyphenated_id(id)
            &&& p.staged_target@ == join_spec(p.stage_root@, resolved.install_name@)
        },
{
    match validate_plugin_name(resolved.name.as_str()) {
        Ok(()) => {},
        Err(e) => return Err(e),
    }
    let target_path = join_path(plugins_dir, resolved.install_name.as_str());
    let stage_id = new_id();
    let backup_id = new_id();
    let stage_root = join_path(plugins_dir, concat2(".pyanpm-stage-", stage_id.as_str()).as_str());
    let backup_path = join_path(plugins_dir, concat2(".pyanpm-backup-", backup_id.as_str()).as_str());
    let staged_target = join_path(stage_root.as_str(), resolved.install_name.as_str());
    Ok(InstallPlan { target_path, stage_root, backup_path, staged_target })
}

/// Checks, on canonical paths, that an install target's directory lies inside
/// the plugins directory.
pub fn ensure_within_root(canonical_root: &str, canonical_parent: &str, target: &str) -> (r: Result<(), PyanpmError>)
    ensures
        r is Ok <==> within_spec(canonical_parent@, canonical_root@),
        r is Err ==> (r matches Err(PyanpmError::InstallTargetEscapes(t)) && t@ == target@),
{
    if path_within(canonical_parent, canonical_root) {
        Ok(())
    } else {
        Err(PyanpmError::InstallTargetEscapes(String::from_str(target)))
    }
}

/// An install target never leaves the plugins directory: a valid plugin
/// name, with or without an extension, joined onto the directory lies below
/// it.
pub proof fn lemma_install_target_in_plugins_dir(plugins_dir: Seq<char>, name: Seq<char>, kind: ArtifactKind, ext: Seq<char>)
    requires
        valid_plugin_name(name),
    ensures
        within_spec(join_spec(plugins_dir, install_name_spec(name, kind, ext)), plugins_dir),
{
    let child = install_name_spec(name, kind, ext);
    assert(child.len() > 0);
    let path = join_spec(plugins_dir, child);
    if plugins_dir.len() == 0 {
        assert(path.subrange(0, 0) =~= plugins_dir);
    } else if is_sep(plugins_dir.last()) {
        assert(path.subrange(0, plugins_dir.len() as int) =~= plugins_dir);
    } else {
        assert(path.subrange(0, plugins_dir.len() as int) =~= plugins_dir);
        assert(path[plugins_dir.len() as int] == '\\');
    }
}

/// One clean-up step after the staged artifact was moved into place, or
/// failed to be.
#[derive(Debug, Clone, Copy, PartialEq, Eq, Structural)]
pub enum SwapStep {
    /// Remove the staged copy of the artifact.
    RemoveStagedTarget,
    /// Remove the staging folder.
    RemoveStageRoot,
    /// Remove the backup of the previous install.
    RemoveBackup,
    /// Move the backup of the previous install back to the target.
    RestoreBackup,
}

/// The clean-up after moving the staged artifact to the target: when the
/// move succeeded, the staging folder and then the backup go; when it
/// failed, the staged copy and the staging folder go, and the previous
/// install, when there was one and its backup is still there, is restored.
pub fn swap_cleanup(moved: bool, had_previous: bool, backup_exists: bool) -> (r: Vec<SwapStep>)
    ensures
        moved ==> r@ == seq![SwapStep::RemoveStageRoot, SwapStep::RemoveBackup],
        !moved && had_previous && backup_exists ==> r@ == seq![SwapStep::RemoveStagedTarget, SwapStep::RemoveStageRoot, SwapStep::RestoreBackup],
        !moved && !(had_previous && backup_exists) ==> r@ == seq![SwapStep::RemoveStagedTarget, SwapStep::RemoveStageRoot],
{
    let mut steps: Vec<SwapStep> = Vec::new();
    if moved {
        steps.push(SwapStep::RemoveStageRoot);
        steps.push(SwapStep::RemoveBackup);
    } else {
        steps.push(SwapStep::RemoveStagedTarget);
        steps.push(SwapStep::RemoveStageRoot);
        if had_previous && backup_exists {
            steps.push(SwapStep::RestoreBackup);
        }
    }
    assert(moved ==> steps@ =~= seq![SwapStep::RemoveStageRoot, SwapStep::RemoveBackup]);
    assert(!moved && had_previous && backup_exists ==> steps@ =~= seq![SwapStep::RemoveStagedTarget, SwapStep::RemoveStageRoot, SwapStep::RestoreBackup]);
    assert(!moved && !(had_previous && backup_exists) ==> steps@ =~= seq![SwapStep::RemoveStagedTarget, SwapStep::RemoveStageRoot]);
    steps
}

} // verus!
