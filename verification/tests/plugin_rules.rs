use pyanpm::error::PyanpmError;
use pyanpm::install::{plugins_dir_candidate, windows_plugins_dir};
use pyanpm::paths::join_path;
use pyanpm::plugin::{artifact_extension, infer_file_plugin_name, validate_plugin_name};

#[test]
fn validates_plugin_names() {
    assert!(validate_plugin_name("pyandb").is_ok());
    assert!(validate_plugin_name("bad/name").is_err());
    assert!(validate_plugin_name("CON").is_err());
}

#[test]
fn builds_windows_plugins_path() {
    let base = r"C:\Users\Test\AppData\Local";
    let path = join_path(join_path(base, "Roblox").as_str(), "Plugins");
    assert_eq!(path, r"C:\Users\Test\AppData\Local\Roblox\Plugins");
}

#[test]
fn windows_plugins_dir_joins_roblox_plugins() {
    assert_eq!(windows_plugins_dir(r"C:\Users\Test\AppData\Local"), r"C:\Users\Test\AppData\Local\Roblox\Plugins");
    assert_eq!(windows_plugins_dir(r"D:\Data\"), r"D:\Data\Roblox\Plugins");
}

#[test]
fn plugins_dir_candidate_prefers_override() {
    assert_eq!(plugins_dir_candidate(Some("X:\\plugins".to_string()), true, Some("C:\\L".to_string())), Ok("X:\\plugins".to_string()));
    assert_eq!(plugins_dir_candidate(None, true, Some("C:\\L".to_string())), Ok("C:\\L\\Roblox\\Plugins".to_string()));
    assert_eq!(plugins_dir_candidate(None, false, Some("C:\\L".to_string())), Err(PyanpmError::MissingDefaultPluginsDir));
    assert_eq!(plugins_dir_candidate(None, true, None), Err(PyanpmError::MissingDefaultPluginsDir));
}

#[test]
fn plugin_name_edge_cases() {
    assert!(validate_plugin_name("").is_err());
    assert!(validate_plugin_name("com1").is_err());
    assert!(validate_plugin_name("Lpt9").is_err());
    assert!(validate_plugin_name("COM10").is_ok());
    assert!(validate_plugin_name("name.").is_err());
    assert!(validate_plugin_name("a b").is_err());
    assert!(validate_plugin_name("c:d").is_err());
    assert!(validate_plugin_name("back\\slash").is_err());
    assert!(validate_plugin_name("ok-name_1.2").is_ok());
    assert_eq!(validate_plugin_name("bad/name"), Err(PyanpmError::InvalidPluginName("bad/name".to_string())));
}

#[test]
fn file_plugin_name_is_the_stem() {
    assert_eq!(infer_file_plugin_name(r"C:\Plugins\my-plugin.rbxm"), Ok("my-plugin".to_string()));
    assert_eq!(infer_file_plugin_name("plugins/tool.v2.rbxmx"), Ok("tool.v2".to_string()));
    assert_eq!(infer_file_plugin_name(r"C:\Plugins\CON.rbxm"), Err(PyanpmError::InvalidPluginName("CON".to_string())));
    assert_eq!(infer_file_plugin_name(r"C:\Plugins\"), Err(PyanpmError::InvalidPluginName(r"C:\Plugins\".to_string())));
}

#[test]
fn artifact_extension_accepts_models_only() {
    assert_eq!(artifact_extension(r"C:\x\Plugin.RBXM"), Ok("rbxm".to_string()));
    assert_eq!(artifact_extension("a/b.rbxmx"), Ok("rbxmx".to_string()));
    assert_eq!(artifact_extension("a/b.lua"), Err(PyanpmError::UnsupportedArtifact("a/b.lua".to_string())));
    assert_eq!(artifact_extension("a/noext"), Err(PyanpmError::UnsupportedArtifact("a/noext".to_string())));
}
