//! The error type of the library and its user-facing messages.
use vstd::prelude::*;
use crate::text::{concat2, concat3, concat4};

verus! {

/// Everything that can go wrong in a pyanPM operation.  Paths are held as
/// their displayed text, and the errors of I/O, TOML and JSON as their
/// messages.
#[derive(Debug, Clone, PartialEq, Eq)]
pub enum PyanpmError {
    Io(String),
    ManifestExists(String),
    ManifestMissing(String),
    LockfileParse(String),
    Serialization(String),
    Json(String),
    InvalidPluginRef(String),
    UnsupportedSource(String),
    PluginAlreadyExists(String),
    UnknownPlugin(String),
    InvalidPluginName(String),
    UnsupportedArtifact(String),
    MissingMetadata(String),
    InvalidMetadata(String),
    MissingGitExecutable,
    GitCloneFailed { url: String, message: String },
    GitFetchFailed { url: String, message: String },
    GitCheckoutFailed { url: String, message: String },
    InvalidGitUrl(String),
    InvalidGitRef(String),
    InvalidGitSubdir(String),
    InstallTargetEscapes(String),
    MissingDefaultCacheDir,
    MissingDefaultConfigDir,
    MissingDefaultPluginsDir,
    ActivityNotFound(String),
    CacheEntryNotFound(String),
    ProtectedCacheEntry(String),
    ConfirmationRequired(String),
}

/// The message shown to users for an error.
pub open spec fn error_message(e: PyanpmError) -> Seq<char> {
    match e {
        PyanpmError::Io(m) => "io error: "@ + m@,
        PyanpmError::ManifestExists(p) => "manifest already exists at "@ + p@,
        PyanpmError::ManifestMissing(p) => "manifest not found at "@ + p@,
        PyanpmError::LockfileParse(m) => "lockfile parse error: "@ + m@,
        PyanpmError::Serialization(m) => "serialization error: "@ + m@,
        PyanpmError::Json(m) => "json error: "@ + m@,
        PyanpmError::InvalidPluginRef(r) => "invalid plugin reference `"@ + r@ + "`"@,
        PyanpmError::UnsupportedSource(r) => "unsupported source `"@ + r@ + "`"@,
        PyanpmError::PluginAlreadyExists(n) => "plugin `"@ + n@ + "` already exists in the manifest"@,
        PyanpmError::UnknownPlugin(n) => "unknown plugin `"@ + n@ + "`"@,
        PyanpmError::InvalidPluginName(n) => "invalid plugin name `"@ + n@ + "`"@,
        PyanpmError::UnsupportedArtifact(p) => "unsupported artifact at "@ + p@,
        PyanpmError::MissingMetadata(p) => "missing plugin metadata at "@ + p@,
        PyanpmError::InvalidMetadata(m) => "plugin metadata error: "@ + m@,
        PyanpmError::MissingGitExecutable => "git executable was not found in PATH"@,
        PyanpmError::GitCloneFailed { url, message } => "git clone failed for `"@ + url@ + "`: "@
            + message@,
        PyanpmError::GitFetchFailed { url, message } => "git fetch failed for `"@ + url@ + "`: "@
            + message@,
        PyanpmError::GitCheckoutFailed { url, message } => "git checkout failed for `"@ + url@
            + "`: "@ + message@,
        PyanpmError::InvalidGitUrl(m) => "git source URL is invalid: "@ + m@,
        PyanpmError::InvalidGitRef(m) => "git reference is invalid: "@ + m@,
        PyanpmError::InvalidGitSubdir(m) => "git subdirectory is invalid: "@ + m@,
        PyanpmError::InstallTargetEscapes(p) => "install target escapes the Studio plugins directory: "@
            + p@,
        PyanpmError::MissingDefaultCacheDir => "platform default cache directory is unavailable"@,
        PyanpmError::MissingDefaultConfigDir => "platform default config directory is unavailable"@,
        PyanpmError::MissingDefaultPluginsDir =>
            "platform default Studio plugins directory is unavailable; pass --plugins-dir explicitly"@,
        PyanpmError::ActivityNotFound(id) => "activity record `"@ + id@ + "` was not found"@,
        PyanpmError::CacheEntryNotFound(id) => "cache entry `"@ + id@ + "` was not found"@,
        PyanpmError::ProtectedCacheEntry(id) => "cache entry `"@ + id@
            + "` is protected by the active lockfile"@,
        PyanpmError::ConfirmationRequired(m) => "confirmation required: "@ + m@,
    }
}

/// The stable machine-readable code recorded for an error.
pub open spec fn error_code_spec(e: PyanpmError) -> Seq<char> {
    match e {
        PyanpmError::ManifestExists(_) => "manifest_exists"@,
        PyanpmError::ManifestMissing(_) => "manifest_missing"@,
        PyanpmError::InvalidPluginRef(_) => "invalid_plugin_ref"@,
        PyanpmError::UnsupportedSource(_) => "unsupported_source"@,
        PyanpmError::PluginAlreadyExists(_) => "plugin_exists"@,
        PyanpmError::UnknownPlugin(_) => "unknown_plugin"@,
        PyanpmError::InvalidPluginName(_) => "invalid_plugin_name"@,
        PyanpmError::UnsupportedArtifact(_) => "unsupported_artifact"@,
        PyanpmError::MissingMetadata(_) => "missing_metadata"@,
        PyanpmError::InvalidMetadata(_) => "invalid_metadata"@,
        PyanpmError::MissingGitExecutable => "missing_git_executable"@,
        PyanpmError::GitCloneFailed { .. } => "git_clone_failed"@,
        PyanpmError::GitFetchFailed { .. } => "git_fetch_failed"@,
        PyanpmError::GitCheckoutFailed { .. } => "git_checkout_failed"@,
        PyanpmError::InvalidGitUrl(_) => "invalid_git_url"@,
        PyanpmError::InvalidGitRef(_) => "invalid_git_ref"@,
        PyanpmError::InvalidGitSubdir(_) => "invalid_git_subdir"@,
        PyanpmError::InstallTargetEscapes(_) => "install_target_escapes"@,
        PyanpmError::MissingDefaultCacheDir => "missing_cache_dir"@,
        PyanpmError::MissingDefaultConfigDir => "missing_config_dir"@,
        PyanpmError::MissingDefaultPluginsDir => "missing_plugins_dir"@,
        PyanpmError::ActivityNotFound(_) => "activity_not_found"@,
        PyanpmError::CacheEntryNotFound(_) => "cache_entry_not_found"@,
        PyanpmError::ProtectedCacheEntry(_) => "cache_entry_protected"@,
        PyanpmError::ConfirmationRequired(_) => "confirmation_required"@,
        PyanpmError::Io(_) => "io_error"@,
        PyanpmError::LockfileParse(_) => "parse_error"@,
        PyanpmError::Serialization(_) => "serialization_error"@,
        PyanpmError::Json(_) => "json_error"@,
    }
}

impl PyanpmError {
    /// The message shown to users for this error.
    pub fn message(&self) -> (r: String)
        ensures
            r@ == error_message(*self),
    {
        match self {
            PyanpmError::Io(m) => concat2("io error: ", m),
            PyanpmError::ManifestExists(p) => concat2("manifest already exists at ", p),
            PyanpmError::ManifestMissing(p) => concat2("manifest not found at ", p),
            PyanpmError::LockfileParse(m) => concat2("lockfile parse error: ", m),
            PyanpmError::Serialization(m) => concat2("serialization error: ", m),
            PyanpmError::Json(m) => concat2("json error: ", m),
            PyanpmError::InvalidPluginRef(r) => concat3("invalid plugin reference `", r, "`"),
            PyanpmError::UnsupportedSource(r) => concat3("unsupported source `", r, "`"),
            PyanpmError::PluginAlreadyExists(n) => concat3(
                "plugin `",
                n,
                "` already exists in the manifest",
            ),
            PyanpmError::UnknownPlugin(n) => concat3("unknown plugin `", n, "`"),
            PyanpmError::InvalidPluginName(n) => concat3("invalid plugin name `", n, "`"),
            PyanpmError::UnsupportedArtifact(p) => concat2("unsupported artifact at ", p),
            PyanpmError::MissingMetadata(p) => concat2("missing plugin metadata at ", p),
            PyanpmError::InvalidMetadata(m) => concat2("plugin metadata error: ", m),
            PyanpmError::MissingGitExecutable => String::from_str(
                "git executable was not found in PATH",
            ),
            PyanpmError::GitCloneFailed { url, message } => concat4(
                "git clone failed for `",
                url,
                "`: ",
                message,
            ),
            PyanpmError::GitFetchFailed { url, message } => concat4(
                "git fetch failed for `",
                url,
                "`: ",
                message,
            ),
            PyanpmError::GitCheckoutFailed { url, message } => concat4(
                "git checkout failed for `",
                url,
                "`: ",
                message,
            ),
            PyanpmError::InvalidGitUrl(m) => concat2("git source URL is invalid: ", m),
            PyanpmError::InvalidGitRef(m) => concat2("git reference is invalid: ", m),
            PyanpmError::InvalidGitSubdir(m) => concat2("git subdirectory is invalid: ", m),
            PyanpmError::InstallTargetEscapes(p) => concat2(
                "install target escapes the Studio plugins directory: ",
                p,
            ),
            PyanpmError::MissingDefaultCacheDir => String::from_str(
                "platform default cache directory is unavailable",
            ),
            PyanpmError::MissingDefaultConfigDir => String::from_str(
                "platform default config directory is unavailable",
            ),
            PyanpmError::MissingDefaultPluginsDir => String::from_str(
                "platform default Studio plugins directory is unavailable; pass --plugins-dir explicitly",
            ),
            PyanpmError::ActivityNotFound(id) => concat3("activity record `", id, "` was not found"),
            PyanpmError::CacheEntryNotFound(id) => concat3("cache entry `", id, "` was not found"),
            PyanpmError::ProtectedCacheEntry(id) => concat3(
                "cache entry `",
                id,
                "` is protected by the active lockfile",
            ),
            PyanpmError::ConfirmationRequired(m) => concat2("confirmation required: ", m),
        }
    }

    /// The machine-readable code recorded for this error in activity history.
    pub fn code(&self) -> (r: String)
        ensures
            r@ == error_code_spec(*self),
    {
        let s = match self {
            PyanpmError::ManifestExists(_) => "manifest_exists",
            PyanpmError::ManifestMissing(_) => "manifest_missing",
            PyanpmError::InvalidPluginRef(_) => "invalid_plugin_ref",
            PyanpmError::UnsupportedSource(_) => "unsupported_source",
            PyanpmError::PluginAlreadyExists(_) => "plugin_exists",
            PyanpmError::UnknownPlugin(_) => "unknown_plugin",
            PyanpmError::InvalidPluginName(_) => "invalid_plugin_name",
            PyanpmError::UnsupportedArtifact(_) => "unsupported_artifact",
            PyanpmError::MissingMetadata(_) => "missing_metadata",
            PyanpmError::InvalidMetadata(_) => "invalid_metadata",
            PyanpmError::MissingGitExecutable => "missing_git_executable",
            PyanpmError::GitCloneFailed { .. } => "git_clone_failed",
            PyanpmError::GitFetchFailed { .. } => "git_fetch_failed",
            PyanpmError::GitCheckoutFailed { .. } => "git_checkout_failed",
            PyanpmError::InvalidGitUrl(_) => "invalid_git_url",
            PyanpmError::InvalidGitRef(_) => "invalid_git_ref",
            PyanpmError::InvalidGitSubdir(_) => "invalid_git_subdir",
            PyanpmError::InstallTargetEscapes(_) => "install_target_escapes",
            PyanpmError::MissingDefaultCacheDir => "missing_cache_dir",
            PyanpmError::MissingDefaultConfigDir => "missing_config_dir",
            PyanpmError::MissingDefaultPluginsDir => "missing_plugins_dir",
            PyanpmError::ActivityNotFound(_) => "activity_not_found",
            PyanpmError::CacheEntryNotFound(_) => "cache_entry_not_found",
            PyanpmError::ProtectedCacheEntry(_) => "cache_entry_protected",
            PyanpmError::ConfirmationRequired(_) => "confirmation_required",
            PyanpmError::Io(_) => "io_error",
            PyanpmError::LockfileParse(_) => "parse_error",
            PyanpmError::Serialization(_) => "serialization_error",
            PyanpmError::Json(_) => "json_error",
        };
        String::from_str(s)
    }
}

} // verus!
