//! Plugin names, source kinds and resolved plugins.
use vstd::prelude::*;
use crate::error::PyanpmError;
use crate::config::GitRefKind;
use crate::paths::{file_stem, file_stem_spec, extension, extension_spec};
use crate::text::{contains_char, str_eq, to_ascii_uppercase, to_ascii_lowercase, ascii_upper_spec, ascii_lower_spec};

verus! {

/// Where a plugin comes from.
#[derive(Debug, Clone, Copy, PartialEq, Eq, Structural)]
pub enum PluginSourceKind {
    File,
    Path,
    Git,
}

/// What a plugin artifact is on disk.
#[derive(Debug, Clone, Copy, PartialEq, Eq, Structural)]
pub enum ArtifactKind {
    File,
    Directory,
}

/// Lower-case name of a source kind.
pub open spec fn source_kind_name(k: PluginSourceKind) -> Seq<char> {
    match k {
        PluginSourceKind::File => "file"@,
        PluginSourceKind::Path => "path"@,
        PluginSourceKind::Git => "git"@,
    }
}

impl PluginSourceKind {
    /// Lower-case name of the kind, as recorded in summaries.
    pub fn name(&self) -> (r: String)
        ensures
            r@ == source_kind_name(*self),
    {
        match self {
            PluginSourceKind::File => String::from_str("file"),
            PluginSourceKind::Path => String::from_str("path"),
            PluginSourceKind::Git => String::from_str("git"),
        }
    }
}

/// A plugin whose source has been read: what it is, where it came from, and
/// the artifact to install.
pub struct ResolvedPlugin {
    pub name: String,
    pub requested_version: Option<String>,
    pub resolved_version: Option<String>,
    pub source: PluginSourceKind,
    pub source_path: String,
    pub source_url: Option<String>,
    pub source_subdir: Option<String>,
    pub git_ref_kind: Option<GitRefKind>,
    pub git_requested_ref: Option<String>,
    pub git_resolved_commit: Option<String>,
    pub artifact_path: String,
    pub artifact_kind: ArtifactKind,
    pub checksum: String,
    pub install_name: String,
}

/// Windows device names that cannot name a file.
pub open spec fn reserved_windows_names() -> Seq<Seq<char>> {
    seq![
        "CON"@, "PRN"@, "AUX"@, "NUL"@, "COM1"@, "COM2"@, "COM3"@, "COM4"@, "COM5"@, "COM6"@,
        "COM7"@, "COM8"@, "COM9"@, "LPT1"@, "LPT2"@, "LPT3"@, "LPT4"@, "LPT5"@, "LPT6"@,
        "LPT7"@, "LPT8"@, "LPT9"@,
    ]
}

pub open spec fn is_ascii_alphanumeric(c: char) -> bool {
    ('a' <= c <= 'z') || ('A' <= c <= 'Z') || ('0' <= c <= '9')
}

/// Characters allowed in a plugin name.
pub open spec fn is_name_char(c: char) -> bool {
    is_ascii_alphanumeric(c) || c == '-' || c == '_' || c == '.'
}

/// A plugin name that is safe as a Windows file name: not empty, made of
/// ASCII letters, digits, `-`, `_` and `.`, not ending in `.` or space, and no
/// device name in any letter case.
pub open spec fn valid_plugin_name(name: Seq<char>) -> bool {
    &&& name.len() > 0
    &&& !name.contains('/')
    &&& !name.contains('\\')
    &&& !name.contains(':')
    &&& name.last() != '.'
    &&& name.last() != ' '
    &&& !reserved_windows_names().contains(ascii_upper_spec(name))
    &&& forall|i: int| 0 <= i < name.len() ==> is_name_char(#[trigger] name[i])
}

fn is_reserved_upper(upper: &str) -> (r: bool)
    ensures
        r == reserved_windows_names().contains(upper@),
{
    let r = str_eq(upper, "CON") || str_eq(upper, "PRN") || str_eq(upper, "AUX") || str_eq(upper, "NUL")
        || str_eq(upper, "COM1") || str_eq(upper, "COM2") || str_eq(upper, "COM3") || str_eq(
        upper,
        "COM4",
    ) || str_eq(upper, "COM5") || str_eq(upper, "COM6") || str_eq(upper, "COM7") || str_eq(
        upper,
        "COM8",
    ) || str_eq(upper, "COM9") || str_eq(upper, "LPT1") || str_eq(upper, "LPT2") || str_eq(
        upper,
        "LPT3",
    ) || str_eq(upper, "LPT4") || str_eq(upper, "LPT5") || str_eq(upper, "LPT6") || str_eq(
        upper,
        "LPT7",
    ) || str_eq(upper, "LPT8") || str_eq(upper, "LPT9");
    proof {
        let names = reserved_windows_names();
        if r {
            let i = choose|i: int| 0 <= i < names.len() && names[i] == upper@;
        }
        if names.contains(upper@) {
            let i = choose|i: int| 0 <= i < names.len() && names[i] == upper@;
            assert(names[i] == upper@);
        }
        if r {
            assert(names.contains(upper@)) by {
                if upper@ == "CON"@ { assert(names[0] == upper@); }
                else if upper@ == "PRN"@ { assert(names[1] == upper@); }
                else if upper@ == "AUX"@ { assert(names[2] == upper@); }
                else if upper@ == "NUL"@ { assert(names[3] == upper@); }
                else if upper@ == "COM1"@ { assert(names[4] == upper@); }
                else if upper@ == "COM2"@ { assert(names[5] == upper@); }
                else if upper@ == "COM3"@ { assert(names[6] == upper@); }
                else if upper@ == "COM4"@ { assert(names[7] == upper@); }
                else if upper@ == "COM5"@ { assert(names[8] == upper@); }
                else if upper@ == "COM6"@ { assert(names[9] == upper@); }
                else if upper@ == "COM7"@ { assert(names[10] == upper@); }
                else if upper@ == "COM8"@ { assert(names[11] == upper@); }
                else if upper@ == "COM9"@ { assert(names[12] == upper@); }
                else if upper@ == "LPT1"@ { assert(names[13] == upper@); }
                else if upper@ == "LPT2"@ { assert(names[14] == upper@); }
                else if upper@ == "LPT3"@ { assert(names[15] == upper@); }
                else if upper@ == "LPT4"@ { assert(names[16] == upper@); }
                else if upper@ == "LPT5"@ { assert(names[17] == upper@); }
                else if upper@ == "LPT6"@ { assert(names[18] == upper@); }
                else if upper@ == "LPT7"@ { assert(names[19] == upper@); }
                else if upper@ == "LPT8"@ { assert(names[20] == upper@); }
                else { assert(names[21] == upper@); }
            }
        }
    }
    r
}

/// Checks that `name` can name a managed plugin.
pub fn validate_plugin_name(name: &str) -> (r: Result<(), PyanpmError>)
    ensures
        r is Ok <==> valid_plugin_name(name@),
        r is Err ==> (r matches Err(PyanpmError::InvalidPluginName(s)) && s@ == name@),
{
    let n = name.unicode_len();
    let invalid = PyanpmError::InvalidPluginName(String::from_str(name));
    if n == 0 || contains_char(name, '/') || contains_char(name, '\\') || contains_char(name, ':') {
        return Err(invalid);
    }
    let last = name.get_char(n - 1);
    assert(last == name@.last());
    if last == '.' || last == ' ' {
        return Err(invalid);
    }
    let upper = to_ascii_uppercase(name);
    if is_reserved_upper(upper.as_str()) {
        return Err(invalid);
    }
    let mut i: usize = 0;
    while i < n
        invariant
            n == name@.len(),
            i <= n,
            forall|j: int| 0 <= j < i ==> is_name_char(#[trigger] name@[j]),
            invalid matches PyanpmError::InvalidPluginName(s) && s@ == name@,
        decreases n - i,
    {
        let c = name.get_char(i);
        let ok = ('a' <= c && c <= 'z') || ('A' <= c && c <= 'Z') || ('0' <= c && c <= '9') || c
            == '-' || c == '_' || c == '.';
        if !ok {
            assert(!is_name_char(name@[i as int]));
            return Err(invalid);
        }
        i = i + 1;
    }
    Ok(())
}

/// The plugin name a `file:` source gets: the stem of its file name.
pub fn infer_file_plugin_name(path: &str) -> (r: Result<String, PyanpmError>)
    ensures
        file_stem_spec(path@) is None ==> (r matches Err(PyanpmError::InvalidPluginName(s))
            && s@ == path@),
        file_stem_spec(path@) matches Some(stem) ==> {
            &&& valid_plugin_name(stem) ==> (r matches Ok(n) && n@ == stem)
            &&& !valid_plugin_name(stem) ==> (r matches Err(PyanpmError::InvalidPluginName(s))
                && s@ == stem)
        },
{
    match file_stem(path) {
        None => Err(PyanpmError::InvalidPluginName(String::from_str(path))),
        Some(stem) => {
            match validate_plugin_name(stem) {
                Ok(()) => Ok(String::from_str(stem)),
                Err(e) => Err(e),
            }
        },
    }
}

/// The artifact extensions Roblox Studio loads plugins from.
pub open spec fn supported_extension(ext: Seq<char>) -> bool {
    ext == "rbxm"@ || ext == "rbxmx"@
}

/// The lower-cased extension of a path when it is a supported one.
pub open spec fn artifact_extension_spec(path: Seq<char>) -> Option<Seq<char>> {
    match extension_spec(path) {
        Some(ext) => if supported_extension(ascii_lower_spec(ext)) {
            Some(ascii_lower_spec(ext))
        } else {
            None
        },
        None => None,
    }
}

/// The lower-cased extension of a plugin artifact, which must be `rbxm` or
/// `rbxmx`.
pub fn artifact_extension(path: &str) -> (r: Result<String, PyanpmError>)
    ensures
        match artifact_extension_spec(path@) {
            Some(ext) => r matches Ok(e) && e@ == ext,
            None => r matches Err(PyanpmError::UnsupportedArtifact(p)) && p@ == path@,
        },
{
    match extension(path) {
        None => Err(PyanpmError::UnsupportedArtifact(String::from_str(path))),
        Some(ext) => {
            let lower = to_ascii_lowercase(ext);
            if str_eq(lower.as_str(), "rbxm") || str_eq(lower.as_str(), "rbxmx") {
                Ok(lower)
            } else {
                Err(PyanpmError::UnsupportedArtifact(String::from_str(path)))
            }
        },
    }
}

/// The name an artifact is installed under in the plugins directory.
pub open spec fn install_name_spec(name: Seq<char>, kind: ArtifactKind, ext: Seq<char>) -> Seq<char> {
    match kind {
        ArtifactKind::Directory => name,
        ArtifactKind::File => name + "."@ + ext,
    }
}

} // verus!
