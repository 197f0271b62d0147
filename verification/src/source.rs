//! Plugin source references (`file:`, `path:` and `git:`), their validation,
//! and the resolution of manifest entries into installable plugins.
use vstd::prelude::*;
use crate::config::{GitSourceOptions, LockedPlugin, ManifestPluginSpec, PackageMetadata, git_ref_kind_name, normalize_ref_spec, normalize_subdir_spec};
use crate::error::{PyanpmError, error_message};
use crate::git::{GitCheckout, normalize_git_url, normalize_git_url_spec, validate_git_options, options_valid, is_git_options_error};
use crate::operations::{ValidationIssue, ValidationSeverity};
use crate::paths::{join_path, join_spec};
use crate::plugin::{
    ArtifactKind, PluginSourceKind, ResolvedPlugin, artifact_extension, artifact_extension_spec,
    infer_file_plugin_name, validate_plugin_name, valid_plugin_name, install_name_spec,
};
use crate::text::{clone_opt, concat2, concat3, concat5, opt_view, replace_char, replace_char_spec, strip_prefix, trim, is_blank, str_eq};

verus! {

/// A source reference read into a manifest entry, with the plugin's name.
#[derive(Debug)]
pub struct ParsedPluginRef {
    pub spec: ManifestPluginSpec,
    pub name: String,
}

/// The outcome of validating a source reference.
#[derive(Debug)]
pub struct SourceValidation {
    pub normalized_source_ref: Option<String>,
    pub plugin_name: Option<String>,
    pub errors: Vec<ValidationIssue>,
}

/// Which kind of source a reference names, with what follows its prefix.
#[derive(Debug)]
pub enum SourcePlan {
    /// `file:` followed by the path of an `.rbxm`/`.rbxmx` file.
    File { raw_path: String },
    /// `path:` followed by a folder holding `pyanpm.plugin.toml`.
    Path { raw_path: String },
    /// `git:` followed by a repository URL (already normalized).
    Git { url: String },
}

/// The reference after its prefix, when it has that prefix.
pub open spec fn after_prefix(s: Seq<char>, prefix: Seq<char>) -> Option<Seq<char>> {
    if prefix.len() <= s.len() && s.subrange(0, prefix.len() as int) == prefix {
        Some(s.subrange(prefix.len() as int, s.len() as int))
    } else {
        None
    }
}

/// Refuses git options on a source that is not a git repository.
pub fn reject_git_options_for_non_git(git_options: &GitSourceOptions) -> (r: Result<(), PyanpmError>)
    ensures
        r is Ok <==> git_options.empty_spec(),
        r is Err ==> (r matches Err(PyanpmError::InvalidGitRef(m)) && m@
            == "Git ref fields can only be used with `git:` sources."@),
{
    if git_options.is_empty() {
        Ok(())
    } else {
        Err(PyanpmError::InvalidGitRef(String::from_str("Git ref fields can only be used with `git:` sources.")))
    }
}

/// The checks on a source reference that need no file system: the git
/// options are validated first, then the prefix decides the source kind;
/// `file:` and `path:` refuse git options and `git:` needs a valid URL.
pub fn plan_plugin_ref(reference: &str, git_options: &GitSourceOptions) -> (r: Result<(SourcePlan, GitSourceOptions), PyanpmError>)
    ensures
        !options_valid(git_options.git_ref_kind, opt_view(git_options.git_ref), opt_view(git_options.git_subdir))
            ==> (r matches Err(e) && is_git_options_error(*git_options, e)),
        r matches Ok((plan, opts)) ==> {
            &&& options_valid(git_options.git_ref_kind, opt_view(git_options.git_ref), opt_view(git_options.git_subdir))
            &&& opts.git_ref_kind == git_options.git_ref_kind
            &&& opt_view(opts.git_ref) == normalize_ref_spec(opt_view(git_options.git_ref))
            &&& opt_view(opts.git_subdir) == normalize_subdir_spec(opt_view(git_options.git_subdir))
            &&& match plan {
                SourcePlan::File { raw_path } => after_prefix(reference@, "file:"@) == Some(raw_path@)
                    && git_options.empty_spec(),
                SourcePlan::Path { raw_path } => after_prefix(reference@, "file:"@) is None
                    && after_prefix(reference@, "path:"@) == Some(raw_path@) && git_options.empty_spec(),
                SourcePlan::Git { url } => after_prefix(reference@, "file:"@) is None
                    && after_prefix(reference@, "path:"@) is None
                    && (after_prefix(reference@, "git:"@) matches Some(raw) && normalize_git_url_spec(raw) == Ok::<Seq<char>, Seq<char>>(url@)),
            }
        },
        options_valid(git_options.git_ref_kind, opt_view(git_options.git_ref), opt_view(git_options.git_subdir))
            && after_prefix(reference@, "file:"@) is None && after_prefix(reference@, "path:"@) is None
            && after_prefix(reference@, "git:"@) is None
            ==> (r matches Err(PyanpmError::InvalidPluginRef(x)) && x@ == reference@),
        options_valid(git_options.git_ref_kind, opt_view(git_options.git_ref), opt_view(git_options.git_subdir))
            && (after_prefix(reference@, "file:"@) is Some || after_prefix(reference@, "path:"@) is Some)
            && !git_options.empty_spec() ==> (r matches Err(PyanpmError::InvalidGitRef(m))
            && m@ == "Git ref fields can only be used with `git:` sources."@),
        options_valid(git_options.git_ref_kind, opt_view(git_options.git_ref), opt_view(git_options.git_subdir))
            && after_prefix(reference@, "file:"@) is None && after_prefix(reference@, "path:"@) is None
            && (after_prefix(reference@, "git:"@) matches Some(raw) && normalize_git_url_spec(raw) is Err)
            ==> (r matches Err(PyanpmError::InvalidGitUrl(_))),
{
    proof {
        reveal_strlit("file:");
        reveal_strlit("path:");
        reveal_strlit("git:");
    }
    let normalized = match validate_git_options(git_options) {
        Ok(n) => n,
        Err(e) => return Err(e),
    };
    proof {
        crate::config::lemma_normalize_options(git_options.git_ref_kind, opt_view(git_options.git_ref), opt_view(git_options.git_subdir));
    }
    if let Some(raw) = strip_prefix(reference, "file:") {
        match reject_git_options_for_non_git(git_options) {
            Ok(()) => {},
            Err(e) => return Err(e),
        }
        assert(reference@.subrange(5, reference@.len() as int) =~= raw@) by { reveal_strlit("file:"); }
        return Ok((SourcePlan::File { raw_path: String::from_str(raw) }, normalized));
    }
    if let Some(raw) = strip_prefix(reference, "path:") {
        match reject_git_options_for_non_git(git_options) {
            Ok(()) => {},
            Err(e) => return Err(e),
        }
        assert(reference@.subrange(5, reference@.len() as int) =~= raw@) by { reveal_strlit("path:"); }
        return Ok((SourcePlan::Path { raw_path: String::from_str(raw) }, normalized));
    }
    if let Some(raw) = strip_prefix(reference, "git:") {
        assert(reference@.subrange(4, reference@.len() as int) =~= raw@) by { reveal_strlit("git:"); }
        let url = match normalize_git_url(raw) {
            Ok(u) => u,
            Err(e) => return Err(e),
        };
        return Ok((SourcePlan::Git { url }, normalized));
    }
    Err(PyanpmError::InvalidPluginRef(String::from_str(reference)))
}

/// `dir` is a directory path that Unix and Windows read alike, with no
/// prefix: not empty, free of `\` and `:`, not ending in `/` and not
/// starting with `//`.
pub open spec fn is_portable_dir(dir: Seq<char>) -> bool {
    &&& dir.len() > 0
    &&& forall|i: int| 0 <= i < dir.len() ==> #[trigger] dir[i] != '\\' && dir[i] != ':'
    &&& dir.last() != '/'
    &&& !(dir.len() >= 2 && dir[0] == '/' && dir[1] == '/')
}

/// A `.` or `..` component starts at position `i` of `s`.
pub open spec fn dot_component_at(s: Seq<char>, i: int) -> bool {
    &&& 0 <= i < s.len()
    &&& (i == 0 || s[i - 1] == '/')
    &&& s[i] == '.'
    &&& (i + 1 == s.len() || s[i + 1] == '/' || (s[i + 1] == '.' && (i + 2 == s.len() || s[i + 2] == '/')))
}

/// `s` is a relative path that Unix and Windows read alike: plain components
/// (not `.` or `..`, free of `\` and `:`) separated by single `/`.
pub open spec fn is_plain_rel(s: Seq<char>) -> bool {
    &&& s.len() > 0
    &&& s[0] != '/'
    &&& s.last() != '/'
    &&& forall|i: int| 0 <= i < s.len() ==> #[trigger] s[i] != '\\' && s[i] != ':'
    &&& forall|i: int| 0 <= i < s.len() - 1 ==> !(#[trigger] s[i] == '/' && s[i + 1] == '/')
    &&& forall|i: int| !dot_component_at(s, i)
}

/// `path` is `dir`, one `/` and the plain relative path `rel`, with `dir` a
/// portable directory.
pub open spec fn is_below(path: Seq<char>, dir: Seq<char>, rel: Seq<char>) -> bool {
    &&& is_portable_dir(dir)
    &&& is_plain_rel(rel)
    &&& path == dir + seq!['/'] + rel
}

/// The number of `c` in `s`.
pub open spec fn count_char(s: Seq<char>, c: char) -> nat
    decreases s.len(),
{
    if s.len() == 0 {
        0
    } else {
        count_char(s.drop_last(), c) + if s.last() == c { 1nat } else { 0nat }
    }
}

/// The number of components of a plain relative path.
pub open spec fn component_count(rel: Seq<char>) -> nat {
    count_char(rel, '/') + 1
}

/// The first component of a relative path: up to its first `/`.
pub open spec fn first_component(s: Seq<char>) -> Seq<char>
    decreases s.len(),
{
    if s.len() == 0 || s[0] == '/' {
        Seq::empty()
    } else {
        seq![s[0]] + first_component(s.drop_first())
    }
}

/// `../` written `k` times.
pub open spec fn parent_prefix(k: nat) -> Seq<char>
    decreases k,
{
    if k == 0 {
        Seq::empty()
    } else {
        seq!['.', '.', '/'] + parent_prefix((k - 1) as nat)
    }
}

/// `s` with every `\` written `/`.
pub open spec fn slashed(s: Seq<char>) -> Seq<char> {
    replace_char_spec(s, '\\', '/')
}

/// What is known of the path from `base` to `path` (`rel`, `None` when
/// there is none), on every platform: a path relative to itself is empty;
/// for paths that Unix and Windows read alike, a path below `base` is the
/// part below it, an ancestor of `base` is one `..` per component between
/// them, and a path beside `base` climbs to their common directory with
/// `..` and descends from there (written with `/` once `\` is).
pub open spec fn diff_facts(path: Seq<char>, base: Seq<char>, rel: Option<Seq<char>>) -> bool {
    &&& (path == base ==> rel == Some(Seq::<char>::empty()))
    &&& forall|below: Seq<char>| #[trigger] is_below(path, base, below)
        ==> (rel is Some && slashed(rel->Some_0) == below)
    &&& forall|above: Seq<char>| #[trigger] is_below(base, path, above)
        ==> (rel is Some && slashed(rel->Some_0) == parent_prefix(component_count(above)).drop_last())
    &&& forall|dir: Seq<char>, prel: Seq<char>, brel: Seq<char>|
        #![trigger is_below(path, dir, prel), is_below(base, dir, brel)]
        is_below(path, dir, prel) && is_below(base, dir, brel) && first_component(prel) != first_component(brel)
        ==> (rel is Some && slashed(rel->Some_0) == parent_prefix(component_count(brel)) + prel)
}

/// A path relative to `base` when one exists (calls `pathdiff::diff_paths`,
/// then `Path::to_string_lossy`).  Its source compares the two paths
/// component by component: equal leading components are dropped, each
/// remaining component of `base` becomes `..`, and the remaining components
/// of `path` follow; `diff_facts` states this for paths that every platform
/// parses alike.  Nothing is claimed of other paths: which are absolute,
/// how they split into components and which separator joins the result
/// depend on the platform.
#[verifier::external_body]
fn diff_paths(path: &str, base: &str) -> (r: Option<String>)
    ensures
        diff_facts(path@, base@, opt_view(r)),
{
    pathdiff::diff_paths(std::path::Path::new(path), std::path::Path::new(base)).map(
        |p| p.to_string_lossy().into_owned(),
    )
}

/// How a path is shown given the path from the project directory to it:
/// that relative path when there is one, else the path itself, written
/// with `/` separators.
pub open spec fn shown_spec(path: Seq<char>, rel: Option<Seq<char>>) -> Seq<char> {
    slashed(
        match rel {
            Some(x) => x,
            None => path,
        },
    )
}

/// The path shown for `path` given `rel`, its path relative to the project
/// directory (`None` when it has none): `rel`, else `path`, with every `\`
/// written `/`.
pub fn shown_path(path: &str, rel: Option<String>) -> (r: String)
    ensures
        r@ == shown_spec(path@, opt_view(rel)),
{
    let shown = match rel {
        Some(x) => x,
        None => String::from_str(path),
    };
    replace_char(shown.as_str(), '\\', '/')
}

/// No `\` is left once every `\` is written `/`.
pub proof fn lemma_slashed_has_no_backslash(s: Seq<char>)
    ensures
        !slashed(s).contains('\\'),
{
    if slashed(s).contains('\\') {
        let i = choose|i: int| 0 <= i < slashed(s).len() && slashed(s)[i] == '\\';
        assert(slashed(s)[i] == (if s[i] == '\\' { '/' } else { s[i] }));
    }
}

/// `r` is how `path` is shown against `dir`: the path from `dir` to it (or
/// `path` itself when there is none), with `/` separators, where that
/// relative path is one that `diff_facts` allows.
pub open spec fn is_relativized(path: Seq<char>, dir: Seq<char>, r: Seq<char>) -> bool {
    &&& !r.contains('\\')
    &&& exists|rel: Option<Seq<char>>| #[trigger] diff_facts(path, dir, rel) && r == shown_spec(path, rel)
}

/// `path` relative to `project_dir` when it can be expressed so, else `path`
/// itself, written with `/` separators.
pub fn relativize_or_display(path: &str, project_dir: &str) -> (r: String)
    ensures
        is_relativized(path@, project_dir@, r@),
{
    let rel = diff_paths(path, project_dir);
    let ghost relv = opt_view(rel);
    let r = shown_path(path, rel);
    proof {
        lemma_slashed_has_no_backslash(match relv { Some(x) => x, None => path@ });
        assert(diff_facts(path@, project_dir@, relv));
    }
    r
}

/// The entry of a `file:` source at `source_path`: named after the file's
/// stem, which must be a valid plugin name, with its path shown relative to
/// `project_dir`.
pub open spec fn file_ref_outcome(project_dir: Seq<char>, source_path: Seq<char>, version: Option<String>, r: Result<ParsedPluginRef, PyanpmError>) -> bool {
    match crate::paths::file_stem_spec(source_path) {
        None => r matches Err(PyanpmError::InvalidPluginName(s)) && s@ == source_path,
        Some(stem) => if valid_plugin_name(stem) {
            r matches Ok(p) && {
                &&& p.name@ == stem
                &&& p.spec.source == PluginSourceKind::File
                &&& p.spec.path is Some && is_relativized(source_path, project_dir, p.spec.path->Some_0@)
                &&& p.spec.url is None
                &&& p.spec.version == version
                &&& p.spec.git_ref_kind is None && p.spec.git_ref is None && p.spec.subdir is None
            }
        } else {
            r matches Err(PyanpmError::InvalidPluginName(s)) && s@ == stem
        },
    }
}

/// The entry of a `path:` source at `source_path`: named by its package
/// metadata, whose name must be a valid plugin name, with its path shown
/// relative to `project_dir`.
pub open spec fn path_ref_outcome(project_dir: Seq<char>, source_path: Seq<char>, metadata: PackageMetadata, version: Option<String>, r: Result<ParsedPluginRef, PyanpmError>) -> bool {
    if valid_plugin_name(metadata.name@) {
        r matches Ok(p) && {
            &&& p.name@ == metadata.name@
            &&& p.spec.source == PluginSourceKind::Path
            &&& p.spec.path is Some && is_relativized(source_path, project_dir, p.spec.path->Some_0@)
            &&& p.spec.url is None
            &&& p.spec.version == version
            &&& p.spec.git_ref_kind is None && p.spec.git_ref is None && p.spec.subdir is None
        }
    } else {
        r matches Err(PyanpmError::InvalidPluginName(n)) && n@ == metadata.name@
    }
}

/// The entry of a `git:` source at `url`: named by the metadata found in the
/// checkout, keeping the reference and subdirectory of `options`.
pub open spec fn git_ref_outcome(url: String, options: GitSourceOptions, metadata: PackageMetadata, version: Option<String>, r: Result<ParsedPluginRef, PyanpmError>) -> bool {
    if valid_plugin_name(metadata.name@) {
        r matches Ok(p) && {
            &&& p.name@ == metadata.name@
            &&& p.spec.source == PluginSourceKind::Git
            &&& p.spec.path is None
            &&& p.spec.url == Some(url)
            &&& p.spec.version == version
            &&& p.spec.git_ref_kind == options.git_ref_kind
            &&& p.spec.git_ref == options.git_ref
            &&& p.spec.subdir == options.git_subdir
        }
    } else {
        r matches Err(PyanpmError::InvalidPluginName(n)) && n@ == metadata.name@
    }
}

/// The manifest entry of a `file:` source, named after the file's stem.
pub fn file_plugin_ref(project_dir: &str, source_path: &str, version: Option<String>) -> (r: Result<ParsedPluginRef, PyanpmError>)
    ensures
        file_ref_outcome(project_dir@, source_path@, version, r),
{
    let ghost v = version;
    let name = match infer_file_plugin_name(source_path) {
        Ok(n) => n,
        Err(e) => return Err(e),
    };
    let r = Ok(ParsedPluginRef {
        name,
        spec: ManifestPluginSpec {
            source: PluginSourceKind::File,
            path: Some(relativize_or_display(source_path, project_dir)),
            url: None,
            version,
            git_ref_kind: None,
            git_ref: None,
            subdir: None,
        },
    });
    assert(file_ref_outcome(project_dir@, source_path@, v, r));
    r
}

/// The manifest entry of a `path:` source, named by its package metadata.
pub fn path_plugin_ref(project_dir: &str, source_path: &str, metadata: &PackageMetadata, version: Option<String>) -> (r: Result<ParsedPluginRef, PyanpmError>)
    ensures
        path_ref_outcome(project_dir@, source_path@, *metadata, version, r),
{
    match validate_plugin_name(metadata.name.as_str()) {
        Ok(()) => {},
        Err(e) => return Err(e),
    }
    Ok(ParsedPluginRef {
        name: metadata.name.clone(),
        spec: ManifestPluginSpec {
            source: PluginSourceKind::Path,
            path: Some(relativize_or_display(source_path, project_dir)),
            url: None,
            version,
            git_ref_kind: None,
            git_ref: None,
            subdir: None,
        },
    })
}

/// The manifest entry of a `git:` source, named by the metadata found in
/// the checkout, keeping the normalized reference and subdirectory.
pub fn git_plugin_ref(url: String, options: &GitSourceOptions, metadata: &PackageMetadata, version: Option<String>) -> (r: Result<ParsedPluginRef, PyanpmError>)
    ensures
        git_ref_outcome(url, *options, *metadata, version, r),
{
    match validate_plugin_name(metadata.name.as_str()) {
        Ok(()) => {},
        Err(e) => return Err(e),
    }
    Ok(ParsedPluginRef {
        name: metadata.name.clone(),
        spec: ManifestPluginSpec {
            source: PluginSourceKind::Git,
            path: None,
            url: Some(url),
            version,
            git_ref_kind: options.git_ref_kind,
            git_ref: clone_opt(&options.git_ref),
            subdir: clone_opt(&options.git_subdir),
        },
    })
}

/// What was found where a source reference points: the canonical path of a
/// `file:` source, the canonical folder and package metadata of a `path:`
/// source, or the checkout and package metadata of a `git:` source.
#[derive(Debug)]
pub enum SourceFound {
    File { canonical_path: String },
    Path { canonical_path: String, metadata: PackageMetadata },
    Git { url: String, checkout: GitCheckout, metadata: PackageMetadata },
}

/// The manifest entry a source reference stands for, from what was found
/// where its plan pointed (see `plan_plugin_ref`), with the normalized git
/// options of the plan.
pub fn parse_plugin_ref(project_dir: &str, found: SourceFound, options: &GitSourceOptions, version: Option<String>) -> (r: Result<ParsedPluginRef, PyanpmError>)
    ensures
        match found {
            SourceFound::File { canonical_path } => file_ref_outcome(project_dir@, canonical_path@, version, r),
            SourceFound::Path { canonical_path, metadata } => path_ref_outcome(project_dir@, canonical_path@, metadata, version, r),
            SourceFound::Git { url, metadata, .. } => git_ref_outcome(url, *options, metadata, version, r),
        },
{
    match found {
        SourceFound::File { canonical_path } => file_plugin_ref(project_dir, canonical_path.as_str(), version),
        SourceFound::Path { canonical_path, metadata } => path_plugin_ref(project_dir, canonical_path.as_str(), &metadata, version),
        SourceFound::Git { url, checkout: _, metadata } => git_plugin_ref(url, options, &metadata, version),
    }
}

/// The text of a manifest entry's source, as `list` and `diff` show it.
pub open spec fn source_ref_spec(spec: ManifestPluginSpec) -> Seq<char> {
    match spec.source {
        PluginSourceKind::File => match spec.path {
            Some(p) => "file:"@ + p@,
            None => "file"@,
        },
        PluginSourceKind::Path => match spec.path {
            Some(p) => "path:"@ + p@,
            None => "path"@,
        },
        PluginSourceKind::Git => match spec.url {
            Some(u) => "git:"@ + u@ + match (spec.git_ref_kind, spec.git_ref) {
                (Some(k), Some(r)) => " ["@ + git_ref_kind_name(k) + ":"@ + r@ + "]"@,
                _ => Seq::empty(),
            } + match spec.subdir {
                Some(s) => " ["@ + s@ + "]"@,
                None => Seq::empty(),
            },
            None => "git"@,
        },
    }
}

/// The source reference a manifest entry stands for.
pub fn source_ref_from_spec(spec: &ManifestPluginSpec) -> (r: String)
    ensures
        r@ == source_ref_spec(*spec),
{
    match spec.source {
        PluginSourceKind::File => match &spec.path {
            Some(p) => concat2("file:", p.as_str()),
            None => String::from_str("file"),
        },
        PluginSourceKind::Path => match &spec.path {
            Some(p) => concat2("path:", p.as_str()),
            None => String::from_str("path"),
        },
        PluginSourceKind::Git => match &spec.url {
            Some(u) => {
                let mut s = concat2("git:", u.as_str());
                match (spec.git_ref_kind, &spec.git_ref) {
                    (Some(k), Some(r)) => {
                        let kind = k.name();
                        let part = concat5(" [", kind.as_str(), ":", r.as_str(), "]");
                        s.append(part.as_str());
                    },
                    _ => {},
                }
                let ghost mid = s@;
                match &spec.subdir {
                    Some(d) => {
                        let part = concat3(" [", d.as_str(), "]");
                        s.append(part.as_str());
                    },
                    None => {},
                }
                assert(s@ =~= source_ref_spec(*spec));
                s
            },
            None => String::from_str("git"),
        },
    }
}

/// The source text of a `file:` or `path:` entry is its prefix followed by
/// its path: reading it back gives the same kind of source at the same path.
pub proof fn lemma_source_ref_reads_back(spec: ManifestPluginSpec)
    requires
        spec.source != PluginSourceKind::Git,
        spec.path is Some,
    ensures
        spec.source == PluginSourceKind::File ==> after_prefix(source_ref_spec(spec), "file:"@) == Some(spec.path->Some_0@),
        spec.source == PluginSourceKind::Path ==> after_prefix(source_ref_spec(spec), "path:"@) == Some(spec.path->Some_0@),
{
    let p = spec.path->Some_0@;
    reveal_strlit("file:");
    reveal_strlit("path:");
    if spec.source == PluginSourceKind::File {
        let s = source_ref_spec(spec);
        assert(s.subrange(0, 5) =~= "file:"@) by { reveal_strlit("file:"); }
        assert(s.subrange(5, s.len() as int) =~= p) by { reveal_strlit("file:"); }
    } else {
        let s = source_ref_spec(spec);
        assert(s.subrange(0, 5) =~= "path:"@) by { reveal_strlit("path:"); }
        assert(s.subrange(5, s.len() as int) =~= p) by { reveal_strlit("path:"); }
    }
}

/// An issue of a source reference, with `Error` severity.
pub fn validation_error(field: &str, source_ref: &str, code: &str, message: &str, suggested_fix: Option<&str>) -> (r: ValidationIssue)
    ensures
        r.field@ == field@,
        r.source_ref@ == source_ref@,
        r.code@ == code@,
        r.severity == ValidationSeverity::Error,
        r.message@ == message@,
        opt_view(r.suggested_fix) == match suggested_fix {
            Some(f) => Some(f@),
            None => None::<Seq<char>>,
        },
{
    ValidationIssue {
        field: String::from_str(field),
        source_ref: String::from_str(source_ref),
        code: String::from_str(code),
        severity: ValidationSeverity::Error,
        message: String::from_str(message),
        suggested_fix: match suggested_fix {
            Some(f) => Some(String::from_str(f)),
            None => None,
        },
    }
}

/// The code, message and suggested fix reported for a reference that failed
/// to parse with the error message `error`.
pub open spec fn failure_issue_spec(reference: Seq<char>, error: Seq<char>) -> (Seq<char>, Seq<char>, Seq<char>) {
    match after_prefix(reference, "file:"@) {
        Some(raw) => if is_blank(raw) {
            ("source.file.empty_path"@, "File source is missing a path."@, "Pick an `.rbxm` or `.rbxmx` file."@)
        } else {
            ("source.file.invalid"@, error, "Verify that the file exists and has a supported Roblox plugin extension."@)
        },
        None => match after_prefix(reference, "path:"@) {
            Some(raw) => if is_blank(raw) {
                ("source.path.empty_path"@, "Path source is missing a folder path."@, "Pick a readable folder containing `pyanpm.plugin.toml`."@)
            } else {
                ("source.path.invalid"@, error, "Verify that the folder exists and contains valid plugin metadata."@)
            },
            None => match after_prefix(reference, "git:"@) {
                Some(raw) => if is_blank(raw) {
                    ("source.git.empty_url"@, "Git source is missing a repository URL."@, "Enter an HTTPS or SSH Git repository URL."@)
                } else {
                    ("source.git.invalid"@, error, "Verify the repository URL, ref fields, credentials, and plugin metadata."@)
                },
                None => ("source.prefix.unsupported"@, "Unsupported source reference."@, "Use a `file:`, `path:`, or `git:` prefix."@),
            },
        },
    }
}

/// An issue with the given code, message and fix for the `sourceRef` field.
pub open spec fn is_source_issue(i: ValidationIssue, reference: Seq<char>, code: Seq<char>, message: Seq<char>, fix: Seq<char>) -> bool {
    &&& i.field@ == "sourceRef"@
    &&& i.source_ref@ == reference
    &&& i.code@ == code
    &&& i.severity == ValidationSeverity::Error
    &&& i.message@ == message
    &&& opt_view(i.suggested_fix) == Some(fix)
}

fn failure_issue(reference: &str, error: &PyanpmError) -> (r: ValidationIssue)
    ensures
        is_source_issue(r, reference@, failure_issue_spec(reference@, error_message(*error)).0,
            failure_issue_spec(reference@, error_message(*error)).1,
            failure_issue_spec(reference@, error_message(*error)).2),
{
    proof {
        reveal_strlit("file:");
        reveal_strlit("path:");
        reveal_strlit("git:");
    }
    if let Some(raw) = strip_prefix(reference, "file:") {
        assert(reference@.subrange(5, reference@.len() as int) =~= raw@);
        if trim(raw).unicode_len() == 0 {
            validation_error("sourceRef", reference, "source.file.empty_path", "File source is missing a path.", Some("Pick an `.rbxm` or `.rbxmx` file."))
        } else {
            let m = error.message();
            validation_error("sourceRef", reference, "source.file.invalid", m.as_str(), Some("Verify that the file exists and has a supported Roblox plugin extension."))
        }
    } else if let Some(raw) = strip_prefix(reference, "path:") {
        assert(reference@.subrange(5, reference@.len() as int) =~= raw@);
        if trim(raw).unicode_len() == 0 {
            validation_error("sourceRef", reference, "source.path.empty_path", "Path source is missing a folder path.", Some("Pick a readable folder containing `pyanpm.plugin.toml`."))
        } else {
            let m = error.message();
            validation_error("sourceRef", reference, "source.path.invalid", m.as_str(), Some("Verify that the folder exists and contains valid plugin metadata."))
        }
    } else if let Some(raw) = strip_prefix(reference, "git:") {
        assert(reference@.subrange(4, reference@.len() as int) =~= raw@);
        if trim(raw).unicode_len() == 0 {
            validation_error("sourceRef", reference, "source.git.empty_url", "Git source is missing a repository URL.", Some("Enter an HTTPS or SSH Git repository URL."))
        } else {
            let m = error.message();
            validation_error("sourceRef", reference, "source.git.invalid", m.as_str(), Some("Verify the repository URL, ref fields, credentials, and plugin metadata."))
        }
    } else {
        validation_error("sourceRef", reference, "source.prefix.unsupported", "Unsupported source reference.", Some("Use a `file:`, `path:`, or `git:` prefix."))
    }
}

/// The validation of a source reference from the outcome of parsing it.  A
/// blank reference is reported as empty without parsing; otherwise a parsed
/// reference is valid and shows its normalized text and plugin name, and a
/// failure is reported with a code chosen by the reference's prefix.
pub fn validate_source_ref(reference: &str, parsed: Option<Result<ParsedPluginRef, PyanpmError>>) -> (r: SourceValidation)
    requires
        !is_blank(reference@) ==> parsed is Some,
    ensures
        is_blank(reference@) ==> {
            &&& r.normalized_source_ref is None && r.plugin_name is None
            &&& r.errors@.len() == 1
            &&& is_source_issue(r.errors@[0], reference@, "source.empty"@, "Source reference is empty."@, "Use a `file:`, `path:`, or `git:` source."@)
        },
        !is_blank(reference@) ==> match parsed {
            Some(Ok(p)) => r.errors@.len() == 0 && opt_view(r.normalized_source_ref) == Some(source_ref_spec(p.spec))
                && r.plugin_name == Some(p.name),
            Some(Err(e)) => {
                let f = failure_issue_spec(reference@, error_message(e));
                &&& r.normalized_source_ref is None && r.plugin_name is None
                &&& r.errors@.len() == 1
                &&& is_source_issue(r.errors@[0], reference@, f.0, f.1, f.2)
            },
            None => false,
        },
{
    let mut errors: Vec<ValidationIssue> = Vec::new();
    if trim(reference).unicode_len() == 0 {
        errors.push(validation_error("sourceRef", reference, "source.empty", "Source reference is empty.", Some("Use a `file:`, `path:`, or `git:` source.")));
        return SourceValidation { normalized_source_ref: None, plugin_name: None, errors };
    }
    match parsed {
        Some(Ok(p)) => {
            let normalized = source_ref_from_spec(&p.spec);
            SourceValidation { normalized_source_ref: Some(normalized), plugin_name: Some(p.name), errors }
        },
        Some(Err(e)) => {
            errors.push(failure_issue(reference, &e));
            SourceValidation { normalized_source_ref: None, plugin_name: None, errors }
        },
        None => SourceValidation { normalized_source_ref: None, plugin_name: None, errors },
    }
}

/// The path of a `file:` or `path:` entry, as written in the manifest.
pub fn spec_path(spec: &ManifestPluginSpec) -> (r: Result<String, PyanpmError>)
    ensures
        spec.path matches Some(p) ==> r == Ok::<String, PyanpmError>(p),
        spec.path is None ==> (r matches Err(PyanpmError::InvalidPluginRef(m)) && m@ == "missing path field"@),
{
    match &spec.path {
        Some(p) => Ok(p.clone()),
        None => Err(PyanpmError::InvalidPluginRef(String::from_str("missing path field"))),
    }
}

/// The repository URL of a `git:` entry.
pub fn git_url_of(spec: &ManifestPluginSpec) -> (r: Result<String, PyanpmError>)
    ensures
        spec.url matches Some(u) ==> r == Ok::<String, PyanpmError>(u),
        spec.url is None ==> (r matches Err(PyanpmError::InvalidPluginRef(m)) && m@ == "missing git URL"@),
{
    match &spec.url {
        Some(u) => Ok(u.clone()),
        None => Err(PyanpmError::InvalidPluginRef(String::from_str("missing git URL"))),
    }
}

/// The git options a `git:` entry pins.
pub fn git_options_of(spec: &ManifestPluginSpec) -> (r: GitSourceOptions)
    ensures
        r.git_ref_kind == spec.git_ref_kind,
        r.git_ref == spec.git_ref,
        r.git_subdir == spec.subdir,
{
    GitSourceOptions {
        git_ref_kind: spec.git_ref_kind,
        git_ref: clone_opt(&spec.git_ref),
        git_subdir: clone_opt(&spec.subdir),
    }
}

/// The manifest entry that reproduces a locked plugin's source: its path for
/// `file:` and `path:` sources, its URL (or, lacking one, its recorded source
/// path) for git sources, with the requested version and reference.
pub fn spec_from_lock(locked: &LockedPlugin) -> (r: ManifestPluginSpec)
    ensures
        r.source == locked.source,
        locked.source != PluginSourceKind::Git ==> r.path == Some(locked.source_path) && r.url is None,
        locked.source == PluginSourceKind::Git ==> r.path is None && r.url == match locked.source_url {
            Some(u) => Some(u),
            None => Some(locked.source_path),
        },
        r.version == locked.requested_version,
        r.git_ref_kind == locked.git_ref_kind,
        r.git_ref == locked.git_requested_ref,
        r.subdir == locked.source_subdir,
{
    let is_git = match locked.source {
        PluginSourceKind::Git => true,
        _ => false,
    };
    ManifestPluginSpec {
        source: locked.source,
        path: if !is_git { Some(locked.source_path.clone()) } else { None },
        url: if is_git {
            match &locked.source_url {
                Some(u) => Some(u.clone()),
                None => Some(locked.source_path.clone()),
            }
        } else {
            None
        },
        version: clone_opt(&locked.requested_version),
        git_ref_kind: locked.git_ref_kind,
        git_ref: clone_opt(&locked.git_requested_ref),
        subdir: clone_opt(&locked.source_subdir),
    }
}

/// The message of a manifest key that differs from the package's name.
pub open spec fn metadata_mismatch_message(name: Seq<char>, found: Seq<char>) -> Seq<char> {
    "manifest plugin key `"@ + name + "` does not match metadata name `"@ + found + "`"@
}

/// Checks that the package metadata names the plugin under its manifest key.
pub fn check_metadata_name(name: &str, metadata: &PackageMetadata) -> (r: Result<(), PyanpmError>)
    ensures
        r is Ok <==> metadata.name@ == name@,
        r is Err ==> (r matches Err(PyanpmError::InvalidMetadata(m)) && m@ == metadata_mismatch_message(name@, metadata.name@)),
{
    if str_eq(metadata.name.as_str(), name) {
        Ok(())
    } else {
        Err(PyanpmError::InvalidMetadata(concat5("manifest plugin key `", name, "` does not match metadata name `", metadata.name.as_str(), "`")))
    }
}

/// The artifact a package points to: its entry inside the package folder.
pub fn package_artifact_path(package_root: &str, metadata: &PackageMetadata) -> (r: String)
    ensures
        r@ == join_spec(package_root@, metadata.entry@),
{
    join_path(package_root, metadata.entry.as_str())
}

/// The install name of a package artifact: the plugin name for a folder, the
/// name with the artifact's extension for a file.
fn package_install_name(name: &str, artifact_path: &str, kind: ArtifactKind) -> (r: Result<String, PyanpmError>)
    ensures
        kind == ArtifactKind::Directory ==> (r matches Ok(n) && n@ == name@),
        kind == ArtifactKind::File ==> match artifact_extension_spec(artifact_path@) {
            Some(ext) => r matches Ok(n) && n@ == install_name_spec(name@, kind, ext),
            None => r matches Err(PyanpmError::UnsupportedArtifact(p)) && p@ == artifact_path@,
        },
{
    match kind {
        ArtifactKind::Directory => Ok(String::from_str(name)),
        ArtifactKind::File => match artifact_extension(artifact_path) {
            Ok(ext) => Ok(concat3(name, ".", ext.as_str())),
            Err(e) => Err(e),
        },
    }
}

/// The resolution of a `file:` entry `name` whose artifact (a file) is at
/// `artifact_path` with `checksum`.
pub open spec fn file_resolution(name: Seq<char>, spec: ManifestPluginSpec, artifact_path: String, checksum: String, r: Result<ResolvedPlugin, PyanpmError>) -> bool {
    match artifact_extension_spec(artifact_path@) {
        Some(ext) => r matches Ok(p) && {
            &&& p.name@ == name
            &&& p.requested_version == spec.version
            &&& p.resolved_version == spec.version
            &&& p.source == PluginSourceKind::File
            &&& p.source_path == artifact_path
            &&& p.source_url is None && p.source_subdir is None
            &&& p.git_ref_kind is None && p.git_requested_ref is None && p.git_resolved_commit is None
            &&& p.artifact_path == artifact_path
            &&& p.artifact_kind == ArtifactKind::File
            &&& p.checksum == checksum
            &&& p.install_name@ == install_name_spec(name, ArtifactKind::File, ext)
        },
        None => r matches Err(PyanpmError::UnsupportedArtifact(p)) && p@ == artifact_path@,
    }
}

/// How a package artifact resolves: refused when the metadata carries
/// another name, or when a file artifact has an unsupported extension;
/// otherwise named `name`, installed under the plugin name (a folder) or the
/// name with the extension (a file).
pub open spec fn package_outcome(name: Seq<char>, metadata: PackageMetadata, artifact_path: String, artifact_kind: ArtifactKind, r: Result<ResolvedPlugin, PyanpmError>) -> bool {
    if metadata.name@ != name {
        r matches Err(PyanpmError::InvalidMetadata(m)) && m@ == metadata_mismatch_message(name, metadata.name@)
    } else if artifact_kind == ArtifactKind::File && artifact_extension_spec(artifact_path@) is None {
        r matches Err(PyanpmError::UnsupportedArtifact(p)) && p@ == artifact_path@
    } else {
        r matches Ok(p) && {
            &&& p.name@ == name
            &&& p.artifact_path == artifact_path
            &&& p.artifact_kind == artifact_kind
            &&& artifact_kind == ArtifactKind::Directory ==> p.install_name@ == name
            &&& artifact_kind == ArtifactKind::File ==> (artifact_extension_spec(artifact_path@) matches Some(ext)
                && p.install_name@ == install_name_spec(name, artifact_kind, ext))
        }
    }
}

/// The resolution of a `path:` entry `name` whose package folder
/// `source_dir` holds `metadata` and the artifact at `artifact_path`.
pub open spec fn path_resolution(name: Seq<char>, spec: ManifestPluginSpec, source_dir: String, metadata: PackageMetadata, artifact_path: String, artifact_kind: ArtifactKind, checksum: String, r: Result<ResolvedPlugin, PyanpmError>) -> bool {
    &&& package_outcome(name, metadata, artifact_path, artifact_kind, r)
    &&& r matches Ok(p) ==> {
        &&& p.requested_version == spec.version
        &&& p.resolved_version == resolved_version_spec(metadata.version, spec.version)
        &&& p.source == PluginSourceKind::Path
        &&& p.source_path == source_dir
        &&& p.source_url is None && p.source_subdir is None
        &&& p.git_ref_kind is None && p.git_requested_ref is None && p.git_resolved_commit is None
        &&& p.checksum == checksum
    }
}

/// The resolution of a `git:` entry `name` checked out from `url` at
/// `resolved_commit`, with its package at `package_root`.
pub open spec fn git_resolution(name: Seq<char>, spec: ManifestPluginSpec, url: String, package_root: String, resolved_commit: String, metadata: PackageMetadata, artifact_path: String, artifact_kind: ArtifactKind, checksum: String, r: Result<ResolvedPlugin, PyanpmError>) -> bool {
    &&& package_outcome(name, metadata, artifact_path, artifact_kind, r)
    &&& r matches Ok(p) ==> {
        &&& p.requested_version == spec.version
        &&& p.resolved_version == resolved_version_spec(metadata.version, spec.version)
        &&& p.source == PluginSourceKind::Git
        &&& p.source_path == package_root
        &&& p.source_url == Some(url)
        &&& p.source_subdir == spec.subdir
        &&& p.git_ref_kind == spec.git_ref_kind
        &&& p.git_requested_ref == spec.git_ref
        &&& p.git_resolved_commit == Some(resolved_commit)
        &&& p.checksum == checksum
    }
}

/// The resolved plugin of a `file:` entry whose artifact (a file) was found
/// at `artifact_path` with `checksum`.  The artifact must be `.rbxm` or
/// `.rbxmx`; it is installed as the plugin name with that extension.
pub fn resolve_file_source(name: &str, spec: &ManifestPluginSpec, artifact_path: String, checksum: String) -> (r: Result<ResolvedPlugin, PyanpmError>)
    ensures
        file_resolution(name@, *spec, artifact_path, checksum, r),
{
    let install_name = match package_install_name(name, artifact_path.as_str(), ArtifactKind::File) {
        Ok(n) => n,
        Err(e) => return Err(e),
    };
    Ok(ResolvedPlugin {
        name: String::from_str(name),
        requested_version: clone_opt(&spec.version),
        resolved_version: clone_opt(&spec.version),
        source: PluginSourceKind::File,
        source_path: artifact_path.clone(),
        source_url: None,
        source_subdir: None,
        git_ref_kind: None,
        git_requested_ref: None,
        git_resolved_commit: None,
        artifact_path,
        artifact_kind: ArtifactKind::File,
        checksum,
        install_name,
    })
}

/// The version a package resolves to: its metadata's, else the requested one.
pub open spec fn resolved_version_spec(metadata: Option<String>, requested: Option<String>) -> Option<String> {
    match metadata {
        Some(v) => Some(v),
        None => requested,
    }
}

/// The resolved plugin of a `path:` entry: the metadata must carry the
/// manifest key, and a file artifact must be `.rbxm` or `.rbxmx`.
pub fn resolve_path_source(
    name: &str,
    spec: &ManifestPluginSpec,
    source_dir: String,
    metadata: &PackageMetadata,
    artifact_path: String,
    artifact_kind: ArtifactKind,
    checksum: String,
) -> (r: Result<ResolvedPlugin, PyanpmError>)
    ensures
        path_resolution(name@, *spec, source_dir, *metadata, artifact_path, artifact_kind, checksum, r),
        r matches Ok(p) ==> p.requested_version == spec.version,
        r matches Ok(p) ==> (metadata.version is Some ==> p.resolved_version == metadata.version),
        r matches Ok(p) ==> (metadata.version is None ==> p.resolved_version == spec.version),
        metadata.name@ == name@ && artifact_kind == ArtifactKind::Directory ==> r is Ok,
{
    match check_metadata_name(name, metadata) {
        Ok(()) => {},
        Err(e) => return Err(e),
    }
    let install_name = match package_install_name(name, artifact_path.as_str(), artifact_kind) {
        Ok(n) => n,
        Err(e) => return Err(e),
    };
    let resolved_version = match &metadata.version {
        Some(v) => Some(v.clone()),
        None => clone_opt(&spec.version),
    };
    Ok(ResolvedPlugin {
        name: String::from_str(name),
        requested_version: clone_opt(&spec.version),
        resolved_version,
        source: PluginSourceKind::Path,
        source_path: source_dir,
        source_url: None,
        source_subdir: None,
        git_ref_kind: None,
        git_requested_ref: None,
        git_resolved_commit: None,
        artifact_path,
        artifact_kind,
        checksum,
        install_name,
    })
}

/// The resolved plugin of a `git:` entry checked out at `resolved_commit`
/// with its package at `package_root`: the metadata must carry the manifest
/// key, and a file artifact must be `.rbxm` or `.rbxmx`.
pub fn resolve_git_source(
    name: &str,
    spec: &ManifestPluginSpec,
    url: String,
    package_root: String,
    resolved_commit: String,
    metadata: &PackageMetadata,
    artifact_path: String,
    artifact_kind: ArtifactKind,
    checksum: String,
) -> (r: Result<ResolvedPlugin, PyanpmError>)
    ensures
        git_resolution(name@, *spec, url, package_root, resolved_commit, *metadata, artifact_path, artifact_kind, checksum, r),
        r matches Ok(p) ==> p.requested_version == spec.version,
        r matches Ok(p) ==> (metadata.version is Some ==> p.resolved_version == metadata.version),
        r matches Ok(p) ==> (metadata.version is None ==> p.resolved_version == spec.version),
        metadata.name@ == name@ && artifact_kind == ArtifactKind::Directory ==> r is Ok,
{
    match check_metadata_name(name, metadata) {
        Ok(()) => {},
        Err(e) => return Err(e),
    }
    let install_name = match package_install_name(name, artifact_path.as_str(), artifact_kind) {
        Ok(n) => n,
        Err(e) => return Err(e),
    };
    let resolved_version = match &metadata.version {
        Some(v) => Some(v.clone()),
        None => clone_opt(&spec.version),
    };
    Ok(ResolvedPlugin {
        name: String::from_str(name),
        requested_version: clone_opt(&spec.version),
        resolved_version,
        source: PluginSourceKind::Git,
        source_path: package_root,
        source_url: Some(url),
        source_subdir: clone_opt(&spec.subdir),
        git_ref_kind: spec.git_ref_kind,
        git_requested_ref: clone_opt(&spec.git_ref),
        git_resolved_commit: Some(resolved_commit),
        artifact_path,
        artifact_kind,
        checksum,
        install_name,
    })
}

/// What was read where a manifest entry's source points: the artifact of a
/// `file:` entry; the package folder, metadata and artifact of a `path:`
/// entry; the repository URL, checkout, metadata and artifact of a `git:`
/// entry; each artifact with its checksum.
#[derive(Debug)]
pub enum ArtifactFound {
    File { artifact_path: String, checksum: String },
    Path { source_dir: String, metadata: PackageMetadata, artifact_path: String, artifact_kind: ArtifactKind, checksum: String },
    Git { url: String, checkout: GitCheckout, metadata: PackageMetadata, artifact_path: String, artifact_kind: ArtifactKind, checksum: String },
}

/// The kind of source a reading comes from.
pub open spec fn found_kind(f: ArtifactFound) -> PluginSourceKind {
    match f {
        ArtifactFound::File { .. } => PluginSourceKind::File,
        ArtifactFound::Path { .. } => PluginSourceKind::Path,
        ArtifactFound::Git { .. } => PluginSourceKind::Git,
    }
}

/// Resolves the manifest entry `name` from what was read at its source: the
/// name must be a valid plugin name, then the entry resolves by its kind.
pub fn resolve_from_manifest(name: &str, spec: &ManifestPluginSpec, found: ArtifactFound) -> (r: Result<ResolvedPlugin, PyanpmError>)
    requires
        found_kind(found) == spec.source,
    ensures
        !valid_plugin_name(name@) ==> (r matches Err(PyanpmError::InvalidPluginName(n)) && n@ == name@),
        valid_plugin_name(name@) ==> match found {
            ArtifactFound::File { artifact_path, checksum } => file_resolution(name@, *spec, artifact_path, checksum, r),
            ArtifactFound::Path { source_dir, metadata, artifact_path, artifact_kind, checksum } =>
                path_resolution(name@, *spec, source_dir, metadata, artifact_path, artifact_kind, checksum, r),
            ArtifactFound::Git { url, checkout, metadata, artifact_path, artifact_kind, checksum } =>
                git_resolution(name@, *spec, url, checkout.package_root, checkout.resolved_commit, metadata, artifact_path, artifact_kind, checksum, r),
        },
{
    match validate_plugin_name(name) {
        Ok(()) => {},
        Err(e) => return Err(e),
    }
    match found {
        ArtifactFound::File { artifact_path, checksum } => resolve_file_source(name, spec, artifact_path, checksum),
        ArtifactFound::Path { source_dir, metadata, artifact_path, artifact_kind, checksum } =>
            resolve_path_source(name, spec, source_dir, &metadata, artifact_path, artifact_kind, checksum),
        ArtifactFound::Git { url, checkout, metadata, artifact_path, artifact_kind, checksum } => {
            let GitCheckout { package_root, resolved_commit } = checkout;
            resolve_git_source(name, spec, url, package_root, resolved_commit, &metadata, artifact_path, artifact_kind, checksum)
        },
    }
}

/// The version a package source records: a `git:` or `path:` package whose
/// metadata carries a version resolves to that version, whatever version
/// the manifest requested; without one it resolves to the requested
/// version.  Either way the requested version is kept as requested.
pub proof fn lemma_package_version_recorded(
    name: Seq<char>,
    spec: ManifestPluginSpec,
    url: String,
    source_dir: String,
    resolved_commit: String,
    metadata: PackageMetadata,
    artifact_path: String,
    artifact_kind: ArtifactKind,
    checksum: String,
    from_git: Result<ResolvedPlugin, PyanpmError>,
    from_path: Result<ResolvedPlugin, PyanpmError>,
)
    requires
        git_resolution(name, spec, url, source_dir, resolved_commit, metadata, artifact_path, artifact_kind, checksum, from_git),
        path_resolution(name, spec, source_dir, metadata, artifact_path, artifact_kind, checksum, from_path),
    ensures
        from_git matches Ok(p) ==> (metadata.version matches Some(v) ==> p.resolved_version == Some(v)),
        from_git matches Ok(p) ==> (metadata.version is None ==> p.resolved_version == spec.version),
        from_git matches Ok(p) ==> p.requested_version == spec.version,
        from_path matches Ok(p) ==> (metadata.version matches Some(v) ==> p.resolved_version == Some(v)),
        from_path matches Ok(p) ==> (metadata.version is None ==> p.resolved_version == spec.version),
        from_path matches Ok(p) ==> p.requested_version == spec.version,
        (from_git is Ok) == (from_path is Ok),
{
}

} // verus!
