//! Git sources: URL and option validation, the cache key of a checkout and
//! the git commands that bring a checkout to the requested reference.
use vstd::prelude::*;
use crate::checksum::{checksum_bytes, checksum_spec};
use crate::config::{GitRefKind, GitSourceOptions, git_ref_kind_name, normalize_ref_spec, normalize_subdir_spec, lemma_normalize_options};
use crate::error::PyanpmError;
use crate::paths::{is_sep, join_path, join_spec};
use crate::text::{concat2, contains_char, contains_str, contains_seq, opt_view, starts_with, trim, trim_spec, lemma_trim_is_trimmed, lemma_trim_of_trimmed};

verus! {

/// Why a repository URL is refused, or the URL as used.
pub open spec fn normalize_git_url_spec(url: Seq<char>) -> Result<Seq<char>, Seq<char>> {
    let t = trim_spec(url);
    if t.len() == 0 {
        Err("repository URL is empty"@)
    } else if t.contains('\n') || t.contains('\r') {
        Err("repository URL must be a single line"@)
    } else if !(contains_seq(t, "://"@) || (t.len() >= 4 && t.subrange(0, 4) == "git@"@)) {
        Err("repository URL must use HTTPS, SSH, or Git transport syntax"@)
    } else {
        Ok(t)
    }
}

/// The trimmed repository URL, which must be one line and use a URL scheme or
/// the `git@host:` form.
pub fn normalize_git_url(url: &str) -> (r: Result<String, PyanpmError>)
    ensures
        match normalize_git_url_spec(url@) {
            Ok(u) => r matches Ok(x) && x@ == u,
            Err(m) => r matches Err(PyanpmError::InvalidGitUrl(x)) && x@ == m,
        },
{
    let t = trim(url);
    if t.unicode_len() == 0 {
        return Err(PyanpmError::InvalidGitUrl(String::from_str("repository URL is empty")));
    }
    if contains_char(t, '\n') || contains_char(t, '\r') {
        return Err(
            PyanpmError::InvalidGitUrl(String::from_str("repository URL must be a single line")),
        );
    }
    let has_scheme = contains_str(t, "://");
    let scp_like = starts_with(t, "git@");
    proof {
        reveal_strlit("git@");
    }
    if !(has_scheme || scp_like) {
        return Err(
            PyanpmError::InvalidGitUrl(
                String::from_str("repository URL must use HTTPS, SSH, or Git transport syntax"),
            ),
        );
    }
    Ok(String::from_str(t))
}

/// A URL that was accepted is accepted again unchanged.
pub proof fn lemma_normalize_git_url_idempotent(url: Seq<char>)
    requires
        normalize_git_url_spec(url) is Ok,
    ensures
        normalize_git_url_spec(normalize_git_url_spec(url)->Ok_0) == normalize_git_url_spec(url),
{
    lemma_trim_is_trimmed(url);
    lemma_trim_of_trimmed(trim_spec(url));
}

/// A `..` component starts at position `i`.
pub open spec fn parent_component_at(s: Seq<char>, i: int) -> bool {
    &&& 0 <= i
    &&& i + 2 <= s.len()
    &&& s[i] == '.'
    &&& s[i + 1] == '.'
    &&& (i == 0 || is_sep(s[i - 1]))
    &&& (i + 2 == s.len() || is_sep(s[i + 2]))
}

pub open spec fn is_ascii_letter(c: char) -> bool {
    ('a' <= c <= 'z') || ('A' <= c <= 'Z')
}

/// A subdirectory that stays inside the repository: not rooted, without a
/// drive prefix, and without `..` components.
pub open spec fn valid_subdir(s: Seq<char>) -> bool {
    &&& !(s.len() > 0 && is_sep(s[0]))
    &&& !(s.len() >= 2 && is_ascii_letter(s[0]) && s[1] == ':')
    &&& forall|i: int| !parent_component_at(s, i)
}

/// Checks that a repository subdirectory is relative and does not climb out
/// of the repository.
pub fn validate_subdir(subdir: &str) -> (r: Result<(), PyanpmError>)
    ensures
        r is Ok <==> valid_subdir(subdir@),
        r is Err ==> (r matches Err(PyanpmError::InvalidGitSubdir(x)) && x@ == subdir@),
{
    let n = subdir.unicode_len();
    if n > 0 {
        let c0 = subdir.get_char(0);
        if c0 == '/' || c0 == '\\' {
            return Err(PyanpmError::InvalidGitSubdir(String::from_str(subdir)));
        }
        if n >= 2 {
            let c1 = subdir.get_char(1);
            if (('a' <= c0 && c0 <= 'z') || ('A' <= c0 && c0 <= 'Z')) && c1 == ':' {
                return Err(PyanpmError::InvalidGitSubdir(String::from_str(subdir)));
            }
        }
    }
    let mut i: usize = 0;
    while n >= 2 && i <= n - 2
        invariant
            n == subdir@.len(),
            i <= n,
            forall|k: int| 0 <= k < i ==> !parent_component_at(subdir@, k),
        decreases n - i,
    {
        let a = subdir.get_char(i);
        let b = subdir.get_char(i + 1);
        if a == '.' && b == '.' {
            let before_ok = if i == 0 {
                true
            } else {
                let p = subdir.get_char(i - 1);
                p == '/' || p == '\\'
            };
            let after_ok = if i + 2 == n {
                true
            } else {
                let q = subdir.get_char(i + 2);
                q == '/' || q == '\\'
            };
            if before_ok && after_ok {
                assert(parent_component_at(subdir@, i as int));
                return Err(PyanpmError::InvalidGitSubdir(String::from_str(subdir)));
            }
        }
        i = i + 1;
    }
    assert forall|k: int| !parent_component_at(subdir@, k) by {
        if 0 <= k < i {
        }
    }
    Ok(())
}

/// What validating git options gives: the normalized options or the error.
pub open spec fn options_valid(
    kind: Option<GitRefKind>,
    git_ref: Option<Seq<char>>,
    subdir: Option<Seq<char>>,
) -> bool {
    &&& (kind is Some) == (normalize_ref_spec(git_ref) is Some)
    &&& (normalize_subdir_spec(subdir) matches Some(s) ==> valid_subdir(s))
}

/// The error that validating invalid git options gives: a reference kind
/// without a value (or a value without a kind) is reported first, then a
/// subdirectory that leaves the repository.
pub open spec fn is_git_options_error(options: GitSourceOptions, e: PyanpmError) -> bool {
    if (options.git_ref_kind is Some) != (normalize_ref_spec(opt_view(options.git_ref)) is Some) {
        e matches PyanpmError::InvalidGitRef(m) && m@ == "Git reference kind and value must both be set."@
    } else {
        e matches PyanpmError::InvalidGitSubdir(m) && Some(m@) == normalize_subdir_spec(opt_view(options.git_subdir))
    }
}

/// Normalizes git options and checks that a reference kind and value come
/// together and that the subdirectory stays inside the repository.
pub fn validate_git_options(options: &GitSourceOptions) -> (r: Result<GitSourceOptions, PyanpmError>)
    ensures
        r is Ok <==> options_valid(options.git_ref_kind, opt_view(options.git_ref), opt_view(options.git_subdir)),
        r matches Ok(n) ==> {
            &&& n.git_ref_kind == options.git_ref_kind
            &&& opt_view(n.git_ref) == normalize_ref_spec(opt_view(options.git_ref))
            &&& opt_view(n.git_subdir) == normalize_subdir_spec(opt_view(options.git_subdir))
        },
        (options.git_ref_kind is Some) != (normalize_ref_spec(opt_view(options.git_ref)) is Some)
            ==> (r matches Err(PyanpmError::InvalidGitRef(m)) && m@
            == "Git reference kind and value must both be set."@),
        (options.git_ref_kind is Some) == (normalize_ref_spec(opt_view(options.git_ref)) is Some)
            && (normalize_subdir_spec(opt_view(options.git_subdir)) matches Some(s) && !valid_subdir(s))
            ==> (r matches Err(PyanpmError::InvalidGitSubdir(m)) && Some(m@) == normalize_subdir_spec(opt_view(options.git_subdir))),
        r matches Err(e) ==> is_git_options_error(*options, e),
{
    let normalized = options.normalized();
    proof {
        lemma_normalize_options(options.git_ref_kind, opt_view(options.git_ref), opt_view(options.git_subdir));
    }
    if normalized.is_empty() {
        return Ok(normalized);
    }
    let paired = match (normalized.git_ref_kind, &normalized.git_ref) {
        (Some(_), Some(_)) => true,
        (None, None) => true,
        _ => false,
    };
    if !paired {
        return Err(
            PyanpmError::InvalidGitRef(String::from_str("Git reference kind and value must both be set.")),
        );
    }
    match &normalized.git_subdir {
        Some(s) => {
            match validate_subdir(s.as_str()) {
                Ok(()) => {},
                Err(e) => return Err(e),
            }
        },
        None => {},
    }
    Ok(normalized)
}

/// Which git command a step runs, for the error it raises.
#[derive(Debug, Clone, Copy, PartialEq, Eq, Structural)]
pub enum GitCommandKind {
    Clone,
    Fetch,
    Checkout,
}

/// One git command to run: its arguments, whether it runs inside the
/// repository checkout, the error it raises, and whether its failure is
/// tolerated.
pub struct GitStep {
    pub args: Vec<String>,
    pub in_repository: bool,
    pub error_kind: GitCommandKind,
    pub tolerate_failure: bool,
}

pub open spec fn step_args(step: GitStep) -> Seq<Seq<char>> {
    step.args@.map_values(|a: String| a@)
}

fn strings(items: Vec<&str>) -> (r: Vec<String>)
    ensures
        r@.len() == items@.len(),
        forall|i: int| 0 <= i < items@.len() ==> #[trigger] r@[i]@ == items@[i]@,
{
    let mut out: Vec<String> = Vec::new();
    let mut i: usize = 0;
    while i < items.len()
        invariant
            i <= items.len(),
            out@.len() == i,
            forall|k: int| 0 <= k < i ==> #[trigger] out@[k]@ == items@[k]@,
        decreases items.len() - i,
    {
        out.push(String::from_str(items[i]));
        i = i + 1;
    }
    out
}

/// The step that brings the cached repository up to date: a fresh clone when
/// there is no checkout yet, a fetch of branches and tags otherwise.
pub fn git_sync_step(url: &str, repository_root: &str, has_checkout: bool) -> (r: GitStep)
    ensures
        has_checkout ==> step_args(r) == seq!["fetch"@, "--prune"@, "--tags"@, "origin"@]
            && r.in_repository && r.error_kind == GitCommandKind::Fetch && !r.tolerate_failure,
        !has_checkout ==> step_args(r) == seq!["clone"@, "--quiet"@, url@, repository_root@]
            && !r.in_repository && r.error_kind == GitCommandKind::Clone && !r.tolerate_failure,
{
    if has_checkout {
        let args = strings(vec!["fetch", "--prune", "--tags", "origin"]);
        let r = GitStep { args, in_repository: true, error_kind: GitCommandKind::Fetch, tolerate_failure: false };
        assert(step_args(r) =~= seq!["fetch"@, "--prune"@, "--tags"@, "origin"@]);
        r
    } else {
        let args = strings(vec!["clone", "--quiet", url, repository_root]);
        let r = GitStep { args, in_repository: false, error_kind: GitCommandKind::Clone, tolerate_failure: false };
        assert(step_args(r) =~= seq!["clone"@, "--quiet"@, url@, repository_root@]);
        r
    }
}

/// The commands that check out the requested reference, given normalized
/// options: a branch is reset to its remote head, a tag or commit is checked
/// out detached (a commit is fetched first, tolerating refusal), and with no
/// reference the current branch is fast-forwarded, tolerating failure.
pub fn git_ref_steps(options: &GitSourceOptions) -> (r: Result<Vec<GitStep>, PyanpmError>)
    ensures
        (options.git_ref_kind is Some) != (options.git_ref is Some) ==> (r matches Err(
            PyanpmError::InvalidGitRef(m),
        ) && m@ == "Git reference kind and value must be provided together."@),
        options.git_ref_kind is None && options.git_ref is None ==> (r matches Ok(steps) && steps@.len() == 1
            && step_args(steps@[0]) == seq!["pull"@, "--ff-only"@, "--quiet"@] && steps@[0].in_repository
            && steps@[0].error_kind == GitCommandKind::Fetch && steps@[0].tolerate_failure),
        options.git_ref_kind == Some(GitRefKind::Branch) && options.git_ref is Some ==> (r matches Ok(steps)
            && steps@.len() == 1 && step_args(steps@[0]) == seq!["checkout"@, "--force"@, "-B"@,
            options.git_ref->Some_0@, "origin/"@ + options.git_ref->Some_0@] && steps@[0].in_repository
            && steps@[0].error_kind == GitCommandKind::Checkout && !steps@[0].tolerate_failure),
        options.git_ref_kind == Some(GitRefKind::Tag) && options.git_ref is Some ==> (r matches Ok(steps)
            && steps@.len() == 1 && step_args(steps@[0]) == seq!["checkout"@, "--force"@, "--detach"@,
            "tags/"@ + options.git_ref->Some_0@] && steps@[0].in_repository
            && steps@[0].error_kind == GitCommandKind::Checkout && !steps@[0].tolerate_failure),
        options.git_ref_kind == Some(GitRefKind::Commit) && options.git_ref is Some ==> (r matches Ok(steps)
            && steps@.len() == 2 && step_args(steps@[0]) == seq!["fetch"@, "--tags"@, "origin"@,
            options.git_ref->Some_0@] && steps@[0].in_repository
            && steps@[0].error_kind == GitCommandKind::Fetch && steps@[0].tolerate_failure
            && step_args(steps@[1]) == seq!["checkout"@, "--force"@, "--detach"@, options.git_ref->Some_0@]
            && steps@[1].in_repository && steps@[1].error_kind == GitCommandKind::Checkout
            && !steps@[1].tolerate_failure),
{
    match (options.git_ref_kind, &options.git_ref) {
        (Some(GitRefKind::Branch), Some(branch)) => {
            let remote = concat2("origin/", branch.as_str());
            let args = strings(vec!["checkout", "--force", "-B", branch.as_str(), remote.as_str()]);
            let step = GitStep { args, in_repository: true, error_kind: GitCommandKind::Checkout, tolerate_failure: false };
            assert(step_args(step) =~= seq!["checkout"@, "--force"@, "-B"@, branch@, "origin/"@ + branch@]);
            let mut v = Vec::new();
            v.push(step);
            Ok(v)
        },
        (Some(GitRefKind::Tag), Some(tag)) => {
            let spec = concat2("tags/", tag.as_str());
            let args = strings(vec!["checkout", "--force", "--detach", spec.as_str()]);
            let step = GitStep { args, in_repository: true, error_kind: GitCommandKind::Checkout, tolerate_failure: false };
            assert(step_args(step) =~= seq!["checkout"@, "--force"@, "--detach"@, "tags/"@ + tag@]);
            let mut v = Vec::new();
            v.push(step);
            Ok(v)
        },
        (Some(GitRefKind::Commit), Some(commit)) => {
            let fetch_args = strings(vec!["fetch", "--tags", "origin", commit.as_str()]);
            let fetch = GitStep { args: fetch_args, in_repository: true, error_kind: GitCommandKind::Fetch, tolerate_failure: true };
            assert(step_args(fetch) =~= seq!["fetch"@, "--tags"@, "origin"@, commit@]);
            let checkout_args = strings(vec!["checkout", "--force", "--detach", commit.as_str()]);
            let checkout = GitStep { args: checkout_args, in_repository: true, error_kind: GitCommandKind::Checkout, tolerate_failure: false };
            assert(step_args(checkout) =~= seq!["checkout"@, "--force"@, "--detach"@, commit@]);
            let mut v = Vec::new();
            v.push(fetch);
            v.push(checkout);
            Ok(v)
        },
        (None, None) => {
            let args = strings(vec!["pull", "--ff-only", "--quiet"]);
            let step = GitStep { args, in_repository: true, error_kind: GitCommandKind::Fetch, tolerate_failure: true };
            assert(step_args(step) =~= seq!["pull"@, "--ff-only"@, "--quiet"@]);
            let mut v = Vec::new();
            v.push(step);
            Ok(v)
        },
        _ => Err(
            PyanpmError::InvalidGitRef(
                String::from_str("Git reference kind and value must be provided together."),
            ),
        ),
    }
}

/// The step that reads the commit the checkout ended on.
pub fn git_rev_parse_step() -> (r: GitStep)
    ensures
        step_args(r) == seq!["rev-parse"@, "HEAD"@],
        r.in_repository,
        r.error_kind == GitCommandKind::Checkout,
        !r.tolerate_failure,
{
    let args = strings(vec!["rev-parse", "HEAD"]);
    let r = GitStep { args, in_repository: true, error_kind: GitCommandKind::Checkout, tolerate_failure: false };
    assert(step_args(r) =~= seq!["rev-parse"@, "HEAD"@]);
    r
}

/// The error a failed git step raises, with git's message.
pub fn git_command_error(kind: GitCommandKind, url: String, message: String) -> (r: PyanpmError)
    ensures
        kind == GitCommandKind::Clone ==> r == (PyanpmError::GitCloneFailed { url, message }),
        kind == GitCommandKind::Fetch ==> r == (PyanpmError::GitFetchFailed { url, message }),
        kind == GitCommandKind::Checkout ==> r == (PyanpmError::GitCheckoutFailed { url, message }),
{
    match kind {
        GitCommandKind::Clone => PyanpmError::GitCloneFailed { url, message },
        GitCommandKind::Fetch => PyanpmError::GitFetchFailed { url, message },
        GitCommandKind::Checkout => PyanpmError::GitCheckoutFailed { url, message },
    }
}

/// The name under which a reference kind enters the cache key.
pub open spec fn cache_kind_text(kind: Option<GitRefKind>) -> Seq<char> {
    match kind {
        Some(k) => git_ref_kind_name(k),
        None => "default"@,
    }
}

/// The bytes whose checksum names a repository's cache directory: the URL,
/// the reference kind and the reference.
pub open spec fn cache_key_input(url: Seq<char>, kind: Option<GitRefKind>, git_ref: Option<Seq<char>>) -> Seq<u8> {
    vstd::utf8::encode_utf8(url) + vstd::utf8::encode_utf8(cache_kind_text(kind))
        + vstd::utf8::encode_utf8(match git_ref {
        Some(r) => r,
        None => Seq::empty(),
    })
}

/// The cache directory name of a repository checkout: the checksum of its
/// URL, reference kind and reference (the subdirectory does not count).
pub fn repository_cache_key(url: &str, options: &GitSourceOptions) -> (r: String)
    ensures
        r@ == checksum_spec(cache_key_input(url@, options.git_ref_kind, opt_view(options.git_ref))),
{
    let kind_text = match options.git_ref_kind {
        Some(k) => k.name(),
        None => String::from_str("default"),
    };
    let mut input: Vec<u8> = Vec::new();
    input.extend_from_slice(url.as_bytes());
    input.extend_from_slice(kind_text.as_str().as_bytes());
    let ghost before = input@;
    match &options.git_ref {
        Some(r) => input.extend_from_slice(r.as_str().as_bytes()),
        None => {},
    }
    assert(input@ =~= cache_key_input(url@, options.git_ref_kind, opt_view(options.git_ref)));
    checksum_bytes(input.as_slice())
}

/// The checkout directory of a repository under the git cache root.
pub fn repository_cache_root(git_cache_root: &str, url: &str, options: &GitSourceOptions) -> (r: String)
    ensures
        r@ == join_spec(git_cache_root@, checksum_spec(cache_key_input(url@, options.git_ref_kind, opt_view(options.git_ref)))),
{
    let key = repository_cache_key(url, options);
    join_path(git_cache_root, key.as_str())
}

/// The package directory inside a checkout: the checkout itself, or the
/// validated subdirectory joined onto it.
pub fn resolve_package_root(repository_root: &str, subdir: &Option<String>) -> (r: Result<String, PyanpmError>)
    ensures
        subdir is None ==> (r matches Ok(p) && p@ == repository_root@),
        subdir matches Some(s) ==> (valid_subdir(s@) ==> (r matches Ok(p) && p@ == join_spec(repository_root@, s@))),
        subdir matches Some(s) ==> (!valid_subdir(s@) ==> (r matches Err(PyanpmError::InvalidGitSubdir(x)) && x@ == s@)),
{
    match subdir {
        None => Ok(String::from_str(repository_root)),
        Some(s) => {
            match validate_subdir(s.as_str()) {
                Ok(()) => Ok(join_path(repository_root, s.as_str())),
                Err(e) => Err(e),
            }
        },
    }
}

/// A checked-out git source: the package folder inside the checkout and the
/// commit the checkout is at.
#[derive(Debug)]
pub struct GitCheckout {
    pub package_root: String,
    pub resolved_commit: String,
}

/// The checkout found at `package_root`, at the commit `git rev-parse HEAD`
/// printed (surrounding whitespace removed).
pub fn git_checkout(package_root: String, rev_parse_output: &str) -> (r: GitCheckout)
    ensures
        r.package_root == package_root,
        r.resolved_commit@ == trim_spec(rev_parse_output@),
{
    GitCheckout { package_root, resolved_commit: String::from_str(trim(rev_parse_output)) }
}

} // verus!
