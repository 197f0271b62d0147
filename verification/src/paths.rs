//! Paths as text, following Windows path syntax (the platform pyanPM manages
//! Roblox Studio plugins on): both `\` and `/` separate components and `\`
//! is the separator that joining inserts.  The functions expect paths as the
//! operating system hands them back after canonicalization: no trailing
//! separator and no `.` or `..` components.
use vstd::prelude::*;
use crate::text::{push_char, concat2};

verus! {

pub open spec fn is_sep(c: char) -> bool {
    c == '/' || c == '\\'
}

/// `base` joined with the relative `child`.
pub open spec fn join_spec(base: Seq<char>, child: Seq<char>) -> Seq<char> {
    if base.len() == 0 {
        child
    } else if is_sep(base.last()) {
        base + child
    } else {
        base + seq!['\\'] + child
    }
}

/// Joins a relative path onto `base`, inserting `\` unless `base` is empty or
/// already ends with a separator.
pub fn join_path(base: &str, child: &str) -> (r: String)
    ensures
        r@ == join_spec(base@, child@),
{
    let n = base.unicode_len();
    if n == 0 {
        return String::from_str(child);
    }
    let last = base.get_char(n - 1);
    assert(last == base@.last());
    if last == '/' || last == '\\' {
        concat2(base, child)
    } else {
        let mut s = String::from_str(base);
        push_char(&mut s, '\\');
        s.append(child);
        s
    }
}

/// Index of the last character of `s` satisfying `c == target`, or -1.
pub open spec fn last_index_of(s: Seq<char>, target: char) -> int
    decreases s.len(),
{
    if s.len() == 0 {
        -1
    } else if s.last() == target {
        s.len() - 1
    } else {
        last_index_of(s.drop_last(), target)
    }
}

/// Index of the last separator of `s`, or -1.
pub open spec fn last_sep(s: Seq<char>) -> int
    decreases s.len(),
{
    if s.len() == 0 {
        -1
    } else if is_sep(s.last()) {
        s.len() - 1
    } else {
        last_sep(s.drop_last())
    }
}

pub proof fn lemma_last_sep(s: Seq<char>)
    ensures
        -1 <= last_sep(s) < s.len(),
        last_sep(s) >= 0 ==> is_sep(s[last_sep(s)]),
        forall|k: int| last_sep(s) < k < s.len() ==> !is_sep(#[trigger] s[k]),
    decreases s.len(),
{
    if s.len() > 0 && !is_sep(s.last()) {
        lemma_last_sep(s.drop_last());
        assert forall|k: int| last_sep(s) < k < s.len() implies !is_sep(#[trigger] s[k]) by {
            if k < s.len() - 1 {
                assert(s[k] == s.drop_last()[k]);
            }
        }
    }
}

pub proof fn lemma_last_index_of(s: Seq<char>, t: char)
    ensures
        -1 <= last_index_of(s, t) < s.len(),
        last_index_of(s, t) >= 0 ==> s[last_index_of(s, t)] == t,
        forall|k: int| last_index_of(s, t) < k < s.len() ==> #[trigger] s[k] != t,
    decreases s.len(),
{
    if s.len() > 0 && s.last() != t {
        lemma_last_index_of(s.drop_last(), t);
        assert forall|k: int| last_index_of(s, t) < k < s.len() implies #[trigger] s[k] != t by {
            if k < s.len() - 1 {
                assert(s[k] == s.drop_last()[k]);
            }
        }
    }
}

/// The last component of a path, if it names a file or directory.
pub open spec fn file_name_spec(p: Seq<char>) -> Option<Seq<char>> {
    let seg = p.subrange(last_sep(p) + 1, p.len() as int);
    if seg.len() == 0 || seg == "."@ || seg == ".."@ {
        None
    } else {
        Some(seg)
    }
}

/// The part of a file name before its last `.`; the whole name when it has no
/// `.` or only a leading one.
pub open spec fn stem_of_name(name: Seq<char>) -> Seq<char> {
    let d = last_index_of(name, '.');
    if d <= 0 {
        name
    } else {
        name.subrange(0, d)
    }
}

/// The part of a file name after its last `.`, when there is a `.` that is not
/// the first character.
pub open spec fn extension_of_name(name: Seq<char>) -> Option<Seq<char>> {
    let d = last_index_of(name, '.');
    if d <= 0 {
        None
    } else {
        Some(name.subrange(d + 1, name.len() as int))
    }
}

pub open spec fn file_stem_spec(p: Seq<char>) -> Option<Seq<char>> {
    match file_name_spec(p) {
        Some(name) => Some(stem_of_name(name)),
        None => None,
    }
}

pub open spec fn extension_spec(p: Seq<char>) -> Option<Seq<char>> {
    match file_name_spec(p) {
        Some(name) => extension_of_name(name),
        None => None,
    }
}

fn find_last_sep(s: &str) -> (r: usize)
    ensures
        r as int == last_sep(s@) + 1,
{
    let n = s.unicode_len();
    let mut j: usize = n;
    while j > 0
        invariant_except_break
            n == s@.len(),
            j <= n,
            forall|k: int| j <= k < n ==> !is_sep(#[trigger] s@[k]),
        ensures
            j <= n,
            forall|k: int| j <= k < n ==> !is_sep(#[trigger] s@[k]),
            j == 0 || is_sep(s@[j - 1]),
        decreases j,
    {
        let c = s.get_char(j - 1);
        if c == '/' || c == '\\' {
            break;
        }
        j = j - 1;
    }
    proof {
        lemma_last_sep(s@);
        let r = last_sep(s@);
        if r + 1 < j {
            assert(!is_sep(s@[j - 1]));
        }
        if r + 1 > j {
            assert(is_sep(s@[r]));
        }
    }
    j
}

fn find_last_char(s: &str, t: char) -> (r: usize)
    ensures
        r as int == last_index_of(s@, t) + 1,
{
    let n = s.unicode_len();
    let mut j: usize = n;
    while j > 0
        invariant_except_break
            n == s@.len(),
            j <= n,
            forall|k: int| j <= k < n ==> #[trigger] s@[k] != t,
        ensures
            j <= n,
            forall|k: int| j <= k < n ==> #[trigger] s@[k] != t,
            j == 0 || s@[j - 1] == t,
        decreases j,
    {
        let c = s.get_char(j - 1);
        if c == t {
            break;
        }
        j = j - 1;
    }
    proof {
        lemma_last_index_of(s@, t);
        let r = last_index_of(s@, t);
        if r + 1 < j {
            assert(s@[j - 1] != t);
        }
        if r + 1 > j {
            assert(s@[r] == t);
        }
    }
    j
}

/// The last component of `p` (as `Path::file_name`).
pub fn file_name(p: &str) -> (r: Option<&str>)
    ensures
        r matches Some(x) ==> file_name_spec(p@) == Some(x@),
        r is None ==> file_name_spec(p@) is None,
{
    let n = p.unicode_len();
    let start = find_last_sep(p);
    proof {
        lemma_last_sep(p@);
    }
    let seg = p.substring_char(start, n);
    if seg.unicode_len() == 0 || crate::text::str_eq(seg, ".") || crate::text::str_eq(seg, "..") {
        None
    } else {
        Some(seg)
    }
}

/// The stem of the file name of `p` (as `Path::file_stem`).
pub fn file_stem(p: &str) -> (r: Option<&str>)
    ensures
        r matches Some(x) ==> file_stem_spec(p@) == Some(x@),
        r is None ==> file_stem_spec(p@) is None,
{
    match file_name(p) {
        None => None,
        Some(name) => {
            let d = find_last_char(name, '.');
            proof {
                lemma_last_index_of(name@, '.');
            }
            if d <= 1 {
                Some(name)
            } else {
                Some(name.substring_char(0, d - 1))
            }
        },
    }
}

/// The extension of the file name of `p` (as `Path::extension`).
pub fn extension(p: &str) -> (r: Option<&str>)
    ensures
        r matches Some(x) ==> extension_spec(p@) == Some(x@),
        r is None ==> extension_spec(p@) is None,
{
    match file_name(p) {
        None => None,
        Some(name) => {
            let d = find_last_char(name, '.');
            proof {
                lemma_last_index_of(name@, '.');
            }
            if d <= 1 {
                None
            } else {
                Some(name.substring_char(d, name.unicode_len()))
            }
        },
    }
}

/// `path` lies at or below `root`, component by component.
pub open spec fn within_spec(path: Seq<char>, root: Seq<char>) -> bool {
    ||| path == root
    ||| root.len() < path.len() && path.subrange(0, root.len() as int) == root && (root.len() == 0
        || is_sep(root.last()) || is_sep(path[root.len() as int]))
}

/// Whether `path` lies at or below `root` (as `Path::starts_with` on
/// canonical paths).
pub fn path_within(path: &str, root: &str) -> (r: bool)
    ensures
        r == within_spec(path@, root@),
{
    if crate::text::str_eq(path, root) {
        return true;
    }
    let n = path.unicode_len();
    let m = root.unicode_len();
    if m >= n || !crate::text::starts_with(path, root) {
        return false;
    }
    if m == 0 {
        return true;
    }
    let last = root.get_char(m - 1);
    let next = path.get_char(m);
    assert(last == root@.last());
    last == '/' || last == '\\' || next == '/' || next == '\\'
}

} // verus!
