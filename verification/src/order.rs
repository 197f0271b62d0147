//! Orders used for sorting: the lexicographic order of strings by code point
//! (the order of `str` comparison, since UTF-8 preserves code point order)
//! and stable sorting by a key.
use vstd::prelude::*;

verus! {

/// Strict lexicographic order on character sequences.
pub open spec fn seq_lt(a: Seq<char>, b: Seq<char>) -> bool
    decreases a.len(),
{
    if a.len() == 0 {
        b.len() > 0
    } else if b.len() == 0 {
        false
    } else if a[0] != b[0] {
        (a[0] as int) < (b[0] as int)
    } else {
        seq_lt(a.drop_first(), b.drop_first())
    }
}

pub proof fn lemma_seq_lt_irreflexive(a: Seq<char>)
    ensures
        !seq_lt(a, a),
    decreases a.len(),
{
    if a.len() > 0 {
        lemma_seq_lt_irreflexive(a.drop_first());
    }
}

pub proof fn lemma_seq_lt_total(a: Seq<char>, b: Seq<char>)
    ensures
        seq_lt(a, b) || a == b || seq_lt(b, a),
        !(seq_lt(a, b) && seq_lt(b, a)),
    decreases a.len(),
{
    if a.len() > 0 && b.len() > 0 {
        if a[0] == b[0] {
            lemma_seq_lt_total(a.drop_first(), b.drop_first());
            if a.drop_first() == b.drop_first() {
                assert(a =~= seq![a[0]] + a.drop_first());
                assert(b =~= seq![b[0]] + b.drop_first());
            }
        } else {
            assert((a[0] as int) != (b[0] as int));
        }
    } else if a.len() == 0 && b.len() == 0 {
        assert(a =~= b);
    }
}

pub proof fn lemma_seq_lt_transitive(a: Seq<char>, b: Seq<char>, c: Seq<char>)
    requires
        seq_lt(a, b),
        seq_lt(b, c),
    ensures
        seq_lt(a, c),
    decreases a.len(),
{
    if a.len() > 0 && b.len() > 0 && c.len() > 0 {
        if a[0] == b[0] && b[0] == c[0] {
            lemma_seq_lt_transitive(a.drop_first(), b.drop_first(), c.drop_first());
        }
    }
}

/// The relation between an order of two strings found after a common prefix
/// and the order of the whole strings.
proof fn lemma_seq_lt_skip(a: Seq<char>, b: Seq<char>, i: int)
    requires
        0 <= i <= a.len(),
        i <= b.len(),
        forall|k: int| 0 <= k < i ==> a[k] == b[k],
    ensures
        seq_lt(a, b) == seq_lt(a.skip(i), b.skip(i)),
    decreases i,
{
    if i > 0 {
        lemma_seq_lt_skip(a.drop_first(), b.drop_first(), i - 1);
        assert(a.drop_first().skip(i - 1) =~= a.skip(i));
        assert(b.drop_first().skip(i - 1) =~= b.skip(i));
    } else {
        assert(a.skip(0) =~= a);
        assert(b.skip(0) =~= b);
    }
}

/// Whether `a` comes strictly before `b` in code point order.
pub fn str_lt(a: &str, b: &str) -> (r: bool)
    ensures
        r == seq_lt(a@, b@),
{
    let n = a.unicode_len();
    let m = b.unicode_len();
    let mut i: usize = 0;
    while i < n && i < m
        invariant_except_break
            n == a@.len(),
            m == b@.len(),
            i <= n,
            i <= m,
            forall|k: int| 0 <= k < i ==> a@[k] == b@[k],
        ensures
            i <= n,
            i <= m,
            forall|k: int| 0 <= k < i ==> a@[k] == b@[k],
            i == n || i == m || a@[i as int] != b@[i as int],
        decreases n - i,
    {
        if a.get_char(i) != b.get_char(i) {
            break;
        }
        i = i + 1;
    }
    proof {
        lemma_seq_lt_skip(a@, b@, i as int);
    }
    if i == n {
        i < m
    } else if i == m {
        false
    } else {
        let x = a.get_char(i);
        let y = b.get_char(i);
        assert(a@.skip(i as int)[0] == x);
        assert(b@.skip(i as int)[0] == y);
        (x as u32) < (y as u32)
    }
}

/// `r` lists the indices of `keys` ordered by key, ties kept in index order.
pub open spec fn is_stable_order(keys: Seq<Seq<char>>, r: Seq<usize>) -> bool {
    &&& r.len() == keys.len()
    &&& forall|i: int| 0 <= i < r.len() ==> (#[trigger] r[i] as int) < keys.len()
    &&& forall|i: int, j: int| 0 <= i < j < r.len() ==> r[i] != r[j]
    &&& forall|i: int, j: int|
        0 <= i < j < r.len() ==> seq_lt(keys[r[i] as int], keys[r[j] as int]) || (keys[r[i] as int]
            == keys[r[j] as int] && r[i] < r[j])
}

/// The views of a vector of strings.
pub open spec fn views(v: Seq<String>) -> Seq<Seq<char>> {
    v.map_values(|s: String| s@)
}

/// Indices of `keys` in ascending key order; equal keys keep their order.
pub fn stable_order(keys: &Vec<String>) -> (r: Vec<usize>)
    ensures
        is_stable_order(views(keys@), r@),
{
    let ghost ks = views(keys@);
    let n = keys.len();
    let mut res: Vec<usize> = Vec::new();
    let mut k: usize = 0;
    while k < n
        invariant
            n == keys.len(),
            ks == views(keys@),
            ks.len() == n,
            k <= n,
            res.len() == k,
            forall|i: int| 0 <= i < res.len() ==> (#[trigger] res@[i] as int) < k,
            forall|i: int, j: int| 0 <= i < j < res.len() ==> res@[i] != res@[j],
            forall|i: int, j: int|
                0 <= i < j < res.len() ==> seq_lt(ks[res@[i] as int], ks[res@[j] as int]) || (
                ks[res@[i] as int] == ks[res@[j] as int] && res@[i] < res@[j]),
        decreases n - k,
    {
        let mut pos: usize = 0;
        while pos < res.len() && !str_lt(keys[k].as_str(), keys[res[pos]].as_str())
            invariant
                n == keys.len(),
                ks == views(keys@),
                k < n,
                pos <= res.len(),
                forall|i: int| 0 <= i < res.len() ==> (#[trigger] res@[i] as int) < k,
                forall|j: int| 0 <= j < pos ==> !seq_lt(ks[k as int], #[trigger] ks[res@[j] as int]),
            decreases res.len() - pos,
        {
            pos = pos + 1;
        }
        let ghost old_res = res@;
        proof {
            if pos < res.len() {
                assert(seq_lt(ks[k as int], ks[res@[pos as int] as int]));
                assert forall|j: int| pos <= j < res.len() implies seq_lt(
                    ks[k as int],
                    #[trigger] ks[res@[j] as int],
                ) by {
                    if j > pos {
                        assert(seq_lt(ks[res@[pos as int] as int], ks[res@[j] as int]) || ks[res@[pos as int] as int] == ks[res@[j] as int]);
                        if seq_lt(ks[res@[pos as int] as int], ks[res@[j] as int]) {
                            lemma_seq_lt_transitive(
                                ks[k as int],
                                ks[res@[pos as int] as int],
                                ks[res@[j] as int],
                            );
                        }
                    }
                }
            }
            assert forall|j: int| 0 <= j < pos implies seq_lt(
                #[trigger] ks[res@[j] as int],
                ks[k as int],
            ) || ks[res@[j] as int] == ks[k as int] by {
                lemma_seq_lt_total(ks[res@[j] as int], ks[k as int]);
            }
        }
        res.insert(pos, k);
        proof {
            assert forall|i: int, j: int| 0 <= i < j < res.len() implies seq_lt(
                ks[res@[i] as int],
                ks[res@[j] as int],
            ) || (ks[res@[i] as int] == ks[res@[j] as int] && res@[i] < res@[j]) by {
                if j < pos {
                    assert(res@[i] == old_res[i] && res@[j] == old_res[j]);
                } else if j == pos {
                    assert(res@[i] == old_res[i]);
                } else if i == pos {
                    assert(res@[j] == old_res[j - 1]);
                } else if i < pos {
                    assert(res@[i] == old_res[i] && res@[j] == old_res[j - 1]);
                } else {
                    assert(res@[i] == old_res[i - 1] && res@[j] == old_res[j - 1]);
                }
            }
            assert forall|i: int, j: int| 0 <= i < j < res.len() implies res@[i] != res@[j] by {
                if j < pos {
                    assert(res@[i] == old_res[i] && res@[j] == old_res[j]);
                } else if j == pos {
                    assert(res@[i] == old_res[i]);
                } else if i == pos {
                    assert(res@[j] == old_res[j - 1]);
                } else if i < pos {
                    assert(res@[i] == old_res[i] && res@[j] == old_res[j - 1]);
                } else {
                    assert(res@[i] == old_res[i - 1] && res@[j] == old_res[j - 1]);
                }
            }
            assert forall|i: int| 0 <= i < res.len() implies (#[trigger] res@[i] as int) < k + 1 by {
                if i < pos {
                    assert(res@[i] == old_res[i]);
                } else if i > pos {
                    assert(res@[i] == old_res[i - 1]);
                }
            }
        }
        k = k + 1;
    }
    res
}

/// `r` lists the indices of `keys` by descending key, ties kept in index order.
pub open spec fn is_stable_order_desc(keys: Seq<i64>, r: Seq<usize>) -> bool {
    &&& r.len() == keys.len()
    &&& forall|i: int| 0 <= i < r.len() ==> (#[trigger] r[i] as int) < keys.len()
    &&& forall|i: int, j: int| 0 <= i < j < r.len() ==> r[i] != r[j]
    &&& forall|i: int, j: int|
        0 <= i < j < r.len() ==> keys[r[i] as int] > keys[r[j] as int] || (keys[r[i] as int]
            == keys[r[j] as int] && r[i] < r[j])
}

/// Indices of `keys` in descending key order; equal keys keep their order.
pub fn stable_order_desc(keys: &Vec<i64>) -> (r: Vec<usize>)
    ensures
        is_stable_order_desc(keys@, r@),
{
    let ghost ks = keys@;
    let n = keys.len();
    let mut res: Vec<usize> = Vec::new();
    let mut k: usize = 0;
    while k < n
        invariant
            n == keys.len(),
            ks == keys@,
            k <= n,
            res.len() == k,
            forall|i: int| 0 <= i < res.len() ==> (#[trigger] res@[i] as int) < k,
            forall|i: int, j: int| 0 <= i < j < res.len() ==> res@[i] != res@[j],
            forall|i: int, j: int|
                0 <= i < j < res.len() ==> ks[res@[i] as int] > ks[res@[j] as int] || (
                ks[res@[i] as int] == ks[res@[j] as int] && res@[i] < res@[j]),
        decreases n - k,
    {
        let mut pos: usize = 0;
        while pos < res.len() && keys[res[pos]] >= keys[k]
            invariant
                n == keys.len(),
                ks == keys@,
                k < n,
                pos <= res.len(),
                forall|i: int| 0 <= i < res.len() ==> (#[trigger] res@[i] as int) < k,
                forall|j: int| 0 <= j < pos ==> #[trigger] ks[res@[j] as int] >= ks[k as int],
            decreases res.len() - pos,
        {
            pos = pos + 1;
        }
        let ghost old_res = res@;
        proof {
            if pos < res.len() {
                assert forall|j: int| pos <= j < res.len() implies #[trigger] ks[res@[j] as int]
                    < ks[k as int] by {
                    if j > pos {
                        assert(ks[res@[pos as int] as int] >= ks[res@[j] as int]);
                    }
                }
            }
        }
        res.insert(pos, k);
        proof {
            assert forall|i: int, j: int| 0 <= i < j < res.len() implies ks[res@[i] as int]
                > ks[res@[j] as int] || (ks[res@[i] as int] == ks[res@[j] as int] && res@[i]
                < res@[j]) by {
                if j < pos {
                    assert(res@[i] == old_res[i] && res@[j] == old_res[j]);
                } else if j == pos {
                    assert(res@[i] == old_res[i]);
                } else if i == pos {
                    assert(res@[j] == old_res[j - 1]);
                } else if i < pos {
                    assert(res@[i] == old_res[i] && res@[j] == old_res[j - 1]);
                } else {
                    assert(res@[i] == old_res[i - 1] && res@[j] == old_res[j - 1]);
                }
            }
            assert forall|i: int, j: int| 0 <= i < j < res.len() implies res@[i] != res@[j] by {
                if j < pos {
                    assert(res@[i] == old_res[i] && res@[j] == old_res[j]);
                } else if j == pos {
                    assert(res@[i] == old_res[i]);
                } else if i == pos {
                    assert(res@[j] == old_res[j - 1]);
                } else if i < pos {
                    assert(res@[i] == old_res[i] && res@[j] == old_res[j - 1]);
                } else {
                    assert(res@[i] == old_res[i - 1] && res@[j] == old_res[j - 1]);
                }
            }
            assert forall|i: int| 0 <= i < res.len() implies (#[trigger] res@[i] as int) < k + 1 by {
                if i < pos {
                    assert(res@[i] == old_res[i]);
                } else if i > pos {
                    assert(res@[i] == old_res[i - 1]);
                }
            }
        }
        k = k + 1;
    }
    res
}

} // verus!

verus! {

pub proof fn lemma_views_push(s: Seq<String>, x: String)
    ensures
        views(s.push(x)) == views(s).push(x@),
{
    assert(views(s.push(x)) =~= views(s).push(x@));
}

} // verus!
