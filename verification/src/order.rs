//! Lexicographic path order.
//!
//! Purge deletes stale directories in lexicographic order, which puts every
//! ancestor before its descendants (`a/b` sorts before `a/b/c`), so a
//! single recursive delete per entry suffices and nested stale directories
//! are recognised as already gone.

use vstd::prelude::*;

use crate::paths::{is_dir_prefix, views_of};

verus! {

/// Lexicographic order on character sequences, by code point.
pub open spec fn lex_le(a: Seq<char>, b: Seq<char>) -> bool
    decreases a.len(),
{
    if a.len() == 0 {
        true
    } else if b.len() == 0 {
        false
    } else if a[0] == b[0] {
        lex_le(a.drop_first(), b.drop_first())
    } else {
        (a[0] as int) < (b[0] as int)
    }
}

/// Strict lexicographic order.
pub open spec fn lex_lt(a: Seq<char>, b: Seq<char>) -> bool {
    lex_le(a, b) && a != b
}

/// Strictly ascending, hence duplicate-free.
pub open spec fn strictly_sorted(s: Seq<Seq<char>>) -> bool {
    forall|i: int, j: int| 0 <= i < j < s.len() ==> lex_lt(s[i], s[j])
}

/// Some path of `s` has view `p`.
pub open spec fn contains_view(s: Seq<String>, p: Seq<char>) -> bool {
    exists|i: int| 0 <= i < s.len() && s[i]@ == p
}

/// Dropping an equal prefix of both sides does not change the order.
pub proof fn lemma_lex_le_skip(a: Seq<char>, b: Seq<char>, i: int)
    requires
        0 <= i <= a.len(),
        i <= b.len(),
        forall|j: int| 0 <= j < i ==> a[j] == b[j],
    ensures
        lex_le(a, b) == lex_le(a.skip(i), b.skip(i)),
    decreases i,
{
    if i == 0 {
        assert(a.skip(0) =~= a);
        assert(b.skip(0) =~= b);
    } else {
        assert(a[0] == b[0]);
        lemma_lex_le_skip(a.drop_first(), b.drop_first(), i - 1);
        assert(a.drop_first().skip(i - 1) =~= a.skip(i));
        assert(b.drop_first().skip(i - 1) =~= b.skip(i));
    }
}

/// The order is total.
pub proof fn lemma_lex_le_total(a: Seq<char>, b: Seq<char>)
    ensures
        lex_le(a, b) || lex_le(b, a),
    decreases a.len(),
{
    if a.len() == 0 || b.len() == 0 {
    } else if a[0] == b[0] {
        lemma_lex_le_total(a.drop_first(), b.drop_first());
    } else {
        assert(a[0] as int != b[0] as int);
    }
}

/// The order is antisymmetric.
pub proof fn lemma_lex_le_antisymmetric(a: Seq<char>, b: Seq<char>)
    requires
        lex_le(a, b),
        lex_le(b, a),
    ensures
        a == b,
    decreases a.len(),
{
    if a.len() == 0 {
        assert(b.len() == 0);
        assert(a =~= b);
    } else {
        assert(b.len() > 0);
        assert(a[0] == b[0]);
        lemma_lex_le_antisymmetric(a.drop_first(), b.drop_first());
        assert(a.drop_first().len() == b.drop_first().len());
        assert(a.len() == b.len());
        assert forall|i: int| 0 <= i < a.len() implies a[i] == b[i] by {
            if i > 0 {
                assert(a.drop_first()[i - 1] == a[i]);
                assert(b.drop_first()[i - 1] == b[i]);
            }
        }
        assert(a =~= b);
    }
}

/// The order is transitive.
pub proof fn lemma_lex_le_transitive(a: Seq<char>, b: Seq<char>, c: Seq<char>)
    requires
        lex_le(a, b),
        lex_le(b, c),
    ensures
        lex_le(a, c),
    decreases a.len(),
{
    if a.len() == 0 {
    } else {
        assert(b.len() > 0);
        assert(c.len() > 0);
        if a[0] == b[0] && b[0] == c[0] {
            lemma_lex_le_transitive(a.drop_first(), b.drop_first(), c.drop_first());
        }
    }
}

/// Strict order is transitive.
pub proof fn lemma_lex_lt_transitive(a: Seq<char>, b: Seq<char>, c: Seq<char>)
    requires
        lex_lt(a, b),
        lex_lt(b, c),
    ensures
        lex_lt(a, c),
{
    lemma_lex_le_transitive(a, b, c);
    if a == c {
        lemma_lex_le_antisymmetric(a, b);
    }
}

/// An ancestor sorts strictly before every path below it: the guarantee
/// that makes one pass in sorted order delete whole stale subtrees first.
pub proof fn lemma_ancestor_sorts_first(prefix: Seq<char>, path: Seq<char>)
    requires
        is_dir_prefix(prefix, path),
    ensures
        lex_lt(prefix, path),
{
    assert forall|j: int| 0 <= j < prefix.len() implies prefix[j] == path[j] by {
        assert(path.subrange(0, prefix.len() as int)[j] == path[j]);
    }
    lemma_lex_le_skip(prefix, path, prefix.len() as int);
    assert(prefix.skip(prefix.len() as int).len() == 0);
    assert(prefix.len() != path.len());
}

/// Lexicographic comparison of two path strings.
pub fn path_le(a: &str, b: &str) -> (r: bool)
    ensures
        r == lex_le(a@, b@),
{
    let a_len = a.unicode_len();
    let b_len = b.unicode_len();
    let mut i: usize = 0;
    while i < a_len && i < b_len
        invariant
            a_len == a@.len(),
            b_len == b@.len(),
            0 <= i <= a_len,
            0 <= i <= b_len,
            forall|j: int| 0 <= j < i ==> a@[j] == b@[j],
        decreases a_len - i,
    {
        let ca = a.get_char(i);
        let cb = b.get_char(i);
        if ca != cb {
            proof {
                lemma_lex_le_skip(a@, b@, i as int);
                assert(a@.skip(i as int)[0] == a@[i as int]);
                assert(b@.skip(i as int)[0] == b@[i as int]);
            }
            return (ca as u32) < (cb as u32);
        }
        i += 1;
    }
    proof {
        lemma_lex_le_skip(a@, b@, i as int);
    }
    i >= a_len
}

/// Is some path of `v` equal to `p`?
pub fn contains_path(v: &Vec<String>, p: &str) -> (r: bool)
    ensures
        r == contains_view(v@, p@),
{
    let mut i: usize = 0;
    while i < v.len()
        invariant
            0 <= i <= v@.len(),
            forall|j: int| 0 <= j < i ==> v@[j]@ != p@,
        decreases v@.len() - i,
    {
        if crate::paths::str_eq(v[i].as_str(), p) {
            return true;
        }
        i += 1;
    }
    false
}

/// The least index at which `p` could be inserted while keeping `v` sorted.
fn insertion_index(v: &Vec<String>, p: &str) -> (r: usize)
    ensures
        0 <= r <= v@.len(),
        forall|k: int| 0 <= k < r ==> lex_le(v@[k]@, p@),
        r < v@.len() ==> !lex_le(v@[r as int]@, p@),
{
    let mut j: usize = 0;
    while j < v.len()
        invariant
            0 <= j <= v@.len(),
            forall|k: int| 0 <= k < j ==> lex_le(v@[k]@, p@),
        decreases v@.len() - j,
    {
        if !path_le(v[j].as_str(), p) {
            return j;
        }
        j += 1;
    }
    j
}

/// Inserts a path that is not yet present at its sorted position.
pub fn insert_sorted(v: &mut Vec<String>, p: String)
    requires
        strictly_sorted(views_of(old(v)@)),
        !contains_view(old(v)@, p@),
    ensures
        strictly_sorted(views_of(final(v)@)),
        final(v)@.len() == old(v)@.len() + 1,
        forall|q: Seq<char>| contains_view(final(v)@, q) <==> (contains_view(old(v)@, q) || q
            == p@),
{
    let ghost old_v = v@;
    let j = insertion_index(v, p.as_str());
    let ghost pv = p@;
    v.insert(j, p);
    proof {
        let w = views_of(v@);
        let u = views_of(old_v);
        assert(v@ == old_v.insert(j as int, p));
        assert forall|k: int| 0 <= k < w.len() implies w[k] == (if k < j {
            u[k]
        } else if k == j {
            pv
        } else {
            u[k - 1]
        }) by {
            assert(w[k] == v@[k]@);
        }
        assert forall|k: int| 0 <= k < u.len() implies u[k] != pv by {
            assert(old_v[k]@ == u[k]);
        }
        assert forall|k1: int, k2: int| 0 <= k1 < k2 < w.len() implies lex_lt(w[k1], w[k2]) by {
            if k2 < j {
                assert(lex_lt(u[k1], u[k2]));
            } else if k2 == j {
                assert(lex_le(u[k1], pv));
                assert(u[k1] != pv);
            } else if k1 == j {
                // Everything at or after the insertion point is strictly
                // above p: the entry at j is, and the rest follow it.
                if j < u.len() {
                    lemma_lex_le_total(pv, u[j as int]);
                    assert(lex_lt(pv, u[j as int]));
                    if k2 - 1 > j {
                        lemma_lex_lt_transitive(pv, u[j as int], u[k2 - 1]);
                    }
                }
            } else if k1 > j {
                assert(lex_lt(u[k1 - 1], u[k2 - 1]));
            } else {
                // k1 < j < k2
                assert(lex_lt(u[k1], pv));
                if j < u.len() {
                    lemma_lex_le_total(pv, u[j as int]);
                    assert(lex_lt(pv, u[j as int]));
                    if k2 - 1 > j {
                        lemma_lex_lt_transitive(pv, u[j as int], u[k2 - 1]);
                    }
                    lemma_lex_lt_transitive(u[k1], pv, u[k2 - 1]);
                }
            }
        }
        assert forall|q: Seq<char>| contains_view(v@, q) <==> (contains_view(old_v, q) || q
            == pv) by {
            if contains_view(v@, q) {
                let i = choose|i: int| 0 <= i < v@.len() && v@[i]@ == q;
                if i < j {
                    assert(old_v[i]@ == q);
                } else if i > j {
                    assert(old_v[i - 1]@ == q);
                }
            }
            if contains_view(old_v, q) {
                let i = choose|i: int| 0 <= i < old_v.len() && old_v[i]@ == q;
                if i < j {
                    assert(v@[i]@ == q);
                } else {
                    assert(v@[i + 1]@ == q);
                }
            }
            if q == pv {
                assert(v@[j as int]@ == q);
            }
        }
    }
}

} // verus!
