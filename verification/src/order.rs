//! Lexicographic order of texts, as `str`'s `Ord` orders them (by code point).
use crate::text::chars_of;
use vstd::prelude::*;

verus! {

/// `a` comes strictly before `b`.
pub open spec fn lex_lt(a: Seq<char>, b: Seq<char>) -> bool
    decreases a.len(),
{
    if a.len() == 0 {
        b.len() > 0
    } else if b.len() == 0 {
        false
    } else if a[0] < b[0] {
        true
    } else if a[0] == b[0] {
        lex_lt(a.drop_first(), b.drop_first())
    } else {
        false
    }
}

/// The texts in `s` are strictly increasing.
pub open spec fn strictly_sorted(s: Seq<Seq<char>>) -> bool {
    forall|i: int, j: int| 0 <= i < j < s.len() ==> lex_lt(s[i], s[j])
}

pub proof fn lemma_lex_irreflexive(a: Seq<char>)
    ensures
        !lex_lt(a, a),
    decreases a.len(),
{
    if a.len() > 0 {
        lemma_lex_irreflexive(a.drop_first());
    }
}

pub proof fn lemma_lex_total(a: Seq<char>, b: Seq<char>)
    ensures
        a == b || lex_lt(a, b) || lex_lt(b, a),
    decreases a.len(),
{
    if a.len() > 0 && b.len() > 0 && a[0] == b[0] {
        lemma_lex_total(a.drop_first(), b.drop_first());
        if a.drop_first() == b.drop_first() {
            assert(a =~= seq![a[0]] + a.drop_first());
            assert(b =~= seq![b[0]] + b.drop_first());
        }
    } else if a.len() > 0 && b.len() > 0 {
        assert(a[0] != b[0]);
    } else if a.len() == 0 && b.len() == 0 {
        assert(a =~= b);
    }
}

pub proof fn lemma_lex_asymmetric(a: Seq<char>, b: Seq<char>)
    ensures
        !(lex_lt(a, b) && lex_lt(b, a)),
    decreases a.len(),
{
    if a.len() > 0 && b.len() > 0 && a[0] == b[0] {
        lemma_lex_asymmetric(a.drop_first(), b.drop_first());
    }
}

pub proof fn lemma_lex_transitive(a: Seq<char>, b: Seq<char>, c: Seq<char>)
    requires
        lex_lt(a, b),
        lex_lt(b, c),
    ensures
        lex_lt(a, c),
    decreases a.len(),
{
    if a.len() > 0 && b.len() > 0 && c.len() > 0 && a[0] == b[0] && b[0] == c[0] {
        lemma_lex_transitive(a.drop_first(), b.drop_first(), c.drop_first());
    }
}

proof fn lemma_lex_skip(a: Seq<char>, b: Seq<char>, i: int)
    requires
        0 <= i < a.len(),
        i < b.len(),
        a[i] == b[i],
    ensures
        lex_lt(a.subrange(i, a.len() as int), b.subrange(i, b.len() as int)) == lex_lt(
            a.subrange(i + 1, a.len() as int),
            b.subrange(i + 1, b.len() as int),
        ),
{
    assert(a.subrange(i, a.len() as int).drop_first() =~= a.subrange(i + 1, a.len() as int));
    assert(b.subrange(i, b.len() as int).drop_first() =~= b.subrange(i + 1, b.len() as int));
}

/// Whether `a` comes strictly before `b`.
pub fn less_than(a: &str, b: &str) -> (r: bool)
    ensures
        r == lex_lt(a@, b@),
{
    let x = chars_of(a);
    let y = chars_of(b);
    let mut i: usize = 0;
    assert(x@.subrange(0, x@.len() as int) =~= x@);
    assert(y@.subrange(0, y@.len() as int) =~= y@);
    while i < x.len() && i < y.len() && x[i] == y[i]
        invariant
            i <= x@.len(),
            i <= y@.len(),
            x@ == a@,
            y@ == b@,
            lex_lt(a@, b@) == lex_lt(
                x@.subrange(i as int, x@.len() as int),
                y@.subrange(i as int, y@.len() as int),
            ),
        decreases x@.len() - i,
    {
        proof {
            lemma_lex_skip(x@, y@, i as int);
        }
        i = i + 1;
    }
    if i == x.len() {
        i < y.len()
    } else if i == y.len() {
        false
    } else {
        x[i] < y[i]
    }
}

/// Inserts `k` into a strictly increasing sequence that lacks it, keeping it so.
pub fn insert_sorted(v: &mut Vec<String>, k: String)
    requires
        strictly_sorted(old(v)@.map_values(|s: String| s@)),
        !old(v)@.map_values(|s: String| s@).contains(k@),
    ensures
        strictly_sorted(final(v)@.map_values(|s: String| s@)),
        final(v)@.map_values(|s: String| s@).to_set() == old(v)@.map_values(|s: String| s@).to_set().insert(
            k@,
        ),
        final(v)@.len() == old(v)@.len() + 1,
{
    let ghost old_keys = v@.map_values(|s: String| s@);
    let n = v.len();
    let mut p: usize = 0;
    while p < n && less_than(v[p].as_str(), k.as_str())
        invariant
            p <= n == v@.len(),
            old_keys == v@.map_values(|s: String| s@),
            forall|i: int| 0 <= i < p ==> lex_lt(#[trigger] old_keys[i], k@),
        decreases n - p,
    {
        p = p + 1;
    }
    proof {
        if p < n {
            assert(old_keys[p as int] != k@) by {
                assert(old_keys.contains(old_keys[p as int]));
            }
            lemma_lex_total(old_keys[p as int], k@);
        }
    }
    v.insert(p, k);
    let ghost new_keys = v@.map_values(|s: String| s@);
    proof {
        assert(new_keys =~= old_keys.insert(p as int, k@));
        assert forall|i: int, j: int| 0 <= i < j < new_keys.len() implies lex_lt(
            new_keys[i],
            new_keys[j],
        ) by {
            if j < p {
            } else if j == p {
            } else if i < p {
                assert(new_keys[j] == old_keys[j - 1]);
                if j - 1 > p {
                    lemma_lex_transitive(k@, old_keys[p as int], old_keys[j - 1]);
                }
                lemma_lex_transitive(old_keys[i], k@, old_keys[j - 1]);
            } else if i == p {
                if j - 1 > p {
                    lemma_lex_transitive(k@, old_keys[p as int], old_keys[j - 1]);
                }
            } else {
                assert(new_keys[i] == old_keys[i - 1]);
                assert(new_keys[j] == old_keys[j - 1]);
            }
        }
        assert(new_keys.to_set() =~= old_keys.to_set().insert(k@)) by {
            assert forall|x: Seq<char>| new_keys.to_set().contains(x) implies old_keys.to_set().insert(
                k@,
            ).contains(x) by {
                let i = choose|i: int| 0 <= i < new_keys.len() && new_keys[i] == x;
                if i < p {
                    assert(old_keys[i] == x);
                } else if i > p {
                    assert(old_keys[i - 1] == x);
                }
            }
            assert forall|x: Seq<char>| old_keys.to_set().insert(k@).contains(x) implies new_keys.to_set().contains(
                x,
            ) by {
                if x == k@ {
                    assert(new_keys[p as int] == x);
                } else {
                    let i = choose|i: int| 0 <= i < old_keys.len() && old_keys[i] == x;
                    if i < p {
                        assert(new_keys[i] == x);
                    } else {
                        assert(new_keys[i + 1] == x);
                    }
                }
            }
        }
    }
}

} // verus!
