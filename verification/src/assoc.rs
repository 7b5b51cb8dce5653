//! Association lists keyed by text: the library's maps from names to entries.
//!
//! Each list holds pairs of a key and a value, no key twice; its abstract
//! value is the finite map from each key's characters to its value.
use vstd::prelude::*;

verus! {

/// No key occurs twice.
pub open spec fn distinct_keys<V>(s: Seq<(String, V)>) -> bool {
    forall|i: int, j: int| 0 <= i < s.len() && 0 <= j < s.len() && i != j ==> s[i].0@ != s[j].0@
}

/// Some pair has this key.
pub open spec fn has_key<V>(s: Seq<(String, V)>, k: Seq<char>) -> bool {
    exists|i: int| 0 <= i < s.len() && s[i].0@ == k
}

/// The value paired with a key.
pub open spec fn value_at<V>(s: Seq<(String, V)>, k: Seq<char>) -> V {
    s[choose|i: int| 0 <= i < s.len() && s[i].0@ == k].1
}

/// The map an association list stands for.
pub open spec fn as_map<V>(s: Seq<(String, V)>) -> Map<Seq<char>, V> {
    Map::new(|k: Seq<char>| has_key(s, k), |k: Seq<char>| value_at(s, k))
}

proof fn lemma_value_at_index<V>(s: Seq<(String, V)>, i: int)
    requires
        distinct_keys(s),
        0 <= i < s.len(),
    ensures
        has_key(s, s[i].0@),
        value_at(s, s[i].0@) == s[i].1,
{
    let k = s[i].0@;
    assert(has_key(s, k));
    let j = choose|j: int| 0 <= j < s.len() && s[j].0@ == k;
    assert(j == i);
}

/// Replacing the value at a key's position is a map insertion.
pub proof fn lemma_update_is_insert<V>(s: Seq<(String, V)>, i: int, key: String, v: V)
    requires
        distinct_keys(s),
        0 <= i < s.len(),
        s[i].0@ == key@,
    ensures
        distinct_keys(s.update(i, (key, v))),
        as_map(s.update(i, (key, v))) == as_map(s).insert(key@, v),
{
    let t = s.update(i, (key, v));
    assert forall|k: Seq<char>| #[trigger] has_key(t, k) == (has_key(s, k) || k == key@) by {
        if has_key(s, k) {
            let j = choose|j: int| 0 <= j < s.len() && s[j].0@ == k;
            assert(t[j].0@ == k);
        }
        if has_key(t, k) {
            let j = choose|j: int| 0 <= j < t.len() && t[j].0@ == k;
            assert(s[j].0@ == k);
        }
    }
    assert forall|k: Seq<char>| has_key(t, k) implies #[trigger] value_at(t, k) == (if k == key@ {
        v
    } else {
        value_at(s, k)
    }) by {
        let j = choose|j: int| 0 <= j < t.len() && t[j].0@ == k;
        lemma_value_at_index(t, j);
        if k != key@ {
            lemma_value_at_index(s, j);
        }
    }
    assert(as_map(t) =~= as_map(s).insert(key@, v));
}

/// Appending a pair with a new key is a map insertion.
pub proof fn lemma_push_is_insert<V>(s: Seq<(String, V)>, key: String, v: V)
    requires
        distinct_keys(s),
        !has_key(s, key@),
    ensures
        distinct_keys(s.push((key, v))),
        as_map(s.push((key, v))) == as_map(s).insert(key@, v),
{
    let t = s.push((key, v));
    assert forall|i: int, j: int|
        0 <= i < t.len() && 0 <= j < t.len() && i != j implies t[i].0@ != t[j].0@ by {
        if i == s.len() {
            assert(t[j].0@ == s[j].0@);
        } else if j == s.len() {
            assert(t[i].0@ == s[i].0@);
        }
    }
    assert forall|k: Seq<char>| #[trigger] has_key(t, k) == (has_key(s, k) || k == key@) by {
        if has_key(s, k) {
            let j = choose|j: int| 0 <= j < s.len() && s[j].0@ == k;
            assert(t[j].0@ == k);
        }
        if k == key@ {
            assert(t[s.len() as int].0@ == k);
        }
        if has_key(t, k) {
            let j = choose|j: int| 0 <= j < t.len() && t[j].0@ == k;
            if j < s.len() {
                assert(s[j].0@ == k);
            }
        }
    }
    assert forall|k: Seq<char>| has_key(t, k) implies #[trigger] value_at(t, k) == (if k == key@ {
        v
    } else {
        value_at(s, k)
    }) by {
        let j = choose|j: int| 0 <= j < t.len() && t[j].0@ == k;
        lemma_value_at_index(t, j);
        if k != key@ {
            lemma_value_at_index(s, j);
        }
    }
    assert(as_map(t) =~= as_map(s).insert(key@, v));
}

/// The map of an empty list is empty.
pub proof fn lemma_empty_map<V>(s: Seq<(String, V)>)
    requires
        s.len() == 0,
    ensures
        distinct_keys(s),
        as_map(s) == Map::<Seq<char>, V>::empty(),
{
    assert(as_map(s) =~= Map::<Seq<char>, V>::empty());
}

/// The position of a key, if any pair has it.
pub fn find_key<V>(entries: &Vec<(String, V)>, key: &str) -> (r: Option<usize>)
    ensures
        r matches Some(i) ==> i < entries@.len() && entries@[i as int].0@ == key@,
        r is None ==> !has_key(entries@, key@),
{
    let n = entries.len();
    for i in 0..n
        invariant
            n == entries@.len(),
            forall|j: int| 0 <= j < i ==> entries@[j].0@ != key@,
    {
        if crate::text::str_eq(entries[i].0.as_str(), key) {
            return Some(i);
        }
    }
    None
}

/// Sets the value of a key, adding the key when it is new.
pub fn upsert<V>(entries: &mut Vec<(String, V)>, key: String, value: V)
    requires
        distinct_keys(old(entries)@),
    ensures
        distinct_keys(final(entries)@),
        as_map(final(entries)@) == as_map(old(entries)@).insert(key@, value),
        forall|i: int|
            0 <= i < final(entries)@.len() ==> (#[trigger] final(entries)@[i] == old(entries)@[i]
                && i < old(entries)@.len()) || final(entries)@[i] == (key, value),
{
    match find_key(entries, key.as_str()) {
        Some(i) => {
            proof {
                lemma_update_is_insert(entries@, i as int, key, value);
            }
            entries.set(i, (key, value));
        },
        None => {
            proof {
                lemma_push_is_insert(entries@, key, value);
            }
            entries.push((key, value));
        },
    }
}

/// The value stored under a key.
pub fn lookup<'a, V>(entries: &'a Vec<(String, V)>, key: &str) -> (r: Option<&'a V>)
    requires
        distinct_keys(entries@),
    ensures
        r matches Some(v) ==> as_map(entries@).contains_key(key@) && *v == as_map(
            entries@,
        )[key@],
        r is None ==> !as_map(entries@).contains_key(key@),
{
    match find_key(entries, key) {
        Some(i) => {
            proof {
                lemma_value_at_index(entries@, i as int);
            }
            Some(&entries[i].1)
        },
        None => None,
    }
}

/// A list with no key twice stands for a finite map with one key per pair.
pub proof fn lemma_map_len<V>(s: Seq<(String, V)>)
    requires
        distinct_keys(s),
    ensures
        as_map(s).dom().finite(),
        as_map(s).dom().len() == s.len(),
{
    let ks = s.map_values(|e: (String, V)| e.0@);
    assert(ks.no_duplicates()) by {
        assert forall|i: int, j: int| 0 <= i < ks.len() && 0 <= j < ks.len() && i != j implies ks[i]
            != ks[j] by {
            assert(ks[i] == s[i].0@ && ks[j] == s[j].0@);
        }
    }
    ks.unique_seq_to_set();
    assert(as_map(s).dom() =~= ks.to_set()) by {
        assert forall|k: Seq<char>| as_map(s).dom().contains(k) implies ks.to_set().contains(k) by {
            let i = choose|i: int| 0 <= i < s.len() && s[i].0@ == k;
            assert(ks[i] == k);
        }
        assert forall|k: Seq<char>| ks.to_set().contains(k) implies as_map(s).dom().contains(k) by {
            let i = choose|i: int| 0 <= i < ks.len() && ks[i] == k;
            assert(s[i].0@ == k);
        }
    }
    vstd::seq_lib::seq_to_set_is_finite(ks);
}

} // verus!
