//! Lists of entries keyed by text, read by the first entry of each key.
use vstd::prelude::*;
use crate::text::str_eq;

verus! {

/// `i` is the first entry for `key`.
pub open spec fn first_entry<V>(entries: Seq<(String, V)>, key: Seq<char>, i: int) -> bool {
    &&& 0 <= i < entries.len()
    &&& entries[i].0@ == key
    &&& forall|j: int| 0 <= j < i ==> entries[j].0@ != key
}

/// The value recorded for `key`: that of its first entry.
pub open spec fn entry_value<V>(entries: Seq<(String, V)>, key: Seq<char>) -> Option<V> {
    if exists|i: int| first_entry(entries, key, i) {
        Some(entries[choose|i: int| first_entry(entries, key, i)].1)
    } else {
        None
    }
}

/// `key` now has `value`; every other key keeps its own.
pub open spec fn recorded<V>(old: Seq<(String, V)>, new: Seq<(String, V)>, key: Seq<char>, value: V) -> bool {
    &&& entry_value(new, key) == Some(value)
    &&& forall|k: Seq<char>| k != key ==> #[trigger] entry_value(new, k) == entry_value(old, k)
}

/// There is one first entry.
pub proof fn lemma_first_entry_unique<V>(entries: Seq<(String, V)>, key: Seq<char>, i: int, j: int)
    requires
        first_entry(entries, key, i),
        first_entry(entries, key, j),
    ensures
        i == j,
{
    if i < j {
        assert(entries[i].0@ != key);
    } else if j < i {
        assert(entries[j].0@ != key);
    }
}

/// The value recorded for `key`, known to have its first entry at `i`.
pub proof fn lemma_entry_at<V>(entries: Seq<(String, V)>, key: Seq<char>, i: int)
    requires
        first_entry(entries, key, i),
    ensures
        entry_value(entries, key) == Some(entries[i].1),
{
    let c = choose|k: int| first_entry(entries, key, k);
    lemma_first_entry_unique(entries, key, c, i);
}

/// Replacing the value of a key's first entry records the new value.
pub proof fn lemma_update_entry<V>(before: Seq<(String, V)>, key: Seq<char>, i: int, value: V)
    requires
        first_entry(before, key, i),
    ensures
        recorded(before, before.update(i, (before[i].0, value)), key, value),
{
    let after = before.update(i, (before[i].0, value));
    assert(first_entry(after, key, i));
    lemma_entry_at(after, key, i);
    assert forall|k: Seq<char>| k != key implies #[trigger] entry_value(after, k) == entry_value(before, k) by {
        if exists|m: int| first_entry(before, k, m) {
            let m = choose|m: int| first_entry(before, k, m);
            assert(m != i);
            assert(first_entry(after, k, m));
            lemma_entry_at(before, k, m);
            lemma_entry_at(after, k, m);
        } else if exists|m: int| first_entry(after, k, m) {
            let m = choose|m: int| first_entry(after, k, m);
            assert(m != i);
            assert forall|j: int| 0 <= j < m implies before[j].0@ != k by {
                if j != i {
                    assert(before[j] == after[j]);
                }
            }
            assert(before[m] == after[m]);
            assert(first_entry(before, k, m));
        }
    }
}

/// Adding an entry for a key without one records its value.
pub proof fn lemma_push_entry<V>(before: Seq<(String, V)>, name: String, value: V)
    requires
        forall|j: int| 0 <= j < before.len() ==> before[j].0@ != name@,
    ensures
        recorded(before, before.push((name, value)), name@, value),
{
    let after = before.push((name, value));
    let n = before.len() as int;
    assert(first_entry(after, name@, n));
    lemma_entry_at(after, name@, n);
    assert forall|k: Seq<char>| k != name@ implies #[trigger] entry_value(after, k) == entry_value(before, k) by {
        if exists|m: int| first_entry(before, k, m) {
            let m = choose|m: int| first_entry(before, k, m);
            assert(first_entry(after, k, m));
            lemma_entry_at(before, k, m);
            lemma_entry_at(after, k, m);
        } else if exists|m: int| first_entry(after, k, m) {
            let m = choose|m: int| first_entry(after, k, m);
            assert(m != n);
            assert forall|j: int| 0 <= j < m implies before[j].0@ != k by {
                assert(before[j] == after[j]);
            }
            assert(before[m] == after[m]);
            assert(first_entry(before, k, m));
        }
    }
}

/// The index of the first entry for `key`.
pub fn entry_position<V>(entries: &Vec<(String, V)>, key: &str) -> (r: Option<usize>)
    ensures
        r matches Some(i) ==> first_entry(entries@, key@, i as int),
        r is None ==> forall|j: int| 0 <= j < entries@.len() ==> entries@[j].0@ != key@,
        r is None <==> entry_value(entries@, key@) is None,
{
    let mut i: usize = 0;
    while i < entries.len()
        invariant
            i <= entries@.len(),
            forall|j: int| 0 <= j < i ==> entries@[j].0@ != key@,
        decreases entries@.len() - i,
    {
        if str_eq(entries[i].0.as_str(), key) {
            proof {
                lemma_entry_at(entries@, key@, i as int);
            }
            return Some(i);
        }
        i = i + 1;
    }
    None
}

} // verus!
