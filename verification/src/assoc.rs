//! Lists of entries keyed by text, in which the last entry with a key is the
//! one that counts.

use vstd::prelude::*;

verus! {

/// The index of the last entry of `entries` whose key is `key`, or -1 where
/// no entry has that key.
pub open spec fn key_index<V>(entries: Seq<(Seq<char>, V)>, key: Seq<char>) -> int
    decreases entries.len(),
{
    if entries.len() == 0 {
        -1
    } else if entries.last().0 == key {
        entries.len() - 1
    } else {
        key_index(entries.drop_last(), key)
    }
}

/// The value that `entries` holds under `key`.
pub open spec fn lookup<V>(entries: Seq<(Seq<char>, V)>, key: Seq<char>) -> Option<V> {
    let i = key_index(entries, key);
    if i >= 0 {
        Some(entries[i].1)
    } else {
        None
    }
}

/// `entries` with the value under `key` replaced by `value`, or with a new
/// last entry where the key was absent.
pub open spec fn with_entry<V>(entries: Seq<(Seq<char>, V)>, key: Seq<char>, value: V) -> Seq<
    (Seq<char>, V),
> {
    let i = key_index(entries, key);
    if i >= 0 {
        entries.update(i, (key, value))
    } else {
        entries.push((key, value))
    }
}

/// No two entries have the same key.
pub open spec fn distinct_keys<V>(entries: Seq<(Seq<char>, V)>) -> bool {
    forall|i: int, j: int|
        0 <= i < j < entries.len() ==> (#[trigger] entries[i]).0 != (#[trigger] entries[j]).0
}

/// The entries of a vector with each key as text and each value as it is.
pub open spec fn keyed<V>(entries: Vec<(String, V)>) -> Seq<(Seq<char>, V)> {
    Seq::new(entries.len() as nat, |i: int| (entries[i].0@, entries[i].1))
}

/// `key_index` finds an entry with the key, and none with that key follows it.
pub proof fn lemma_key_index<V>(entries: Seq<(Seq<char>, V)>, key: Seq<char>)
    ensures
        -1 <= key_index(entries, key) < entries.len(),
        key_index(entries, key) >= 0 ==> entries[key_index(entries, key)].0 == key,
        forall|j: int|
            key_index(entries, key) < j < entries.len() ==> (#[trigger] entries[j]).0 != key,
    decreases entries.len(),
{
    if entries.len() > 0 && entries.last().0 != key {
        lemma_key_index(entries.drop_last(), key);
        assert forall|j: int| key_index(entries, key) < j < entries.len() implies (
        #[trigger] entries[j]).0 != key by {
            if j < entries.len() - 1 {
                assert(entries.drop_last()[j] == entries[j]);
            }
        }
    }
}

/// An entry with the key that no entry with that key follows is the one that
/// `key_index` finds.
pub proof fn lemma_key_index_at<V>(entries: Seq<(Seq<char>, V)>, key: Seq<char>, i: int)
    requires
        0 <= i < entries.len(),
        entries[i].0 == key,
        forall|j: int| i < j < entries.len() ==> (#[trigger] entries[j]).0 != key,
    ensures
        key_index(entries, key) == i,
{
    lemma_key_index(entries, key);
}

/// Where no entry has the key, `key_index` is -1.
pub proof fn lemma_key_index_absent<V>(entries: Seq<(Seq<char>, V)>, key: Seq<char>)
    requires
        forall|j: int| 0 <= j < entries.len() ==> (#[trigger] entries[j]).0 != key,
    ensures
        key_index(entries, key) == -1,
{
    lemma_key_index(entries, key);
}

/// Two lists with the same keys in the same places find a key at the same
/// index, whatever their values are.
pub proof fn lemma_key_index_by_keys<V, W>(
    a: Seq<(Seq<char>, V)>,
    b: Seq<(Seq<char>, W)>,
    key: Seq<char>,
)
    requires
        a.len() == b.len(),
        forall|i: int| 0 <= i < a.len() ==> (#[trigger] a[i]).0 == (#[trigger] b[i]).0,
    ensures
        key_index(a, key) == key_index(b, key),
{
    lemma_key_index(a, key);
    let i = key_index(a, key);
    if i >= 0 {
        assert(b[i].0 == a[i].0);
        assert forall|j: int| i < j < b.len() implies (#[trigger] b[j]).0 != key by {
            assert(a[j].0 == b[j].0);
        }
        lemma_key_index_at(b, key, i);
    } else {
        assert forall|j: int| 0 <= j < b.len() implies (#[trigger] b[j]).0 != key by {
            assert(a[j].0 == b[j].0);
        }
        lemma_key_index_absent(b, key);
    }
}

/// After `with_entry`, the key holds the new value and every other key holds
/// what it held before.
pub proof fn lemma_with_entry_lookup<V>(
    entries: Seq<(Seq<char>, V)>,
    key: Seq<char>,
    value: V,
    other: Seq<char>,
)
    ensures
        lookup(with_entry(entries, key, value), other) == if other == key {
            Some(value)
        } else {
            lookup(entries, other)
        },
{
    let after = with_entry(entries, key, value);
    let i = key_index(entries, key);
    lemma_key_index(entries, key);
    lemma_key_index(entries, other);
    if i >= 0 {
        assert forall|j: int| 0 <= j < entries.len() implies (#[trigger] after[j]).0 == (
        #[trigger] entries[j]).0 by {}
        lemma_key_index_by_keys(after, entries, other);
    } else if other == key {
        lemma_key_index_at(after, key, entries.len() as int);
    } else {
        assert(after.drop_last() =~= entries);
    }
}

/// `with_entry` keeps the keys distinct.
pub proof fn lemma_with_entry_distinct<V>(entries: Seq<(Seq<char>, V)>, key: Seq<char>, value: V)
    requires
        distinct_keys(entries),
    ensures
        distinct_keys(with_entry(entries, key, value)),
{
    lemma_key_index(entries, key);
}

/// `entries` with each value replaced by what `f` makes of it.
pub open spec fn with_values<V, W>(entries: Seq<(Seq<char>, V)>, f: spec_fn(V) -> W) -> Seq<
    (Seq<char>, W),
> {
    Seq::new(entries.len(), |i: int| (entries[i].0, f(entries[i].1)))
}

/// `with_values` leaves every key at its place.
pub proof fn lemma_with_values_index<V, W>(
    entries: Seq<(Seq<char>, V)>,
    f: spec_fn(V) -> W,
    key: Seq<char>,
)
    ensures
        key_index(with_values(entries, f), key) == key_index(entries, key),
        lookup(with_values(entries, f), key) == match lookup(entries, key) {
            Some(v) => Some(f(v)),
            None => None,
        },
        distinct_keys(entries) ==> distinct_keys(with_values(entries, f)),
{
    lemma_key_index_by_keys(with_values(entries, f), entries, key);
    lemma_key_index(entries, key);
}

/// Changing the values and then putting an entry is the same as putting the
/// entry and then changing the values.
pub proof fn lemma_with_values_entry<V, W>(
    entries: Seq<(Seq<char>, V)>,
    f: spec_fn(V) -> W,
    key: Seq<char>,
    value: V,
)
    ensures
        with_values(with_entry(entries, key, value), f) == with_entry(
            with_values(entries, f),
            key,
            f(value),
        ),
{
    lemma_with_values_index(entries, f, key);
    lemma_key_index(entries, key);
    assert(with_values(with_entry(entries, key, value), f) =~= with_entry(
        with_values(entries, f),
        key,
        f(value),
    ));
}

/// The place of the last entry with key `key`, if there is one.
pub fn find_key<V>(entries: &Vec<(String, V)>, key: &str) -> (r: Option<usize>)
    ensures
        match r {
            Some(i) => i < entries.len() && i as int == key_index(keyed(*entries), key@),
            None => key_index(keyed(*entries), key@) == -1,
        },
{
    let wanted = key.to_owned();
    let mut i: usize = entries.len();
    while i > 0
        invariant
            i <= entries.len(),
            wanted@ == key@,
            forall|j: int| i <= j < entries.len() ==> (#[trigger] keyed(*entries)[j]).0 != key@,
        decreases i,
    {
        i -= 1;
        if entries[i].0 == wanted {
            proof {
                lemma_key_index_at(keyed(*entries), key@, i as int);
            }
            return Some(i);
        }
    }
    proof {
        lemma_key_index_absent(keyed(*entries), key@);
    }
    None
}

/// Puts `value` under `key`: in place of the value that the key had, or as a
/// new last entry.
pub fn put_entry<V>(entries: &mut Vec<(String, V)>, key: &str, value: V)
    ensures
        keyed(*final(entries)) == with_entry(keyed(*old(entries)), key@, value),
{
    match find_key(entries, key) {
        Some(i) => {
            entries.set(i, (key.to_owned(), value));
        },
        None => {
            entries.push((key.to_owned(), value));
        },
    }
    assert(keyed(*entries) =~= with_entry(keyed(*old(entries)), key@, value));
}

} // verus!
