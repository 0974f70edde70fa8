//! Association lists: sequences of key and value in which a key is looked up
//! from the front. The collections of this crate are kept as such lists, with
//! no key twice, and are read as maps.

use vstd::prelude::*;

verus! {

/// The index of the first entry with `key`, or the number of entries where
/// none has it.
pub open spec fn position<K, V>(entries: Seq<(K, V)>, key: K) -> int
    decreases entries.len(),
{
    if entries.len() == 0 {
        0
    } else if entries[0].0 == key {
        0
    } else {
        1 + position(entries.drop_first(), key)
    }
}

/// Whether some entry has `key`.
pub open spec fn has_key<K, V>(entries: Seq<(K, V)>, key: K) -> bool {
    position(entries, key) < entries.len()
}

/// What `entries` binds `key` to.
pub open spec fn lookup<K, V>(entries: Seq<(K, V)>, key: K) -> Option<V> {
    if has_key(entries, key) {
        Some(entries[position(entries, key)].1)
    } else {
        None
    }
}

/// `entries` with `key` bound to `value`: an entry with that key is
/// overwritten where it stands, a new key goes to the end.
pub open spec fn put<K, V>(entries: Seq<(K, V)>, key: K, value: V) -> Seq<(K, V)> {
    if has_key(entries, key) {
        entries.update(position(entries, key), (key, value))
    } else {
        entries.push((key, value))
    }
}

/// No two entries share a key.
pub open spec fn distinct_keys<K, V>(entries: Seq<(K, V)>) -> bool {
    forall|i: int, j: int|
        0 <= i < j < entries.len() ==> (#[trigger] entries[i]).0 != (#[trigger] entries[j]).0
}

/// The map that `entries` stands for.
pub open spec fn as_map<K, V>(entries: Seq<(K, V)>) -> Map<K, V> {
    Map::new(|k: K| has_key(entries, k), |k: K| entries[position(entries, k)].1)
}

/// `position` stays within the entries, points at the key unless it ran off
/// the end, and passes no entry with that key on its way.
pub proof fn lemma_position<K, V>(entries: Seq<(K, V)>, key: K)
    ensures
        0 <= position(entries, key) <= entries.len(),
        has_key(entries, key) ==> entries[position(entries, key)].0 == key,
        forall|j: int| 0 <= j < position(entries, key) ==> (#[trigger] entries[j]).0 != key,
    decreases entries.len(),
{
    if entries.len() > 0 && entries[0].0 != key {
        let rest = entries.drop_first();
        lemma_position(rest, key);
        assert forall|j: int| 0 <= j < position(entries, key) implies (#[trigger] entries[j]).0
            != key by {
            if j > 0 {
                assert(entries[j] == rest[j - 1]);
            }
        }
    }
}

/// An index that holds the key, with no such entry before it, is the position.
pub proof fn lemma_position_is<K, V>(entries: Seq<(K, V)>, key: K, i: int)
    requires
        0 <= i <= entries.len(),
        i < entries.len() ==> entries[i].0 == key,
        forall|j: int| 0 <= j < i ==> (#[trigger] entries[j]).0 != key,
    ensures
        position(entries, key) == i,
{
    lemma_position(entries, key);
}

/// Binding a key keeps the keys distinct and the other bindings in place, and
/// the list then stands for the map with that binding added.
pub proof fn lemma_put<K, V>(entries: Seq<(K, V)>, key: K, value: V)
    ensures
        distinct_keys(entries) ==> distinct_keys(put(entries, key, value)),
        lookup(put(entries, key, value), key) == Some(value),
        forall|other: K|
            other != key ==> #[trigger] lookup(put(entries, key, value), other) == lookup(
                entries,
                other,
            ),
        as_map(put(entries, key, value)) == as_map(entries).insert(key, value),
{
    lemma_position(entries, key);
    let after = put(entries, key, value);
    let i = position(entries, key);
    lemma_position_is(after, key, i);
    assert forall|other: K| other != key implies has_key(after, other) == has_key(entries, other)
        && #[trigger] lookup(after, other) == lookup(entries, other) by {
        lemma_position(entries, other);
        let o = position(entries, other);
        if o < entries.len() {
            lemma_position_is(after, other, o);
        } else {
            lemma_position_is(after, other, after.len() as int);
        }
    }
    assert(as_map(after) =~= as_map(entries).insert(key, value)) by {
        assert forall|k: K| #[trigger]
            as_map(after).dom().contains(k) == as_map(entries).insert(key, value).dom().contains(
                k,
            ) by {
            if k != key {
                assert(lookup(after, k) == lookup(entries, k));
            }
        }
        assert forall|k: K| #[trigger] as_map(after).dom().contains(k) implies as_map(after)[k]
            == as_map(entries).insert(key, value)[k] by {
            if k != key {
                assert(lookup(after, k) == lookup(entries, k));
            }
        }
    }
}

/// A list with distinct keys stands for a map with as many keys as the list
/// has entries.
pub proof fn lemma_as_map_len<K, V>(entries: Seq<(K, V)>)
    requires
        distinct_keys(entries),
    ensures
        as_map(entries).dom().finite(),
        as_map(entries).dom().len() == entries.len(),
    decreases entries.len(),
{
    if entries.len() == 0 {
        assert(as_map(entries).dom() =~= Set::<K>::empty());
    } else {
        let front = entries.drop_last();
        let last = entries.last();
        lemma_as_map_len(front);
        lemma_position(front, last.0);
        assert(put(front, last.0, last.1) =~= entries);
        lemma_put(front, last.0, last.1);
    }
}

} // verus!
