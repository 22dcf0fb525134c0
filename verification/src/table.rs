//! Keyed tables held as entry vectors, abstracted as maps.
//!
//! The registry's persisted stores are vectors of `(key, value)` entries
//! whose keys are pairwise distinct. Contracts speak of the corresponding
//! `Map`; the lemmas here carry lookups and updates on the entry sequence
//! over to the map abstraction.
use vstd::prelude::*;

verus! {

/// The map holding exactly the entries of the sequence; a later entry for a
/// key shadows an earlier one (the registry keeps keys distinct, so nothing
/// is ever shadowed).
pub open spec fn map_of<K, V>(entries: Seq<(K, V)>) -> Map<K, V>
    decreases entries.len(),
{
    if entries.len() == 0 {
        Map::empty()
    } else {
        map_of(entries.drop_last()).insert(entries.last().0, entries.last().1)
    }
}

/// No two entries share a key.
pub open spec fn keys_distinct<K, V>(entries: Seq<(K, V)>) -> bool {
    forall|i: int, j: int| 0 <= i < j < entries.len() ==> entries[i].0 != entries[j].0
}

/// A key is in the map exactly when some entry holds it.
pub proof fn lemma_map_of_contains<K, V>(entries: Seq<(K, V)>, k: K)
    ensures
        map_of(entries).contains_key(k) <==> exists|i: int|
            0 <= i < entries.len() && entries[i].0 == k,
    decreases entries.len(),
{
    if entries.len() > 0 {
        let prefix = entries.drop_last();
        lemma_map_of_contains(prefix, k);
        if entries.last().0 == k {
            assert(entries[entries.len() - 1].0 == k);
        } else {
            if exists|i: int| 0 <= i < entries.len() && entries[i].0 == k {
                let i = choose|i: int| 0 <= i < entries.len() && entries[i].0 == k;
                assert(prefix[i].0 == k);
            }
            if map_of(prefix).contains_key(k) {
                let i = choose|i: int| 0 <= i < prefix.len() && prefix[i].0 == k;
                assert(entries[i].0 == k);
            }
        }
    }
}

/// With distinct keys, the map sends each entry's key to that entry's value.
pub proof fn lemma_map_of_index<K, V>(entries: Seq<(K, V)>, i: int)
    requires
        keys_distinct(entries),
        0 <= i < entries.len(),
    ensures
        map_of(entries).contains_key(entries[i].0),
        map_of(entries)[entries[i].0] == entries[i].1,
    decreases entries.len(),
{
    let prefix = entries.drop_last();
    if i < entries.len() - 1 {
        assert forall|a: int, b: int| 0 <= a < b < prefix.len() implies prefix[a].0
            != prefix[b].0 by {
            assert(prefix[a] == entries[a]);
            assert(prefix[b] == entries[b]);
        }
        assert(prefix[i] == entries[i]);
        lemma_map_of_index(prefix, i);
        assert(entries.last().0 != entries[i].0);
    }
}

/// Replacing the value of the entry at `i` inserts over its key in the map
/// and keeps the keys distinct.
pub proof fn lemma_map_of_update<K, V>(entries: Seq<(K, V)>, i: int, v: V)
    requires
        keys_distinct(entries),
        0 <= i < entries.len(),
    ensures
        map_of(entries.update(i, (entries[i].0, v))) == map_of(entries).insert(entries[i].0, v),
        keys_distinct(entries.update(i, (entries[i].0, v))),
    decreases entries.len(),
{
    let k = entries[i].0;
    let updated = entries.update(i, (k, v));
    assert(forall|j: int| 0 <= j < updated.len() ==> updated[j].0 == entries[j].0);
    let prefix = entries.drop_last();
    assert forall|a: int, b: int| 0 <= a < b < prefix.len() implies prefix[a].0 != prefix[b].0 by {
        assert(prefix[a] == entries[a]);
        assert(prefix[b] == entries[b]);
    }
    if i == entries.len() - 1 {
        assert(updated.drop_last() =~= prefix);
        assert(updated.last() == (k, v));
        assert(map_of(updated) =~= map_of(entries).insert(k, v));
    } else {
        assert(updated.drop_last() =~= prefix.update(i, (k, v)));
        assert(updated.last() == entries.last());
        assert(prefix[i] == entries[i]);
        lemma_map_of_update(prefix, i, v);
        assert(entries.last().0 != k);
        assert(map_of(updated) =~= map_of(entries).insert(k, v));
    }
}

/// Appending an entry under a fresh key inserts it in the map and keeps the
/// keys distinct.
pub proof fn lemma_map_of_push<K, V>(entries: Seq<(K, V)>, k: K, v: V)
    requires
        keys_distinct(entries),
        forall|i: int| 0 <= i < entries.len() ==> entries[i].0 != k,
    ensures
        map_of(entries.push((k, v))) == map_of(entries).insert(k, v),
        keys_distinct(entries.push((k, v))),
{
    let pushed = entries.push((k, v));
    assert(pushed.drop_last() =~= entries);
    assert(pushed.last() == (k, v));
    assert(forall|i: int| 0 <= i < entries.len() ==> pushed[i] == entries[i]);
}

} // verus!
