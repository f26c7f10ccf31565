//! Association lists: sequences of key-value pairs read as maps, where the
//! first pair with a key decides its value.

use vstd::prelude::*;

verus! {

/// The position of the first pair with the given key, if there is one.
pub open spec fn key_index<K, V>(entries: Seq<(K, V)>, key: K) -> Option<int>
    decreases entries.len(),
{
    if entries.len() == 0 {
        None
    } else {
        match key_index(entries.drop_last(), key) {
            Some(i) => Some(i),
            None => if entries.last().0 == key {
                Some(entries.len() - 1)
            } else {
                None
            },
        }
    }
}

/// The map that an association list stands for.
pub open spec fn assoc_map<K, V>(entries: Seq<(K, V)>) -> Map<K, V> {
    Map::new(
        |k: K| key_index(entries, k) is Some,
        |k: K| entries[key_index(entries, k).unwrap()].1,
    )
}

/// No pair has the key exactly when the search finds nothing.
pub proof fn lemma_key_index_none<K, V>(entries: Seq<(K, V)>, key: K)
    ensures
        key_index(entries, key) is None <==> forall|j: int|
            0 <= j < entries.len() ==> (#[trigger] entries[j]).0 != key,
    decreases entries.len(),
{
    if entries.len() > 0 {
        let front = entries.drop_last();
        lemma_key_index_none(front, key);
        assert(forall|j: int| 0 <= j < front.len() ==> front[j] == entries[j]);
        if key_index(entries, key) is None {
            assert forall|j: int| 0 <= j < entries.len() implies (#[trigger] entries[j]).0
                != key by {
                if j < front.len() {
                    assert(front[j].0 != key);
                }
            }
        } else if key_index(front, key) is Some {
            let j = choose|j: int| 0 <= j < front.len() && (#[trigger] front[j]).0 == key;
            assert(entries[j].0 == key);
        } else {
            assert(entries[entries.len() - 1].0 == key);
        }
    }
}

/// The search finds position `i` exactly when the pair at `i` is the first
/// with the key.
pub proof fn lemma_key_index_some<K, V>(entries: Seq<(K, V)>, key: K, i: int)
    ensures
        key_index(entries, key) == Some(i) <==> (0 <= i < entries.len() && entries[i].0 == key
            && forall|j: int| 0 <= j < i ==> (#[trigger] entries[j]).0 != key),
    decreases entries.len(),
{
    if entries.len() > 0 {
        let front = entries.drop_last();
        lemma_key_index_some(front, key, i);
        lemma_key_index_none(front, key);
        assert(forall|j: int| 0 <= j < front.len() ==> front[j] == entries[j]);
        if key_index(front, key) is Some {
            let k = key_index(front, key).unwrap();
            lemma_key_index_some(front, key, k);
            if 0 <= i < entries.len() && entries[i].0 == key && (forall|j: int|
                0 <= j < i ==> (#[trigger] entries[j]).0 != key) {
                if i < k {
                    assert(front[i].0 != key);
                } else if k < i {
                    assert(entries[k].0 != key);
                }
            }
        } else {
            if 0 <= i < entries.len() && entries[i].0 == key && i < front.len() {
                assert(front[i].0 != key);
            }
        }
    }
}

/// The key is in the map exactly when some pair has it, and the first such
/// pair gives its value.
pub proof fn lemma_assoc_map_first<K, V>(entries: Seq<(K, V)>, key: K, i: int)
    requires
        0 <= i < entries.len(),
        entries[i].0 == key,
        forall|j: int| 0 <= j < i ==> (#[trigger] entries[j]).0 != key,
    ensures
        assoc_map(entries).contains_key(key),
        assoc_map(entries)[key] == entries[i].1,
{
    lemma_key_index_some(entries, key, i);
}

/// A key that no pair has is not in the map.
pub proof fn lemma_assoc_map_absent<K, V>(entries: Seq<(K, V)>, key: K)
    requires
        forall|j: int| 0 <= j < entries.len() ==> (#[trigger] entries[j]).0 != key,
    ensures
        !assoc_map(entries).contains_key(key),
{
    lemma_key_index_none(entries, key);
}

/// Appending a pair with a new key inserts it into the map.
pub proof fn lemma_assoc_map_push<K, V>(entries: Seq<(K, V)>, key: K, value: V)
    requires
        !assoc_map(entries).contains_key(key),
    ensures
        assoc_map(entries.push((key, value))) == assoc_map(entries).insert(key, value),
{
    let after = entries.push((key, value));
    assert(after.drop_last() == entries);
    assert forall|k: K| #[trigger]
        assoc_map(after).contains_key(k) == assoc_map(entries).insert(key, value).contains_key(
            k,
        ) by {}
    assert forall|k: K| #[trigger] assoc_map(after).contains_key(k) implies assoc_map(after)[k]
        == assoc_map(entries).insert(key, value)[k] by {
        if key_index(entries, k) is Some {
            lemma_key_index_some(entries, k, key_index(entries, k).unwrap());
        }
    }
    assert(assoc_map(after) =~= assoc_map(entries).insert(key, value));
}

/// Replacing the value of the first pair with a key replaces the key's value in
/// the map.
pub proof fn lemma_assoc_map_update<K, V>(entries: Seq<(K, V)>, i: int, value: V)
    requires
        0 <= i < entries.len(),
        forall|j: int| 0 <= j < i ==> (#[trigger] entries[j]).0 != entries[i].0,
    ensures
        assoc_map(entries.update(i, (entries[i].0, value))) == assoc_map(entries).insert(
            entries[i].0,
            value,
        ),
{
    let key = entries[i].0;
    let after = entries.update(i, (key, value));
    let want = assoc_map(entries).insert(key, value);
    lemma_key_index_some(entries, key, i);
    assert forall|k: K| #[trigger] key_index(after, k) == key_index(entries, k) by {
        lemma_key_index_none(entries, k);
        lemma_key_index_none(after, k);
        if key_index(entries, k) is Some {
            let n = key_index(entries, k).unwrap();
            lemma_key_index_some(entries, k, n);
            assert(after[n].0 == k);
            assert forall|j: int| 0 <= j < n implies (#[trigger] after[j]).0 != k by {
                assert(entries[j].0 != k);
            }
            lemma_key_index_some(after, k, n);
        } else {
            assert forall|j: int| 0 <= j < after.len() implies (#[trigger] after[j]).0 != k by {
                assert(entries[j].0 != k);
            }
        }
    }
    assert forall|k: K| #[trigger] assoc_map(after).contains_key(k) == want.contains_key(k) by {
        assert(key_index(after, k) == key_index(entries, k));
    }
    assert forall|k: K| #[trigger] assoc_map(after).contains_key(k) implies assoc_map(after)[k]
        == want[k] by {
        assert(key_index(after, k) == key_index(entries, k));
        let n = key_index(entries, k).unwrap();
        lemma_key_index_some(entries, k, n);
    }
    assert(assoc_map(after) =~= want);
}

} // verus!
