//! Keys and values held side by side in two sequences, read as a map.

use vstd::prelude::*;

verus! {

/// The map that sends each key of `keys` to the value at its position.
pub open spec fn assoc<K, V>(keys: Seq<K>, vals: Seq<V>) -> Map<K, V> {
    Map::new(|k: K| keys.contains(k), |k: K| vals[keys.index_of(k)])
}

/// With no key twice, the key at a position finds the value at that position.
pub proof fn lemma_assoc_at<K, V>(keys: Seq<K>, vals: Seq<V>, i: int)
    requires
        keys.no_duplicates(),
        keys.len() == vals.len(),
        0 <= i < keys.len(),
    ensures
        keys.contains(keys[i]),
        keys.index_of(keys[i]) == i,
        assoc(keys, vals).contains_key(keys[i]),
        assoc(keys, vals)[keys[i]] == vals[i],
{
    assert(keys.contains(keys[i]));
    let j = keys.index_of(keys[i]);
    assert(0 <= j < keys.len() && keys[j] == keys[i]);
}

/// Appending a new key with its value inserts the pair into the map.
pub proof fn lemma_assoc_push<K, V>(keys: Seq<K>, vals: Seq<V>, k: K, v: V)
    requires
        keys.no_duplicates(),
        keys.len() == vals.len(),
        !keys.contains(k),
    ensures
        keys.push(k).no_duplicates(),
        assoc(keys.push(k), vals.push(v)) == assoc(keys, vals).insert(k, v),
{
    let keys2 = keys.push(k);
    let vals2 = vals.push(v);
    assert forall|i: int, j: int|
        0 <= i < keys2.len() && 0 <= j < keys2.len() && i != j implies keys2[i] != keys2[j] by {
        if i < keys.len() && j < keys.len() {
        } else if i < keys.len() {
            assert(keys[i] == keys2[i]);
        } else {
            assert(keys[j] == keys2[j]);
        }
    }
    assert forall|x: K| keys2.contains(x) <==> (keys.contains(x) || x == k) by {
        if keys2.contains(x) {
            let i = keys2.index_of(x);
            if i < keys.len() {
                assert(keys[i] == x);
            }
        }
        if keys.contains(x) {
            let i = keys.index_of(x);
            assert(keys2[i] == x);
        }
        if x == k {
            assert(keys2[keys.len() as int] == x);
        }
    }
    assert forall|x: K| keys2.contains(x) implies #[trigger] assoc(keys2, vals2)[x] == assoc(
        keys,
        vals,
    ).insert(k, v)[x] by {
        let i = keys2.index_of(x);
        lemma_assoc_at(keys2, vals2, i);
        if x != k {
            assert(i < keys.len());
            assert(keys[i] == x);
            lemma_assoc_at(keys, vals, i);
        } else {
            lemma_assoc_at(keys2, vals2, keys.len() as int);
        }
    }
    assert(assoc(keys2, vals2) =~= assoc(keys, vals).insert(k, v));
}

/// Replacing the value at the position of a key replaces it in the map.
pub proof fn lemma_assoc_update<K, V>(keys: Seq<K>, vals: Seq<V>, i: int, v: V)
    requires
        keys.no_duplicates(),
        keys.len() == vals.len(),
        0 <= i < keys.len(),
    ensures
        assoc(keys, vals.update(i, v)) == assoc(keys, vals).insert(keys[i], v),
{
    let vals2 = vals.update(i, v);
    lemma_assoc_at(keys, vals, i);
    assert forall|x: K| keys.contains(x) implies #[trigger] assoc(keys, vals2)[x] == assoc(
        keys,
        vals,
    ).insert(keys[i], v)[x] by {
        let j = keys.index_of(x);
        lemma_assoc_at(keys, vals2, j);
        lemma_assoc_at(keys, vals, j);
    }
    assert(assoc(keys, vals2) =~= assoc(keys, vals).insert(keys[i], v));
}

} // verus!
