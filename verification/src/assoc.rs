//! Association lists: a sequence of distinct keys beside a sequence of values,
//! read as a map.
use vstd::prelude::*;

verus! {

/// The map that pairs each key of `keys` with the value at the same position.
pub open spec fn assoc<K, V>(keys: Seq<K>, vals: Seq<V>) -> Map<K, V> {
    Map::new(|k: K| keys.contains(k), |k: K| vals[keys.index_of(k)])
}

/// With distinct keys, the value of `keys[i]` is `vals[i]`.
pub proof fn lemma_assoc_lookup<K, V>(keys: Seq<K>, vals: Seq<V>, i: int)
    requires
        keys.no_duplicates(),
        keys.len() == vals.len(),
        0 <= i < keys.len(),
    ensures
        assoc(keys, vals).contains_key(keys[i]),
        assoc(keys, vals)[keys[i]] == vals[i],
{
    assert(keys.contains(keys[i]));
    let j = keys.index_of(keys[i]);
    assert(0 <= j < keys.len() && keys[j] == keys[i]);
}

/// Replacing the value at a position replaces the value of that position's key.
pub proof fn lemma_assoc_update<K, V>(keys: Seq<K>, vals: Seq<V>, i: int, v: V)
    requires
        keys.no_duplicates(),
        keys.len() == vals.len(),
        0 <= i < keys.len(),
    ensures
        assoc(keys, vals.update(i, v)) == assoc(keys, vals).insert(keys[i], v),
{
    let a = assoc(keys, vals.update(i, v));
    let b = assoc(keys, vals).insert(keys[i], v);
    assert forall|k: K| a.contains_key(k) implies a[k] == b[k] by {
        let j = keys.index_of(k);
        assert(keys.contains(k));
        assert(0 <= j < keys.len() && keys[j] == k);
        if j != i {
            assert(keys[j] != keys[i]);
        }
    }
    assert(a =~= b);
}

/// Appending a new key with its value adds that pair to the map.
pub proof fn lemma_assoc_push<K, V>(keys: Seq<K>, vals: Seq<V>, k: K, v: V)
    requires
        keys.no_duplicates(),
        keys.len() == vals.len(),
        !keys.contains(k),
    ensures
        keys.push(k).no_duplicates(),
        assoc(keys.push(k), vals.push(v)) == assoc(keys, vals).insert(k, v),
{
    let nk = keys.push(k);
    let nv = vals.push(v);
    assert forall|i: int, j: int| 0 <= i < nk.len() && 0 <= j < nk.len() && i != j implies nk[i] != nk[j] by {
        if i == keys.len() {
            assert(keys[j] == nk[j]);
        } else if j == keys.len() {
            assert(keys[i] == nk[i]);
        }
    }
    let a = assoc(nk, nv);
    let b = assoc(keys, vals).insert(k, v);
    assert forall|x: K| a.contains_key(x) <==> b.contains_key(x) by {
        if keys.contains(x) {
            let j = keys.index_of(x);
            assert(nk[j] == x);
        }
        if nk.contains(x) && x != k {
            let j = nk.index_of(x);
            assert(0 <= j < nk.len() && nk[j] == x);
            assert(keys[j] == x);
        }
        assert(nk[keys.len() as int] == k);
    }
    assert forall|x: K| a.contains_key(x) implies a[x] == b[x] by {
        let j = nk.index_of(x);
        assert(0 <= j < nk.len() && nk[j] == x);
        if x == k {
            assert(j == keys.len());
        } else {
            assert(j < keys.len());
            lemma_assoc_lookup(keys, vals, j);
        }
    }
    assert(a =~= b);
}

/// The map of a sequence of keys has finitely many keys.
pub proof fn lemma_assoc_finite<K, V>(keys: Seq<K>, vals: Seq<V>)
    ensures
        assoc(keys, vals).dom().finite(),
{
    assert(assoc(keys, vals).dom() =~= keys.to_set());
}

/// A key absent from `keys` is absent from the map.
pub proof fn lemma_assoc_absent<K, V>(keys: Seq<K>, vals: Seq<V>, k: K)
    requires
        !keys.contains(k),
    ensures
        !assoc(keys, vals).contains_key(k),
{
}

/// The map of no keys is empty.
pub proof fn lemma_assoc_empty<K, V>()
    ensures
        assoc(Seq::<K>::empty(), Seq::<V>::empty()) == Map::<K, V>::empty(),
{
    assert(assoc(Seq::<K>::empty(), Seq::<V>::empty()) =~= Map::<K, V>::empty());
}

} // verus!
