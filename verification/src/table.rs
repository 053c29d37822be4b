//! Association tables as mathematics: a sequence of distinct keys beside a
//! sequence of values, read as a map.
//!
//! The registry and the ledger both keep their records in a vector whose keys
//! never repeat. This module says what map such a vector stands for and how
//! that map changes when the vector does.

use vstd::prelude::*;

verus! {

/// No key occurs twice.
pub open spec fn distinct<K>(keys: Seq<K>) -> bool {
    forall|i: int, j: int| 0 <= i < j < keys.len() ==> keys[i] != keys[j]
}

/// The position of `key` among `keys`, where it occurs.
pub open spec fn index_of<K>(keys: Seq<K>, key: K) -> int {
    choose|i: int| 0 <= i < keys.len() && keys[i] == key
}

/// The map that sends each key to the value at its position.
pub open spec fn table<K, V>(keys: Seq<K>, values: Seq<V>) -> Map<K, V> {
    Map::new(|key: K| keys.contains(key), |key: K| values[index_of(keys, key)])
}

/// The key at position `i` is mapped to the value at position `i`.
pub proof fn lemma_table_at<K, V>(keys: Seq<K>, values: Seq<V>, i: int)
    requires
        distinct(keys),
        0 <= i < keys.len(),
    ensures
        index_of(keys, keys[i]) == i,
        table(keys, values).contains_key(keys[i]),
        table(keys, values)[keys[i]] == values[i],
{
    let j = index_of(keys, keys[i]);
    assert(0 <= j < keys.len() && keys[j] == keys[i]);
    if j < i {
        assert(keys[j] != keys[i]);
    } else if i < j {
        assert(keys[i] != keys[j]);
    }
    assert(keys.contains(keys[i]));
}

/// A key that occurs at no position is not mapped.
pub proof fn lemma_table_absent<K, V>(keys: Seq<K>, values: Seq<V>, key: K)
    requires
        forall|i: int| 0 <= i < keys.len() ==> keys[i] != key,
    ensures
        !table(keys, values).contains_key(key),
{
    if keys.contains(key) {
        let i = choose|i: int| 0 <= i < keys.len() && keys[i] == key;
        assert(keys[i] != key);
    }
}

/// A table has finitely many keys, no more than it has positions.
pub proof fn lemma_table_finite<K, V>(keys: Seq<K>, values: Seq<V>)
    ensures
        table(keys, values).dom().finite(),
        table(keys, values).dom().len() <= keys.len(),
{
    assert(table(keys, values).dom() =~= keys.to_set());
    keys.lemma_cardinality_of_set();
}

/// The empty table maps nothing.
pub proof fn lemma_table_empty<K, V>()
    ensures
        distinct(Seq::<K>::empty()),
        table(Seq::<K>::empty(), Seq::<V>::empty()) == Map::<K, V>::empty(),
{
    assert(table(Seq::<K>::empty(), Seq::<V>::empty()) =~= Map::<K, V>::empty());
}

/// Appending a new key with its value inserts the pair.
pub proof fn lemma_table_push<K, V>(keys: Seq<K>, values: Seq<V>, key: K, value: V)
    requires
        distinct(keys),
        keys.len() == values.len(),
        forall|i: int| 0 <= i < keys.len() ==> keys[i] != key,
    ensures
        distinct(keys.push(key)),
        table(keys.push(key), values.push(value)) == table(keys, values).insert(key, value),
{
    let keys2 = keys.push(key);
    let values2 = values.push(value);
    assert(distinct(keys2));
    let before = table(keys, values);
    let after = table(keys2, values2);
    assert forall|k: K| after.contains_key(k) <==> before.insert(key, value).contains_key(k) by {
        if keys2.contains(k) {
            let i = choose|i: int| 0 <= i < keys2.len() && keys2[i] == k;
            if i < keys.len() {
                assert(keys[i] == k);
            }
        }
        if keys.contains(k) {
            let i = choose|i: int| 0 <= i < keys.len() && keys[i] == k;
            assert(keys2[i] == k);
        }
        if k == key {
            assert(keys2[keys.len() as int] == k);
        }
    }
    assert forall|k: K| after.contains_key(k) implies after[k] == before.insert(key, value)[k] by {
        let i = choose|i: int| 0 <= i < keys2.len() && keys2[i] == k;
        lemma_table_at(keys2, values2, i);
        if i < keys.len() {
            assert(keys[i] == k);
            lemma_table_at(keys, values, i);
        }
    }
    assert(after =~= before.insert(key, value));
}

/// Replacing the value at position `i` rewrites the entry of the key there.
pub proof fn lemma_table_update<K, V>(keys: Seq<K>, values: Seq<V>, i: int, value: V)
    requires
        distinct(keys),
        keys.len() == values.len(),
        0 <= i < keys.len(),
    ensures
        table(keys, values.update(i, value)) == table(keys, values).insert(keys[i], value),
{
    let before = table(keys, values);
    let after = table(keys, values.update(i, value));
    lemma_table_at(keys, values, i);
    assert forall|k: K| after.contains_key(k) implies after[k] == before.insert(
        keys[i],
        value,
    )[k] by {
        let j = choose|j: int| 0 <= j < keys.len() && keys[j] == k;
        lemma_table_at(keys, values, j);
        lemma_table_at(keys, values.update(i, value), j);
    }
    assert(after =~= before.insert(keys[i], value));
}

/// Taking out position `i` removes the key there.
pub proof fn lemma_table_remove<K, V>(keys: Seq<K>, values: Seq<V>, i: int)
    requires
        distinct(keys),
        keys.len() == values.len(),
        0 <= i < keys.len(),
    ensures
        distinct(keys.remove(i)),
        table(keys.remove(i), values.remove(i)) == table(keys, values).remove(keys[i]),
{
    let keys2 = keys.remove(i);
    let values2 = values.remove(i);
    let before = table(keys, values);
    let after = table(keys2, values2);
    assert(distinct(keys2)) by {
        assert forall|a: int, b: int| 0 <= a < b < keys2.len() implies keys2[a] != keys2[b] by {
            let a1 = if a < i { a } else { a + 1 };
            let b1 = if b < i { b } else { b + 1 };
            assert(keys2[a] == keys[a1] && keys2[b] == keys[b1]);
        }
    }
    assert forall|k: K| after.contains_key(k) <==> before.remove(keys[i]).contains_key(k) by {
        if keys2.contains(k) {
            let j = choose|j: int| 0 <= j < keys2.len() && keys2[j] == k;
            let j1 = if j < i { j } else { j + 1 };
            assert(keys[j1] == k);
            if i < j1 {
                assert(keys[i] != keys[j1]);
            } else {
                assert(keys[j1] != keys[i]);
            }
        }
        if keys.contains(k) && k != keys[i] {
            let j = choose|j: int| 0 <= j < keys.len() && keys[j] == k;
            let j2 = if j < i { j } else { j - 1 };
            assert(keys2[j2] == k);
        }
    }
    assert forall|k: K| after.contains_key(k) implies after[k] == before.remove(keys[i])[k] by {
        let j = choose|j: int| 0 <= j < keys2.len() && keys2[j] == k;
        let j1 = if j < i { j } else { j + 1 };
        assert(keys[j1] == k);
        lemma_table_at(keys2, values2, j);
        lemma_table_at(keys, values, j1);
    }
    assert(after =~= before.remove(keys[i]));
}

} // verus!
