//! The sum of the amounts in a finite map, and how it moves when one entry changes.

use vstd::prelude::*;
use crate::storage::Balance;

verus! {

/// The sum of all amounts that `map` holds; 0 for a map that is not finite.
pub open spec fn sum_of<K>(map: Map<K, Balance>) -> nat
    decreases map.dom().len(),
{
    if map.dom().finite() && map.dom().len() > 0 {
        let key = map.dom().choose();
        map[key] as nat + sum_of(map.remove(key))
    } else {
        0
    }
}

/// The amount that `map` holds under `key`, 0 where it holds none.
pub open spec fn amount_at<K>(map: Map<K, Balance>, key: K) -> Balance {
    if map.dom().contains(key) {
        map[key]
    } else {
        0
    }
}

/// The empty map sums to 0.
pub proof fn lemma_sum_empty<K>()
    ensures
        sum_of(Map::<K, Balance>::empty()) == 0,
{
}

/// Any entry can be split off the sum: the sum is that entry's amount plus the sum
/// of the rest.
pub proof fn lemma_sum_remove<K>(map: Map<K, Balance>, key: K)
    requires
        map.dom().finite(),
        map.dom().contains(key),
    ensures
        sum_of(map) == map[key] + sum_of(map.remove(key)),
    decreases map.dom().len(),
{
    let picked = map.dom().choose();
    if picked != key {
        let rest = map.remove(picked);
        lemma_sum_remove(rest, key);
        lemma_sum_remove(map.remove(key), picked);
        assert(rest.remove(key) =~= map.remove(key).remove(picked));
    }
}

/// Writing `amount` under `key` changes the sum by the difference between `amount`
/// and what `key` held before.
pub proof fn lemma_sum_insert<K>(map: Map<K, Balance>, key: K, amount: Balance)
    requires
        map.dom().finite(),
    ensures
        sum_of(map.insert(key, amount)) == sum_of(map) - amount_at(map, key) + amount,
{
    let written = map.insert(key, amount);
    lemma_sum_remove(written, key);
    assert(written.remove(key) =~= map.remove(key));
    if map.dom().contains(key) {
        lemma_sum_remove(map, key);
    } else {
        assert(map.remove(key) =~= map);
    }
}

/// No single amount exceeds the sum.
pub proof fn lemma_sum_bounds<K>(map: Map<K, Balance>, key: K)
    requires
        map.dom().finite(),
    ensures
        amount_at(map, key) <= sum_of(map),
{
    if map.dom().contains(key) {
        lemma_sum_remove(map, key);
    }
}

} // verus!
