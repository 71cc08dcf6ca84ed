//! What follows from the operations' contracts, proved over the model: how
//! the operations answer one another, whatever the store held before.

use vstd::prelude::*;
use vstd::seq_lib::to_multiset_contains;
use crate::model::{
    Contents, Pair, after_batch, after_clear, after_delete, after_put, after_update, decides,
    delete_reports, distinct_keys, empty, lookup, names, size, update_reports,
};

verus! {

/// After a put, the key yields the value that was put, and every other key
/// yields what it yielded before.
pub proof fn put_then_get(m: Contents, key: Seq<char>, value: Seq<char>)
    ensures
        lookup(after_put(m, key, value), key) == Some(value),
        forall|other: Seq<char>|
            other != key ==> lookup(after_put(m, key, value), other) == lookup(m, other),
{
}

/// After a removal the key yields nothing, a second removal reports that
/// nothing was there and changes nothing, and every other key yields what it
/// yielded before.
pub proof fn delete_then_get(m: Contents, key: Seq<char>)
    ensures
        lookup(after_delete(m, key), key) is None,
        !delete_reports(after_delete(m, key), key),
        after_delete(after_delete(m, key), key) == after_delete(m, key),
        forall|other: Seq<char>|
            other != key ==> lookup(after_delete(m, key), other) == lookup(m, other),
{
}

/// An update of a key that is absent reports so and creates nothing: the store
/// is what it was, and the key still yields nothing.
pub proof fn update_of_absent_key(m: Contents, key: Seq<char>, value: Seq<char>)
    requires
        lookup(m, key) is None,
    ensures
        !update_reports(m, key),
        after_update(m, key, value) == m,
        lookup(after_update(m, key, value), key) is None,
{
}

/// An update of a key that is present reports so and does what a put does: the
/// key yields the new value.
pub proof fn update_of_present_key(m: Contents, key: Seq<char>, value: Seq<char>)
    requires
        lookup(m, key) is Some,
    ensures
        update_reports(m, key),
        after_update(m, key, value) == after_put(m, key, value),
        lookup(after_update(m, key, value), key) == Some(value),
{
}

/// A cleared store holds nothing, and clearing it again changes nothing: its
/// size is zero after the first clearing and after the second, and no key
/// yields a value.
pub proof fn clear_is_idempotent(m: Contents)
    ensures
        size(after_clear(m)) == 0,
        after_clear(after_clear(m)) == after_clear(m),
        size(after_clear(after_clear(m))) == 0,
        forall|key: Seq<char>| lookup(after_clear(m), key) is None,
        size(empty()) == 0,
{
}

/// The size counts the keys present: one more after a put of a new key, as
/// many after a put or an update of a key that was there, one fewer after the
/// removal of a key that was there, and otherwise what it was.
pub proof fn size_counts_keys(m: Contents, key: Seq<char>, value: Seq<char>)
    requires
        m.dom().finite(),
    ensures
        size(after_put(m, key, value)) == size(m) + (if m.contains_key(key) {
            0int
        } else {
            1int
        }),
        size(after_update(m, key, value)) == size(m),
        size(after_delete(m, key)) == size(m) - (if m.contains_key(key) {
            1int
        } else {
            0int
        }),
        after_put(m, key, value).dom().finite(),
        after_delete(m, key).dom().finite(),
{
}

/// A batch leaves present every key that was present and adds the keys that
/// its pairs carry, and no other.
pub proof fn batch_keys(m: Contents, items: Seq<Pair>, key: Seq<char>)
    ensures
        after_batch(m, items).contains_key(key) <==> m.contains_key(key) || names(items, key),
    decreases items.len(),
{
    if items.len() > 0 {
        let front = items.drop_last();
        batch_keys(m, front, key);
        if names(items, key) {
            let i = choose|i: int| 0 <= i < items.len() && (#[trigger] items[i]).0 == key;
            if i < items.len() - 1 {
                assert(front[i].0 == key);
            }
        }
    }
}

/// Of the pairs of a batch that carry one key, the last decides: the key
/// yields that pair's value afterwards.
pub proof fn batch_last_pair_decides(m: Contents, items: Seq<Pair>, i: int, key: Seq<char>)
    requires
        decides(items, i, key),
    ensures
        lookup(after_batch(m, items), key) == Some(items[i].1),
    decreases items.len(),
{
    if i < items.len() - 1 {
        let front = items.drop_last();
        assert(decides(front, i, key));
        batch_last_pair_decides(m, front, i, key);
    }
}

/// A key that no pair of a batch carries yields afterwards what it yielded
/// before.
pub proof fn batch_keeps_other_keys(m: Contents, items: Seq<Pair>, key: Seq<char>)
    requires
        !names(items, key),
    ensures
        lookup(after_batch(m, items), key) == lookup(m, key),
    decreases items.len(),
{
    if items.len() > 0 {
        let front = items.drop_last();
        assert(!names(front, key));
        batch_keeps_other_keys(m, front, key);
    }
}

/// Puts of pairwise distinct keys, none of them present before, lose nothing:
/// the store grows by as many entries as there are pairs, and each key yields
/// its own value.
pub proof fn distinct_puts_all_land(m: Contents, items: Seq<Pair>)
    requires
        m.dom().finite(),
        distinct_keys(items),
        forall|i: int| 0 <= i < items.len() ==> !m.contains_key((#[trigger] items[i]).0),
    ensures
        after_batch(m, items).dom().finite(),
        size(after_batch(m, items)) == size(m) + items.len(),
        forall|i: int|
            0 <= i < items.len() ==> lookup(after_batch(m, items), (#[trigger] items[i]).0) == Some(
                items[i].1,
            ),
    decreases items.len(),
{
    if items.len() > 0 {
        let front = items.drop_last();
        let last = items.last();
        assert(distinct_keys(front));
        distinct_puts_all_land(m, front);
        assert(!names(front, last.0));
        batch_keys(m, front, last.0);
        assert forall|i: int| 0 <= i < items.len() implies lookup(
            after_batch(m, items),
            (#[trigger] items[i]).0,
        ) == Some(items[i].1) by {
            if i < items.len() - 1 {
                assert(front[i] == items[i]);
            }
        }
    }
}

/// Puts of pairwise distinct keys give the same store in whatever order they
/// are made.
pub proof fn distinct_puts_in_any_order(m: Contents, first: Seq<Pair>, second: Seq<Pair>)
    requires
        distinct_keys(first),
        first.to_multiset() == second.to_multiset(),
    ensures
        distinct_keys(second),
        after_batch(m, first) == after_batch(m, second),
{
    reordering_keeps_keys_distinct(first, second);
    assert forall|key: Seq<char>|
        lookup(after_batch(m, first), key) == lookup(after_batch(m, second), key) by {
        same_pairs_name_same_keys(first, second, key);
        same_pairs_name_same_keys(second, first, key);
        if names(first, key) {
            let i = choose|i: int| 0 <= i < first.len() && (#[trigger] first[i]).0 == key;
            same_pairs_hold_same_pair(first, second, first[i]);
            let k = choose|k: int| 0 <= k < second.len() && second[k] == first[i];
            assert(decides(first, i, key));
            assert(decides(second, k, key));
            batch_last_pair_decides(m, first, i, key);
            batch_last_pair_decides(m, second, k, key);
        } else {
            batch_keeps_other_keys(m, first, key);
            batch_keeps_other_keys(m, second, key);
        }
    }
    assert(after_batch(m, first) =~= after_batch(m, second)) by {
        assert forall|key: Seq<char>|
            after_batch(m, first).contains_key(key) == after_batch(m, second).contains_key(
                key,
            ) by {
            assert(lookup(after_batch(m, first), key) == lookup(after_batch(m, second), key));
        }
        assert forall|key: Seq<char>| after_batch(m, first).contains_key(key) implies after_batch(
            m,
            first,
        )[key] == after_batch(m, second)[key] by {
            assert(lookup(after_batch(m, first), key) == lookup(after_batch(m, second), key));
        }
    }
}

/// A pair that occurs in one batch occurs in every batch of the same pairs.
proof fn same_pairs_hold_same_pair(first: Seq<Pair>, second: Seq<Pair>, pair: Pair)
    requires
        first.to_multiset() == second.to_multiset(),
        first.contains(pair),
    ensures
        second.contains(pair),
{
    to_multiset_contains(first, pair);
    to_multiset_contains(second, pair);
}

/// A key that one batch names is named by every batch of the same pairs.
proof fn same_pairs_name_same_keys(first: Seq<Pair>, second: Seq<Pair>, key: Seq<char>)
    requires
        first.to_multiset() == second.to_multiset(),
    ensures
        names(first, key) ==> names(second, key),
{
    if names(first, key) {
        let i = choose|i: int| 0 <= i < first.len() && (#[trigger] first[i]).0 == key;
        same_pairs_hold_same_pair(first, second, first[i]);
        let k = choose|k: int| 0 <= k < second.len() && second[k] == first[i];
        assert(second[k].0 == key);
    }
}

/// A reordering of pairs with pairwise distinct keys has pairwise distinct
/// keys.
proof fn reordering_keeps_keys_distinct(first: Seq<Pair>, second: Seq<Pair>)
    requires
        distinct_keys(first),
        first.to_multiset() == second.to_multiset(),
    ensures
        distinct_keys(second),
{
    assert(first.no_duplicates());
    first.lemma_multiset_has_no_duplicates();
    second.lemma_multiset_has_no_duplicates_conv();
    assert forall|i: int, j: int|
        0 <= i < second.len() && 0 <= j < second.len() && i != j implies (#[trigger] second[i]).0
        != (#[trigger] second[j]).0 by {
        if second[i].0 == second[j].0 {
            same_pairs_hold_same_pair(second, first, second[i]);
            same_pairs_hold_same_pair(second, first, second[j]);
            let p = choose|p: int| 0 <= p < first.len() && first[p] == second[i];
            let q = choose|q: int| 0 <= q < first.len() && first[q] == second[j];
            assert(p == q);
            assert(second[i] == second[j]);
        }
    }
}

} // verus!
