//! The store as mathematics: a map from key text to value text, and the effect
//! of every operation on it. The executable types state their contracts over
//! these functions.

use vstd::prelude::*;

verus! {

/// What a store holds: each key present maps to exactly one value.
pub type Contents = Map<Seq<char>, Seq<char>>;

/// One key with its value, as a batch carries them.
pub type Pair = (Seq<char>, Seq<char>);

/// The store that holds nothing.
pub open spec fn empty() -> Contents {
    Map::empty()
}

/// The value stored under `key`, if there is one.
pub open spec fn lookup(m: Contents, key: Seq<char>) -> Option<Seq<char>> {
    if m.contains_key(key) {
        Some(m[key])
    } else {
        None
    }
}

/// The store after `key` has been set to `value`, whether or not it was present.
pub open spec fn after_put(m: Contents, key: Seq<char>, value: Seq<char>) -> Contents {
    m.insert(key, value)
}

/// The store after an update: `key` takes `value` only where it was present.
pub open spec fn after_update(m: Contents, key: Seq<char>, value: Seq<char>) -> Contents {
    if m.contains_key(key) {
        m.insert(key, value)
    } else {
        m
    }
}

/// What an update reports: whether `key` was present, so that it took the value.
pub open spec fn update_reports(m: Contents, key: Seq<char>) -> bool {
    m.contains_key(key)
}

/// The store after `key` has been removed.
pub open spec fn after_delete(m: Contents, key: Seq<char>) -> Contents {
    m.remove(key)
}

/// What a removal reports: whether `key` was present, so that an entry left.
pub open spec fn delete_reports(m: Contents, key: Seq<char>) -> bool {
    m.contains_key(key)
}

/// The store after it has been cleared: nothing is left, whatever it held.
pub open spec fn after_clear(m: Contents) -> Contents {
    empty()
}

/// The store after the pairs of `items` have been put one by one, first to last.
pub open spec fn after_batch(m: Contents, items: Seq<Pair>) -> Contents
    decreases items.len(),
{
    if items.len() == 0 {
        m
    } else {
        after_put(after_batch(m, items.drop_last()), items.last().0, items.last().1)
    }
}

/// Whether some pair of `items` carries `key`.
pub open spec fn names(items: Seq<Pair>, key: Seq<char>) -> bool {
    exists|i: int| 0 <= i < items.len() && (#[trigger] items[i]).0 == key
}

/// Whether the pair at `i` is the last of `items` that carries `key`.
pub open spec fn decides(items: Seq<Pair>, i: int, key: Seq<char>) -> bool {
    &&& 0 <= i < items.len()
    &&& items[i].0 == key
    &&& forall|j: int| i < j < items.len() ==> (#[trigger] items[j]).0 != key
}

/// Whether no two pairs of `items` carry the same key.
pub open spec fn distinct_keys(items: Seq<Pair>) -> bool {
    forall|i: int, j: int|
        0 <= i < items.len() && 0 <= j < items.len() && i != j ==> (#[trigger] items[i]).0 != (
        #[trigger] items[j]).0
}

/// The number of entries.
pub open spec fn size(m: Contents) -> nat {
    m.dom().len()
}

} // verus!
