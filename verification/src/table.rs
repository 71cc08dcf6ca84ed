//! The mapping itself: a table of entries for one owner at a time.
//!
//! Entries lie densely in two parallel vectors, and a hash index maps each key
//! to the slot that holds it. Removal moves the last entry into the gap, so
//! every operation on one key takes constant expected time and the keys can be
//! listed without walking the index.

use vstd::prelude::*;
use vstd::hash_map::StringHashMap;
use vstd::seq_lib::seq_to_set_is_finite;
use crate::model::{
    Contents, after_batch, after_clear, after_delete, after_put, after_update, delete_reports,
    empty, lookup, size, update_reports,
};

verus! {

/// Whether the index and the two vectors describe the same entries: slot `i`
/// holds the key that the index sends to `i`, and the index knows no other key.
spec fn consistent(index: Map<Seq<char>, usize>, keys: Seq<String>, values: Seq<String>) -> bool {
    &&& keys.len() == values.len()
    &&& forall|i: int|
        0 <= i < keys.len() ==> index.contains_key((#[trigger] keys[i])@) && index[keys[i]@] == i
    &&& forall|k: Seq<char>| #[trigger]
        index.contains_key(k) ==> index[k] < keys.len() && keys[index[k] as int]@ == k
}

/// The entries that a consistent index and its vectors stand for.
spec fn entries(index: Map<Seq<char>, usize>, values: Seq<String>) -> Contents {
    Map::new(|k: Seq<char>| index.contains_key(k), |k: Seq<char>| values[index[k] as int]@)
}

/// The key texts of the slots, in slot order.
spec fn key_texts(keys: Seq<String>) -> Seq<Seq<char>> {
    Seq::new(keys.len(), |i: int| keys[i]@)
}

/// The slots of a consistent table list its keys: each key once, and no other
/// text.
proof fn lemma_slots_list_keys(index: Map<Seq<char>, usize>, keys: Seq<String>, values: Seq<String>)
    requires
        consistent(index, keys, values),
    ensures
        key_texts(keys).no_duplicates(),
        key_texts(keys).to_set() == entries(index, values).dom(),
        entries(index, values).dom().finite(),
        entries(index, values).dom().len() == keys.len(),
{
    let texts = key_texts(keys);
    assert(texts.no_duplicates());
    assert forall|k: Seq<char>| texts.to_set().contains(k) <==> index.contains_key(k) by {
        if index.contains_key(k) {
            assert(texts[index[k] as int] == k);
        }
    }
    texts.unique_seq_to_set();
    seq_to_set_is_finite(texts);
}

/// A mapping from text keys to text values, owned by one caller.
pub struct Table {
    index: StringHashMap<usize>,
    keys: Vec<String>,
    values: Vec<String>,
}

impl View for Table {
    type V = Contents;

    closed spec fn view(&self) -> Contents {
        entries(self.index@, self.values@)
    }
}

impl Table {
    #[verifier::type_invariant]
    spec fn well_formed(self) -> bool {
        consistent(self.index@, self.keys@, self.values@)
    }

    /// A table without entries.
    pub fn new() -> (table: Self)
        ensures
            table@ == empty(),
    {
        Table { index: StringHashMap::new(), keys: Vec::new(), values: Vec::new() }
    }

    /// The value stored under `key`, if there is one.
    pub fn get(&self, key: &str) -> (found: Option<String>)
        ensures
            found.deep_view() == lookup(self@, key@),
    {
        proof {
            use_type_invariant(self);
        }
        match self.index.get(key) {
            Some(slot) => Some(self.values[*slot].clone()),
            None => None,
        }
    }

    /// Sets `key` to `value`, whether or not it was present.
    pub fn put(&mut self, key: String, value: String) -> (done: bool)
        ensures
            done,
            final(self)@ == after_put(old(self)@, key@, value@),
    {
        proof {
            use_type_invariant(&*self);
        }
        let mut taken = Table::new();
        std::mem::swap(self, &mut taken);
        let Table { mut index, mut keys, mut values } = taken;
        match index.get(key.as_str()) {
            Some(slot) => {
                let slot: usize = *slot;
                values[slot] = value;
            },
            None => {
                index.insert(key.clone(), keys.len());
                keys.push(key);
                values.push(value);
            },
        }
        *self = Table { index, keys, values };
        true
    }

    /// Sets `key` to `value` only where `key` is present, and says whether it was.
    pub fn update(&mut self, key: &str, value: String) -> (updated: bool)
        ensures
            updated == update_reports(old(self)@, key@),
            final(self)@ == after_update(old(self)@, key@, value@),
    {
        proof {
            use_type_invariant(&*self);
        }
        let mut taken = Table::new();
        std::mem::swap(self, &mut taken);
        let Table { index, keys, mut values } = taken;
        let updated = match index.get(key) {
            Some(slot) => {
                let slot: usize = *slot;
                values[slot] = value;
                true
            },
            None => false,
        };
        *self = Table { index, keys, values };
        updated
    }

    /// Removes `key` with its value, and says whether there was such an entry.
    pub fn delete(&mut self, key: &str) -> (removed: bool)
        ensures
            removed == delete_reports(old(self)@, key@),
            final(self)@ == after_delete(old(self)@, key@),
    {
        proof {
            use_type_invariant(&*self);
        }
        let mut taken = Table::new();
        std::mem::swap(self, &mut taken);
        let Table { mut index, mut keys, mut values } = taken;
        let removed = match index.get(key) {
            Some(slot) => {
                let slot: usize = *slot;
                index.remove(key);
                keys.swap_remove(slot);
                values.swap_remove(slot);
                if slot < keys.len() {
                    index.insert(keys[slot].clone(), slot);
                }
                true
            },
            None => false,
        };
        *self = Table { index, keys, values };
        removed
    }

    /// Removes every entry.
    pub fn clear(&mut self) -> (done: bool)
        ensures
            done,
            final(self)@ == after_clear(old(self)@),
    {
        let mut taken = Table::new();
        std::mem::swap(self, &mut taken);
        let Table { mut index, mut keys, mut values } = taken;
        index.clear();
        keys.clear();
        values.clear();
        *self = Table { index, keys, values };
        true
    }

    /// The number of entries.
    pub fn size(&self) -> (count: usize)
        ensures
            self@.dom().finite(),
            count == size(self@),
    {
        proof {
            use_type_invariant(self);
            lemma_slots_list_keys(self.index@, self.keys@, self.values@);
        }
        self.keys.len()
    }

    /// Every key present, each once, in no order that callers may rely on.
    pub fn keys(&self) -> (listed: Vec<String>)
        ensures
            listed.deep_view().no_duplicates(),
            listed.deep_view().to_set() == self@.dom(),
            listed.len() == size(self@),
    {
        proof {
            use_type_invariant(self);
            lemma_slots_list_keys(self.index@, self.keys@, self.values@);
        }
        let listed = self.keys.clone();
        assert(listed.deep_view() =~= key_texts(self.keys@));
        listed
    }

    /// Puts the pairs of `items` one by one, first to last, so that of two pairs
    /// with one key the later decides; returns how many pairs there were.
    pub fn put_batch(&mut self, items: Vec<(String, String)>) -> (count: usize)
        ensures
            count == items.len(),
            final(self)@ == after_batch(old(self)@, items.deep_view()),
    {
        let count: usize = items.len();
        let ghost given = items@;
        let ghost pairs = items.deep_view();
        for pair in it: items
            invariant
                it.seq() == given,
                pairs.len() == given.len(),
                forall|i: int| 0 <= i < given.len() ==> pairs[i] == (given[i].0@, given[i].1@),
                self@ == after_batch(old(self)@, pairs.take(it.index() as int)),
        {
            let ghost done = it.index() as int;
            assert(pairs.take(done + 1).drop_last() =~= pairs.take(done));
            let (key, value) = pair;
            self.put(key, value);
        }
        assert(pairs.take(pairs.len() as int) =~= pairs);
        count
    }
}

} // verus!
