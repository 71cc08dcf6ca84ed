use kv_store::error::StoreError;
use kv_store::store::KeyValueStore;

fn word(s: &str) -> String {
    String::from(s)
}

fn in_order(mut keys: Vec<String>) -> Vec<String> {
    keys.sort();
    keys
}

#[test]
fn store_put_then_get() {
    let store = KeyValueStore::new();
    assert_eq!(store.put(word("k"), word("v")), Ok(true));
    assert_eq!(store.get("k"), Ok(Some(word("v"))));
}

#[test]
fn store_get_of_absent_key_is_none_not_an_error() {
    let store = KeyValueStore::new();
    assert_eq!(store.get("missing"), Ok(None));
}

#[test]
fn store_delete_then_get_and_second_delete() {
    let store = KeyValueStore::new();
    store.put(word("k"), word("v")).unwrap();
    assert_eq!(store.delete("k"), Ok(true));
    assert_eq!(store.get("k"), Ok(None));
    assert_eq!(store.delete("k"), Ok(false));
}

#[test]
fn store_update_of_absent_key_creates_nothing() {
    let store = KeyValueStore::new();
    assert_eq!(store.update("k", word("v")), Ok(false));
    assert_eq!(store.get("k"), Ok(None));
    assert_eq!(store.size(), Ok(0));
}

#[test]
fn store_update_of_existing_key() {
    let store = KeyValueStore::new();
    store.put(word("k"), word("old")).unwrap();
    assert_eq!(store.update("k", word("new")), Ok(true));
    assert_eq!(store.get("k"), Ok(Some(word("new"))));
}

#[test]
fn store_size_and_clear() {
    let store = KeyValueStore::new();
    store.put(word("a"), word("1")).unwrap();
    store.put(word("b"), word("2")).unwrap();
    store.put(word("a"), word("3")).unwrap();
    assert_eq!(store.size(), Ok(2));
    assert_eq!(store.clear(), Ok(true));
    assert_eq!(store.size(), Ok(0));
    assert_eq!(store.clear(), Ok(true));
    assert_eq!(store.size(), Ok(0));
}

#[test]
fn store_put_batch_counts_pairs_and_last_value_wins() {
    let store = KeyValueStore::new();
    let items = vec![(word("a"), word("1")), (word("b"), word("2")), (word("a"), word("3"))];
    assert_eq!(store.put_batch(items), Ok(3));
    assert_eq!(store.get("a"), Ok(Some(word("3"))));
    assert_eq!(store.get("b"), Ok(Some(word("2"))));
    assert_eq!(store.size(), Ok(2));
}

#[test]
fn store_keys_after_inserting_three_and_deleting_one() {
    let store = KeyValueStore::new();
    store.put(word("a"), word("1")).unwrap();
    store.put(word("b"), word("2")).unwrap();
    store.put(word("c"), word("3")).unwrap();
    assert_eq!(store.delete("b"), Ok(true));
    assert_eq!(store.keys().map(in_order), Ok(vec![word("a"), word("c")]));
}

#[test]
fn clones_of_a_handle_share_the_entries() {
    let store = KeyValueStore::new();
    let other = store.clone();
    store.put(word("k"), word("v")).unwrap();
    assert_eq!(other.get("k"), Ok(Some(word("v"))));
    assert_eq!(other.delete("k"), Ok(true));
    assert_eq!(store.get("k"), Ok(None));
}

#[test]
fn separate_stores_share_nothing() {
    let one = KeyValueStore::new();
    let two = KeyValueStore::new();
    one.put(word("k"), word("v")).unwrap();
    assert_eq!(two.get("k"), Ok(None));
    assert_eq!(two.size(), Ok(0));
    assert_eq!(one.size(), Ok(1));
}

#[test]
fn puts_of_distinct_keys_through_many_handles_all_land() {
    let store = KeyValueStore::new();
    let handles: Vec<KeyValueStore> = (0..16).map(|_| store.clone()).collect();
    for (i, handle) in handles.iter().enumerate() {
        assert_eq!(handle.put(format!("key-{}", i), format!("value-{}", i)), Ok(true));
    }
    assert_eq!(store.size(), Ok(16));
    for i in 0..16 {
        assert_eq!(store.get(&format!("key-{}", i)), Ok(Some(format!("value-{}", i))));
    }
}

#[test]
fn lock_poisoned_has_a_message() {
    let failure = StoreError::LockPoisoned;
    assert_eq!(failure.message(), "the store's lock is poisoned");
    assert_eq!(failure, StoreError::LockPoisoned);
}
