use crossbeam_utils::thread::scope;
use kv_store::error::StoreError;
use kv_store::store::held_or_poisoned;
use kv_store::table::Table;
use std::sync::Mutex;

#[test]
fn a_sound_lock_gives_the_guard() {
    let cell = Mutex::new(Table::new());
    match held_or_poisoned(cell.lock()) {
        Ok(mut locked) => {
            assert!(locked.table_mut().put(String::from("k"), String::from("v")));
            assert_eq!(locked.table().size(), 1);
        }
        Err(failure) => panic!("a sound lock was refused: {}", failure.message()),
    }
    assert!(!cell.is_poisoned());
    assert_eq!(cell.lock().unwrap().get("k"), Some(String::from("v")));
}

#[test]
fn the_table_lent_is_the_table_behind_the_lock() {
    let mut before = Table::new();
    before.put(String::from("a"), String::from("1"));
    before.put(String::from("b"), String::from("2"));
    let cell = Mutex::new(before);
    {
        let mut locked = held_or_poisoned(cell.lock()).unwrap();
        assert_eq!(locked.table().get("a"), Some(String::from("1")));
        assert_eq!(locked.table().size(), 2);
        assert!(locked.table_mut().delete("a"));
        assert!(locked.table_mut().update("b", String::from("3")));
        assert_eq!(locked.table().get("a"), None);
        assert_eq!(locked.table().get("b"), Some(String::from("3")));
    }
    let after = cell.into_inner().unwrap();
    assert_eq!(after.get("a"), None);
    assert_eq!(after.get("b"), Some(String::from("3")));
    assert_eq!(after.size(), 1);
}

#[test]
fn the_lock_is_free_again_once_the_access_is_dropped() {
    let cell = Mutex::new(Table::new());
    let first = held_or_poisoned(cell.lock()).map(|mut locked| {
        locked.table_mut().put(String::from("k"), String::from("v"))
    });
    assert_eq!(first, Ok(true));
    let second = held_or_poisoned(cell.lock()).map(|locked| locked.table().keys());
    assert_eq!(second, Ok(vec![String::from("k")]));
}

#[test]
fn a_poisoned_lock_gives_lock_poisoned() {
    let cell = Mutex::new(Table::new());
    let holder = scope(|threads| {
        threads.spawn(|_| {
            let _guard = cell.lock().unwrap();
            panic!("the holder fails while it holds the lock");
        });
    });
    assert!(holder.is_err());
    assert!(cell.is_poisoned());
    let first = held_or_poisoned(cell.lock()).map(|_| ());
    assert_eq!(first, Err(StoreError::LockPoisoned));
    let second = held_or_poisoned(cell.lock()).map(|_| ());
    assert_eq!(second, Err(StoreError::LockPoisoned));
}
