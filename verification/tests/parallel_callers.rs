use crossbeam_utils::thread::scope;
use kv_store::store::KeyValueStore;

#[test]
fn parallel_puts_of_distinct_keys_lose_nothing() {
    let store = KeyValueStore::new();
    let callers: usize = 16;
    let puts_each: usize = 50;
    scope(|threads| {
        for caller in 0..callers {
            let handle = store.clone();
            threads.spawn(move |_| {
                for n in 0..puts_each {
                    let done = handle.put(
                        format!("key-{}-{}", caller, n),
                        format!("value-{}-{}", caller, n),
                    );
                    assert_eq!(done, Ok(true));
                }
            });
        }
    })
    .unwrap();
    assert_eq!(store.size(), Ok(callers * puts_each));
    for caller in 0..callers {
        for n in 0..puts_each {
            assert_eq!(
                store.get(&format!("key-{}-{}", caller, n)),
                Ok(Some(format!("value-{}-{}", caller, n)))
            );
        }
    }
    assert_eq!(store.keys().map(|keys| keys.len()), Ok(callers * puts_each));
}

#[test]
fn a_batch_is_seen_whole_or_not_at_all() {
    let store = KeyValueStore::new();
    let rounds: usize = 300;
    scope(|threads| {
        let writer = store.clone();
        threads.spawn(move |_| {
            for round in 0..rounds {
                let items: Vec<(String, String)> =
                    (0..10).map(|n| (format!("k{}", n), format!("round {}", round))).collect();
                assert_eq!(writer.put_batch(items), Ok(10));
                assert_eq!(writer.clear(), Ok(true));
            }
        });
        let reader = store.clone();
        threads.spawn(move |_| {
            for _ in 0..rounds {
                let seen = reader.size().unwrap();
                assert!(seen == 0 || seen == 10);
            }
        });
    })
    .unwrap();
    assert_eq!(store.size(), Ok(0));
}

#[test]
fn parallel_updates_and_removals_agree_on_who_found_the_key() {
    let store = KeyValueStore::new();
    let keys: usize = 200;
    for n in 0..keys {
        store.put(format!("k{}", n), String::from("v")).unwrap();
    }
    let removed_by = scope(|threads| {
        let workers: Vec<_> = (0..4)
            .map(|_| {
                let handle = store.clone();
                threads.spawn(move |_| {
                    let mut found: usize = 0;
                    for n in 0..keys {
                        if handle.delete(&format!("k{}", n)).unwrap() {
                            found += 1;
                        }
                    }
                    found
                })
            })
            .collect();
        let updater = store.clone();
        threads.spawn(move |_| {
            for n in 0..keys {
                updater.update(&format!("k{}", n), String::from("w")).unwrap();
            }
        });
        workers.into_iter().map(|worker| worker.join().unwrap()).sum::<usize>()
    })
    .unwrap();
    assert_eq!(removed_by, keys);
    assert_eq!(store.size(), Ok(0));
}
