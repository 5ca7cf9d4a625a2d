use std::sync::Arc;

use heart_relay::clock::get_current_timestamp;
use heart_relay::shared::SharedStore;
use heart_relay::shared::SubmitError;

#[test]
fn shared_store_set_then_get() {
    let store = SharedStore::new();
    assert_eq!(store.get(50), None);
    store.set(72, 50);
    assert_eq!(store.get(55), Some(72));
    assert_eq!(store.get(95), None);
}

#[test]
fn submit_reading_stamps_with_the_clock() {
    let store = SharedStore::new();
    assert_eq!(store.get(get_current_timestamp()), None);
    let outcome = store.submit_reading(67);
    assert_eq!(outcome, Ok(()));
    assert_eq!(store.get(get_current_timestamp()), Some(67));
}

#[test]
fn submit_error_message() {
    assert_eq!(SubmitError::ClockUnavailable.message(), "clock unavailable");
}

#[test]
fn clock_reads_a_plausible_time() {
    // Seconds since the epoch; far past the day this library was written.
    let now = get_current_timestamp();
    assert!(now > 1_600_000_000);
    let again = get_current_timestamp();
    assert!(again >= now);
}

#[test]
fn shared_handle_request_routes() {
    let store = SharedStore::new();
    let response = store.handle_request("/api/heart");
    assert_eq!(response.status, 200);
    assert_eq!(response.body, "{\"heart_beat\":null}");

    store.submit_reading(72).unwrap();
    let response = store.handle_request("/api/heart");
    assert_eq!(response.body, "{\"heart_beat\":72}");

    let missing = store.handle_request("/does/not/exist");
    assert_eq!(missing.status, 404);
    assert_eq!(missing.body, "Not Found");

    let home = store.handle_request("/");
    assert_eq!(home.status, 200);
    assert!(home.body.contains("fetch('/api/heart')"));
}

#[test]
fn concurrent_reads_never_see_a_torn_reading() {
    // Writers store only values in [60, 100), all stamped at the same
    // instant; any concurrent reader must therefore see either nothing or a
    // complete reading from that range.
    let rt = tokio::runtime::Builder::new_multi_thread()
        .worker_threads(4)
        .build()
        .unwrap();
    let store = Arc::new(SharedStore::new());
    rt.block_on(async {
        let mut tasks = Vec::new();
        for task_id in 0..8i32 {
            let shared = store.clone();
            tasks.push(tokio::spawn(async move {
                for step in 0..500i32 {
                    if task_id % 2 == 0 {
                        shared.set(60 + (step % 40), 1_000_000);
                    } else {
                        match shared.get(1_000_000) {
                            Some(v) => assert!((60..100).contains(&v)),
                            None => {}
                        }
                    }
                }
            }));
        }
        for task in tasks {
            task.await.unwrap();
        }
    });
    // Immediately after the writers finish, a read still sees a whole
    // reading from the written range.
    let last = store.get(1_000_000).unwrap();
    assert!((60..100).contains(&last));
}
