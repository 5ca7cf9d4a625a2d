use heart_relay::store::ReadingStore;
use heart_relay::store::STALENESS_WINDOW_SECS;

#[test]
fn no_data_before_first_set() {
    let store = ReadingStore::new();
    assert_eq!(store.get(0), None);
    assert_eq!(store.get(12345), None);
    assert_eq!(store.get(u64::MAX), None);
}

#[test]
fn fresh_read_returns_value() {
    let mut store = ReadingStore::new();
    store.set(72, 0);
    assert_eq!(store.get(5), Some(72));
}

#[test]
fn read_at_exact_window_is_still_fresh() {
    let mut store = ReadingStore::new();
    store.set(98, 100);
    assert_eq!(store.get(100 + STALENESS_WINDOW_SECS), Some(98));
}

#[test]
fn read_one_past_window_is_stale() {
    let mut store = ReadingStore::new();
    store.set(98, 100);
    assert_eq!(store.get(100 + STALENESS_WINDOW_SECS + 1), None);
}

#[test]
fn overwrite_returns_latest_value() {
    let mut store = ReadingStore::new();
    store.set(60, 10);
    store.set(75, 12);
    assert_eq!(store.get(13), Some(75));
}

#[test]
fn read_before_write_time_is_fresh() {
    // A clock that moved backwards never makes a reading stale.
    let mut store = ReadingStore::new();
    store.set(64, 1000);
    assert_eq!(store.get(990), Some(64));
}

#[test]
fn negative_and_extreme_values_are_accepted() {
    let mut store = ReadingStore::new();
    store.set(-1, 0);
    assert_eq!(store.get(0), Some(-1));
    store.set(i32::MIN, 1);
    assert_eq!(store.get(2), Some(i32::MIN));
    store.set(i32::MAX, 3);
    assert_eq!(store.get(4), Some(i32::MAX));
}

#[test]
fn stale_then_new_write_is_fresh_again() {
    let mut store = ReadingStore::new();
    store.set(70, 0);
    assert_eq!(store.get(40), None);
    store.set(71, 41);
    assert_eq!(store.get(42), Some(71));
}
