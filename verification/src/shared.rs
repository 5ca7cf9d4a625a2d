//! The process-wide shared store: a `ReadingStore` behind a verified
//! reader-writer lock, with the producer-facing write path and the
//! request-serving read path. The lock guarantees that readers only ever
//! observe complete (value, timestamp) pairs — never a torn reading — and
//! that every response reflects one consistent store state.

use vstd::prelude::*;
use vstd::rwlock::RwLock;
use crate::clock::{get_current_timestamp, seconds_since_epoch, system_now};
use crate::router::{handle_request_at, matches_response, HttpResponse};
use crate::store::{get_spec, Reading, ReadingStore};

verus! {

/// Why a submitted reading was not recorded.
#[derive(Clone, Copy, PartialEq, Eq, Structural, Debug)]
pub enum SubmitError {
    /// The system clock could not be read, so no timestamp could be assigned.
    /// The store keeps whatever reading it previously held.
    ClockUnavailable,
}

impl SubmitError {
    /// A short description of the failure.
    pub fn message(&self) -> (s: &'static str)
        ensures
            s@ == "clock unavailable"@,
    {
        "clock unavailable"
    }
}

/// The single source of truth for the latest reading, safe under concurrent
/// readers and writers.
pub struct SharedStore {
    lock: RwLock<ReadingStore, spec_fn(ReadingStore) -> bool>,
}

impl SharedStore {
    /// Every store state may sit in the lock: the lock serves only for
    /// mutual exclusion, not to restrict the stored values.
    #[verifier::type_invariant]
    spec fn wf(self) -> bool {
        forall|s: ReadingStore| self.lock.inv(s)
    }

    /// A shared store that has never been written.
    pub fn new() -> SharedStore {
        let lock = RwLock::new(ReadingStore::new(), Ghost(|s: ReadingStore| true));
        SharedStore { lock }
    }

    /// Record `value` as observed at time `now`, replacing any prior reading.
    pub fn set(&self, value: i32, now: u64) {
        proof {
            use_type_invariant(self);
        }
        let (mut store, handle) = self.lock.acquire_write();
        store.set(value, now);
        handle.release_write(store);
    }

    /// Read the value current at time `now`. The result is the freshness-
    /// filtered read of one consistent store state: a single (value,
    /// timestamp) pair, never a mix of two writes.
    pub fn get(&self, now: u64) -> (r: Option<i32>)
        ensures
            exists|state: Option<Reading>| r == get_spec(state, now),
    {
        let handle = self.lock.acquire_read();
        let r = handle.borrow().get(now);
        handle.release_read();
        r
    }

    /// The producer-facing write path: stamp `value` with the current clock
    /// reading and store it. Fails exactly when the clock cannot be read, in
    /// which case the store is left untouched.
    pub fn submit_reading(&self, value: i32) -> (r: Result<(), SubmitError>)
        ensures
            r is Ok || r == Err::<(), SubmitError>(SubmitError::ClockUnavailable),
    {
        match seconds_since_epoch(system_now()) {
            Ok(now) => {
                self.set(value, now);
                Ok(())
            },
            Err(_) => Err(SubmitError::ClockUnavailable),
        }
    }

    /// Serve a request path against the store as it stands now. The response
    /// is exactly the one owed for this path under some single store state
    /// and clock reading: concurrent writers can change which state is
    /// observed, but never hand the handler a torn one.
    pub fn handle_request(&self, path: &str) -> (r: HttpResponse)
        ensures
            exists|state: Option<Reading>, now: u64| matches_response(r, path@, state, now),
    {
        let now = get_current_timestamp();
        let handle = self.lock.acquire_read();
        let r = handle_request_at(path, handle.borrow(), now);
        handle.release_read();
        r
    }
}

} // verus!
