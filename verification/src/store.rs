//! The latest-value store: a single sensor reading with its timestamp,
//! hidden once it grows older than the staleness window.

use vstd::prelude::*;

verus! {

/// Maximum age, in seconds, after which a stored reading is treated as absent.
pub const STALENESS_WINDOW_SECS: u64 = 30;

/// The single stored sensor sample: a producer-supplied value and the
/// time (seconds since the epoch) at which the store recorded it.
#[derive(Clone, Copy, PartialEq, Eq, Structural, Debug)]
pub struct Reading {
    pub value: i32,
    pub observed_at: u64,
}

/// Holds the most recent reading, if any. A new `set` fully replaces the
/// prior reading; `get` filters out readings older than the staleness window.
pub struct ReadingStore {
    reading: Option<Reading>,
}

impl View for ReadingStore {
    type V = Option<Reading>;

    closed spec fn view(&self) -> Option<Reading> {
        self.reading
    }
}

/// A reading taken at `observed_at` is still fresh at `now` when no more
/// than the staleness window has elapsed. A clock that moved backwards
/// (`now < observed_at`) never makes a reading stale.
pub open spec fn is_fresh(observed_at: u64, now: u64) -> bool {
    now as int - observed_at as int <= STALENESS_WINDOW_SECS as int
}

/// What `get` returns at time `now` from the store state `r`: the stored
/// value while it is fresh, and nothing otherwise.
pub open spec fn get_spec(r: Option<Reading>, now: u64) -> Option<i32> {
    match r {
        Some(rd) => if is_fresh(rd.observed_at, now) {
            Some(rd.value)
        } else {
            None
        },
        None => None,
    }
}

/// The store state after `set(value)` at time `now`: the prior state is
/// fully replaced, whatever it was.
pub open spec fn after_set(prior: Option<Reading>, value: i32, now: u64) -> Option<Reading> {
    Some(Reading { value, observed_at: now })
}

impl ReadingStore {
    /// A store that has never been written.
    pub fn new() -> (s: Self)
        ensures
            s@ == None::<Reading>,
    {
        ReadingStore { reading: None }
    }

    /// Record `value` as observed at time `now`, replacing any prior reading.
    pub fn set(&mut self, value: i32, now: u64)
        ensures
            final(self)@ == after_set(old(self)@, value, now),
    {
        self.reading = Some(Reading { value, observed_at: now });
    }

    /// Return the stored value if a reading exists and is still fresh at
    /// time `now`; `None` before any write or once the reading is stale.
    pub fn get(&self, now: u64) -> (r: Option<i32>)
        ensures
            r == get_spec(self@, now),
    {
        match self.reading {
            Some(rd) => {
                if now > rd.observed_at && now - rd.observed_at > STALENESS_WINDOW_SECS {
                    None
                } else {
                    Some(rd.value)
                }
            },
            None => None,
        }
    }
}

/// Freshness: a reading written at `write_time` with `value` is returned by a
/// read at `read_time` whenever at most the staleness window has elapsed, and
/// is hidden whenever more than the staleness window has elapsed.
pub proof fn lemma_freshness(prior: Option<Reading>, value: i32, write_time: u64, read_time: u64)
    ensures
        read_time as int - write_time as int <= STALENESS_WINDOW_SECS as int ==> get_spec(
            after_set(prior, value, write_time),
            read_time,
        ) == Some(value),
        read_time as int - write_time as int > STALENESS_WINDOW_SECS as int ==> get_spec(
            after_set(prior, value, write_time),
            read_time,
        ) == None::<i32>,
{
}

/// Overwrite: after `set(a)` and then `set(b)`, a read behaves exactly as if
/// only `set(b)` had happened; while `b` is fresh the read returns `b`, and it
/// never returns `a` when `a` differs from `b`, at any read time.
pub proof fn lemma_overwrite(
    prior: Option<Reading>,
    a: i32,
    first_time: u64,
    b: i32,
    second_time: u64,
    read_time: u64,
)
    ensures
        get_spec(after_set(after_set(prior, a, first_time), b, second_time), read_time)
            == get_spec(after_set(prior, b, second_time), read_time),
        read_time as int - second_time as int <= STALENESS_WINDOW_SECS as int ==> get_spec(
            after_set(after_set(prior, a, first_time), b, second_time),
            read_time,
        ) == Some(b),
        a != b ==> get_spec(after_set(after_set(prior, a, first_time), b, second_time), read_time)
            != Some(a),
{
}

/// No-data default: a read from a store that has never been written returns
/// nothing, at any read time.
pub proof fn lemma_no_data_default(read_time: u64)
    ensures
        get_spec(None::<Reading>, read_time) == None::<i32>,
{
}

} // verus!
