//! Wall-clock access. Reading the system clock is the one thing this
//! library must take on trust: the two small functions below make the std
//! calls, and everything that depends on the time takes it as a plain
//! argument.

use vstd::prelude::*;
use std::time::SystemTime;
use std::time::UNIX_EPOCH;

verus! {

#[verifier::external_type_specification]
#[verifier::external_body]
pub struct ExSystemTime(SystemTime);

/// Relies on std::time::SystemTime::now: reads the system clock. Nothing can
/// be promised of the value it returns.
#[verifier::external_body]
pub(crate) fn system_now() -> SystemTime {
    SystemTime::now()
}

/// Relies on SystemTime::duration_since: per its documentation it returns Ok
/// exactly when `t` is not earlier than the epoch, and Err otherwise; the
/// whole-second count of the duration is handed back as a plain integer.
#[verifier::external_body]
pub(crate) fn seconds_since_epoch(t: SystemTime) -> Result<u64, ()> {
    match t.duration_since(UNIX_EPOCH) {
        Ok(d) => Ok(d.as_secs()),
        Err(_) => Err(()),
    }
}

/// Seconds since the epoch by the system clock, or 0 when the clock reads
/// earlier than the epoch. The value depends on the clock alone, so no more
/// can be said of it here; every function that reasons about time takes the
/// timestamp as an argument instead.
pub fn get_current_timestamp() -> u64 {
    match seconds_since_epoch(system_now()) {
        Ok(t) => t,
        Err(_) => 0,
    }
}

} // verus!
