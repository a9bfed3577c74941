//! Wall-clock readings.
use vstd::prelude::*;

verus! {

/// Milliseconds since the Unix epoch, from `std::time::SystemTime::now` and
/// `duration_since(UNIX_EPOCH)`; `None` when the clock reads earlier than
/// the epoch. Of the value only what the `Duration` documentation gives is
/// promised: its whole seconds (a thousandth of it) fit in 64 bits. It is
/// otherwise the time at the call.
#[verifier::external_body]
pub(crate) fn unix_time_millis() -> (r: Option<u128>)
    ensures
        r matches Some(ms) ==> ms / 1000 <= u64::MAX,
{
    match std::time::SystemTime::now().duration_since(std::time::UNIX_EPOCH) {
        Ok(d) => Some(d.as_millis()),
        Err(_) => None,
    }
}

/// Milliseconds since the Unix epoch, `None` when the clock reads earlier
/// than the epoch.
pub fn unix_millis() -> (r: Option<u128>)
    ensures
        r matches Some(ms) ==> ms / 1000 <= u64::MAX,
{
    unix_time_millis()
}

/// Whole seconds since the Unix epoch, `None` when the clock reads earlier
/// than the epoch.
pub fn unix_seconds() -> (r: Option<u64>) {
    match unix_time_millis() {
        Some(ms) => Some((ms / 1000) as u64),
        None => None,
    }
}

/// Whole seconds since the Unix epoch, `0` when the clock reads earlier
/// than the epoch.
pub fn unix_time_secs() -> u64 {
    match unix_seconds() {
        Some(s) => s,
        None => 0,
    }
}

} // verus!
