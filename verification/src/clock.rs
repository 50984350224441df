//! Wall-clock time in milliseconds since the Unix epoch.

use vstd::prelude::*;

use std::time::{Duration, SystemTime};

verus! {

/// Declares `std::time::SystemTime` to Verus as an opaque type.
#[verifier::external_type_specification]
#[verifier::external_body]
pub struct ExSystemTime(SystemTime);

/// Calls `std::time::SystemTime::now`. Nothing is stated of the result: it is
/// the machine's clock.
#[verifier::external_body]
fn system_now() -> SystemTime {
    SystemTime::now()
}

/// Calls `SystemTime::duration_since(UNIX_EPOCH)` on `t`, keeping `None` for the
/// error (a time before the epoch). Nothing is stated of the result: `SystemTime`
/// is opaque here, so no clause can relate the two.
#[verifier::external_body]
fn since_unix_epoch(t: &SystemTime) -> Option<Duration> {
    t.duration_since(std::time::UNIX_EPOCH).ok()
}

/// Calls `Duration::as_millis`. Nothing is stated of the result: `Duration` is
/// opaque here, so no clause can name it.
#[verifier::external_body]
fn whole_millis(d: &Duration) -> u128 {
    d.as_millis()
}

/// A millisecond count narrowed to `u64` (truncating, as `as u64` does), or 0
/// where the clock read before the epoch.
pub open spec fn spec_millis_or_zero(ms: Option<u128>) -> u64 {
    match ms {
        Some(m) => m as u64,
        None => 0,
    }
}

/// Narrows a millisecond count to `u64` the way the clock reading does.
pub fn millis_or_zero(ms: Option<u128>) -> (r: u64)
    ensures
        r == spec_millis_or_zero(ms),
{
    match ms {
        Some(m) => m as u64,
        None => 0,
    }
}

/// Milliseconds since the Unix epoch by the machine's clock, 0 if the clock
/// reads before the epoch.
pub fn now_ms() -> u64 {
    let now = system_now();
    let ms = match since_unix_epoch(&now) {
        Some(d) => Some(whole_millis(&d)),
        None => None,
    };
    millis_or_zero(ms)
}

} // verus!
