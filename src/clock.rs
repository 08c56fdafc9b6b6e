use vstd::prelude::*;
use std::time::{Duration, SystemTime, UNIX_EPOCH};

verus! {

#[verifier::external_type_specification]
#[verifier::external_body]
pub struct ExSystemTime(SystemTime);

/// Relies on `SystemTime::now`: reads the system clock.
#[verifier::external_body]
fn system_now() -> SystemTime {
    SystemTime::now()
}

/// Relies on `SystemTime::duration_since`: the time elapsed since the Unix
/// epoch, or `None` when the clock stands before it.
#[verifier::external_body]
fn since_epoch(t: &SystemTime) -> Option<Duration> {
    t.duration_since(UNIX_EPOCH).ok()
}

/// Relies on `Duration::as_millis`: the whole milliseconds of a duration.
#[verifier::external_body]
fn whole_millis(d: &Duration) -> u128 {
    d.as_millis()
}

/// The timestamp for a reading of the clock: its whole milliseconds since
/// the Unix epoch (`None` when the clock stands before it), held to the
/// range of `i64`.
pub open spec fn clamped_millis(ms: Option<u128>) -> int {
    match ms {
        Some(m) => if m > i64::MAX as u128 {
            i64::MAX as int
        } else {
            m as int
        },
        None => 0,
    }
}

/// The timestamp for a clock reading of `ms` whole milliseconds since the
/// Unix epoch, or `None` before it: `0` before the epoch, `i64::MAX` past
/// the range of `i64`.
pub fn timestamp_of(ms: Option<u128>) -> (r: i64)
    ensures
        r == clamped_millis(ms),
{
    match ms {
        Some(m) => if m > i64::MAX as u128 {
            i64::MAX
        } else {
            m as i64
        },
        None => 0,
    }
}

/// Milliseconds since the Unix epoch by the system clock, as `timestamp_of`
/// makes of the clock's reading.
pub fn timestamp() -> (r: i64)
    ensures
        r >= 0,
        exists|ms: Option<u128>| r == #[trigger] clamped_millis(ms),
{
    let now = system_now();
    let reading = match since_epoch(&now) {
        Some(d) => Some(whole_millis(&d)),
        None => None,
    };
    let r = timestamp_of(reading);
    assert(r == clamped_millis(reading));
    r
}

} // verus!
