//! Wall-clock helpers.

use vstd::prelude::*;

verus! {

/// `std::time::SystemTime`, carried through as an opaque value.
#[verifier::external_type_specification]
#[verifier::external_body]
pub struct ExSystemTime(std::time::SystemTime);

/// `std::time::SystemTimeError`, carried through as an opaque value.
#[verifier::external_type_specification]
#[verifier::external_body]
pub struct ExSystemTimeError(std::time::SystemTimeError);

/// `SystemTime::now` reads the system clock; nothing is known of the value.
pub assume_specification[ std::time::SystemTime::now ]() -> std::time::SystemTime;

/// `Duration::as_secs`: the whole seconds of a duration. The duration is opaque
/// here, so nothing is stated of the value.
pub assume_specification[ core::time::Duration::as_secs ](d: &core::time::Duration) -> u64;

/// `Duration::subsec_nanos`: the nanoseconds past the whole seconds, which the
/// documentation bounds below one billion.
pub assume_specification[ core::time::Duration::subsec_nanos ](d: &core::time::Duration) -> (n: u32)
    ensures
        n < 1_000_000_000,
;

/// Calls `SystemTime::duration_since` with the Unix epoch. The result depends on
/// the clock reading, so nothing is stated of it.
#[verifier::external_body]
fn elapsed_since_epoch(t: &std::time::SystemTime) -> Result<core::time::Duration, std::time::SystemTimeError> {
    t.duration_since(std::time::UNIX_EPOCH)
}

/// The whole milliseconds of a clock reading given as (seconds, nanoseconds
/// past the second) since the epoch; a reading before the epoch (`None`)
/// counts as 0.
pub open spec fn millis_of_reading(reading: Option<(u64, u32)>) -> int {
    match reading {
        Some((s, n)) => s * 1000 + n / 1_000_000,
        None => 0,
    }
}

/// Whether a reading is well formed: fewer nanoseconds than a second.
pub open spec fn valid_reading(reading: Option<(u64, u32)>) -> bool {
    reading matches Some((_, n)) ==> n < 1_000_000_000
}

/// The whole milliseconds of a clock reading (see `millis_of_reading`).
pub fn millis_of(reading: Option<(u64, u32)>) -> (ms: u128)
    ensures
        ms == millis_of_reading(reading),
{
    match reading {
        Some((s, n)) => (s as u128) * 1000 + (n / 1_000_000) as u128,
        None => 0,
    }
}

/// The system clock's time since the epoch, as (seconds, nanoseconds past the
/// second), or `None` where the clock reads before the epoch.
pub fn clock_since_epoch() -> (reading: Option<(u64, u32)>)
    ensures
        valid_reading(reading),
{
    let t = std::time::SystemTime::now();
    match elapsed_since_epoch(&t) {
        Ok(d) => Some((d.as_secs(), d.subsec_nanos())),
        Err(_) => None,
    }
}

/// Milliseconds since the Unix epoch, by the system clock: the whole
/// milliseconds of some clock reading. A clock set before the epoch reads as 0
/// instead of aborting the caller.
pub fn now_ms() -> (ms: u128)
    ensures
        exists|reading: Option<(u64, u32)>| valid_reading(reading) && ms == millis_of_reading(reading),
{
    let reading = clock_since_epoch();
    millis_of(reading)
}

} // verus!
