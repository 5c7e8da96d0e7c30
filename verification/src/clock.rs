//! Nanosecond epoch timestamps from the system wall clock.

use vstd::prelude::*;
use vstd::arithmetic::div_mod::lemma_mod_multiples_basic;

verus! {

#[verifier::external_type_specification]
#[verifier::external_body]
pub struct ExSystemTime(std::time::SystemTime);

/// Relies on `std::time::SystemTime::now`: the wall clock's current
/// reading, carried opaquely. The call returns on every clock state, and
/// nothing is assumed of the value - the clock may say anything.
#[verifier::external_body]
fn system_clock_now() -> std::time::SystemTime {
    std::time::SystemTime::now()
}

/// Relies on `std::time::SystemTime::duration_since`: the distance between
/// the Unix epoch and `t` in whole seconds, as a direction flag and a
/// magnitude - `true` when `t` lies before the epoch, fractions of a second
/// discarded. Both directions come back as plain values, so the call is
/// total: no clock state is excluded. Nothing is assumed of the value.
#[verifier::external_body]
fn epoch_seconds_of(t: std::time::SystemTime) -> (r: (bool, u64)) {
    match t.duration_since(std::time::UNIX_EPOCH) {
        Ok(since) => (false, since.as_secs()),
        Err(before) => (true, before.duration().as_secs()),
    }
}

/// The largest magnitude of whole seconds whose nanosecond count still fits
/// in a signed 64-bit timestamp.
pub const MAX_TIMESTAMP_SECONDS: i64 = 9_223_372_036;

/// Whole seconds as nanoseconds, exactly when the product fits.
pub fn nanos_from_seconds(seconds: i64) -> (r: Option<i64>)
    ensures
        r is Some <==> -MAX_TIMESTAMP_SECONDS <= seconds <= MAX_TIMESTAMP_SECONDS,
        r matches Some(nanos) ==> nanos == seconds * 1_000_000_000,
{
    if -MAX_TIMESTAMP_SECONDS <= seconds && seconds <= MAX_TIMESTAMP_SECONDS {
        Some(seconds * 1_000_000_000)
    } else {
        None
    }
}

/// The current time as nanoseconds since the Unix epoch, at whole-second
/// resolution; nothing when the clock reads outside the representable
/// range. Whatever the clock said - a time before the epoch included - the
/// call returns, and a result is a whole number of seconds.
pub fn get_current_timestamp() -> (r: Option<i64>)
    ensures
        r matches Some(nanos) ==> nanos % 1_000_000_000 == 0,
{
    let now = system_clock_now();
    let (before_epoch, magnitude) = epoch_seconds_of(now);
    if magnitude > MAX_TIMESTAMP_SECONDS as u64 {
        return None;
    }
    let seconds: i64 = if before_epoch {
        -(magnitude as i64)
    } else {
        magnitude as i64
    };
    let r = nanos_from_seconds(seconds);
    proof {
        if r is Some {
            lemma_mod_multiples_basic(seconds as int, 1_000_000_000);
        }
    }
    r
}

} // verus!
