//! When a new verification code may be issued, and which issuance times make sense.

use crate::constants::RATE_LIMIT_SEC;
use vstd::prelude::*;

verus! {

/// First second of the first day that `chrono` can represent.
pub const MIN_TIMESTAMP: i64 = -8_334_601_228_800;

/// Last second of the last day that `chrono` can represent.
pub const MAX_TIMESTAMP: i64 = 8_210_266_876_799;

/// Whether a Unix timestamp, in seconds, is a date that `chrono` can represent.
pub open spec fn timestamp_in_range(secs: i64) -> bool {
    MIN_TIMESTAMP <= secs <= MAX_TIMESTAMP
}

/// Whether a code may be issued at `now`, the last one having been issued at
/// `last_issued_at`: always when none was, else once the rate limit has passed.
pub open spec fn is_allowed(last_issued_at: Option<i64>, now: i64) -> bool {
    last_issued_at matches Some(issued) ==> now - issued >= RATE_LIMIT_SEC
}

/// Calls `chrono::DateTime::from_timestamp` with no nanoseconds. Trusted: it
/// yields a date exactly for the seconds between the first and the last
/// representable day.
#[verifier::external_body]
fn from_timestamp(secs: i64) -> (found: bool)
    ensures
        found == timestamp_in_range(secs),
{
    chrono::DateTime::from_timestamp(secs, 0).is_some()
}

/// Calls `chrono::Utc::now` and takes its Unix timestamp. Nothing is claimed
/// of the clock.
#[verifier::external_body]
pub(crate) fn unix_now() -> i64 {
    chrono::Utc::now().timestamp()
}

/// Whether `secs` is a Unix timestamp of a representable date.
pub fn is_valid_timestamp(secs: i64) -> (valid: bool)
    ensures
        valid == timestamp_in_range(secs),
{
    from_timestamp(secs)
}

/// The rate limiter: whether a new code may be issued at `now`.
pub fn allowed(last_issued_at: Option<i64>, now: i64) -> (ok: bool)
    ensures
        ok == is_allowed(last_issued_at, now),
{
    match last_issued_at {
        None => true,
        Some(issued) => now as i128 - issued as i128 >= RATE_LIMIT_SEC as i128,
    }
}

} // verus!
