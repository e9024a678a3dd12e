//! The wall clock.

use vstd::prelude::*;

verus! {

/// The latest instant `chrono` represents, as seconds since the UNIX epoch:
/// the last second of December 31 of the year 262142.
pub const LATEST_TIMESTAMP: i64 = 8210266876799;

/// The current time as seconds since the UNIX epoch, from
/// `chrono::Utc::now().timestamp()`. It depends on the clock alone, so the
/// contract claims only what holds of every reading: `Utc::now` measures the
/// time elapsed since the epoch (it panics on a clock set before 1970), so
/// the timestamp is never negative; and it builds its value with
/// `DateTime::from_timestamp(..).unwrap()`, which holds only instants up to
/// the end of the year 262142, so the timestamp is at most
/// `LATEST_TIMESTAMP`.
#[verifier::external_body]
pub(crate) fn now_timestamp() -> (r: i64)
    ensures
        0 <= r <= LATEST_TIMESTAMP,
{
    chrono::Utc::now().timestamp()
}

} // verus!
