//! Timestamps in milliseconds since the Unix epoch.

use vstd::prelude::*;

verus! {

/// `chrono::Utc::now` and `timestamp_millis`: the wall clock, in milliseconds
/// since the epoch. Which moment it is is not known; it is never before the
/// epoch, since `Utc::now` does not return where the system clock stands
/// before it.
#[verifier::external_body]
pub(crate) fn now_millis() -> (ms: i64)
    ensures
        ms >= 0,
{
    chrono::Utc::now().timestamp_millis()
}

/// Whether a count of milliseconds can be kept as a timestamp.
pub open spec fn fits_timestamp(elapsed: u128) -> bool {
    elapsed <= i64::MAX
}

/// The timestamp of a point in time, given the whole milliseconds that have
/// passed from the epoch to it. A count that fits is the timestamp. A point
/// in time that is not known, that lies before the epoch, or whose count
/// does not fit cannot be converted: the current time takes its place.
pub fn system_time_to_millis(elapsed: Option<u128>) -> (ms: i64)
    ensures
        ms >= 0,
        elapsed matches Some(e) ==> (fits_timestamp(e) ==> ms == e),
{
    match elapsed {
        Some(e) => {
            if e <= 0x7fff_ffff_ffff_ffffu128 {
                #[verifier::truncate]
                let ms: i64 = e as i64;
                ms
            } else {
                now_millis()
            }
        },
        None => now_millis(),
    }
}

} // verus!
