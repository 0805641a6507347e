//! The time of day, in seconds since the Unix epoch.

use vstd::prelude::*;

verus! {

/// The number of days from the first day of the common era to the Unix
/// epoch.
pub const UNIX_EPOCH_DAY: i64 = 719_163;

/// Whether `time`, in seconds since the Unix epoch, is a moment that a
/// calendar date can name: its day, counted from the first day of the
/// common era, fits in 32 bits.
pub open spec fn is_calendar_time(time: int) -> bool {
    i32::MIN <= time / 86_400 + UNIX_EPOCH_DAY <= i32::MAX
}

/// The current time by `Utc::now` of `chrono`, as its `timestamp`. It
/// differs from call to call. `chrono` makes a date of the system's time
/// only where the day fits in 32 bits, so that much holds of every answer.
#[verifier::external_body]
pub(crate) fn unix_time_now() -> (now: i64)
    ensures
        is_calendar_time(now as int),
{
    chrono::Utc::now().timestamp()
}

} // verus!
