//! The wall clock.
use vstd::prelude::*;

verus! {

/// A bound that no reading of the wall clock reaches: the seconds of
/// 2^31 days. The time library counts the days of an instant in 32 bits and
/// makes no instant beyond that.
pub const CLOCK_LIMIT: i64 = 185_542_587_187_200;

/// `chrono::Utc::now`, read as whole seconds since the Unix epoch by
/// `DateTime::timestamp`. The clock is measured from the epoch, so the
/// reading is never negative. The instant is made by
/// `DateTime::from_timestamp`, which makes none whose days since the epoch
/// exceed `i32::MAX`, so the reading stays below [`CLOCK_LIMIT`]. A machine
/// whose clock stands before the epoch, or beyond the dates that the time
/// library knows, makes the call panic, as it does for every user of that
/// function.
#[verifier::external_body]
pub(crate) fn unix_now() -> (now: i64)
    ensures
        0 <= now < CLOCK_LIMIT,
{
    chrono::Utc::now().timestamp()
}

/// `chrono::Utc::now`, written by `DateTime::to_rfc3339`. Nothing is
/// promised of the text: it is a label for people to read.
#[verifier::external_body]
pub(crate) fn rfc3339_now() -> (stamp: String) {
    chrono::Utc::now().to_rfc3339()
}

} // verus!
