//! Points in time, as Unix seconds, and the arithmetic on them that the
//! calendar library does.

use vstd::prelude::*;

verus! {

/// The longest span, in seconds, that the calendar library's time span holds
/// (a thousandth of `i64::MAX`); the shortest is its negative.
pub const MAX_SPAN_SECONDS: i64 = 9_223_372_036_854_775;

/// What chrono's `DateTime::checked_add_signed` gives for the point in time
/// `at` (Unix seconds) and a span of `seconds`, as Unix seconds; none where
/// chrono cannot represent the point or the sum.
pub uninterp spec fn datetime_plus_seconds(at: i64, seconds: i64) -> Option<i64>;

/// Whether chrono's time span can hold `seconds`.
pub open spec fn is_span(seconds: i64) -> bool {
    -MAX_SPAN_SECONDS <= seconds <= MAX_SPAN_SECONDS
}

/// The point in time `lifetime` seconds after `now`; none where the
/// calendar library cannot represent the span or the sum.
pub open spec fn expiry(now: i64, lifetime: i64) -> Option<i64> {
    if is_span(lifetime) {
        datetime_plus_seconds(now, lifetime)
    } else {
        None
    }
}

/// Reads the clock with chrono's `Utc::now` and gives the Unix seconds of
/// what it returns (`DateTime::timestamp`). Nothing is claimed of the value.
/// chrono panics where the system clock stands before 1970.
#[verifier::external_body]
pub(crate) fn unix_now() -> (now: i64) {
    chrono::Utc::now().timestamp()
}

/// Adds with chrono's `DateTime::checked_add_signed`: the point in time is
/// made by `DateTime::from_timestamp`, the span by `TimeDelta::seconds`
/// (which panics outside the bounds that `requires` states), and the sum is
/// read by `DateTime::timestamp`.
///
/// Claimed: the result is a function of the two arguments, and a sum that
/// chrono gives is the sum of the integers, as both points are whole
/// non-leap seconds.
#[verifier::external_body]
pub(crate) fn plus_seconds(at: i64, seconds: i64) -> (sum: Option<i64>)
    requires
        is_span(seconds),
    ensures
        sum == datetime_plus_seconds(at, seconds),
        sum matches Some(t) ==> t == at + seconds,
{
    let at = chrono::DateTime::from_timestamp(at, 0)?;
    at.checked_add_signed(chrono::TimeDelta::seconds(seconds)).map(|sum| sum.timestamp())
}

/// The point in time `lifetime` seconds after `now`, where the calendar
/// library can represent it.
pub fn expires_at(now: i64, lifetime: i64) -> (at: Option<i64>)
    ensures
        at == expiry(now, lifetime),
        at matches Some(t) ==> t == now + lifetime,
{
    if -MAX_SPAN_SECONDS <= lifetime && lifetime <= MAX_SPAN_SECONDS {
        plus_seconds(now, lifetime)
    } else {
        None
    }
}

} // verus!
