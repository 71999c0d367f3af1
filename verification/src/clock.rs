//! Wall-clock time in whole seconds.

use vstd::prelude::*;

verus! {

/// Seconds in one day.
pub const DAY_SECONDS: i64 = 86_400;

/// The current time, in seconds since the Unix epoch.
///
/// Trusted: calls `Utc::now` of chrono and takes `timestamp` of the result.
/// chrono counts the seconds that the system clock stands after 1970 and
/// panics if it stands before; so the contract claims that the value is not
/// negative, and nothing else.
#[verifier::external_body]
pub(crate) fn unix_now() -> (r: i64)
    ensures
        r >= 0,
{
    chrono::Utc::now().timestamp()
}

/// The length of a number of days, in seconds.
///
/// Trusted: calls `TimeDelta::days` of chrono, which multiplies by 86 400 with
/// an overflow check, and `num_seconds` of the result. `requires` keeps the
/// count far inside the range in which `days` does not panic.
#[verifier::external_body]
pub(crate) fn seconds_of_days(days: i64) -> (r: i64)
    requires
        0 <= days <= 1000,
    ensures
        r == days * 86_400,
{
    chrono::Duration::days(days).num_seconds()
}

/// The moment one day before `now`, held at the least timestamp where the
/// subtraction would leave the range of `i64`.
pub open spec fn spec_day_before(now: i64) -> i64 {
    if now as int - DAY_SECONDS >= i64::MIN {
        (now - DAY_SECONDS) as i64
    } else {
        i64::MIN
    }
}

/// The moment one day before `now`, saturating at the least timestamp.
pub fn day_before(now: i64) -> (r: i64)
    ensures
        r == spec_day_before(now),
{
    let day: i64 = seconds_of_days(1);
    if now >= i64::MIN + day {
        now - day
    } else {
        i64::MIN
    }
}

} // verus!
