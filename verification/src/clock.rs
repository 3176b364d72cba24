//! The wall clock, as seconds since the Unix epoch.

use vstd::prelude::*;

verus! {

/// Reads the current time through `chrono::Utc::now().timestamp()`.
///
/// Nothing is claimed about the value: two calls may return any two numbers.
#[verifier::external_body]
pub(crate) fn unix_now() -> (now: i64) {
    chrono::Utc::now().timestamp()
}

/// A day of the calendar.
#[derive(Debug, Clone, Copy, PartialEq, Eq, Structural)]
pub struct CalendarDay {
    pub year: i32,
    pub month: u32,
    pub day: u32,
}

/// Reads today's date in UTC through `chrono::Utc::now()` and the `year`,
/// `month` and `day` of `chrono::Datelike`, which count months from 1 to 12
/// and days from 1 to 31.
#[verifier::external_body]
pub(crate) fn utc_today() -> (today: CalendarDay)
    ensures
        1 <= today.month <= 12,
        1 <= today.day <= 31,
{
    let now = chrono::Utc::now();
    CalendarDay {
        year: chrono::Datelike::year(&now),
        month: chrono::Datelike::month(&now),
        day: chrono::Datelike::day(&now),
    }
}

/// Writes the current minute in UTC as `chrono` formats it under the
/// pattern `%Y-%m-%dT%H-%M`. Nothing is claimed about the text.
#[verifier::external_body]
pub(crate) fn utc_minute_stamp() -> (stamp: String) {
    chrono::Utc::now().format("%Y-%m-%dT%H-%M").to_string()
}

} // verus!
