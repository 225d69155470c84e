//! The bridge from civil calendar dates to the library's timeline.
//!
//! The library counts time in milliseconds since its epoch, midnight at the
//! start of Sunday, 4 January 1970 (Julian day 2 440 591).  Turning a civil
//! date into a day count is the one computation left to the `time` crate;
//! everything after that day count is verified integer arithmetic.

use vstd::prelude::*;

use crate::time_series::{
    Timestamp, MILLIS_PER_DAY, MILLIS_PER_HOUR, MILLIS_PER_MINUTE, MILLIS_PER_SECOND,
};

verus! {

/// The Julian day number of the library's epoch: Sunday, 4 January 1970.
pub const EPOCH_JULIAN_DAY: i32 = 2_440_591;

/// Leap years of the proleptic Gregorian calendar, in astronomical year
/// numbering.
pub open spec fn spec_is_leap_year(year: int) -> bool {
    (year % 4 == 0 && year % 100 != 0) || year % 400 == 0
}

/// The number of days in a month of the proleptic Gregorian calendar.
pub open spec fn spec_days_in_month(year: int, month: int) -> int
    recommends
        1 <= month <= 12,
{
    if month == 2 {
        if spec_is_leap_year(year) {
            29
        } else {
            28
        }
    } else if month == 4 || month == 6 || month == 9 || month == 11 {
        30
    } else {
        31
    }
}

/// The civil dates the calendar bridge accepts: a real day of the proleptic
/// Gregorian calendar within the year range the `time` crate covers.
pub open spec fn valid_calendar_date(year: int, month: int, day: int) -> bool {
    &&& -9999 <= year <= 9999
    &&& 1 <= month <= 12
    &&& 1 <= day <= spec_days_in_month(year, month)
}

/// The Julian day number of a civil date of the proleptic Gregorian
/// calendar: a plain day count, consecutive across all month and year
/// boundaries, whose day 2 440 588 is 1 January 1970.
pub uninterp spec fn day_index(year: int, month: int, day: int) -> int;

/// Relies on `time::Month::try_from`, `time::Date::from_calendar_date` and
/// `time::Date::to_julian_day`: the first two accept exactly the real dates
/// of the proleptic Gregorian calendar with years in `-9999..=9999`, and the
/// third returns the date's Julian day number, a function of the date alone.
#[verifier::external_body]
fn julian_day_from_calendar(year: i32, month: u8, day: u8) -> (r: Option<i32>)
    ensures
        r is Some <==> valid_calendar_date(year as int, month as int, day as int),
        r is Some ==> r.unwrap() == day_index(year as int, month as int, day as int),
{
    let month = match time::Month::try_from(month) {
        Ok(m) => m,
        Err(_) => return None,
    };
    let date = match time::Date::from_calendar_date(year, month, day) {
        Ok(d) => d,
        Err(_) => return None,
    };
    Some(date.to_julian_day())
}

impl Timestamp {
    /// Builds the timestamp of a civil date and time of day.  Answers `None`
    /// for anything that is not a real calendar date and time, and for dates
    /// before the epoch, which lie outside the library's timeline.
    pub fn from_calendar(year: i32, month: u8, day: u8, hour: u8, minute: u8, second: u8) -> (r:
        Option<Timestamp>)
        ensures
            r is Some <==> valid_calendar_date(year as int, month as int, day as int) && hour < 24
                && minute < 60 && second < 60 && day_index(year as int, month as int, day as int)
                >= EPOCH_JULIAN_DAY,
            r is Some ==> r.unwrap().millis_since_epoch == (day_index(
                year as int,
                month as int,
                day as int,
            ) - EPOCH_JULIAN_DAY) * MILLIS_PER_DAY + hour * MILLIS_PER_HOUR + minute
                * MILLIS_PER_MINUTE + second * MILLIS_PER_SECOND,
    {
        let julian_day = match julian_day_from_calendar(year, month, day) {
            Some(j) => j,
            None => return None,
        };
        if julian_day < EPOCH_JULIAN_DAY || hour >= 24 || minute >= 60 || second >= 60 {
            return None;
        }
        let days_since_epoch: u64 = (julian_day - EPOCH_JULIAN_DAY) as u64;
        let millis: u64 = days_since_epoch * MILLIS_PER_DAY + (hour as u64) * MILLIS_PER_HOUR + (
        minute as u64) * MILLIS_PER_MINUTE + (second as u64) * MILLIS_PER_SECOND;
        Some(Timestamp { millis_since_epoch: millis })
    }
}

} // verus!
