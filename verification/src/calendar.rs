//! Calendar dates and times of day, and the clock behind them.

use chrono::{DateTime, Datelike, Local, NaiveDate, NaiveDateTime, TimeZone};
use vstd::prelude::*;

verus! {

/// The first year that the calendar holds.
pub const MIN_YEAR: i32 = -262143;

/// The last year that the calendar holds.
pub const MAX_YEAR: i32 = 262142;

/// A date and a time of day, with no time zone.
#[derive(Debug, Clone, Copy, PartialEq, Eq, Structural)]
pub struct CivilDateTime {
    pub year: i32,
    pub month: u32,
    pub day: u32,
    pub hour: u32,
    pub minute: u32,
    pub second: u32,
}

/// A point in time: seconds since the start of 1970 in universal time, and
/// the nanoseconds into that second.
#[derive(Debug, Clone, Copy, PartialEq, Eq, Structural)]
pub struct Instant {
    pub secs: i64,
    pub nanos: u32,
}

/// Whether a year of the proleptic Gregorian calendar has a 29th of February.
pub open spec fn is_leap_year(year: int) -> bool {
    year % 4 == 0 && (year % 100 != 0 || year % 400 == 0)
}

/// The number of days of a month, for a month from 1 to 12.
pub open spec fn days_in_month(year: int, month: int) -> int {
    if month == 2 {
        if is_leap_year(year) {
            29int
        } else {
            28int
        }
    } else if month == 4 || month == 6 || month == 9 || month == 11 {
        30int
    } else {
        31int
    }
}

/// Whether the day exists in the calendar.
pub open spec fn is_calendar_date(year: int, month: int, day: int) -> bool {
    &&& MIN_YEAR <= year <= MAX_YEAR
    &&& 1 <= month <= 12
    &&& 1 <= day <= days_in_month(year, month)
}

/// Whether the three numbers are a time of day.
pub open spec fn is_time_of_day(hour: int, minute: int, second: int) -> bool {
    0 <= hour < 24 && 0 <= minute < 60 && 0 <= second < 60
}

impl CivilDateTime {
    /// Whether the date exists and the time is a time of day.
    pub open spec fn valid(&self) -> bool {
        &&& is_calendar_date(self.year as int, self.month as int, self.day as int)
        &&& is_time_of_day(self.hour as int, self.minute as int, self.second as int)
    }
}

/// chrono's date without a time zone, carried from one call to the next.
#[verifier::external_type_specification]
#[verifier::external_body]
pub struct ExNaiveDate(NaiveDate);

/// chrono's date and time without a time zone, carried from one call to
/// the next.
#[verifier::external_type_specification]
#[verifier::external_body]
pub struct ExNaiveDateTime(NaiveDateTime);

/// What the local clock shows at one reading.
#[derive(Debug, Clone, Copy, PartialEq, Eq, Structural)]
pub struct Reading {
    /// The present moment.
    pub moment: Instant,
    /// The year in local time.
    pub year: i32,
}

/// Makes a date, through chrono's `NaiveDate::from_ymd_opt`. Trusted: that
/// there is one for exactly the days of the proleptic Gregorian calendar in
/// the years from `MIN_YEAR` to `MAX_YEAR`.
#[verifier::external_body]
pub(crate) fn calendar_date(year: i32, month: u32, day: u32) -> (date: Option<NaiveDate>)
    ensures
        date is Some == is_calendar_date(year as int, month as int, day as int),
{
    NaiveDate::from_ymd_opt(year, month, day)
}

/// Adds a time of day to a date, through chrono's `NaiveDate::and_hms_opt`.
/// Trusted: that it does so for exactly the hours below 24 and the minutes
/// and seconds below 60.
#[verifier::external_body]
pub(crate) fn at_time_of_day(date: &NaiveDate, hour: u32, minute: u32, second: u32) -> (at: Option<
    NaiveDateTime,
>)
    ensures
        at is Some == is_time_of_day(hour as int, minute as int, second as int),
{
    date.and_hms_opt(hour, minute, second)
}

/// Reads the local clock, through chrono's `Local::now`. Nothing is claimed
/// of what it shows.
#[verifier::external_body]
pub(crate) fn read_clock() -> Reading {
    let t = Local::now();
    Reading {
        moment: Instant { secs: t.timestamp(), nanos: t.timestamp_subsec_nanos() },
        year: t.year(),
    }
}

/// The moment at which the local clock shows the given date and time: the
/// numbers are made into chrono's date and time with
/// `NaiveDate::from_ymd_opt` and `NaiveDate::and_hms_opt`, and handed to
/// `TimeZone::from_local_datetime` on `Local`, of whose answer `earliest`
/// is taken: the earlier moment where the clock shows the time twice, and
/// none where the clock skips it. Nothing is claimed of the result: it
/// depends on the machine's time zone.
#[verifier::external_body]
pub(crate) fn local_instant(at: &CivilDateTime) -> Option<Instant>
    requires
        at.valid(),
{
    let date = NaiveDate::from_ymd_opt(at.year, at.month, at.day)?;
    let naive = date.and_hms_opt(at.hour, at.minute, at.second)?;
    let t = Local.from_local_datetime(&naive).earliest()?;
    Some(Instant { secs: t.timestamp(), nanos: t.timestamp_subsec_nanos() })
}

/// What chrono's `DateTime::parse_from_rfc3339` makes of a text: the moment
/// that it names, or the parser's complaint.
pub uninterp spec fn rfc3339_reading(text: Seq<char>) -> Result<Instant, Seq<char>>;

/// Reads a date in the RFC 3339 format, through chrono's
/// `DateTime::parse_from_rfc3339`. Trusted: only that the same text always
/// reads the same.
#[verifier::external_body]
pub(crate) fn read_rfc3339(text: &str) -> (reading: Result<Instant, String>)
    ensures
        match reading {
            Ok(t) => rfc3339_reading(text@) == Ok::<Instant, Seq<char>>(t),
            Err(why) => rfc3339_reading(text@) == Err::<Instant, Seq<char>>(why@),
        },
{
    match DateTime::parse_from_rfc3339(text) {
        Ok(t) => Ok(Instant { secs: t.timestamp(), nanos: t.timestamp_subsec_nanos() }),
        Err(e) => Err(e.to_string()),
    }
}

} // verus!
