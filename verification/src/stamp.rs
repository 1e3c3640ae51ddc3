//! The compact timestamp `[[CC]YY]MMDDhhmm[.ss]`.
//!
//! The fields are two characters wide and are read from the front. Which of
//! the century and the year are written is told from the length alone; a
//! length that fits none of the three layouts is read as the shortest one,
//! and what stands behind the last field is not looked at. Seconds that are
//! not written are zero.

use crate::arglex::{find_char, first_index};
use crate::calendar::{
    at_time_of_day, calendar_date, is_calendar_date, is_time_of_day, local_instant, read_clock,
    CivilDateTime, Instant,
};
use vstd::prelude::*;
use vstd::string::*;

verus! {

/// Why a compact timestamp was turned down.
#[derive(Debug, Clone, Copy, PartialEq, Eq, Structural)]
pub enum StampError {
    TooShort,
    InvalidCentury,
    InvalidYear,
    InvalidMonth,
    InvalidDay,
    InvalidHour,
    InvalidMinute,
    InvalidSecond,
    /// Every field is a number, but together they name no date and time.
    InvalidDate,
}

/// The words for each reason.
pub open spec fn reason_text(e: StampError) -> Seq<char> {
    match e {
        StampError::TooShort => "timestamp is too short"@,
        StampError::InvalidCentury => "invalid century"@,
        StampError::InvalidYear => "invalid year"@,
        StampError::InvalidMonth => "invalid month"@,
        StampError::InvalidDay => "invalid day"@,
        StampError::InvalidHour => "invalid hour"@,
        StampError::InvalidMinute => "invalid minute"@,
        StampError::InvalidSecond => "invalid second"@,
        StampError::InvalidDate => "invalid date"@,
    }
}

impl StampError {
    /// The reason in words.
    pub fn reason(&self) -> (words: String)
        ensures
            words@ == reason_text(*self),
    {
        match self {
            StampError::TooShort => String::from_str("timestamp is too short"),
            StampError::InvalidCentury => String::from_str("invalid century"),
            StampError::InvalidYear => String::from_str("invalid year"),
            StampError::InvalidMonth => String::from_str("invalid month"),
            StampError::InvalidDay => String::from_str("invalid day"),
            StampError::InvalidHour => String::from_str("invalid hour"),
            StampError::InvalidMinute => String::from_str("invalid minute"),
            StampError::InvalidSecond => String::from_str("invalid second"),
            StampError::InvalidDate => String::from_str("invalid date"),
        }
    }
}

/// The value of a decimal digit.
pub open spec fn digit(c: char) -> Option<int> {
    if '0' <= c && c <= '9' {
        Some(c as int - '0' as int)
    } else {
        None
    }
}

/// The number that a field of two characters writes: two digits, or a sign
/// and one digit. A minus sign is taken only where `signed` allows it.
pub open spec fn field_value(a: char, b: char, signed: bool) -> Option<int> {
    if digit(b) is None {
        None
    } else if digit(a) is Some {
        Some(10 * digit(a)->0 + digit(b)->0)
    } else if a == '+' {
        digit(b)
    } else if a == '-' && signed {
        Some(-digit(b)->0)
    } else {
        None
    }
}

/// The field that begins at position `at`.
pub open spec fn field(s: Seq<char>, at: int, signed: bool) -> Option<int> {
    field_value(s[at], s[at + 1], signed)
}

/// Whether the timestamp writes its seconds: it does where it holds a dot.
pub open spec fn has_seconds(s: Seq<char>) -> bool {
    first_index(s, '.') < s.len()
}

/// The length of the fields that every timestamp has.
pub open spec fn required_len(s: Seq<char>) -> int {
    if has_seconds(s) {
        11
    } else {
        8
    }
}

/// Whether the timestamp writes its century.
pub open spec fn has_century(s: Seq<char>) -> bool {
    s.len() == required_len(s) + 4
}

/// Whether the timestamp writes its year within the century.
pub open spec fn has_year(s: Seq<char>) -> bool {
    has_century(s) || s.len() == required_len(s) + 2
}

/// The position at which the month begins.
pub open spec fn month_at(s: Seq<char>) -> int {
    if has_century(s) {
        4
    } else if has_year(s) {
        2
    } else {
        0
    }
}

/// What is wrong with the timestamp's shape, whatever the year: the first
/// field, in the order in which they are written, that is no number, or
/// that the timestamp is too short to hold them.
pub open spec fn field_error(s: Seq<char>) -> Option<StampError> {
    let m = month_at(s);
    if s.len() < required_len(s) {
        Some(StampError::TooShort)
    } else if has_century(s) && field(s, 0, true) is None {
        Some(StampError::InvalidCentury)
    } else if has_year(s) && field(s, m - 2, true) is None {
        Some(StampError::InvalidYear)
    } else if field(s, m, false) is None {
        Some(StampError::InvalidMonth)
    } else if field(s, m + 2, false) is None {
        Some(StampError::InvalidDay)
    } else if field(s, m + 4, false) is None {
        Some(StampError::InvalidHour)
    } else if field(s, m + 6, false) is None {
        Some(StampError::InvalidMinute)
    } else if has_seconds(s) && (s[m + 8] != '.' || field(s, m + 9, false) is None) {
        Some(StampError::InvalidSecond)
    } else {
        None
    }
}

/// The century of a year, as a year: the year with its last two digits
/// struck out.
pub open spec fn century_of(year: int) -> int {
    if year >= 0 {
        year / 100 * 100
    } else {
        -((-year) / 100 * 100)
    }
}

/// The year that a well-shaped timestamp names, with the parts that it does
/// not write taken from the current year.
pub open spec fn stamp_year(s: Seq<char>, current_year: int) -> int {
    let century = if has_century(s) {
        field(s, 0, true)->0 * 100
    } else {
        century_of(current_year)
    };
    let year = if has_year(s) {
        field(s, month_at(s) - 2, true)->0
    } else {
        current_year - century_of(current_year)
    };
    century + year
}

/// The seconds that a well-shaped timestamp names.
pub open spec fn stamp_second(s: Seq<char>) -> int {
    if has_seconds(s) {
        field(s, month_at(s) + 9, false)->0
    } else {
        0
    }
}

/// Whether `at` holds the numbers that a well-shaped timestamp writes.
pub open spec fn reads_as(s: Seq<char>, current_year: int, at: CivilDateTime) -> bool {
    let m = month_at(s);
    &&& at.year == stamp_year(s, current_year)
    &&& at.month == field(s, m, false)->0
    &&& at.day == field(s, m + 2, false)->0
    &&& at.hour == field(s, m + 4, false)->0
    &&& at.minute == field(s, m + 6, false)->0
    &&& at.second == stamp_second(s)
}

/// Whether the numbers that a well-shaped timestamp writes are a date and a
/// time of day.
pub open spec fn names_a_moment(s: Seq<char>, current_year: int) -> bool {
    let m = month_at(s);
    &&& is_calendar_date(
        stamp_year(s, current_year),
        field(s, m, false)->0,
        field(s, m + 2, false)->0,
    )
    &&& is_time_of_day(field(s, m + 4, false)->0, field(s, m + 6, false)->0, stamp_second(s))
}

/// Whether `outcome` is what the timestamp `s` decodes to in the year
/// `current_year`.
pub open spec fn decodes_to(
    s: Seq<char>,
    current_year: int,
    outcome: Result<CivilDateTime, StampError>,
) -> bool {
    match outcome {
        Ok(at) => field_error(s) is None && names_a_moment(s, current_year) && reads_as(
            s,
            current_year,
            at,
        ),
        Err(e) => if e == StampError::InvalidDate {
            field_error(s) is None && !names_a_moment(s, current_year)
        } else {
            field_error(s) == Some(e)
        },
    }
}

/// The value of a decimal digit.
pub fn digit_of(c: char) -> (d: Option<u8>)
    ensures
        match d {
            Some(v) => digit(c) == Some(v as int) && v <= 9,
            None => digit(c) is None,
        },
{
    if '0' <= c && c <= '9' {
        Some((c as u32 - '0' as u32) as u8)
    } else {
        None
    }
}

/// Reads a field from its two characters.
pub fn read_field(a: char, b: char, signed: bool) -> (value: Option<i32>)
    ensures
        match value {
            Some(v) => field_value(a, b, signed) == Some(v as int) && -9 <= v <= 99 && (signed
                || v >= 0),
            None => field_value(a, b, signed) is None,
        },
{
    let low = match digit_of(b) {
        Some(d) => d as i32,
        None => {
            return None;
        },
    };
    match digit_of(a) {
        Some(high) => Some(10 * (high as i32) + low),
        None => if a == '+' {
            Some(low)
        } else if a == '-' && signed {
            Some(-low)
        } else {
            None
        },
    }
}

/// Reads the field that begins at `at`, which takes no minus sign.
fn read_unsigned(s: &str, at: usize) -> (value: Option<u32>)
    requires
        at <= 20,
        at + 2 <= s@.len(),
    ensures
        match value {
            Some(v) => field(s@, at as int, false) == Some(v as int) && v <= 99,
            None => field(s@, at as int, false) is None,
        },
{
    match read_field(s.get_char(at), s.get_char(at + 1), false) {
        Some(v) => Some(v as u32),
        None => None,
    }
}

/// Decodes a compact timestamp in the given current year, which stands in
/// for the century and the year that the timestamp does not write.
pub fn parse_compact(s: &str, current_year: i32) -> (outcome: Result<CivilDateTime, StampError>)
    ensures
        decodes_to(s@, current_year as int, outcome),
        outcome matches Ok(at) ==> at.valid(),
{
    let n = s.unicode_len();
    let seconds = find_char(s, '.').is_some();
    let required: usize = if seconds {
        11
    } else {
        8
    };
    if n < required {
        return Err(StampError::TooShort);
    }
    let century_written = n == required + 4;
    let year_written = century_written || n == required + 2;
    let m: usize = if century_written {
        4
    } else if year_written {
        2
    } else {
        0
    };
    let now = current_year as i64;
    let now_century: i64 = if now >= 0 {
        now / 100 * 100
    } else {
        -((-now) / 100 * 100)
    };
    let century: i64 = if century_written {
        match read_field(s.get_char(0), s.get_char(1), true) {
            Some(c) => (c as i64) * 100,
            None => {
                return Err(StampError::InvalidCentury);
            },
        }
    } else {
        now_century
    };
    let year: i64 = if year_written {
        match read_field(s.get_char(m - 2), s.get_char(m - 1), true) {
            Some(y) => y as i64,
            None => {
                return Err(StampError::InvalidYear);
            },
        }
    } else {
        now - now_century
    };
    let month = match read_unsigned(s, m) {
        Some(v) => v,
        None => {
            return Err(StampError::InvalidMonth);
        },
    };
    let day = match read_unsigned(s, m + 2) {
        Some(v) => v,
        None => {
            return Err(StampError::InvalidDay);
        },
    };
    let hour = match read_unsigned(s, m + 4) {
        Some(v) => v,
        None => {
            return Err(StampError::InvalidHour);
        },
    };
    let minute = match read_unsigned(s, m + 6) {
        Some(v) => v,
        None => {
            return Err(StampError::InvalidMinute);
        },
    };
    let second: u32 = if seconds {
        if s.get_char(m + 8) != '.' {
            return Err(StampError::InvalidSecond);
        }
        match read_unsigned(s, m + 9) {
            Some(v) => v,
            None => {
                return Err(StampError::InvalidSecond);
            },
        }
    } else {
        0
    };
    let full_year = century + year;
    if full_year < i32::MIN as i64 || full_year > i32::MAX as i64 {
        return Err(StampError::InvalidDate);
    }
    let at = CivilDateTime { year: full_year as i32, month, day, hour, minute, second };
    let date = match calendar_date(at.year, month, day) {
        Some(date) => date,
        None => {
            return Err(StampError::InvalidDate);
        },
    };
    match at_time_of_day(&date, hour, minute, second) {
        Some(_) => Ok(at),
        None => Err(StampError::InvalidDate),
    }
}

/// The year that a well-shaped timestamp names is the current year where
/// it writes neither century nor year, keeps the current century where it
/// writes the year alone, and does not depend on the current year where it
/// writes both.
pub proof fn lemma_stamp_year(s: Seq<char>, current_year: int, other_year: int)
    ensures
        !has_year(s) ==> stamp_year(s, current_year) == current_year,
        has_year(s) && !has_century(s) ==> stamp_year(s, current_year) == century_of(current_year)
            + field(s, 0, true)->0,
        has_century(s) ==> stamp_year(s, current_year) == stamp_year(s, other_year),
        field_error(s) is Some ==> forall|outcome: Result<CivilDateTime, StampError>|
            decodes_to(s, current_year, outcome) == decodes_to(s, other_year, outcome),
{
}

/// Whether `outcome` can be what a timestamp comes to on some machine at
/// some time: a fault in its shape is reported as it is, and a well-shaped
/// one names no date, or gives a moment where its numbers are a date and a
/// time of day in some year.
pub open spec fn admits(s: Seq<char>, outcome: Result<Instant, StampError>) -> bool {
    match field_error(s) {
        Some(e) => outcome == Err::<Instant, StampError>(e),
        None => outcome == Err::<Instant, StampError>(StampError::InvalidDate) || (outcome is Ok
            && exists|year: int| #[trigger] names_a_moment(s, year)),
    }
}

/// The moment for a decoded timestamp, given what the local clock made of
/// it: a date and time that the local clock never shows is no date.
pub fn stamp_moment(
    decoded: Result<CivilDateTime, StampError>,
    shown: Option<Instant>,
) -> (outcome: Result<Instant, StampError>)
    ensures
        outcome == match decoded {
            Err(e) => Err::<Instant, StampError>(e),
            Ok(_) => match shown {
                Some(t) => Ok::<Instant, StampError>(t),
                None => Err::<Instant, StampError>(StampError::InvalidDate),
            },
        },
{
    match decoded {
        Err(e) => Err(e),
        Ok(_) => match shown {
            Some(t) => Ok(t),
            None => Err(StampError::InvalidDate),
        },
    }
}

/// Decodes a compact timestamp against the local clock: the current year
/// fills in what the timestamp does not write, and the date and time are
/// taken as local time.
pub fn parse_timestamp(s: &str) -> (outcome: Result<Instant, StampError>)
    ensures
        admits(s@, outcome),
{
    match parse_compact(s, read_clock().year) {
        Ok(at) => stamp_moment(Ok(at), local_instant(&at)),
        Err(e) => stamp_moment(Err(e), None),
    }
}

} // verus!
