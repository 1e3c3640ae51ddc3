use touch::calendar::CivilDateTime;
use touch::stamp::{digit_of, parse_compact, parse_timestamp, read_field, stamp_moment, StampError};
use touch::calendar::Instant;

fn at(year: i32, month: u32, day: u32, hour: u32, minute: u32, second: u32) -> CivilDateTime {
    CivilDateTime { year, month, day, hour, minute, second }
}

#[test]
fn full_timestamp_names_every_field() {
    assert_eq!(parse_compact("202301011200", 1999), Ok(at(2023, 1, 1, 12, 0, 0)));
}

#[test]
fn seconds_are_read_after_the_dot() {
    assert_eq!(parse_compact("202301011200.30", 2026), Ok(at(2023, 1, 1, 12, 0, 30)));
    assert_eq!(parse_compact("01011200.59", 2026), Ok(at(2026, 1, 1, 12, 0, 59)));
    assert_eq!(parse_compact("2301011200.07", 2026), Ok(at(2023, 1, 1, 12, 0, 7)));
}

#[test]
fn ten_characters_write_the_year_and_take_the_century_from_now() {
    assert_eq!(parse_compact("0101120000", 2026), Ok(at(2001, 1, 12, 0, 0, 0)));
    assert_eq!(parse_compact("0101120000", 1987), Ok(at(1901, 1, 12, 0, 0, 0)));
}

#[test]
fn eight_characters_take_century_and_year_from_now() {
    assert_eq!(parse_compact("01011200", 2026), Ok(at(2026, 1, 1, 12, 0, 0)));
    assert_eq!(parse_compact("12312359", 1999), Ok(at(1999, 12, 31, 23, 59, 0)));
    assert_eq!(parse_compact("01011200", -150), Ok(at(-150, 1, 1, 12, 0, 0)));
}

#[test]
fn month_thirteen_names_no_date() {
    assert_eq!(parse_compact("13010112.00", 2026), Err(StampError::InvalidDate));
}

#[test]
fn all_nines_name_no_date() {
    assert_eq!(parse_compact("99999999", 2026), Err(StampError::InvalidDate));
    assert_eq!(parse_timestamp("99999999"), Err(StampError::InvalidDate));
}

#[test]
fn the_calendar_decides_the_29th_of_february() {
    assert_eq!(parse_compact("202402291200", 2026), Ok(at(2024, 2, 29, 12, 0, 0)));
    assert_eq!(parse_compact("202302291200", 2026), Err(StampError::InvalidDate));
    assert_eq!(parse_compact("200002290000", 2026), Ok(at(2000, 2, 29, 0, 0, 0)));
    assert_eq!(parse_compact("190002290000", 2026), Err(StampError::InvalidDate));
    assert_eq!(parse_compact("04310000", 2026), Err(StampError::InvalidDate));
    assert_eq!(parse_compact("04300000", 2026), Ok(at(2026, 4, 30, 0, 0, 0)));
    assert_eq!(parse_compact("00010000", 2026), Err(StampError::InvalidDate));
    assert_eq!(parse_compact("01000000", 2026), Err(StampError::InvalidDate));
}

#[test]
fn the_time_of_day_has_its_ranges() {
    assert_eq!(parse_compact("01012400", 2026), Err(StampError::InvalidDate));
    assert_eq!(parse_compact("01012360", 2026), Err(StampError::InvalidDate));
    assert_eq!(parse_compact("01012359.60", 2026), Err(StampError::InvalidDate));
    assert_eq!(parse_compact("01012359.59", 2026), Ok(at(2026, 1, 1, 23, 59, 59)));
}

#[test]
fn years_beyond_the_calendar_name_no_date() {
    assert_eq!(parse_compact("01011200", 262142), Ok(at(262142, 1, 1, 12, 0, 0)));
    assert_eq!(parse_compact("01011200", 262143), Err(StampError::InvalidDate));
    assert_eq!(parse_compact("01011200", -262143), Ok(at(-262143, 1, 1, 12, 0, 0)));
    assert_eq!(parse_compact("01011200", -262144), Err(StampError::InvalidDate));
    assert_eq!(parse_compact("01011200", i32::MAX), Err(StampError::InvalidDate));
    assert_eq!(parse_compact("01011200", i32::MIN), Err(StampError::InvalidDate));
    assert_eq!(parse_compact("9901011200", i32::MAX), Err(StampError::InvalidDate));
}

#[test]
fn short_timestamps_are_too_short() {
    assert_eq!(parse_compact("", 2026), Err(StampError::TooShort));
    assert_eq!(parse_compact("0101120", 2026), Err(StampError::TooShort));
    assert_eq!(parse_compact("010112.00", 2026), Err(StampError::TooShort));
    assert_eq!(parse_compact("01011200.0", 2026), Err(StampError::TooShort));
    assert_eq!(parse_compact(".", 2026), Err(StampError::TooShort));
}

#[test]
fn each_field_has_its_own_reason() {
    assert_eq!(parse_compact("xx2301011200", 2026), Err(StampError::InvalidCentury));
    assert_eq!(parse_compact("20x301011200", 2026), Err(StampError::InvalidYear));
    assert_eq!(parse_compact("2x01011200", 2026), Err(StampError::InvalidYear));
    assert_eq!(parse_compact("0x011200", 2026), Err(StampError::InvalidMonth));
    assert_eq!(parse_compact("010x1200", 2026), Err(StampError::InvalidDay));
    assert_eq!(parse_compact("0101 200", 2026), Err(StampError::InvalidHour));
    assert_eq!(parse_compact("0101120x", 2026), Err(StampError::InvalidMinute));
    assert_eq!(parse_compact("01011200.x0", 2026), Err(StampError::InvalidSecond));
    assert_eq!(parse_compact("01011200x.0", 2026), Err(StampError::InvalidSecond));
    assert_eq!(parse_compact("01.11200000", 2026), Err(StampError::InvalidDay));
    assert_eq!(parse_compact("\u{e9}\u{e9}011200", 2026), Err(StampError::InvalidMonth));
}

#[test]
fn the_first_bad_field_is_reported() {
    assert_eq!(parse_compact("xxxxxxxxxxxx", 2026), Err(StampError::InvalidCentury));
    assert_eq!(parse_compact("xxxxxxxxxx", 2026), Err(StampError::InvalidYear));
    assert_eq!(parse_compact("xxxxxxxx", 2026), Err(StampError::InvalidMonth));
    assert_eq!(parse_compact("01xxxxxx", 2026), Err(StampError::InvalidDay));
}

#[test]
fn a_field_may_carry_a_sign() {
    assert_eq!(parse_compact("+1+21200", 2026), Ok(at(2026, 1, 2, 12, 0, 0)));
    assert_eq!(parse_compact("-1011200", 2026), Err(StampError::InvalidMonth));
    assert_eq!(parse_compact("+12301011200", 2026), Ok(at(123, 1, 1, 12, 0, 0)));
    assert_eq!(parse_compact("-12301011200", 2026), Ok(at(-77, 1, 1, 12, 0, 0)));
    assert_eq!(parse_compact("20-301011200", 2026), Ok(at(1997, 1, 1, 12, 0, 0)));
    assert_eq!(parse_compact("1+011200", 2026), Err(StampError::InvalidMonth));
    assert_eq!(parse_compact("++011200", 2026), Err(StampError::InvalidMonth));
}

#[test]
fn other_lengths_are_read_as_the_shortest_layout() {
    assert_eq!(parse_compact("010112001", 2026), Ok(at(2026, 1, 1, 12, 0, 0)));
    assert_eq!(parse_compact("01011200.305", 2026), Ok(at(2026, 1, 1, 12, 0, 30)));
    assert_eq!(parse_compact("20230101120000", 2026), Err(StampError::InvalidDate));
}

#[test]
fn read_field_reads_two_characters() {
    assert_eq!(read_field('0', '7', false), Some(7));
    assert_eq!(read_field('9', '9', false), Some(99));
    assert_eq!(read_field('+', '4', false), Some(4));
    assert_eq!(read_field('-', '4', true), Some(-4));
    assert_eq!(read_field('-', '4', false), None);
    assert_eq!(read_field('4', '-', true), None);
    assert_eq!(read_field(' ', '4', true), None);
    assert_eq!(digit_of('5'), Some(5));
    assert_eq!(digit_of('a'), None);
    assert_eq!(digit_of('\u{663}'), None);
}

#[test]
fn reasons_in_words() {
    assert_eq!(StampError::TooShort.reason(), "timestamp is too short");
    assert_eq!(StampError::InvalidCentury.reason(), "invalid century");
    assert_eq!(StampError::InvalidYear.reason(), "invalid year");
    assert_eq!(StampError::InvalidMonth.reason(), "invalid month");
    assert_eq!(StampError::InvalidDay.reason(), "invalid day");
    assert_eq!(StampError::InvalidHour.reason(), "invalid hour");
    assert_eq!(StampError::InvalidMinute.reason(), "invalid minute");
    assert_eq!(StampError::InvalidSecond.reason(), "invalid second");
    assert_eq!(StampError::InvalidDate.reason(), "invalid date");
}

#[test]
fn stamp_moment_passes_errors_and_moments_on() {
    let t = Instant { secs: 5, nanos: 6 };
    let ok = Ok(at(2023, 1, 1, 12, 0, 0));
    assert_eq!(stamp_moment(ok, Some(t)), Ok(t));
    assert_eq!(stamp_moment(ok, None), Err(StampError::InvalidDate));
    assert_eq!(stamp_moment(Err(StampError::TooShort), Some(t)), Err(StampError::TooShort));
    assert_eq!(stamp_moment(Err(StampError::InvalidDay), None), Err(StampError::InvalidDay));
}

#[test]
fn parse_timestamp_is_within_a_day_of_universal_time() {
    let t = parse_timestamp("202301011200").unwrap();
    let utc = 1_672_574_400i64;
    assert!((t.secs - utc).abs() <= 86_400);
    assert_eq!(t.nanos, 0);
    let later = parse_timestamp("202301011200.30").unwrap();
    assert_eq!(later.secs - t.secs, 30);
    assert_eq!(parse_timestamp("0101"), Err(StampError::TooShort));
    assert_eq!(parse_timestamp("0x011200"), Err(StampError::InvalidMonth));
}

#[test]
fn parse_timestamp_follows_the_date_and_time_that_were_read() {
    let noon = parse_timestamp("202301011200").unwrap();
    let next_day = parse_timestamp("202301021200").unwrap();
    let next_hour = parse_timestamp("202301011300").unwrap();
    let next_year = parse_timestamp("202401011200").unwrap();
    assert!((next_day.secs - noon.secs - 86_400).abs() <= 7_200);
    assert!((next_hour.secs - noon.secs - 3_600).abs() <= 7_200);
    assert!(next_hour.secs > noon.secs);
    assert!((next_year.secs - noon.secs - 365 * 86_400).abs() <= 7_200);
    let old = parse_timestamp("197001021200").unwrap();
    assert!((old.secs - 129_600).abs() <= 86_400);
}
