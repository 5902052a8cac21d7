use chrono::{DateTime, TimeDelta, Utc};
use kobo_db_tools::time::parse_timestamp;
use kobo_db_tools::{DecodeError, ReadingSession, Timestamp};

fn at(text: &str) -> Timestamp {
    parse_timestamp(text).unwrap()
}

fn to_chrono(instant: Timestamp) -> DateTime<Utc> {
    DateTime::from_timestamp(instant.seconds, instant.nanos).unwrap()
}

/// The window test as `chrono` computes it.
fn chrono_within(ts: Timestamp, start: Timestamp, end: Timestamp, tolerance: i64) -> bool {
    let reach = TimeDelta::seconds(tolerance);
    to_chrono(ts) >= to_chrono(start) - reach && to_chrono(ts) <= to_chrono(end) + reach
}

#[test]
fn a_timestamp_is_read_as_seconds_since_1970() {
    assert_eq!(at("1970-01-01T00:00:00Z"), Timestamp::new(0, 0));
    assert_eq!(at("2023-01-01T10:00:00Z"), Timestamp::new(1_672_567_200, 0));
    assert_eq!(at("2023-01-01T10:00:00.25Z"), Timestamp::new(1_672_567_200, 250_000_000));
    assert_eq!(at("1969-12-31T23:59:59Z"), Timestamp::new(-1, 0));
}

#[test]
fn an_offset_is_taken_to_utc() {
    assert_eq!(at("2023-01-01T12:00:00+02:00"), at("2023-01-01T10:00:00Z"));
    assert_eq!(at("2023-01-01 10:00:00Z"), at("2023-01-01T10:00:00Z"));
}

#[test]
fn a_text_that_is_no_instant_is_not_read() {
    assert_eq!(parse_timestamp(""), Err(DecodeError::Timestamp));
    assert_eq!(parse_timestamp("yesterday"), Err(DecodeError::Timestamp));
    assert_eq!(parse_timestamp("2023-01-01"), Err(DecodeError::Timestamp));
    assert_eq!(parse_timestamp("2023-13-01T10:00:00Z"), Err(DecodeError::Timestamp));
    assert_eq!(parse_timestamp("2023-01-01T10:00:00"), Err(DecodeError::Timestamp));
}

#[test]
fn a_leap_second_keeps_its_second() {
    let leap = at("2016-12-31T23:59:60Z");
    let before = at("2016-12-31T23:59:59Z");
    let after = at("2017-01-01T00:00:00Z");
    assert_eq!(leap.seconds, before.seconds);
    assert_eq!(leap.nanos, 1_000_000_000);
    assert!(before.is_before(leap));
    assert!(leap.is_before(after));
    assert!(to_chrono(before) < to_chrono(leap));
    assert!(to_chrono(leap) < to_chrono(after));
}

#[test]
fn instants_are_ordered_by_seconds_then_nanoseconds() {
    let a = Timestamp::new(10, 5);
    let b = Timestamp::new(10, 6);
    let c = Timestamp::new(11, 0);
    assert!(a.is_at_or_before(a));
    assert!(!a.is_before(a));
    assert!(a.is_before(b));
    assert!(b.is_before(c));
    assert!(!c.is_at_or_before(a));
    assert!(Timestamp::new(-5, 0).is_before(Timestamp::new(-4, 0)));
}

#[test]
fn the_window_includes_both_widened_ends() {
    let start = at("2023-01-01T10:00:00Z");
    let end = at("2023-01-01T10:10:00Z");
    assert!(at("2023-01-01T09:59:30Z").is_within(start, end, 30));
    assert!(!at("2023-01-01T09:59:29.999Z").is_within(start, end, 30));
    assert!(at("2023-01-01T10:10:30Z").is_within(start, end, 30));
    assert!(!at("2023-01-01T10:10:30.001Z").is_within(start, end, 30));
    assert!(at("2023-01-01T10:05:00Z").is_within(start, end, 0));
    assert!(at("2023-01-01T10:00:00Z").is_within(start, end, 0));
    assert!(at("2023-01-01T10:10:00Z").is_within(start, end, 0));
    assert!(!at("2023-01-01T10:10:01Z").is_within(start, end, 0));
    assert!(!at("2023-01-01T09:59:59Z").is_within(start, end, 0));
}

#[test]
fn the_window_agrees_with_chrono() {
    let instants = [
        at("2016-12-31T23:59:00Z"),
        at("2016-12-31T23:59:29.5Z"),
        at("2016-12-31T23:59:30Z"),
        at("2016-12-31T23:59:30.5Z"),
        at("2016-12-31T23:59:59Z"),
        at("2016-12-31T23:59:59.5Z"),
        at("2016-12-31T23:59:60Z"),
        at("2016-12-31T23:59:60.5Z"),
        at("2017-01-01T00:00:00Z"),
        at("2017-01-01T00:00:00.5Z"),
        at("2017-01-01T00:00:29.5Z"),
        at("2017-01-01T00:00:30Z"),
        at("2017-01-01T00:00:30.5Z"),
        at("2017-01-01T00:01:00Z"),
    ];
    for tolerance in [0u64, 1, 30, 60] {
        for start in instants {
            for end in instants {
                for ts in instants {
                    assert_eq!(
                        ts.is_within(start, end, tolerance),
                        chrono_within(ts, start, end, tolerance as i64),
                        "{:?} in {:?}..{:?} with {}",
                        ts,
                        start,
                        end,
                        tolerance
                    );
                }
            }
        }
    }
}

#[test]
fn a_span_includes_its_start_and_not_its_end() {
    let start = at("2023-01-01T10:00:00Z");
    let end = at("2023-01-01T12:00:00Z");
    assert!(start.is_in_span(start, Some(end)));
    assert!(at("2023-01-01T11:59:59.999Z").is_in_span(start, Some(end)));
    assert!(!end.is_in_span(start, Some(end)));
    assert!(!at("2023-01-01T09:59:59Z").is_in_span(start, Some(end)));
    assert!(end.is_in_span(start, None));
    assert!(at("2099-01-01T00:00:00Z").is_in_span(start, None));
    assert!(!at("2023-01-01T09:59:59Z").is_in_span(start, None));
    assert!(!start.is_in_span(start, Some(start)));
}

#[test]
fn the_day_number_counts_days_since_1970() {
    assert_eq!(at("1970-01-01T00:00:00Z").day_number(), 0);
    assert_eq!(at("1970-01-01T23:59:59Z").day_number(), 0);
    assert_eq!(at("1970-01-02T00:00:00Z").day_number(), 1);
    assert_eq!(at("1969-12-31T23:59:59Z").day_number(), -1);
    assert_eq!(at("1969-12-31T00:00:00Z").day_number(), -1);
    assert_eq!(at("1969-12-30T23:59:59Z").day_number(), -2);
    assert_eq!(at("2023-01-01T10:00:00Z").day_number(), 19_358);
    assert_eq!(Timestamp::new(i64::MIN, 0).day_number(), i64::MIN.div_euclid(86_400));
    assert_eq!(Timestamp::new(i64::MAX, 0).day_number(), i64::MAX / 86_400);
}

#[test]
fn the_day_number_agrees_with_chrono() {
    let epoch = chrono::NaiveDate::from_ymd_opt(1970, 1, 1).unwrap();
    for text in [
        "1600-02-29T12:00:00Z",
        "1969-12-31T23:59:59Z",
        "1970-01-01T00:00:00Z",
        "2016-12-31T23:59:60Z",
        "2023-01-01T10:00:00Z",
        "2024-02-29T23:59:59.999999999Z",
    ] {
        let instant = at(text);
        let date = to_chrono(instant).date_naive();
        assert_eq!(instant.day_number(), date.signed_duration_since(epoch).num_days());
    }
}

fn lasting(start: Timestamp, end: Timestamp) -> Option<i64> {
    let mut session = ReadingSession::with_id(1, start, 0, None, None, "open".to_string());
    session.time_end = Some(end);
    session.duration()
}

#[test]
fn the_seconds_between_two_instants_are_counted() {
    let start = at("2023-01-01T10:00:00Z");
    assert_eq!(lasting(start, at("2023-01-01T10:10:00Z")), Some(600));
    assert_eq!(lasting(start, at("2023-01-01T10:00:00.999Z")), Some(0));
    assert_eq!(lasting(start, at("2023-01-01T09:59:00Z")), Some(-60));
    assert_eq!(lasting(start, start), Some(0));
    assert_eq!(lasting(Timestamp::new(0, 0), Timestamp::new(i64::MAX, 0)), None);
}

#[test]
fn the_range_of_instants_is_that_of_chrono() {
    assert_eq!(DateTime::<Utc>::MIN_UTC.timestamp(), kobo_db_tools::time::FIRST_SECOND);
    assert_eq!(DateTime::<Utc>::MAX_UTC.timestamp(), kobo_db_tools::time::LAST_SECOND);
    let first = Timestamp::new(kobo_db_tools::time::FIRST_SECOND, 0);
    let last = Timestamp::new(kobo_db_tools::time::LAST_SECOND, 999_999_999);
    assert_eq!(
        lasting(first, last),
        Some(kobo_db_tools::time::LAST_SECOND - kobo_db_tools::time::FIRST_SECOND)
    );
    assert_eq!(lasting(last, first), Some(kobo_db_tools::time::FIRST_SECOND - kobo_db_tools::time::LAST_SECOND));
    let before = Timestamp::new(kobo_db_tools::time::FIRST_SECOND - 1, 999_999_999);
    let after = Timestamp::new(kobo_db_tools::time::LAST_SECOND + 1, 0);
    assert_eq!(lasting(before, last), None);
    assert_eq!(lasting(first, after), None);
    assert_eq!(lasting(after, first), None);
    assert_eq!(lasting(Timestamp::new(i64::MIN, 0), first), None);
}

/// The whole seconds from one instant to another, the part of a second
/// dropped toward zero.
fn whole_seconds(start: Timestamp, end: Timestamp) -> i64 {
    let nanos = (end.seconds as i128 - start.seconds as i128) * 1_000_000_000
        + (end.nanos as i128 - start.nanos as i128);
    (nanos / 1_000_000_000) as i64
}

#[test]
fn the_seconds_between_ordinary_instants_drop_the_part_of_a_second() {
    let seconds = [-86_401i64, -86_400, -61, -1, 0, 1, 59, 60, 86_399, 86_400, 1_672_567_200];
    let nanos = [0u32, 1, 499_999_999, 500_000_000, 999_999_999];
    for a in seconds {
        for x in nanos {
            for b in seconds {
                for y in nanos {
                    let start = Timestamp::new(a, x);
                    let end = Timestamp::new(b, y);
                    assert_eq!(
                        lasting(start, end),
                        Some(whole_seconds(start, end)),
                        "{:?} to {:?}",
                        start,
                        end
                    );
                }
            }
        }
    }
    assert_eq!(lasting(Timestamp::new(10, 900_000_000), Timestamp::new(11, 100_000_000)), Some(0));
    assert_eq!(lasting(Timestamp::new(11, 100_000_000), Timestamp::new(10, 900_000_000)), Some(0));
    assert_eq!(lasting(Timestamp::new(11, 0), Timestamp::new(9, 999_999_999)), Some(-1));
}
