use chrono::{NaiveDate, NaiveDateTime};
use log_time_analyzer::time::{Duration, Timestamp, MAX_SECONDS, MIN_SECONDS};

fn of(t: NaiveDateTime) -> Timestamp {
    Timestamp::new(t.and_utc().timestamp(), t.and_utc().timestamp_subsec_nanos()).unwrap()
}

fn at(y: i32, mo: u32, d: u32, h: u32, mi: u32, s: u32, milli: u32) -> NaiveDateTime {
    NaiveDate::from_ymd_opt(y, mo, d).unwrap().and_hms_milli_opt(h, mi, s, milli).unwrap()
}

#[test]
fn bounds_are_those_of_the_calendar() {
    assert_eq!(NaiveDateTime::MIN.and_utc().timestamp(), MIN_SECONDS);
    assert_eq!(NaiveDateTime::MAX.and_utc().timestamp(), MAX_SECONDS);
    assert!(Timestamp::new(MIN_SECONDS, 0).is_some());
    assert!(Timestamp::new(MIN_SECONDS - 1, 0).is_none());
    assert!(Timestamp::new(MAX_SECONDS, 999_999_999).is_some());
    assert!(Timestamp::new(MAX_SECONDS + 1, 0).is_none());
    assert!(Timestamp::new(i64::MIN, 0).is_none());
    assert!(Timestamp::new(i64::MAX, 0).is_none());
}

#[test]
fn leap_second_only_after_second_59() {
    assert!(Timestamp::new(59, 1_000_000_000).is_some());
    assert!(Timestamp::new(59, 1_999_999_999).is_some());
    assert!(Timestamp::new(59, 2_000_000_000).is_none());
    assert!(Timestamp::new(58, 1_000_000_000).is_none());
    assert!(Timestamp::new(60, 1_000_000_000).is_none());
    assert!(Timestamp::new(-1, 1_000_000_000).is_some());
    assert!(Timestamp::new(-2, 1_000_000_000).is_none());
    assert!(Timestamp::new(-61, 1_500_000_000).is_some());
    assert!(Timestamp::new(0, 999_999_999).is_some());
}

#[test]
fn new_agrees_with_chrono_on_what_exists() {
    let seconds = [MIN_SECONDS - 1, MIN_SECONDS, -61, -60, -2, -1, 0, 58, 59, 119, MAX_SECONDS, MAX_SECONDS + 1];
    let nanos = [0, 1, 999_999_999, 1_000_000_000, 1_999_999_999, 2_000_000_000, u32::MAX];
    for s in seconds {
        for n in nanos {
            let expected = chrono::DateTime::from_timestamp(s, n);
            let made = Timestamp::new(s, n);
            assert_eq!(made.is_some(), expected.is_some(), "{} {}", s, n);
            if let Some(t) = made {
                assert_eq!(t.timestamp(), s);
                assert_eq!(t.timestamp_subsec_nanos(), n);
            }
        }
    }
}

#[test]
fn parse_reads_what_chrono_reads() {
    let read = Timestamp::parse_from_str("2025-01-01 00:00:05", "%Y-%m-%d %H:%M:%S").unwrap();
    assert_eq!(read.timestamp(), 1_735_689_605);
    assert_eq!(read.timestamp_subsec_nanos(), 0);
    let read = Timestamp::parse_from_str("1969-12-31 23:59:59.25", "%Y-%m-%d %H:%M:%S%.f").unwrap();
    assert_eq!(read.timestamp(), -1);
    assert_eq!(read.timestamp_subsec_nanos(), 250_000_000);
    let read = Timestamp::parse_from_str("2015-07-01 08:59:60.123", "%Y-%m-%d %H:%M:%S%.f").unwrap();
    assert_eq!(read.timestamp(), 1_435_741_199);
    assert_eq!(read.timestamp_subsec_nanos(), 1_123_000_000);
    // An offset in the text is read and not applied.
    let read = Timestamp::parse_from_str("13/Nov/2025:10:00:00 +0500", "%d/%b/%Y:%H:%M:%S %z").unwrap();
    assert_eq!(read.timestamp(), 1_763_028_000);
}

#[test]
fn parse_rejects_what_chrono_rejects() {
    assert!(Timestamp::parse_from_str("2025-01-01", "%Y-%m-%d %H:%M:%S").is_none());
    assert!(Timestamp::parse_from_str("2025-02-30 00:00:00", "%Y-%m-%d %H:%M:%S").is_none());
    assert!(Timestamp::parse_from_str("2025-01-01 00:00:00 tail", "%Y-%m-%d %H:%M:%S").is_none());
    assert!(Timestamp::parse_from_str("Nov 13 10:00:00", "%b %d %H:%M:%S").is_none());
    assert!(Timestamp::parse_from_str("2025-01-01 00:00:00", "%Y-%m-%d %H:%M:%S %").is_none());
    assert!(Timestamp::parse_from_str("", "").is_none());
}

#[test]
fn subtraction_is_the_difference_of_the_counts() {
    let a = Timestamp::new(100, 250_000_000).unwrap();
    let b = Timestamp::new(103, 100_000_000).unwrap();
    assert_eq!(b.signed_duration_since(&a).num_milliseconds(), 2850);
    assert_eq!(a.signed_duration_since(&b).num_milliseconds(), -2850);
    assert_eq!(a.signed_duration_since(&a), Duration::seconds(0));
    let far = Timestamp::new(MAX_SECONDS, 999_999_999)
        .unwrap()
        .signed_duration_since(&Timestamp::new(MIN_SECONDS, 0).unwrap());
    assert_eq!(far.num_seconds(), 16_544_868_105_599);
    assert_eq!(far.num_milliseconds(), 16_544_868_105_599_999);
}

#[test]
fn subtraction_counts_a_leap_second_once() {
    let leap = of(at(2015, 6, 30, 23, 59, 59, 1_500));
    let before = of(at(2015, 6, 30, 23, 0, 0, 0));
    let after = of(at(2015, 7, 1, 1, 0, 0, 0));
    assert_eq!(leap.signed_duration_since(&before).num_milliseconds(), 3_600_500);
    assert_eq!(after.signed_duration_since(&leap).num_milliseconds(), 3_599_500);
    assert_eq!(before.signed_duration_since(&leap).num_milliseconds(), -3_600_500);

    let first = of(at(2015, 6, 30, 2, 59, 59, 1_000));
    let second = of(at(2015, 6, 30, 3, 0, 59, 1_000));
    let plain = of(at(2015, 6, 30, 3, 0, 0, 0));
    assert_eq!(second.signed_duration_since(&first), Duration::seconds(61));
    assert_eq!(plain.signed_duration_since(&first), Duration::seconds(1));
    assert_eq!(first.signed_duration_since(&second), Duration::seconds(-61));
}

#[test]
fn subtraction_agrees_with_chrono() {
    let moments = [
        at(1969, 12, 31, 23, 59, 59, 1_999),
        at(1970, 1, 1, 0, 0, 0, 0),
        at(2015, 6, 30, 23, 59, 59, 1_500),
        at(2015, 6, 30, 23, 59, 59, 500),
        at(2015, 7, 1, 0, 0, 0, 0),
        at(2015, 7, 2, 23, 59, 59, 1_000),
        at(2016, 2, 29, 12, 30, 59, 1_250),
        at(2025, 11, 13, 10, 0, 0, 123),
        at(-4000, 3, 1, 0, 0, 59, 1_000),
        NaiveDateTime::MIN,
        NaiveDateTime::MAX,
    ];
    for a in moments {
        for b in moments {
            let expected = a.signed_duration_since(b);
            let got = of(a).signed_duration_since(&of(b));
            assert_eq!(got.num_seconds(), expected.num_seconds(), "{} - {}", a, b);
            assert_eq!(got.num_milliseconds(), expected.num_milliseconds(), "{} - {}", a, b);
            assert_eq!(got.is_negative(), expected < chrono::TimeDelta::zero(), "{} - {}", a, b);
        }
    }
}

#[test]
fn duration_constructors_agree_with_chrono() {
    for n in [0i64, 1, -1, 59, 3661, -3661, 9_223_372_036_854_775, -9_223_372_036_854_775] {
        let expected = chrono::TimeDelta::seconds(n);
        let made = Duration::seconds(n);
        assert_eq!(made.num_seconds(), expected.num_seconds());
        assert_eq!(made.num_milliseconds(), expected.num_milliseconds());
    }
    for n in [0i64, 1, -1, 999, -999, 1500, -1500, i64::MAX, -i64::MAX] {
        let expected = chrono::TimeDelta::milliseconds(n);
        let made = Duration::milliseconds(n);
        assert_eq!(made.num_seconds(), expected.num_seconds());
        assert_eq!(made.num_milliseconds(), expected.num_milliseconds());
    }
    assert_eq!(Duration::seconds(2), Duration::milliseconds(2000));
}
