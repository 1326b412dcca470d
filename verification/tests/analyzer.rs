use log_time_analyzer::analyzer::{format_duration, Analyzer, Interval};
use log_time_analyzer::parser::LogMatch;
use log_time_analyzer::report::{assess, Finding};
use log_time_analyzer::time::{Duration, Timestamp};

fn at(seconds: i64, nanos: u32) -> Timestamp {
    Timestamp::new(seconds, nanos).unwrap()
}

fn found(pattern: &str, seconds: i64, nanos: u32) -> LogMatch {
    LogMatch { pattern: pattern.to_string(), timestamp: at(seconds, nanos) }
}

#[test]
fn test_format_duration() {
    let duration = Duration::seconds(3661);
    assert_eq!(format_duration(&duration), "1h 1m 1s");

    let duration = Duration::seconds(125);
    assert_eq!(format_duration(&duration), "2m 5s");

    let duration = Duration::milliseconds(1500);
    assert_eq!(format_duration(&duration), "1s 500ms");

    let duration = Duration::milliseconds(500);
    assert_eq!(format_duration(&duration), "500ms");
}

#[test]
fn negative_durations_carry_a_sign() {
    assert_eq!(format_duration(&Duration::seconds(-3661)), "-1h 1m 1s");
    assert_eq!(format_duration(&Duration::seconds(-125)), "-2m 5s");
    assert_eq!(format_duration(&Duration::milliseconds(-1500)), "-1s 500ms");
    assert_eq!(format_duration(&Duration::milliseconds(-500)), "-500ms");
}

#[test]
fn duration_units_at_their_boundaries() {
    assert_eq!(format_duration(&Duration::milliseconds(0)), "0ms");
    assert_eq!(format_duration(&Duration::milliseconds(999)), "999ms");
    assert_eq!(format_duration(&Duration::milliseconds(1000)), "1s 0ms");
    assert_eq!(format_duration(&Duration::milliseconds(59_999)), "59s 999ms");
    assert_eq!(format_duration(&Duration::seconds(60)), "1m 0s");
    assert_eq!(format_duration(&Duration::milliseconds(61_250)), "1m 1s");
    assert_eq!(format_duration(&Duration::seconds(3599)), "59m 59s");
    assert_eq!(format_duration(&Duration::seconds(3600)), "1h 0m 0s");
    assert_eq!(format_duration(&Duration::seconds(360_000)), "100h 0m 0s");
    assert_eq!(format_duration(&Duration::milliseconds(5000)), "5s 0ms");
}

#[test]
fn duration_counts_round_toward_zero() {
    assert_eq!(Duration::milliseconds(1500).num_seconds(), 1);
    assert_eq!(Duration::milliseconds(-1500).num_seconds(), -1);
    assert_eq!(Duration::milliseconds(-1500).num_milliseconds(), -1500);
    assert_eq!(Duration::seconds(7).num_milliseconds(), 7000);
    assert!(Duration::milliseconds(-1).is_negative());
    assert!(!Duration::milliseconds(0).is_negative());
    let sub_milli = at(10, 999_999).signed_duration_since(&at(10, 0));
    assert_eq!(sub_milli.num_milliseconds(), 0);
    let backwards = at(10, 0).signed_duration_since(&at(10, 1_999_999));
    assert_eq!(backwards.num_milliseconds(), -1);
    assert_eq!(backwards.num_seconds(), 0);
    assert_eq!(format_duration(&backwards), "-1ms");
}

#[test]
fn analyze_of_nothing_is_nothing() {
    assert!(Analyzer::analyze(Vec::new()).is_empty());
}

#[test]
fn analyze_of_one_match_is_nothing() {
    assert!(Analyzer::analyze(vec![found("START", 0, 0)]).is_empty());
}

#[test]
fn analyze_links_neighbours_in_order() {
    let matches = vec![
        found("A", 100, 0),
        found("B", 105, 500_000_000),
        found("A", 105, 500_000_000),
        found("C", 3766, 0),
    ];
    let intervals = Analyzer::analyze(matches);
    assert_eq!(intervals.len(), 3);
    assert_eq!(intervals[0].from_pattern, "A");
    assert_eq!(intervals[0].to_pattern, "B");
    assert_eq!(intervals[0].duration.num_milliseconds(), 5500);
    assert_eq!(intervals[1].from_pattern, "B");
    assert_eq!(intervals[1].to_pattern, "A");
    assert_eq!(intervals[1].duration.num_milliseconds(), 0);
    assert_eq!(intervals[2].from_pattern, "A");
    assert_eq!(intervals[2].to_pattern, "C");
    assert_eq!(intervals[2].duration, Duration::milliseconds(3_660_500));
    assert_eq!(intervals[2].format_duration(), "1h 1m 0s");
}

#[test]
fn analyze_keeps_backward_steps() {
    let intervals = Analyzer::analyze(vec![found("LATE", 50, 0), found("EARLY", 20, 0)]);
    assert_eq!(intervals.len(), 1);
    assert_eq!(intervals[0].duration, Duration::seconds(-30));
    assert_eq!(intervals[0].format(), "LATE :::: -30s 0ms ::::> EARLY");
}

#[test]
fn interval_format_puts_duration_between_patterns() {
    let interval = Interval {
        from_pattern: "START".to_string(),
        to_pattern: "END".to_string(),
        duration: Duration::seconds(5),
    };
    assert_eq!(interval.format(), "START :::: 5s 0ms ::::> END");
    assert_eq!(interval.format_duration(), "5s 0ms");
}

#[test]
fn runs_are_judged_by_their_matches() {
    assert_eq!(assess(0, true), Finding::NothingDetected);
    assert_eq!(assess(0, false), Finding::NoMatches);
    assert_eq!(assess(1, true), Finding::NotEnoughMatches);
    assert_eq!(assess(1, false), Finding::NotEnoughMatches);
    assert_eq!(assess(2, true), Finding::Intervals);
    assert_eq!(assess(usize::MAX, false), Finding::Intervals);
}
