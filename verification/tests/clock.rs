use tradebot::clock::{
    checked_against, enforce_clock_discipline, judge_offset, measure_offset, offset_millis, time_server, unchecked,
    ClockCheck, Drift, REFUSE_THRESHOLD_MS, WARN_THRESHOLD_MS,
};
use tradebot::time::Moment;

#[test]
fn test_thresholds() {
    assert!(WARN_THRESHOLD_MS < REFUSE_THRESHOLD_MS);
    assert_eq!(WARN_THRESHOLD_MS, 500);
    assert_eq!(REFUSE_THRESHOLD_MS / 1000, 2);
}

#[test]
fn test_clock_check_acceptable() {
    let check = ClockCheck { offset_ms: 100, acceptable: true, source: "test".into() };
    assert!(check.acceptable);
    assert!(checked_against("test", 100).acceptable);
}

#[test]
fn test_clock_check_unacceptable() {
    let check = ClockCheck { offset_ms: 3000, acceptable: false, source: "test".into() };
    assert!(!check.acceptable);
    assert!(!checked_against("test", 3000).acceptable);
}

#[test]
fn test_clock_skew_thresholds() {
    let check = ClockCheck { offset_ms: 200, acceptable: true, source: "test".into() };
    assert!(check.acceptable);
    assert!(enforce_clock_discipline(&check, false).is_ok());

    let check = ClockCheck { offset_ms: 3000, acceptable: false, source: "test".into() };
    assert!(!check.acceptable);
    assert_eq!(
        enforce_clock_discipline(&check, false).unwrap_err(),
        "Clock drift 3000ms exceeds 2000ms threshold. Fix system clock before live trading."
    );
    assert_eq!(enforce_clock_discipline(&check, true), Ok(3000));
}

#[test]
fn drift_is_judged_by_its_size() {
    assert_eq!(judge_offset(0), Drift::Fine);
    assert_eq!(judge_offset(-499), Drift::Fine);
    assert_eq!(judge_offset(500), Drift::Noticeable);
    assert_eq!(judge_offset(-1999), Drift::Noticeable);
    assert_eq!(judge_offset(2000), Drift::Excessive);
    assert_eq!(judge_offset(i64::MIN), Drift::Excessive);
}

#[test]
fn servers_are_tried_in_turn() {
    assert_eq!(time_server(0), Some("https://www.google.com"));
    assert_eq!(time_server(1), Some("https://www.cloudflare.com"));
    assert_eq!(time_server(2), None);
    let none = unchecked();
    assert_eq!(none.offset_ms, 0);
    assert!(none.acceptable);
    assert_eq!(none.source, "none (all servers unreachable)");
}

#[test]
fn offsets_are_measured_from_the_middle() {
    // Wed, 18 Feb 2015 23:16:09 GMT is 1424301369 seconds after the epoch.
    let server = 1_424_301_369_000_000_000i64;
    let header = "Wed, 18 Feb 2015 23:16:09 GMT";
    assert_eq!(measure_offset(server, server, Some(header)), Ok(0));
    assert_eq!(measure_offset(server + 1_000_000_000, server + 2_000_000_000, Some(header)), Ok(1500));
    assert_eq!(measure_offset(server - 2_000_000_000, server - 1_000_000_001, Some(header)), Ok(-1500));
    assert_eq!(measure_offset(server, server, None).unwrap_err(), "no Date header");
    assert!(measure_offset(server, server, Some("yesterday")).unwrap_err().starts_with("parse Date header: "));
    let epoch = Moment { secs: 0, nanos: 0 };
    assert_eq!(offset_millis(999_999, 999_999, epoch), 0);
    assert_eq!(offset_millis(-999_999, -999_999, epoch), 0);
    assert_eq!(offset_millis(-1_000_000, -1_000_000, epoch), -1);
    assert_eq!(offset_millis(3, 0, epoch), 0);
    assert_eq!(offset_millis(i64::MAX, i64::MAX, epoch), 9_223_372_036_854);
}

#[test]
fn leap_seconds_count_for_what_comes_later_in_the_day() {
    // 23:59:60 on the last day of 2016 follows second 1483228799.
    let header = "Sat, 31 Dec 2016 23:59:60 GMT";
    let second = 1_000_000_000i64;
    let last = 1_483_228_799 * second;
    assert_eq!(measure_offset(last, last, Some(header)), Ok(-1000));
    assert_eq!(measure_offset(last + second, last + second, Some(header)), Ok(0));
    // The same second, told in another zone: what follows lies in the next day.
    let header = "Sun, 1 Jan 2017 05:29:60 +0530";
    assert_eq!(measure_offset(last + 2 * second, last + 2 * second, Some(header)), Ok(1000));
    // At half past twelve the second counts for what comes later that day.
    let header = "Sat, 31 Dec 2016 12:29:60 GMT";
    let noon = 1_483_187_399 * second;
    assert_eq!(measure_offset(noon + 2 * second, noon + 2 * second, Some(header)), Ok(2000));
    assert_eq!(measure_offset(noon - second, noon - second, Some(header)), Ok(-2000));
    let at = |secs: i64, nanos: u32| Moment { secs, nanos };
    assert_eq!(at(1_483_187_401, 0).since(at(1_483_187_399, 1_000_000_000)), 2_000_000_000);
    assert_eq!(at(1_483_187_399, 1_000_000_000).since(at(1_483_187_401, 0)), -2_000_000_000);
}
