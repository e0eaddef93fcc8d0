use chrono::{Datelike, NaiveDate};
use nail_salon::time::{
    instant_at, is_valid_instant, parse_time, weekday_from_sunday, MAX_DAY, MAX_INSTANT, MIN_DAY,
    MIN_INSTANT,
};

fn day(y: i32, m: u32, d: u32) -> i32 {
    NaiveDate::from_ymd_opt(y, m, d).unwrap().num_days_from_ce()
}

#[test]
fn weekday_counts_from_sunday() {
    // 2026-06-25 is a Thursday, 2026-06-28 a Sunday, 2026-06-27 a Saturday.
    assert_eq!(weekday_from_sunday(day(2026, 6, 25)), 4);
    assert_eq!(weekday_from_sunday(day(2026, 6, 28)), 0);
    assert_eq!(weekday_from_sunday(day(2026, 6, 27)), 6);
    // Day 1 (0001-01-01) is a Monday.
    assert_eq!(weekday_from_sunday(1), 1);
    assert_eq!(weekday_from_sunday(0), 0);
    assert_eq!(weekday_from_sunday(-1), 6);
}

#[test]
fn instants_of_days() {
    assert_eq!(instant_at(day(1970, 1, 1), 0), 0);
    assert_eq!(instant_at(day(2015, 5, 15), 0), 1_431_648_000_000_000);
    assert_eq!(instant_at(day(2026, 6, 25), 36000), 1_782_381_600_000_000);
}

#[test]
fn range_of_days_and_instants_is_chronos() {
    assert!(NaiveDate::from_num_days_from_ce_opt(MIN_DAY).is_some());
    assert!(NaiveDate::from_num_days_from_ce_opt(MIN_DAY - 1).is_none());
    assert!(NaiveDate::from_num_days_from_ce_opt(MAX_DAY).is_some());
    assert!(NaiveDate::from_num_days_from_ce_opt(MAX_DAY + 1).is_none());
    assert_eq!(instant_at(MIN_DAY, 0), MIN_INSTANT);
    assert_eq!(instant_at(MAX_DAY, 86399) + 999_999, MAX_INSTANT);
    assert!(chrono::DateTime::from_timestamp_micros(MAX_INSTANT).is_some());
    assert!(chrono::DateTime::from_timestamp_micros(MAX_INSTANT + 1).is_none());
    assert!(chrono::DateTime::from_timestamp_micros(MIN_INSTANT).is_some());
    assert!(chrono::DateTime::from_timestamp_micros(MIN_INSTANT - 1).is_none());
    assert!(is_valid_instant(0));
    assert!(!is_valid_instant(MAX_INSTANT + 1));
}

#[test]
fn times_of_day_parse_with_or_without_seconds() {
    assert_eq!(parse_time("10:00"), Some(36000));
    assert_eq!(parse_time("20:00"), Some(72000));
    assert_eq!(parse_time("10:30:15"), Some(37815));
    assert_eq!(parse_time("10:00:00"), Some(36000));
    assert_eq!(parse_time("25:00"), None);
    assert_eq!(parse_time("ten"), None);
    assert_eq!(parse_time(""), None);
}
