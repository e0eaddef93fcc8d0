//! Calendar days, times of day and UTC instants.
//!
//! A calendar day is its number in the proleptic Gregorian calendar, with
//! January 1 of year 1 as day 1. An instant is a count of non-leap
//! microseconds since 1970-01-01 00:00:00 UTC, the precision at which
//! PostgreSQL keeps time stamps. The calendar itself is chrono's.

use vstd::prelude::*;
use chrono::{Datelike, NaiveDate, NaiveDateTime, NaiveTime, TimeZone, Utc};

verus! {

/// The first calendar day that chrono can represent (January 1 of year
/// -262143, that is 262144 BCE).
pub const MIN_DAY: i32 = -95746129;

/// The last calendar day that chrono can represent (December 31, 262142 CE).
pub const MAX_DAY: i32 = 95745399;

/// The calendar day of 1970-01-01.
pub const UNIX_EPOCH_DAY: i32 = 719163;

/// Microseconds in a second.
pub const MICROS_PER_SECOND: i64 = 1000000;

/// Microseconds in a minute.
pub const MICROS_PER_MINUTE: i64 = 60000000;

/// Microseconds in a day.
pub const MICROS_PER_DAY: i64 = 86400000000;

/// The first instant chrono can represent: midnight starting `MIN_DAY`.
pub const MIN_INSTANT: i64 = -8334601228800000000;

/// The last microsecond chrono can represent: the last microsecond of `MAX_DAY`.
pub const MAX_INSTANT: i64 = 8210266876799999999;

/// The first instant chrono can represent, from its first day.
pub open spec fn min_instant() -> int {
    (MIN_DAY - UNIX_EPOCH_DAY) * MICROS_PER_DAY
}

/// The last microsecond chrono can represent, from its last day.
pub open spec fn max_instant() -> int {
    (MAX_DAY - UNIX_EPOCH_DAY) * MICROS_PER_DAY + MICROS_PER_DAY - 1
}

/// Whether `day` is a calendar day that chrono can represent.
pub open spec fn valid_day(day: int) -> bool {
    MIN_DAY <= day <= MAX_DAY
}

/// Whether `t` is an instant that chrono can represent.
pub open spec fn valid_instant(t: int) -> bool {
    min_instant() <= t <= max_instant()
}

/// The two ways of writing the range of instants agree.
pub proof fn lemma_instant_bounds()
    ensures
        MIN_INSTANT == min_instant(),
        MAX_INSTANT == max_instant(),
{
}

/// Whether `t` is an instant that chrono can represent.
pub fn is_valid_instant(t: i64) -> (res: bool)
    ensures
        res == valid_instant(t as int),
{
    MIN_INSTANT <= t && t <= MAX_INSTANT
}

/// Day of the week of `day`, counted from Sunday (0) to Saturday (6).
pub open spec fn weekday_of(day: int) -> int {
    day % 7
}

/// The instant at second `secs` after midnight (UTC) of `day`.
pub open spec fn instant_of(day: int, secs: int) -> int {
    (day - UNIX_EPOCH_DAY) * MICROS_PER_DAY + secs * MICROS_PER_SECOND
}

/// What chrono's `NaiveTime::parse_from_str` gives for `text` read with
/// `format`: the time's seconds since midnight (`num_seconds_from_midnight`,
/// which counts a leap second `:60` as `:59`), or `None` when it fails.
pub uninterp spec fn naive_time_parse(text: Seq<char>, format: Seq<char>) -> Option<u32>;

/// Calls chrono's `NaiveDate::weekday` and `Weekday::num_days_from_sunday`.
/// Claimed: chrono's calendar gives day 1 (January 1 of year 1) a Monday and
/// advances the weekday by one each day, so the result is `day` modulo 7.
#[verifier::external_body]
fn chrono_days_from_sunday(day: i32) -> (res: u32)
    requires
        valid_day(day as int),
    ensures
        res as int == weekday_of(day as int),
{
    NaiveDate::from_num_days_from_ce_opt(day).unwrap().weekday().num_days_from_sunday()
}

/// Calls chrono's `Utc.from_utc_datetime` on the date-time made of `day` and
/// the time `secs` seconds after midnight, then `DateTime::timestamp_micros`.
/// Claimed: the result is `((day - UNIX_EPOCH_DAY) * 86400 + secs) * 10^6`,
/// as chrono's `timestamp` and `timestamp_micros` compute it.
#[verifier::external_body]
fn chrono_instant(day: i32, secs: u32) -> (res: i64)
    requires
        valid_day(day as int),
        secs < 86400,
    ensures
        res as int == instant_of(day as int, secs as int),
{
    let date = NaiveDate::from_num_days_from_ce_opt(day).unwrap();
    let time = NaiveTime::from_num_seconds_from_midnight_opt(secs, 0).unwrap();
    Utc.from_utc_datetime(&NaiveDateTime::new(date, time)).timestamp_micros()
}

/// Calls chrono's `NaiveTime::parse_from_str(text, format)` and keeps the
/// parsed time's seconds since midnight. Claimed: the result is
/// `naive_time_parse(text, format)`, and a parsed time lies within one day.
#[verifier::external_body]
fn chrono_parse_time(text: &str, format: &str) -> (res: Option<u32>)
    ensures
        res == naive_time_parse(text@, format@),
        res matches Some(t) ==> t < 86400,
{
    match NaiveTime::parse_from_str(text, format) {
        Ok(t) => Some(chrono::Timelike::num_seconds_from_midnight(&t)),
        Err(_) => None,
    }
}

/// A time of day written as `HH:MM`, or else as `HH:MM:SS`, in seconds since
/// midnight.
pub open spec fn spec_parse_time(text: Seq<char>) -> Option<u32> {
    match naive_time_parse(text, "%H:%M"@) {
        Some(t) => Some(t),
        None => naive_time_parse(text, "%H:%M:%S"@),
    }
}

/// Reads a time of day written as `HH:MM`, or else as `HH:MM:SS`, as seconds
/// since midnight.
pub fn parse_time(text: &str) -> (res: Option<u32>)
    ensures
        res == spec_parse_time(text@),
        res matches Some(t) ==> t < 86400,
{
    match chrono_parse_time(text, "%H:%M") {
        Some(t) => Some(t),
        None => chrono_parse_time(text, "%H:%M:%S"),
    }
}

/// Day of the week of `day`, from Sunday (0) to Saturday (6).
pub fn weekday_from_sunday(day: i32) -> (res: u32)
    requires
        valid_day(day as int),
    ensures
        res as int == weekday_of(day as int),
        res < 7,
{
    chrono_days_from_sunday(day)
}

/// The instant at `secs` seconds after midnight of `day`.
pub fn instant_at(day: i32, secs: u32) -> (res: i64)
    requires
        valid_day(day as int),
        secs < 86400,
    ensures
        res as int == instant_of(day as int, secs as int),
        valid_instant(res as int),
{
    chrono_instant(day, secs)
}

} // verus!
