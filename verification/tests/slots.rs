use chrono::{Datelike, NaiveDate};
use nail_salon::models::{Booking, ShopSettings};
use nail_salon::slots::{
    available_slots_if_listable, generate_slots, get_available_slots, is_closed_on, opening_hours,
};
use nail_salon::time::instant_at;

/// An hour, in microseconds.
const HOUR: i64 = 3_600_000_000;

fn day(y: i32, m: u32, d: u32) -> i32 {
    NaiveDate::from_ymd_opt(y, m, d).unwrap().num_days_from_ce()
}

fn settings(closed: Vec<i32>, open: &str, close: &str, interval: i32) -> ShopSettings {
    ShopSettings {
        id: 1,
        shop_name: "홍길동 네일샵".to_string(),
        closed_weekdays: closed,
        open_time: open.to_string(),
        close_time: close.to_string(),
        slot_interval_min: interval,
        max_booking_days: 30,
        created_at: 0,
        updated_at: 0,
    }
}

fn booking(start: i64, end: i64, status: &str) -> Booking {
    Booking {
        id: 9,
        user_id: 2,
        service_id: 3,
        scheduled_at: start,
        end_at: end,
        payment_type: "ONSITE".to_string(),
        status: status.to_string(),
        memo: None,
        admin_memo: None,
        created_at: 0,
        updated_at: 0,
    }
}

#[test]
fn hourly_slots_from_opening_to_closing() {
    let d = day(2026, 6, 25);
    let s = settings(vec![0, 1], "10:00", "20:00", 60);
    let res = get_available_slots(d, &s, 60, false, &vec![]);
    assert_eq!(res.date, d);
    assert_eq!(res.slots.len(), 10);
    let open = instant_at(d, 36000);
    for (i, slot) in res.slots.iter().enumerate() {
        assert_eq!(slot.start, open + HOUR * i as i64);
        assert_eq!(slot.end, slot.start + HOUR);
        assert!(slot.available);
    }
    assert_eq!(res.slots[9].end, instant_at(d, 72000));
}

#[test]
fn half_hour_steps_for_an_hour_long_service() {
    let d = day(2026, 6, 25);
    let s = settings(vec![], "10:00:00", "20:00:00", 30);
    let res = get_available_slots(d, &s, 60, false, &vec![]);
    // 10:00, 10:30, ..., 19:00
    assert_eq!(res.slots.len(), 19);
    assert_eq!(res.slots[18].start, instant_at(d, 19 * 3600));
}

#[test]
fn booked_time_is_unavailable_and_cancelled_time_is_free() {
    let d = day(2026, 6, 25);
    let s = settings(vec![], "10:00", "20:00", 60);
    let eleven = instant_at(d, 11 * 3600);
    let twelve = instant_at(d, 12 * 3600);
    let fifteen = instant_at(d, 15 * 3600);
    let bookings = vec![
        booking(eleven, twelve, "CONFIRMED"),
        booking(fifteen, fifteen + HOUR / 2, "PENDING"),
        booking(instant_at(d, 17 * 3600), instant_at(d, 18 * 3600), "CANCELLED_BY_USER"),
        booking(instant_at(d, 18 * 3600), instant_at(d, 19 * 3600), "CANCELLED_BY_ADMIN"),
    ];
    let res = get_available_slots(d, &s, 60, false, &bookings);
    let available: Vec<bool> = res.slots.iter().map(|x| x.available).collect();
    assert_eq!(
        available,
        vec![true, false, true, true, true, false, true, true, true, true]
    );
}

#[test]
fn touching_bookings_do_not_overlap() {
    let d = day(2026, 6, 25);
    let s = settings(vec![], "10:00", "12:00", 60);
    let eleven = instant_at(d, 11 * 3600);
    // A booking ending exactly at 11:00 leaves the 11:00 slot free.
    let bookings = vec![booking(eleven - HOUR, eleven, "CONFIRMED")];
    let res = get_available_slots(d, &s, 60, false, &bookings);
    assert_eq!(res.slots.len(), 2);
    assert!(!res.slots[0].available);
    assert!(res.slots[1].available);
}

#[test]
fn closed_weekday_and_closed_day_have_no_slots() {
    let thursday = day(2026, 6, 25);
    let sunday = day(2026, 6, 28);
    let s = settings(vec![0], "10:00", "20:00", 60);
    assert!(get_available_slots(sunday, &s, 60, false, &vec![]).slots.is_empty());
    assert!(is_closed_on(&s, sunday, false));
    assert!(get_available_slots(thursday, &s, 60, true, &vec![]).slots.is_empty());
    assert!(is_closed_on(&s, thursday, true));
    assert!(!is_closed_on(&s, thursday, false));
}

#[test]
fn unreadable_hours_fall_back_to_ten_and_twenty() {
    let d = day(2026, 6, 25);
    let s = settings(vec![], "opening", "closing", 60);
    assert_eq!(opening_hours(&s, d), (instant_at(d, 36000), instant_at(d, 72000)));
    let res = get_available_slots(d, &s, 60, false, &vec![]);
    assert_eq!(res.slots.len(), 10);
}

#[test]
fn service_longer_than_the_day_has_no_slots() {
    let d = day(2026, 6, 25);
    let s = settings(vec![], "10:00", "11:00", 60);
    assert!(get_available_slots(d, &s, 90, false, &vec![]).slots.is_empty());
}

#[test]
fn non_positive_interval_cannot_be_listed_on_an_open_day() {
    let d = day(2026, 6, 25);
    let s = settings(vec![], "10:00", "20:00", 0);
    assert!(available_slots_if_listable(d, &s, 60, false, &vec![]).is_none());
    // On a closed day nothing needs stepping through.
    let r = available_slots_if_listable(d, &s, 60, true, &vec![]).unwrap();
    assert!(r.slots.is_empty());
    // A window too short for the service needs no stepping either.
    let r = available_slots_if_listable(d, &s, 700, false, &vec![]).unwrap();
    assert!(r.slots.is_empty());
    let ok = settings(vec![], "10:00", "20:00", 60);
    let r = available_slots_if_listable(d, &ok, 60, false, &vec![]).unwrap();
    assert_eq!(r.slots.len(), 10);
}

#[test]
fn generated_slots_step_from_first() {
    let slots = generate_slots(1000, 1000 + 7200, 1800, 900, &vec![]);
    let starts: Vec<i64> = slots.iter().map(|s| s.start).collect();
    assert_eq!(starts, vec![1000, 1900, 2800, 3700, 4600, 5500, 6400]);
    assert!(slots.iter().all(|s| s.end == s.start + 1800 && s.end <= 8200));
}

#[test]
fn a_fraction_of_a_second_still_overlaps() {
    let d = day(2026, 6, 25);
    let s = settings(vec![], "10:00", "12:00", 60);
    let eleven = instant_at(d, 11 * 3600);
    // Ending half a second after 11:00 takes up the start of the 11:00 slot;
    // starting a microsecond before noon takes up the end of it.
    let late = vec![booking(eleven - HOUR, eleven + 500_000, "CONFIRMED")];
    let res = get_available_slots(d, &s, 60, false, &late);
    assert!(!res.slots[1].available);
    let early = vec![booking(eleven + HOUR - 1, eleven + 2 * HOUR, "CONFIRMED")];
    let res = get_available_slots(d, &s, 60, false, &early);
    assert!(res.slots[0].available);
    assert!(!res.slots[1].available);
}
