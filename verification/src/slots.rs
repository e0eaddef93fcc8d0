//! The appointments offered on one day: from opening, every slot interval, a
//! slot as long as the service, as long as it ends by closing; a slot is
//! available unless a booking that still holds its time overlaps it.

use vstd::prelude::*;
use vstd::arithmetic::div_mod::lemma_fundamental_div_mod_converse;
use crate::booking::{holds_time, is_holding_time};
use crate::models::{AvailableSlotsResponse, Booking, ShopSettings, TimeSlot};
use crate::time::{
    MAX_INSTANT, MICROS_PER_MINUTE, MIN_INSTANT, instant_at, instant_of, parse_time, spec_parse_time, valid_day, valid_instant,
    weekday_from_sunday, weekday_of,
};

verus! {

/// Opening time used when the settings' opening time cannot be read: 10:00.
pub const DEFAULT_OPEN_SECS: u32 = 36000;

/// Closing time used when the settings' closing time cannot be read: 20:00.
pub const DEFAULT_CLOSE_SECS: u32 = 72000;

/// Whether `b` takes up any of the time from `start` to `end`.
pub open spec fn blocks(b: Booking, start: int, end: int) -> bool {
    holds_time(b.status@) && start < b.end_at && end > b.scheduled_at
}

/// Whether none of `bookings` takes up any of the time from `start` to `end`.
pub open spec fn is_free(bookings: Seq<Booking>, start: int, end: int) -> bool {
    forall|j: int| 0 <= j < bookings.len() ==> !blocks(#[trigger] bookings[j], start, end)
}

/// How many slots of length `duration` fit from `first`, every `step`, ending
/// by `last`.
pub open spec fn slot_count(first: int, last: int, duration: int, step: int) -> int {
    if first + duration > last {
        0
    } else {
        (last - duration - first) / step + 1
    }
}

/// `slots` are the slots of length `duration` from `first`, every `step`,
/// ending by `last`, each marked available when no booking blocks it.
pub open spec fn is_slot_plan(
    slots: Seq<TimeSlot>,
    bookings: Seq<Booking>,
    first: int,
    last: int,
    duration: int,
    step: int,
) -> bool {
    &&& slots.len() == slot_count(first, last, duration, step)
    &&& forall|i: int|
        0 <= i < slots.len() ==> {
            &&& (#[trigger] slots[i]).start == first + i * step
            &&& slots[i].end == slots[i].start + duration
            &&& slots[i].available == is_free(bookings, slots[i].start as int, slots[i].end as int)
        }
}

/// Whether the shop takes no bookings on `day`: a weekday it closes on, or a
/// day marked closed.
pub open spec fn closed_on(settings: ShopSettings, day: int, marked_closed: bool) -> bool {
    marked_closed || settings.closed_weekdays@.contains(weekday_of(day) as i32)
}

/// Opening time of the day in seconds after midnight.
pub open spec fn opening_secs(settings: ShopSettings) -> int {
    match spec_parse_time(settings.open_time@) {
        Some(t) => t as int,
        None => DEFAULT_OPEN_SECS as int,
    }
}

/// Closing time of the day in seconds after midnight.
pub open spec fn closing_secs(settings: ShopSettings) -> int {
    match spec_parse_time(settings.close_time@) {
        Some(t) => t as int,
        None => DEFAULT_CLOSE_SECS as int,
    }
}

/// Whether stepping through the slots from `first` ends, and every instant it
/// computes on the way stays within the range of instants: each slot's start
/// and end, and the start and end of the first slot that no longer fits.
pub open spec fn slot_walk_ok(first: int, last: int, duration: int, step: int) -> bool {
    let n = slot_count(first, last, duration, step);
    &&& (step > 0 || first + duration > last)
    &&& valid_instant(first + n * step + if duration > 0 {
        duration
    } else {
        0
    })
    &&& valid_instant(first + if duration < 0 {
        duration
    } else {
        0
    })
}

/// Whether the day's slots can be listed: the day is closed, or stepping
/// through its slots ends within the range of instants.
pub open spec fn slots_listable(
    settings: ShopSettings,
    day: int,
    marked_closed: bool,
    duration_minutes: int,
) -> bool {
    closed_on(settings, day, marked_closed) || slot_walk_ok(
        instant_of(day, opening_secs(settings)),
        instant_of(day, closing_secs(settings)),
        MICROS_PER_MINUTE * duration_minutes,
        MICROS_PER_MINUTE * settings.slot_interval_min,
    )
}

/// The appointments of `day` for a service of `duration_minutes` minutes.
pub open spec fn is_day_plan(
    res: AvailableSlotsResponse,
    settings: ShopSettings,
    day: int,
    marked_closed: bool,
    duration_minutes: int,
    bookings: Seq<Booking>,
) -> bool {
    &&& res.date == day
    &&& closed_on(settings, day, marked_closed) ==> res.slots@.len() == 0
    &&& !closed_on(settings, day, marked_closed) ==> is_slot_plan(
        res.slots@,
        bookings,
        instant_of(day, opening_secs(settings)),
        instant_of(day, closing_secs(settings)),
        MICROS_PER_MINUTE * duration_minutes,
        MICROS_PER_MINUTE * settings.slot_interval_min,
    )
}

/// Whether some booking blocks the time from `start` to `end`.
pub fn any_blocking(bookings: &Vec<Booking>, start: i64, end: i64) -> (res: bool)
    ensures
        res == !is_free(bookings@, start as int, end as int),
{
    let mut j: usize = 0;
    while j < bookings.len()
        invariant
            j <= bookings@.len(),
            forall|i: int| 0 <= i < j ==> !blocks(#[trigger] bookings@[i], start as int, end as int),
        decreases bookings@.len() - j,
    {
        let b = &bookings[j];
        if start < b.end_at && end > b.scheduled_at && is_holding_time(b.status.as_str()) {
            assert(blocks(bookings@[j as int], start as int, end as int));
            return true;
        }
        j = j + 1;
    }
    false
}

proof fn lemma_step_mul(first: int, k: int, step: int)
    ensures
        first + (k + 1) * step == first + k * step + step,
{
    assert((k + 1) * step == k * step + step) by (nonlinear_arith);
}

proof fn lemma_count_at_exit(first: int, last: int, duration: int, step: int, k: int)
    requires
        step > 0,
        k > 0,
        first + (k - 1) * step + duration <= last,
        first + k * step + duration > last,
    ensures
        slot_count(first, last, duration, step) == k,
{
    let x = last - duration - first;
    let r = x - (k - 1) * step;
    assert(0 <= r < step) by (nonlinear_arith)
        requires
            r == x - (k - 1) * step,
            first + (k - 1) * step + duration <= last,
            first + k * step + duration > last,
            x == last - duration - first,
    {
        assert(k * step == (k - 1) * step + step) by (nonlinear_arith);
    }
    assert((k - 1) * step >= 0) by (nonlinear_arith)
        requires
            k > 0,
            step > 0,
    ;
    lemma_fundamental_div_mod_converse(x, step, k - 1, r);
}

/// The slots of length `duration` starting at `first` and then every `step`,
/// as long as they end by `last`, each marked available when no booking that
/// still holds its time overlaps it.
#[verifier::spinoff_prover]
pub fn generate_slots(
    first: i64,
    last: i64,
    duration: i64,
    step: i64,
    bookings: &Vec<Booking>,
) -> (slots: Vec<TimeSlot>)
    requires
        step > 0 || first + duration > last,
        valid_instant(first as int),
        valid_instant(last as int),
        -0x400_0000_0000_0000 <= duration <= 0x400_0000_0000_0000,
        step <= 0x400_0000_0000_0000,
    ensures
        is_slot_plan(slots@, bookings@, first as int, last as int, duration as int, step as int),
{
    let mut slots: Vec<TimeSlot> = Vec::new();
    let mut current: i64 = first;
    let ghost mut k: int = 0;
    while current + duration <= last
        invariant
            step > 0 || first + duration > last,
            valid_instant(first as int),
            valid_instant(last as int),
            -0x400_0000_0000_0000 <= duration <= 0x400_0000_0000_0000,
            step <= 0x400_0000_0000_0000,
            k == slots@.len(),
            current == first + k * step,
            k == 0 ==> current == first,
            k > 0 ==> step > 0,
            k > 0 ==> first + (k - 1) * step + duration <= last,
            first <= current,
            k > 0 ==> current <= last - duration + step,
            forall|i: int|
                0 <= i < k ==> {
                    &&& (#[trigger] slots@[i]).start == first + i * step
                    &&& slots@[i].end == slots@[i].start + duration
                    &&& slots@[i].available == is_free(
                        bookings@,
                        slots@[i].start as int,
                        slots@[i].end as int,
                    )
                },
        decreases last - duration + step - current,
    {
        assert(step > 0);
        let candidate_end = current + duration;
        let overlapped = any_blocking(bookings, current, candidate_end);
        slots.push(TimeSlot { start: current, end: candidate_end, available: !overlapped });
        proof {
            lemma_step_mul(first as int, k, step as int);
            k = k + 1;
        }
        current = current + step;
    }
    proof {
        if first + duration > last {
            if k > 0 {
                assert((k - 1) * step >= 0) by (nonlinear_arith)
                    requires
                        k > 0,
                        step > 0,
                ;
            }
            assert(k == 0);
        } else {
            assert(k > 0);
            lemma_count_at_exit(first as int, last as int, duration as int, step as int, k);
        }
    }
    slots
}

/// Whether the shop closes on the weekday of `day`.
pub fn closes_on_weekday(settings: &ShopSettings, day: i32) -> (res: bool)
    requires
        valid_day(day as int),
    ensures
        res == settings.closed_weekdays@.contains(weekday_of(day as int) as i32),
{
    let weekday = weekday_from_sunday(day) as i32;
    let mut j: usize = 0;
    while j < settings.closed_weekdays.len()
        invariant
            weekday == weekday_of(day as int) as i32,
            j <= settings.closed_weekdays@.len(),
            forall|i: int| 0 <= i < j ==> settings.closed_weekdays@[i] != weekday,
        decreases settings.closed_weekdays@.len() - j,
    {
        if settings.closed_weekdays[j] == weekday {
            assert(settings.closed_weekdays@[j as int] == weekday);
            return true;
        }
        j = j + 1;
    }
    false
}

/// Whether the shop takes no bookings on `day`, which may be marked closed.
pub fn is_closed_on(settings: &ShopSettings, day: i32, marked_closed: bool) -> (res: bool)
    requires
        valid_day(day as int),
    ensures
        res == closed_on(*settings, day as int, marked_closed),
{
    marked_closed || closes_on_weekday(settings, day)
}

/// Opening and closing instants of `day`: the settings' opening and closing
/// times of day, 10:00 and 20:00 when they cannot be read.
pub fn opening_hours(settings: &ShopSettings, day: i32) -> (res: (i64, i64))
    requires
        valid_day(day as int),
    ensures
        res.0 == instant_of(day as int, opening_secs(*settings)),
        res.1 == instant_of(day as int, closing_secs(*settings)),
        valid_instant(res.0 as int),
        valid_instant(res.1 as int),
{
    let open_secs = match parse_time(settings.open_time.as_str()) {
        Some(t) => t,
        None => DEFAULT_OPEN_SECS,
    };
    let close_secs = match parse_time(settings.close_time.as_str()) {
        Some(t) => t,
        None => DEFAULT_CLOSE_SECS,
    };
    (instant_at(day, open_secs), instant_at(day, close_secs))
}

/// The appointments of `day` for a service of `duration_minutes` minutes,
/// given the shop's settings, whether the day is marked closed, and the
/// bookings around that day.
///
/// On a closed day there are none. Otherwise they start at opening (10:00
/// when the opening time cannot be read) and follow every slot interval,
/// each as long as the service, as long as it ends by closing (20:00 when
/// the closing time cannot be read); one is available unless a booking that
/// is not cancelled overlaps it.
pub fn get_available_slots(
    day: i32,
    settings: &ShopSettings,
    duration_minutes: i32,
    marked_closed: bool,
    bookings: &Vec<Booking>,
) -> (res: AvailableSlotsResponse)
    requires
        valid_day(day as int),
        slots_listable(*settings, day as int, marked_closed, duration_minutes as int),
    ensures
        is_day_plan(res, *settings, day as int, marked_closed, duration_minutes as int, bookings@),
{
    let closed_weekday = closes_on_weekday(settings, day);
    if closed_weekday || marked_closed {
        return AvailableSlotsResponse { date: day, slots: Vec::new() };
    }
    let (day_start, day_end) = opening_hours(settings, day);
    let duration = MICROS_PER_MINUTE * (duration_minutes as i64);
    let step = MICROS_PER_MINUTE * (settings.slot_interval_min as i64);
    let slots = generate_slots(day_start, day_end, duration, step, bookings);
    AvailableSlotsResponse { date: day, slots }
}

/// Whether stepping through the slots from `first` ends within the range of
/// instants (see `slot_walk_ok`).
#[verifier::spinoff_prover]
pub fn check_slot_walk(first: i64, last: i64, duration: i64, step: i64) -> (res: bool)
    requires
        valid_instant(first as int),
        valid_instant(last as int),
        -0x400_0000_0000_0000 <= duration <= 0x400_0000_0000_0000,
        step <= 0x400_0000_0000_0000,
    ensures
        res == slot_walk_ok(first as int, last as int, duration as int, step as int),
{
    let first = first as i128;
    let last = last as i128;
    let duration = duration as i128;
    let step = step as i128;
    let low = if duration < 0 {
        first + duration
    } else {
        first
    };
    if !is_valid_wide(low) {
        return false;
    }
    let up = if duration > 0 {
        duration
    } else {
        0
    };
    if first + duration > last {
        is_valid_wide(first + up)
    } else if step <= 0 {
        false
    } else {
        let n = (last - duration - first) / step + 1;
        assert(n == slot_count(first as int, last as int, duration as int, step as int));
        assert(n * step <= last - duration - first + step) by (nonlinear_arith)
            requires
                n == (last - duration - first) as int / (step as int) + 1,
                step > 0,
                last - duration - first >= 0,
        ;
        assert(n * step >= 0) by (nonlinear_arith)
            requires
                n == (last - duration - first) as int / (step as int) + 1,
                step > 0,
                last - duration - first >= 0,
        ;
        let end = first + n * step + up;
        assert(end == first + slot_count(first as int, last as int, duration as int, step as int)
            * step + if duration > 0 {
            duration
        } else {
            0
        });
        is_valid_wide(end)
    }
}

/// Whether `t` is an instant that chrono can represent.
fn is_valid_wide(t: i128) -> (res: bool)
    ensures
        res == valid_instant(t as int),
{
    MIN_INSTANT as i128 <= t && t <= MAX_INSTANT as i128
}

/// The appointments of `day` as `get_available_slots` lists them, or `None`
/// when they cannot be listed: the day is open and stepping through its
/// slots would not end (a slot interval that is not positive) or would leave
/// the range of instants.
pub fn available_slots_if_listable(
    day: i32,
    settings: &ShopSettings,
    duration_minutes: i32,
    marked_closed: bool,
    bookings: &Vec<Booking>,
) -> (res: Option<AvailableSlotsResponse>)
    requires
        valid_day(day as int),
    ensures
        res is Some <==> slots_listable(*settings, day as int, marked_closed, duration_minutes as int),
        res matches Some(r) ==> is_day_plan(
            r,
            *settings,
            day as int,
            marked_closed,
            duration_minutes as int,
            bookings@,
        ),
        settings.slot_interval_min > 0 && duration_minutes >= 0 && valid_instant(
            instant_of(day as int, opening_secs(*settings)),
        ) && valid_instant(
            instant_of(day as int, opening_secs(*settings)) + 60_000_000 * duration_minutes,
        ) && valid_instant(
            instant_of(day as int, closing_secs(*settings)) + 60_000_000
                * settings.slot_interval_min,
        ) ==> res is Some,
{
    proof {
        if settings.slot_interval_min > 0 && duration_minutes >= 0 {
            if valid_instant(instant_of(day as int, opening_secs(*settings))) && valid_instant(
                instant_of(day as int, opening_secs(*settings)) + 60_000_000 * duration_minutes,
            ) && valid_instant(
                instant_of(day as int, closing_secs(*settings)) + 60_000_000
                    * settings.slot_interval_min,
            ) {
                lemma_positive_interval_day_listable(
                    *settings,
                    day as int,
                    marked_closed,
                    duration_minutes as int,
                );
            }
        }
    }
    let closed = is_closed_on(settings, day, marked_closed);
    if !closed {
        let (day_start, day_end) = opening_hours(settings, day);
        let duration = MICROS_PER_MINUTE * (duration_minutes as i64);
        let step = MICROS_PER_MINUTE * (settings.slot_interval_min as i64);
        if !check_slot_walk(day_start, day_end, duration, step) {
            return None;
        }
    }
    Some(get_available_slots(day, settings, duration_minutes, marked_closed, bookings))
}

/// With a positive slot interval and a service of any length, longer or
/// shorter than the interval, stepping through the slots ends within the
/// range of instants as soon as the start, the end of a first slot, and
/// closing plus one interval are instants.
pub proof fn lemma_positive_interval_walk_ok(first: int, last: int, duration: int, step: int)
    requires
        0 < step,
        0 <= duration,
        valid_instant(first),
        valid_instant(first + duration),
        valid_instant(last + step),
    ensures
        slot_walk_ok(first, last, duration, step),
{
    let n = slot_count(first, last, duration, step);
    if first + duration <= last {
        let x = last - duration - first;
        assert(n * step <= x + step) by (nonlinear_arith)
            requires
                n == x / step + 1,
                step > 0,
                x >= 0,
        ;
        assert(n * step >= 0) by (nonlinear_arith)
            requires
                n == x / step + 1,
                step > 0,
                x >= 0,
        ;
    }
}

/// On an open day with a positive slot interval the slots can be listed,
/// whether the service is longer or shorter than the interval, as long as
/// opening, the end of a first service and closing plus one interval are
/// instants.
pub proof fn lemma_positive_interval_day_listable(
    settings: ShopSettings,
    day: int,
    marked_closed: bool,
    duration_minutes: int,
)
    requires
        settings.slot_interval_min > 0,
        duration_minutes >= 0,
        valid_instant(instant_of(day, opening_secs(settings))),
        valid_instant(instant_of(day, opening_secs(settings)) + 60_000_000 * duration_minutes),
        valid_instant(
            instant_of(day, closing_secs(settings)) + 60_000_000 * settings.slot_interval_min,
        ),
    ensures
        slots_listable(settings, day, marked_closed, duration_minutes),
{
    lemma_positive_interval_walk_ok(
        instant_of(day, opening_secs(settings)),
        instant_of(day, closing_secs(settings)),
        60_000_000 * duration_minutes,
        60_000_000 * settings.slot_interval_min,
    );
}

/// An available slot is never taken up, even in part, by a booking that is
/// not cancelled.
pub proof fn lemma_available_slot_is_unbooked(
    slots: Seq<TimeSlot>,
    bookings: Seq<Booking>,
    first: int,
    last: int,
    duration: int,
    step: int,
    i: int,
    j: int,
)
    requires
        is_slot_plan(slots, bookings, first, last, duration, step),
        0 <= i < slots.len(),
        slots[i].available,
        0 <= j < bookings.len(),
        holds_time(bookings[j].status@),
    ensures
        slots[i].end <= bookings[j].scheduled_at || bookings[j].end_at <= slots[i].start,
{
    assert(!blocks(bookings[j], slots[i].start as int, slots[i].end as int));
}

/// Every slot lies within opening hours: it starts no earlier than opening
/// and ends no later than closing.
pub proof fn lemma_slots_within_hours(
    slots: Seq<TimeSlot>,
    bookings: Seq<Booking>,
    first: int,
    last: int,
    duration: int,
    step: int,
    i: int,
)
    requires
        is_slot_plan(slots, bookings, first, last, duration, step),
        step > 0,
        duration >= 0,
        0 <= i < slots.len(),
    ensures
        first <= slots[i].start,
        slots[i].end <= last,
{
    let n = slot_count(first, last, duration, step);
    let x = last - duration - first;
    assert(first + duration <= last);
    assert(i * step <= x) by (nonlinear_arith)
        requires
            0 <= i < n,
            n == x / step + 1,
            x >= 0,
            step > 0,
    {
        assert(i <= x / step);
        assert(i * step <= (x / step) * step);
        assert((x / step) * step <= x);
    }
    assert(i * step >= 0) by (nonlinear_arith)
        requires
            i >= 0,
            step > 0,
    ;
}

/// Consecutive slots are one slot interval apart, so no two slots start at
/// the same instant.
pub proof fn lemma_slots_step(
    slots: Seq<TimeSlot>,
    bookings: Seq<Booking>,
    first: int,
    last: int,
    duration: int,
    step: int,
    i: int,
)
    requires
        is_slot_plan(slots, bookings, first, last, duration, step),
        0 <= i,
        i + 1 < slots.len(),
    ensures
        slots[i + 1].start == slots[i].start + step,
{
    assert((i + 1) * step == i * step + step) by (nonlinear_arith);
}

/// Bookings that were cancelled change nothing in the day's plan: listing
/// with one more cancelled booking gives the same slots.
pub proof fn lemma_cancelled_bookings_do_not_block(
    r1: AvailableSlotsResponse,
    r2: AvailableSlotsResponse,
    settings: ShopSettings,
    day: int,
    marked_closed: bool,
    duration_minutes: int,
    bookings: Seq<Booking>,
    cancelled: Booking,
)
    requires
        is_day_plan(r1, settings, day, marked_closed, duration_minutes, bookings),
        is_day_plan(r2, settings, day, marked_closed, duration_minutes, bookings.push(cancelled)),
        !holds_time(cancelled.status@),
    ensures
        r1.slots@ == r2.slots@,
{
    let more = bookings.push(cancelled);
    assert forall|s: int, e: int| is_free(bookings, s, e) == is_free(more, s, e) by {
        if is_free(bookings, s, e) {
            assert forall|j: int| 0 <= j < more.len() implies !blocks(#[trigger] more[j], s, e) by {
                if j < bookings.len() {
                    assert(more[j] == bookings[j]);
                }
            }
        }
        if is_free(more, s, e) {
            assert forall|j: int| 0 <= j < bookings.len() implies !blocks(
                #[trigger] bookings[j],
                s,
                e,
            ) by {
                assert(more[j] == bookings[j]);
            }
        }
    }
    assert(r1.slots@ =~= r2.slots@);
}

} // verus!
