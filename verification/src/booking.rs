//! Bookings: how a booking starts, how it may be cancelled or changed, and
//! which appointments of a day are still free.

use vstd::prelude::*;
use crate::common::{BookingStatus, PaymentType};
use crate::models::{Booking, CreateBookingRequest, NewBooking};
use crate::text::{owned, str_eq};
use crate::time::{valid_instant, MICROS_PER_MINUTE};

verus! {

// ---------------------------------------------------------------------------
// Status rules
// ---------------------------------------------------------------------------

/// The status a new booking starts in: paying at the shop confirms it at
/// once, any other way of paying leaves it pending until the payment clears.
pub open spec fn initial_status_of(payment_type: Seq<char>) -> Seq<char> {
    if payment_type == PaymentType::ONSITE.name() {
        BookingStatus::CONFIRMED.name()
    } else {
        BookingStatus::PENDING.name()
    }
}

/// Whether a booking in `status` still holds its time: it was not cancelled
/// by the user or by the shop.
pub open spec fn holds_time(status: Seq<char>) -> bool {
    status != BookingStatus::CANCELLED_BY_USER.name() && status
        != BookingStatus::CANCELLED_BY_ADMIN.name()
}

/// Whether the user may still cancel a booking in `status`: it is neither
/// cancelled nor completed.
pub open spec fn user_may_cancel(status: Seq<char>) -> bool {
    holds_time(status) && status != BookingStatus::COMPLETED.name()
}

/// Whether `user_id` may cancel `booking`: it is theirs and still open.
pub open spec fn cancellable_by(booking: Booking, user_id: u128) -> bool {
    booking.user_id == user_id && user_may_cancel(booking.status@)
}

/// The end of an appointment of `minutes` minutes starting at `start`.
pub open spec fn end_of(start: int, minutes: int) -> int {
    start + MICROS_PER_MINUTE * minutes
}

/// The status a new booking paid by `payment_type` starts in.
pub fn initial_status(payment_type: &str) -> (res: String)
    ensures
        res@ == initial_status_of(payment_type@),
{
    if str_eq(payment_type, PaymentType::ONSITE.as_str()) {
        owned(BookingStatus::CONFIRMED.as_str())
    } else {
        owned(BookingStatus::PENDING.as_str())
    }
}

/// Whether a booking in `status` still holds its time.
pub fn is_holding_time(status: &str) -> (res: bool)
    ensures
        res == holds_time(status@),
{
    !str_eq(status, BookingStatus::CANCELLED_BY_USER.as_str()) && !str_eq(
        status,
        BookingStatus::CANCELLED_BY_ADMIN.as_str(),
    )
}

/// The booking to store for `req`, for a service that takes
/// `duration_minutes` minutes: it ends that long after it starts, and its
/// status follows from how it is paid.
pub fn plan_booking(req: CreateBookingRequest, duration_minutes: i32) -> (res: NewBooking)
    requires
        valid_instant(req.scheduled_at as int),
        valid_instant(end_of(req.scheduled_at as int, duration_minutes as int)),
    ensures
        res.user_id == req.user_id,
        res.service_id == req.service_id,
        res.scheduled_at == req.scheduled_at,
        res.end_at as int == end_of(req.scheduled_at as int, duration_minutes as int),
        res.end_at == req.scheduled_at + 60_000_000 * duration_minutes,
        res.payment_type == req.payment_type,
        res.status@ == initial_status_of(req.payment_type@),
        res.memo == req.memo,
{
    let end_at = req.scheduled_at + MICROS_PER_MINUTE * (duration_minutes as i64);
    let status = initial_status(req.payment_type.as_str());
    NewBooking {
        user_id: req.user_id,
        service_id: req.service_id,
        scheduled_at: req.scheduled_at,
        end_at,
        payment_type: req.payment_type,
        status,
        memo: req.memo,
    }
}

/// Cancellation by `user_id` at `now`: allowed only on the user's own booking
/// while it is neither cancelled nor completed; the booking then becomes
/// cancelled by the user. `None` when it is not allowed.
pub fn cancel_by_user(booking: Booking, user_id: u128, now: i64) -> (res: Option<Booking>)
    ensures
        res is Some <==> cancellable_by(booking, user_id),
        res matches Some(b) ==> b == (Booking { status: b.status, updated_at: now, ..booking })
            && b.status@ == BookingStatus::CANCELLED_BY_USER.name(),
{
    if booking.user_id != user_id {
        return None;
    }
    let st = booking.status.as_str();
    if str_eq(st, BookingStatus::CANCELLED_BY_USER.as_str()) || str_eq(
        st,
        BookingStatus::CANCELLED_BY_ADMIN.as_str(),
    ) || str_eq(st, BookingStatus::COMPLETED.as_str()) {
        return None;
    }
    let status = owned(BookingStatus::CANCELLED_BY_USER.as_str());
    Some(Booking { status, updated_at: now, ..booking })
}

/// A status change made by the shop at `now`: the status is replaced, the
/// shop's note is replaced only when a new one is given.
pub fn update_status_by_admin(
    booking: Booking,
    status: String,
    admin_memo: Option<String>,
    now: i64,
) -> (res: Booking)
    ensures
        res == (Booking {
            status,
            admin_memo: if admin_memo is Some {
                admin_memo
            } else {
                booking.admin_memo
            },
            updated_at: now,
            ..booking
        }),
{
    let admin_memo = match admin_memo {
        Some(m) => Some(m),
        None => booking.admin_memo,
    };
    Booking { status, admin_memo, updated_at: now, ..booking }
}

/// The booking once its payment has cleared at `now`: confirmed.
pub fn confirm_paid(booking: Booking, now: i64) -> (res: Booking)
    ensures
        res == (Booking { status: res.status, updated_at: now, ..booking }),
        res.status@ == BookingStatus::CONFIRMED.name(),
{
    let status = owned(BookingStatus::CONFIRMED.as_str());
    Booking { status, updated_at: now, ..booking }
}

/// The booking once the shop has refunded it at `now`: cancelled by the shop.
pub fn cancel_by_admin(booking: Booking, now: i64) -> (res: Booking)
    ensures
        res == (Booking { status: res.status, updated_at: now, ..booking }),
        res.status@ == BookingStatus::CANCELLED_BY_ADMIN.name(),
{
    let status = owned(BookingStatus::CANCELLED_BY_ADMIN.as_str());
    Booking { status, updated_at: now, ..booking }
}

/// Paying at the shop confirms a booking at once; paying through NaverPay or
/// KakaoPay (or any other way) leaves it pending until the payment clears.
pub proof fn lemma_initial_status(payment_type: Seq<char>)
    ensures
        payment_type == "ONSITE"@ ==> initial_status_of(payment_type) == "CONFIRMED"@,
        payment_type != "ONSITE"@ ==> initial_status_of(payment_type) == "PENDING"@,
        initial_status_of("NAVER_PAY"@) == "PENDING"@,
        initial_status_of("KAKAO_PAY"@) == "PENDING"@,
{
    reveal_strlit("ONSITE");
    reveal_strlit("NAVER_PAY");
    reveal_strlit("KAKAO_PAY");
    assert("NAVER_PAY"@.len() != "ONSITE"@.len());
    assert("KAKAO_PAY"@.len() != "ONSITE"@.len());
}

/// An appointment lasts exactly its length: it ends `minutes` whole minutes
/// (of 60,000,000 microseconds) after it starts, the lengths of two
/// appointments back to back add up, and a longer appointment ends later.
pub proof fn lemma_end_is_start_plus_length(start: int, minutes: int, more: int)
    ensures
        end_of(start, minutes) - start == 60_000_000 * minutes,
        end_of(end_of(start, minutes), more) == end_of(start, minutes + more),
        more > 0 ==> end_of(start, minutes) < end_of(start, minutes + more),
{
}

/// A booking that the user has cancelled cannot be cancelled again, by
/// anyone: a second cancellation of the booking that `cancel_by_user`
/// returned is refused.
pub proof fn lemma_cancel_is_final(booking: Booking, user_id: u128)
    requires
        booking.status@ == BookingStatus::CANCELLED_BY_USER.name(),
    ensures
        !cancellable_by(booking, user_id),
{
}

/// Completed and cancelled bookings are never open to the user's
/// cancellation; pending and confirmed ones are.
pub proof fn lemma_user_cancellable_statuses()
    ensures
        !user_may_cancel(BookingStatus::COMPLETED.name()),
        !user_may_cancel(BookingStatus::CANCELLED_BY_USER.name()),
        !user_may_cancel(BookingStatus::CANCELLED_BY_ADMIN.name()),
        user_may_cancel(BookingStatus::PENDING.name()),
        user_may_cancel(BookingStatus::CONFIRMED.name()),
{
    reveal_strlit("COMPLETED");
    reveal_strlit("CANCELLED_BY_USER");
    reveal_strlit("CANCELLED_BY_ADMIN");
    reveal_strlit("PENDING");
    reveal_strlit("CONFIRMED");
    assert("PENDING"@[0] != "COMPLETED"@[0]);
    assert("PENDING"@[0] != "CANCELLED_BY_USER"@[0]);
    assert("PENDING"@[0] != "CANCELLED_BY_ADMIN"@[0]);
    assert("CONFIRMED"@[2] != "COMPLETED"@[2]);
    assert("CONFIRMED"@.len() != "CANCELLED_BY_USER"@.len());
    assert("CONFIRMED"@.len() != "CANCELLED_BY_ADMIN"@.len());
}

} // verus!
