//! The records of the service as plain values: identifiers are the 128-bit
//! values of their UUIDs, instants are microseconds since the Unix epoch (see
//! `time`), calendar days are day numbers (see `time`).

use vstd::prelude::*;

verus! {

/// A booking of one service by one user.
#[derive(Debug, Clone)]
pub struct Booking {
    pub id: u128,
    pub user_id: u128,
    pub service_id: u128,
    pub scheduled_at: i64,
    pub end_at: i64,
    pub payment_type: String,
    pub status: String,
    pub memo: Option<String>,
    pub admin_memo: Option<String>,
    pub created_at: i64,
    pub updated_at: i64,
}

/// What a user asks for when booking a service.
#[derive(Debug, Clone)]
pub struct CreateBookingRequest {
    pub user_id: u128,
    pub service_id: u128,
    pub scheduled_at: i64,
    pub payment_type: String,
    pub memo: Option<String>,
}

/// A booking about to be stored: everything but what the store assigns.
#[derive(Debug, Clone)]
pub struct NewBooking {
    pub user_id: u128,
    pub service_id: u128,
    pub scheduled_at: i64,
    pub end_at: i64,
    pub payment_type: String,
    pub status: String,
    pub memo: Option<String>,
}

/// A candidate appointment on one day.
#[derive(Debug, Clone, Copy)]
pub struct TimeSlot {
    pub start: i64,
    pub end: i64,
    pub available: bool,
}

/// The candidate appointments of one calendar day.
#[derive(Debug, Clone)]
pub struct AvailableSlotsResponse {
    pub date: i32,
    pub slots: Vec<TimeSlot>,
}

/// A day on which the shop does not take bookings.
#[derive(Debug, Clone)]
pub struct ClosedDay {
    pub id: u128,
    pub closed_date: i32,
    pub day_type: String,
    pub reason: Option<String>,
    pub created_at: i64,
}

/// A payment of a booking through a payment gateway.
#[derive(Debug, Clone)]
pub struct Payment {
    pub id: u128,
    pub booking_id: u128,
    pub user_id: u128,
    pub provider: String,
    pub payment_type: String,
    pub amount_krw: i32,
    pub status: String,
    pub pg_order_id: String,
    pub pg_transaction_id: Option<String>,
    pub paid_at: Option<i64>,
    pub refund_amount_krw: Option<i32>,
    pub refund_reason: Option<String>,
    pub refunded_at: Option<i64>,
    pub created_at: i64,
    pub updated_at: i64,
}

/// A service that the shop offers.
#[derive(Debug, Clone)]
pub struct Service {
    pub id: u128,
    pub name: String,
    pub duration_minutes: i32,
    pub price_krw: i32,
    pub created_at: Option<i64>,
}

/// A group of services.
#[derive(Debug, Clone)]
pub struct ServiceCategory {
    pub id: u128,
    pub name: String,
    pub display_order: i32,
    pub is_active: bool,
    pub created_at: i64,
}

/// The shop's opening rules. `closed_weekdays` counts from Sunday (0) to
/// Saturday (6); the times are written `HH:MM` or `HH:MM:SS`, as the store
/// prints its time-of-day values, which never name a leap second.
#[derive(Debug, Clone)]
pub struct ShopSettings {
    pub id: u128,
    pub shop_name: String,
    pub closed_weekdays: Vec<i32>,
    pub open_time: String,
    pub close_time: String,
    pub slot_interval_min: i32,
    pub max_booking_days: i32,
    pub created_at: i64,
    pub updated_at: i64,
}

/// A social identity linked to a user; the provider's identifier is kept
/// encrypted.
#[derive(Debug, Clone)]
pub struct UserSocialAccount {
    pub id: u128,
    pub user_id: u128,
    pub provider: String,
    pub provider_id_encrypted: String,
    pub created_at: i64,
}

/// A user of the service.
#[derive(Debug, Clone)]
pub struct User {
    pub id: u128,
    pub name: String,
    pub email: Option<String>,
    pub phone: Option<String>,
    pub profile_image_url: Option<String>,
    pub role: String,
}

} // verus!
