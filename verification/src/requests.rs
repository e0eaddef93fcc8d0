//! The bodies and queries that the API takes and the answers it gives, with
//! the defaults that apply to what a request leaves out.

use vstd::prelude::*;
use crate::auth::{AuthTokens, linked_providers};
use crate::ids::{uuid_text, uuid_to_string};
use crate::models::{User, UserSocialAccount};
use crate::payment::PaymentReadyResult;
use crate::text::owned;

verus! {

/// `value`, or `default` when it is absent.
pub open spec fn or_value<T>(value: Option<T>, default: T) -> T {
    match value {
        Some(v) => v,
        None => default,
    }
}

/// Body of a request to create a service category.
#[derive(Debug, Clone)]
pub struct CreateCategoryRequest {
    pub name: String,
    pub display_order: Option<i32>,
}

impl CreateCategoryRequest {
    /// The display order asked for; 0 when none is given.
    pub fn display_order_or_default(&self) -> (res: i32)
        ensures
            res == or_value(self.display_order, 0),
    {
        match self.display_order {
            Some(v) => v,
            None => 0,
        }
    }
}

/// Body of a request to change a service category.
#[derive(Debug, Clone)]
pub struct UpdateCategoryRequest {
    pub name: String,
    pub display_order: Option<i32>,
    pub is_active: Option<bool>,
}

impl UpdateCategoryRequest {
    /// The display order asked for; 0 when none is given.
    pub fn display_order_or_default(&self) -> (res: i32)
        ensures
            res == or_value(self.display_order, 0),
    {
        match self.display_order {
            Some(v) => v,
            None => 0,
        }
    }

    /// Whether the category is to be active; it is unless said otherwise.
    pub fn is_active_or_default(&self) -> (res: bool)
        ensures
            res == or_value(self.is_active, true),
    {
        match self.is_active {
            Some(v) => v,
            None => true,
        }
    }
}

/// Body of a request to create a service.
#[derive(Debug, Clone)]
pub struct CreateServiceRequest {
    pub category_id: Option<u128>,
    pub name: String,
    pub description: Option<String>,
    pub duration_minutes: i32,
    pub price_krw: i32,
    pub thumbnail_url: Option<String>,
    pub display_order: Option<i32>,
}

impl CreateServiceRequest {
    /// The display order asked for; 0 when none is given.
    pub fn display_order_or_default(&self) -> (res: i32)
        ensures
            res == or_value(self.display_order, 0),
    {
        match self.display_order {
            Some(v) => v,
            None => 0,
        }
    }
}

/// Body of a request to change a service.
#[derive(Debug, Clone)]
pub struct UpdateServiceRequest {
    pub category_id: Option<u128>,
    pub name: String,
    pub description: Option<String>,
    pub duration_minutes: i32,
    pub price_krw: i32,
    pub thumbnail_url: Option<String>,
    pub display_order: Option<i32>,
    pub is_active: Option<bool>,
}

impl UpdateServiceRequest {
    /// The display order asked for; 0 when none is given.
    pub fn display_order_or_default(&self) -> (res: i32)
        ensures
            res == or_value(self.display_order, 0),
    {
        match self.display_order {
            Some(v) => v,
            None => 0,
        }
    }

    /// Whether the service is to be active; it is unless said otherwise.
    pub fn is_active_or_default(&self) -> (res: bool)
        ensures
            res == or_value(self.is_active, true),
    {
        match self.is_active {
            Some(v) => v,
            None => true,
        }
    }
}

/// Body of the shop's request to change a booking's status.
#[derive(Debug, Clone)]
pub struct UpdateBookingStatusRequest {
    pub status: String,
    pub admin_memo: Option<String>,
}

/// Body of a request to mark a day closed.
#[derive(Debug, Clone)]
pub struct AddClosedDayRequest {
    pub closed_date: i32,
    pub day_type: Option<String>,
    pub reason: Option<String>,
}

impl AddClosedDayRequest {
    /// The kind of closed day asked for; `TEMPORARY` when none is given.
    pub fn day_type_or_default(&self) -> (res: String)
        ensures
            res@ == (match self.day_type {
                Some(t) => t@,
                None => "TEMPORARY"@,
            }),
    {
        match &self.day_type {
            Some(t) => t.clone(),
            None => owned("TEMPORARY"),
        }
    }
}

/// Body of a request to change the shop's settings.
#[derive(Debug, Clone)]
pub struct UpdateShopSettingsRequest {
    pub shop_name: String,
    pub closed_weekdays: Vec<i32>,
    /// Written `HH:MM`, for instance `10:00`.
    pub open_time: String,
    /// Written `HH:MM`, for instance `20:00`.
    pub close_time: String,
    pub slot_interval_min: i32,
    pub max_booking_days: i32,
}

/// Body of the shop's request to refund a booking.
#[derive(Debug, Clone)]
pub struct ProcessRefundRequest {
    pub refund_amount_krw: i32,
    pub refund_reason: String,
}

/// Query of a social provider's sign-in callback.
#[derive(Debug, Clone)]
pub struct OAuthCallbackQuery {
    pub code: String,
    pub state: Option<String>,
}

impl OAuthCallbackQuery {
    /// The state sent back by the provider; empty when there is none.
    pub fn state_or_empty(&self) -> (res: String)
        ensures
            res@ == (match self.state {
                Some(s) => s@,
                None => Seq::<char>::empty(),
            }),
    {
        match &self.state {
            Some(s) => s.clone(),
            None => String::new(),
        }
    }
}

/// Query of a social provider's callback when linking an account.
#[derive(Debug, Clone)]
pub struct LinkCallbackQuery {
    pub code: String,
    pub state: Option<String>,
}

impl LinkCallbackQuery {
    /// The state sent back by the provider; empty when there is none.
    pub fn state_or_empty(&self) -> (res: String)
        ensures
            res@ == (match self.state {
                Some(s) => s@,
                None => Seq::<char>::empty(),
            }),
    {
        match &self.state {
            Some(s) => s.clone(),
            None => String::new(),
        }
    }
}

/// The token type of every token the API hands out.
pub open spec fn bearer() -> Seq<char> {
    "Bearer"@
}

/// Answer to a successful sign-in: the two tokens, their type `Bearer`, and
/// who signed in.
#[derive(Debug, Clone)]
pub struct AuthResponse {
    pub access_token: String,
    pub refresh_token: String,
    pub token_type: String,
    pub user_id: String,
    pub name: String,
    pub role: String,
}

impl AuthResponse {
    /// The answer that hands `tokens` to their user, as `Bearer` tokens.
    pub fn from_tokens(tokens: AuthTokens) -> (res: AuthResponse)
        ensures
            res.access_token == tokens.access_token,
            res.refresh_token == tokens.refresh_token,
            res.token_type@ == bearer(),
            res.user_id@ == uuid_text(tokens.user.id),
            res.name == tokens.user.name,
            res.role == tokens.user.role,
    {
        AuthResponse {
            access_token: tokens.access_token,
            refresh_token: tokens.refresh_token,
            token_type: owned("Bearer"),
            user_id: uuid_to_string(tokens.user.id),
            name: tokens.user.name,
            role: tokens.user.role,
        }
    }
}

/// Body of a request to refresh the access token.
#[derive(Debug, Clone)]
pub struct RefreshRequest {
    pub refresh_token: String,
}

/// Body of a request to sign out, revoking a refresh token.
#[derive(Debug, Clone)]
pub struct LogoutRequest {
    pub refresh_token: String,
}

/// Query of a request for a provider's sign-in URL.
#[derive(Debug, Clone)]
pub struct OAuthStateQuery {
    pub state: Option<String>,
}

impl OAuthStateQuery {
    /// The state to send to the provider: the one asked for, else `fresh`.
    pub fn state_or(&self, fresh: String) -> (res: String)
        ensures
            res == or_value(self.state, fresh),
    {
        match &self.state {
            Some(s) => s.clone(),
            None => fresh,
        }
    }
}

/// Answer to a refresh: a new access token and the new refresh token that
/// replaces the one spent, as `Bearer` tokens.
#[derive(Debug, Clone)]
pub struct AccessTokenResponse {
    pub access_token: String,
    pub refresh_token: String,
    pub token_type: String,
}

impl AccessTokenResponse {
    /// The answer to a refresh that issued `access_token` and the new
    /// `refresh_token`.
    pub fn issued(access_token: String, refresh_token: String) -> (res: AccessTokenResponse)
        ensures
            res.access_token == access_token,
            res.refresh_token == refresh_token,
            res.token_type@ == bearer(),
    {
        AccessTokenResponse { access_token, refresh_token, token_type: owned("Bearer") }
    }
}

/// Answer to a payment's preparation: the order and where to pay it.
#[derive(Debug, Clone)]
pub struct PaymentReadyResponse {
    pub pg_order_id: String,
    pub payment_url: String,
}

impl PaymentReadyResponse {
    /// The answer for a prepared payment; the transaction id stays inside.
    pub fn from_result(result: PaymentReadyResult) -> (res: PaymentReadyResponse)
        ensures
            res.pg_order_id == result.pg_order_id,
            res.payment_url == result.payment_url,
    {
        PaymentReadyResponse { pg_order_id: result.pg_order_id, payment_url: result.payment_url }
    }
}

/// Query with which NaverPay returns the user after payment.
#[derive(Debug, Clone)]
pub struct NaverPayApproveQuery {
    pub pg_order_id: String,
    pub merchant_user_key: String,
    pub payment_id: String,
}

/// Query with which KakaoPay returns the user after payment.
#[derive(Debug, Clone)]
pub struct KakaoPayApproveQuery {
    pub pg_token: String,
    pub partner_order_id: String,
}

/// Answer describing the current user.
#[derive(Debug, Clone)]
pub struct MeResponse {
    pub id: String,
    pub name: String,
    pub email: Option<String>,
    pub phone: Option<String>,
    pub profile_image_url: Option<String>,
    pub role: String,
    pub linked_providers: Vec<String>,
}

impl MeResponse {
    /// The description of `user`, with the providers of their linked social
    /// accounts in order.
    pub fn describe(user: User, accounts: Vec<UserSocialAccount>) -> (res: MeResponse)
        ensures
            res.id@ == uuid_text(user.id),
            res.name == user.name,
            res.email == user.email,
            res.phone == user.phone,
            res.profile_image_url == user.profile_image_url,
            res.role == user.role,
            res.linked_providers@.len() == accounts@.len(),
            forall|i: int|
                0 <= i < accounts@.len() ==> res.linked_providers@[i]
                    == #[trigger] accounts@[i].provider,
    {
        let providers = linked_providers(accounts);
        MeResponse {
            id: uuid_to_string(user.id),
            name: user.name,
            email: user.email,
            phone: user.phone,
            profile_image_url: user.profile_image_url,
            role: user.role,
            linked_providers: providers,
        }
    }
}

} // verus!
