//! Payments: order numbers, preparing a payment with a gateway, approving
//! it, and refunding it.

use vstd::prelude::*;
use crate::common::{PaymentProvider, PaymentStatus, PaymentType};
use crate::gateway::{
    KakaoPayApproveRequest, KakaoPayCancelRequest, KakaoPayReadyRequest, KakaoPayReadyResponse,
    NaverPayApproveRequest, NaverPayCancelRequest, NaverPayReadyRequest, NaverPayReadyResponse,
};
use crate::ids::{is_v4_uuid, lemma_v4_uuid_text, new_random_uuid, uuid_text, uuid_to_string};
use crate::models::Payment;
use crate::text::{concat2, owned, str_eq};

verus! {

/// What a payment's preparation hands back to the user.
#[derive(Debug, Clone)]
pub struct PaymentReadyResult {
    pub pg_order_id: String,
    /// NaverPay: the express (or highlight) URL; KakaoPay: the app (or mobile,
    /// or PC) redirect URL.
    pub payment_url: String,
    /// KakaoPay's transaction id, needed to approve the payment.
    pub tid: Option<String>,
}

/// A payment row about to be stored: everything but what the store assigns.
#[derive(Debug, Clone)]
pub struct NewPayment {
    pub booking_id: u128,
    pub user_id: u128,
    pub provider: String,
    pub payment_type: String,
    pub amount_krw: i32,
    pub status: String,
    pub pg_order_id: String,
    pub pg_transaction_id: Option<String>,
}

/// A refund as the gateway of the payment is asked for it.
#[derive(Debug, Clone)]
pub enum RefundCall {
    Naver(NaverPayCancelRequest),
    Kakao(KakaoPayCancelRequest),
}

/// Why a payment step could not go on.
#[derive(Debug, Clone)]
pub enum PaymentError {
    /// NaverPay's prepare answer has neither an express nor a highlight URL.
    NaverNoPaymentUrl,
    /// KakaoPay's prepare answer has no redirect URL at all.
    KakaoNoRedirectUrl,
    /// The KakaoPay payment of this order has no transaction id.
    KakaoTidNotFound { pg_order_id: String },
    /// The NaverPay payment to refund has no transaction id.
    NaverNoTransactionId,
    /// The KakaoPay payment to refund has no transaction id.
    KakaoNoTid,
    /// The payment to refund is of a provider the shop does not know.
    UnknownProvider { provider: String },
}

impl PaymentError {
    /// The text of the refusal.
    pub open spec fn text(self) -> Seq<char> {
        match self {
            PaymentError::NaverNoPaymentUrl => "NaverPay: no payment URL in response"@,
            PaymentError::KakaoNoRedirectUrl => "KakaoPay: no redirect URL in response"@,
            PaymentError::KakaoTidNotFound { pg_order_id } => "KakaoPay: tid not found for order "@
                + pg_order_id@,
            PaymentError::NaverNoTransactionId => "NaverPay: no transaction id"@,
            PaymentError::KakaoNoTid => "KakaoPay: no tid"@,
            PaymentError::UnknownProvider { provider } => "Unknown payment provider: "@
                + provider@,
        }
    }

    /// The text of the refusal.
    pub fn message(&self) -> (res: String)
        ensures
            res@ == self.text(),
    {
        match self {
            PaymentError::NaverNoPaymentUrl => owned("NaverPay: no payment URL in response"),
            PaymentError::KakaoNoRedirectUrl => owned("KakaoPay: no redirect URL in response"),
            PaymentError::KakaoTidNotFound { pg_order_id } => concat2(
                "KakaoPay: tid not found for order ",
                pg_order_id.as_str(),
            ),
            PaymentError::NaverNoTransactionId => owned("NaverPay: no transaction id"),
            PaymentError::KakaoNoTid => owned("KakaoPay: no tid"),
            PaymentError::UnknownProvider { provider } => concat2(
                "Unknown payment provider: ",
                provider.as_str(),
            ),
        }
    }
}

/// The prefix of the order numbers of `provider`.
pub open spec fn order_prefix(provider: PaymentProvider) -> Seq<char> {
    match provider {
        PaymentProvider::NAVER_PAY => "NAVER-"@,
        PaymentProvider::KAKAO_PAY => "KAKAO-"@,
    }
}

/// The order number of `provider` built on the UUID `uuid`.
pub open spec fn order_id_text(provider: PaymentProvider, uuid: u128) -> Seq<char> {
    order_prefix(provider) + uuid_text(uuid)
}

/// The order number of `provider` built on the UUID `uuid`: `NAVER-` or
/// `KAKAO-` followed by the UUID's text.
pub fn order_id(provider: PaymentProvider, uuid: u128) -> (res: String)
    ensures
        res@ == order_id_text(provider, uuid),
{
    let prefix = match provider {
        PaymentProvider::NAVER_PAY => "NAVER-",
        PaymentProvider::KAKAO_PAY => "KAKAO-",
    };
    let text = uuid_to_string(uuid);
    concat2(prefix, text.as_str())
}

/// A fresh order number of `provider`, on a random (version 4) UUID.
pub fn new_order_id(provider: PaymentProvider) -> (res: String)
    ensures
        exists|u: u128| res@ == order_id_text(provider, u),
        exists|u: u128| #[trigger] is_v4_uuid(u) && res@ == order_id_text(provider, u),
        res@[order_prefix(provider).len() as int + 14] == '4',
{
    let u = new_random_uuid();
    let res = order_id(provider, u);
    proof {
        lemma_v4_uuid_text(u);
        assert(res@[order_prefix(provider).len() as int + 14] == uuid_text(u)[14]);
    }
    res
}

/// An order number on a random UUID shows the UUID's version `4` in its
/// fifteenth UUID character, so it is never the order number of the nil
/// UUID (which shows `0` there): fresh order numbers are not a fixed one.
pub proof fn lemma_fresh_order_id_is_not_nil(provider: PaymentProvider, u: u128)
    requires
        is_v4_uuid(u),
    ensures
        order_id_text(provider, u)[order_prefix(provider).len() as int + 14] == '4',
        order_id_text(provider, u) != order_id_text(provider, 0),
{
    lemma_v4_uuid_text(u);
    let k = order_prefix(provider).len() as int + 14;
    assert(order_id_text(provider, u)[k] == uuid_text(u)[14]);
    assert(order_id_text(provider, 0)[k] == uuid_text(0)[14]);
}

/// Order numbers of the two gateways never coincide.
pub proof fn lemma_order_ids_distinct(u: u128, v: u128)
    ensures
        order_id_text(PaymentProvider::NAVER_PAY, u) != order_id_text(PaymentProvider::KAKAO_PAY, v),
{
    reveal_strlit("NAVER-");
    reveal_strlit("KAKAO-");
    assert(order_id_text(PaymentProvider::NAVER_PAY, u)[0] != order_id_text(
        PaymentProvider::KAKAO_PAY,
        v,
    )[0]);
}

/// NaverPay's prepare request for an order of `amount` won, all of it taxed,
/// by the user `user_id`.
pub fn naver_ready_request(
    user_id: u128,
    pg_order_id: String,
    product_name: String,
    amount: i32,
    return_url: String,
) -> (res: NaverPayReadyRequest)
    ensures
        res.merchant_user_key@ == uuid_text(user_id),
        res.merchant_pay_key == pg_order_id,
        res.product_name == product_name,
        res.total_pay_amount == amount,
        res.tax_scope_amount == amount,
        res.tax_ex_scope_amount == 0,
        res.return_url == return_url,
{
    NaverPayReadyRequest {
        merchant_user_key: uuid_to_string(user_id),
        merchant_pay_key: pg_order_id,
        product_name,
        total_pay_amount: amount,
        tax_scope_amount: amount,
        tax_ex_scope_amount: 0,
        return_url,
    }
}

/// The URL that NaverPay's prepare answer sends the user to: the express URL,
/// else the highlight URL.
pub fn naver_payment_url(res: NaverPayReadyResponse) -> (url: Result<String, PaymentError>)
    ensures
        url == (match res.pay_express_url {
            Some(u) => Ok(u),
            None => match res.pay_highlight_url {
                Some(u) => Ok(u),
                None => Err(PaymentError::NaverNoPaymentUrl),
            },
        }),
{
    match res.pay_express_url {
        Some(u) => Ok(u),
        None => match res.pay_highlight_url {
            Some(u) => Ok(u),
            None => Err(PaymentError::NaverNoPaymentUrl),
        },
    }
}

/// `res` is KakaoPay's prepare request for one item of `amount` won, none of
/// it tax free, by the user `user_id`, for the order `pg_order_id`.
pub open spec fn is_kakao_ready_request(
    res: KakaoPayReadyRequest,
    cid: String,
    pg_order_id: String,
    user_id: u128,
    product_name: String,
    amount: i32,
    approval_url: String,
    cancel_url: String,
    fail_url: String,
) -> bool {
    &&& res.cid == cid
    &&& res.partner_order_id == pg_order_id
    &&& res.partner_user_id@ == uuid_text(user_id)
    &&& res.item_name == product_name
    &&& res.quantity == 1
    &&& res.total_amount == amount
    &&& res.tax_free_amount == 0
    &&& res.approval_url == approval_url
    &&& res.cancel_url == cancel_url
    &&& res.fail_url == fail_url
}

/// KakaoPay's prepare request for one item of `amount` won, none of it tax
/// free, by the user `user_id`.
pub fn kakao_ready_request(
    cid: String,
    pg_order_id: String,
    user_id: u128,
    product_name: String,
    amount: i32,
    approval_url: String,
    cancel_url: String,
    fail_url: String,
) -> (res: KakaoPayReadyRequest)
    ensures
        is_kakao_ready_request(
            res,
            cid,
            pg_order_id,
            user_id,
            product_name,
            amount,
            approval_url,
            cancel_url,
            fail_url,
        ),
{
    KakaoPayReadyRequest {
        cid,
        partner_order_id: pg_order_id,
        partner_user_id: uuid_to_string(user_id),
        item_name: product_name,
        quantity: 1,
        total_amount: amount,
        tax_free_amount: 0,
        approval_url,
        cancel_url,
        fail_url,
    }
}

/// The URL that KakaoPay's prepare answer sends the user to: the app URL,
/// else the mobile URL, else the PC URL.
pub fn kakao_payment_url(res: &KakaoPayReadyResponse) -> (url: Result<String, PaymentError>)
    ensures
        url == (match res.next_redirect_app_url {
            Some(u) => Ok(u),
            None => match res.next_redirect_mobile_url {
                Some(u) => Ok(u),
                None => match res.next_redirect_pc_url {
                    Some(u) => Ok(u),
                    None => Err(PaymentError::KakaoNoRedirectUrl),
                },
            },
        }),
{
    match &res.next_redirect_app_url {
        Some(u) => Ok(u.clone()),
        None => match &res.next_redirect_mobile_url {
            Some(u) => Ok(u.clone()),
            None => match &res.next_redirect_pc_url {
                Some(u) => Ok(u.clone()),
                None => Err(PaymentError::KakaoNoRedirectUrl),
            },
        },
    }
}

/// `res` is the payment row to store once `provider` has prepared a payment
/// of `amount` won for the order `pg_order_id`: an instant payment, ready to
/// be paid, with the gateway's transaction id `tid` when it gave one.
pub open spec fn is_ready_payment(
    res: NewPayment,
    booking_id: u128,
    user_id: u128,
    provider: PaymentProvider,
    amount: i32,
    pg_order_id: String,
    tid: Option<String>,
) -> bool {
    &&& res.booking_id == booking_id
    &&& res.user_id == user_id
    &&& res.provider@ == provider.name()
    &&& res.payment_type@ == PaymentType::INSTANT.name()
    &&& res.amount_krw == amount
    &&& res.status@ == PaymentStatus::READY.name()
    &&& res.pg_order_id == pg_order_id
    &&& res.pg_transaction_id == tid
}

/// Whether the stored payment `row` holds the payment `new` that was handed
/// to the store.
pub open spec fn stores(row: Payment, new: NewPayment) -> bool {
    &&& row.booking_id == new.booking_id
    &&& row.user_id == new.user_id
    &&& row.provider == new.provider
    &&& row.payment_type == new.payment_type
    &&& row.amount_krw == new.amount_krw
    &&& row.status == new.status
    &&& row.pg_order_id == new.pg_order_id
    &&& row.pg_transaction_id == new.pg_transaction_id
}

/// The payment row stored once a gateway has prepared a payment: an instant
/// payment of `amount` won through `provider`, ready to be paid, with the
/// gateway's transaction id when it gave one.
pub fn ready_payment(
    booking_id: u128,
    user_id: u128,
    provider: PaymentProvider,
    amount: i32,
    pg_order_id: String,
    tid: Option<String>,
) -> (res: NewPayment)
    ensures
        is_ready_payment(res, booking_id, user_id, provider, amount, pg_order_id, tid),
        res.pg_order_id == pg_order_id,
        res.pg_transaction_id == tid,
        res.booking_id == booking_id,
        res.user_id == user_id,
        res.amount_krw == amount,
{
    NewPayment {
        booking_id,
        user_id,
        provider: owned(provider.as_str()),
        payment_type: owned(PaymentType::INSTANT.as_str()),
        amount_krw: amount,
        status: owned(PaymentStatus::READY.as_str()),
        pg_order_id,
        pg_transaction_id: tid,
    }
}

/// NaverPay's approve request for the order `pg_order_id`.
pub fn naver_approve_request(pg_order_id: String, merchant_user_key: String, payment_id: String) -> (res:
    NaverPayApproveRequest)
    ensures
        res.merchant_pay_key == pg_order_id,
        res.merchant_user_key == merchant_user_key,
        res.payment_id == payment_id,
{
    NaverPayApproveRequest { merchant_pay_key: pg_order_id, merchant_user_key, payment_id }
}

/// What asking KakaoPay to approve the stored `payment` of the order
/// `pg_order_id` gives: the request carrying the transaction id that
/// preparing the payment stored and the payment's user, or an error when no
/// transaction id was stored.
pub open spec fn kakao_approve_outcome(
    res: Result<KakaoPayApproveRequest, PaymentError>,
    cid: String,
    payment: Payment,
    pg_order_id: String,
    pg_token: String,
) -> bool {
    match payment.pg_transaction_id {
        Some(tid) => res matches Ok(r) && r.cid == cid && r.tid == tid && r.partner_order_id
            == pg_order_id && r.partner_user_id@ == uuid_text(payment.user_id) && r.pg_token
            == pg_token,
        None => res == Err::<KakaoPayApproveRequest, PaymentError>(
            PaymentError::KakaoTidNotFound { pg_order_id },
        ),
    }
}

/// KakaoPay's approve request for the stored payment of the order
/// `pg_order_id`: it needs the transaction id that preparing the payment
/// stored.
pub fn kakao_approve_request(
    cid: String,
    payment: &Payment,
    pg_order_id: String,
    pg_token: String,
) -> (res: Result<KakaoPayApproveRequest, PaymentError>)
    ensures
        kakao_approve_outcome(res, cid, *payment, pg_order_id, pg_token),
{
    match &payment.pg_transaction_id {
        Some(tid) => Ok(
            KakaoPayApproveRequest {
                cid,
                tid: tid.clone(),
                partner_order_id: pg_order_id,
                partner_user_id: uuid_to_string(payment.user_id),
                pg_token,
            },
        ),
        None => Err(PaymentError::KakaoTidNotFound { pg_order_id }),
    }
}

/// `res` is `payment` once its gateway has approved it at `now`: paid, with
/// the gateway's `transaction_id` when it gave one, all else unchanged.
pub open spec fn is_paid_payment(
    res: Payment,
    payment: Payment,
    transaction_id: Option<String>,
    now: i64,
) -> bool {
    &&& res == (Payment {
        status: res.status,
        pg_transaction_id: if transaction_id is Some {
            transaction_id
        } else {
            payment.pg_transaction_id
        },
        paid_at: Some(now),
        updated_at: now,
        ..payment
    })
    &&& res.status@ == PaymentStatus::PAID.name()
}

/// The payment once its gateway has approved it at `now`: paid, with the
/// gateway's transaction id when it gave one at approval.
pub fn mark_paid(payment: Payment, transaction_id: Option<String>, now: i64) -> (res: Payment)
    ensures
        is_paid_payment(res, payment, transaction_id, now),
{
    let pg_transaction_id = match transaction_id {
        Some(t) => Some(t),
        None => payment.pg_transaction_id,
    };
    let status = owned(PaymentStatus::PAID.as_str());
    Payment { status, pg_transaction_id, paid_at: Some(now), updated_at: now, ..payment }
}

/// Approving a KakaoPay payment goes back to its preparation: the approve
/// request carries the transaction id that KakaoPay gave when preparing, and
/// the merchant, order number and user of the prepare request; the payment
/// it approves was ready and becomes paid, for the prepared amount and
/// booking.
pub proof fn lemma_kakao_approve_follows_ready(
    ready: KakaoPayReadyRequest,
    answer: KakaoPayReadyResponse,
    stored: NewPayment,
    row: Payment,
    approve: Result<KakaoPayApproveRequest, PaymentError>,
    paid: Payment,
    cid: String,
    booking_id: u128,
    user_id: u128,
    product_name: String,
    amount: i32,
    approval_url: String,
    cancel_url: String,
    fail_url: String,
    pg_order_id: String,
    pg_token: String,
    transaction_id: Option<String>,
    now: i64,
)
    requires
        is_kakao_ready_request(
            ready,
            cid,
            pg_order_id,
            user_id,
            product_name,
            amount,
            approval_url,
            cancel_url,
            fail_url,
        ),
        is_ready_payment(
            stored,
            booking_id,
            user_id,
            PaymentProvider::KAKAO_PAY,
            amount,
            pg_order_id,
            Some(answer.tid),
        ),
        stores(row, stored),
        kakao_approve_outcome(approve, cid, row, pg_order_id, pg_token),
        is_paid_payment(paid, row, transaction_id, now),
    ensures
        approve matches Ok(r) && r.tid == answer.tid && r.cid == ready.cid && r.partner_order_id
            == ready.partner_order_id && r.partner_user_id@ == ready.partner_user_id@
            && r.pg_token == pg_token,
        row.status@ == PaymentStatus::READY.name(),
        paid.status@ == PaymentStatus::PAID.name(),
        paid.amount_krw == amount,
        paid.booking_id == booking_id,
        paid.user_id == user_id,
        row.pg_order_id == pg_order_id,
        paid.pg_order_id == pg_order_id,
        ready.partner_order_id == row.pg_order_id,
{
}

/// A ready payment is stored under the very order number it was prepared
/// for, whatever transaction id the gateway gave: two preparations with the
/// same order number and different transaction ids store the same order
/// number, and the transaction id is kept beside it unchanged.
pub proof fn lemma_ready_payment_keeps_order_number(
    a: NewPayment,
    b: NewPayment,
    booking_id: u128,
    user_id: u128,
    provider: PaymentProvider,
    amount: i32,
    pg_order_id: String,
    tid_a: Option<String>,
    tid_b: Option<String>,
)
    requires
        is_ready_payment(a, booking_id, user_id, provider, amount, pg_order_id, tid_a),
        is_ready_payment(b, booking_id, user_id, provider, amount, pg_order_id, tid_b),
    ensures
        a.pg_order_id == pg_order_id,
        b.pg_order_id == pg_order_id,
        a.pg_order_id == b.pg_order_id,
        a.pg_transaction_id == tid_a,
        b.pg_transaction_id == tid_b,
{
}

/// The status of a payment of `paid` won after a refund of `refunded` won:
/// cancelled when the whole amount goes back, partly cancelled otherwise.
pub open spec fn refund_status_of(refunded: i32, paid: i32) -> Seq<char> {
    if refunded == paid {
        PaymentStatus::CANCELLED.name()
    } else {
        PaymentStatus::PARTIAL_CANCELLED.name()
    }
}

/// The gateway call that refunds `amount` won of `payment` for `reason`.
/// NaverPay refunds by payment id, KakaoPay by transaction id (with the
/// shop's `kakao_cid`); either needs the stored transaction id. Payments of
/// any other provider cannot be refunded.
pub fn plan_refund(payment: &Payment, amount: i32, reason: String, kakao_cid: String) -> (res:
    Result<RefundCall, PaymentError>)
    ensures
        payment.provider@ == PaymentProvider::NAVER_PAY.name() ==> match payment.pg_transaction_id {
            Some(id) => res == Ok::<RefundCall, PaymentError>(
                RefundCall::Naver(
                    NaverPayCancelRequest {
                        payment_id: id,
                        cancel_amount: amount,
                        cancel_reason: reason,
                        cancel_require_point: None,
                    },
                ),
            ),
            None => res == Err::<RefundCall, PaymentError>(PaymentError::NaverNoTransactionId),
        },
        payment.provider@ == PaymentProvider::KAKAO_PAY.name() ==> match payment.pg_transaction_id {
            Some(tid) => res == Ok::<RefundCall, PaymentError>(
                RefundCall::Kakao(
                    KakaoPayCancelRequest {
                        cid: kakao_cid,
                        tid,
                        cancel_amount: amount,
                        cancel_tax_free_amount: 0,
                    },
                ),
            ),
            None => res == Err::<RefundCall, PaymentError>(PaymentError::KakaoNoTid),
        },
        payment.provider@ != PaymentProvider::NAVER_PAY.name() && payment.provider@
            != PaymentProvider::KAKAO_PAY.name() ==> res == Err::<RefundCall, PaymentError>(
            PaymentError::UnknownProvider { provider: payment.provider },
        ),
{
    proof {
        reveal_strlit("NAVER_PAY");
        reveal_strlit("KAKAO_PAY");
        assert(PaymentProvider::NAVER_PAY.name()[0] != PaymentProvider::KAKAO_PAY.name()[0]);
    }
    let provider = payment.provider.as_str();
    if str_eq(provider, PaymentProvider::NAVER_PAY.as_str()) {
        match &payment.pg_transaction_id {
            Some(id) => Ok(
                RefundCall::Naver(
                    NaverPayCancelRequest {
                        payment_id: id.clone(),
                        cancel_amount: amount,
                        cancel_reason: reason,
                        cancel_require_point: None,
                    },
                ),
            ),
            None => Err(PaymentError::NaverNoTransactionId),
        }
    } else if str_eq(provider, PaymentProvider::KAKAO_PAY.as_str()) {
        match &payment.pg_transaction_id {
            Some(tid) => Ok(
                RefundCall::Kakao(
                    KakaoPayCancelRequest {
                        cid: kakao_cid,
                        tid: tid.clone(),
                        cancel_amount: amount,
                        cancel_tax_free_amount: 0,
                    },
                ),
            ),
            None => Err(PaymentError::KakaoNoTid),
        }
    } else {
        Err(PaymentError::UnknownProvider { provider: payment.provider.clone() })
    }
}

/// The payment once `amount` won of it have been refunded at `now` for
/// `reason`: cancelled if that is all of it, else partly cancelled, with the
/// refund recorded.
pub fn apply_refund(payment: Payment, amount: i32, reason: String, now: i64) -> (res: Payment)
    ensures
        res == (Payment {
            status: res.status,
            refund_amount_krw: Some(amount),
            refund_reason: Some(reason),
            refunded_at: Some(now),
            updated_at: now,
            ..payment
        }),
        res.status@ == refund_status_of(amount, payment.amount_krw),
{
    let status = if amount == payment.amount_krw {
        owned(PaymentStatus::CANCELLED.as_str())
    } else {
        owned(PaymentStatus::PARTIAL_CANCELLED.as_str())
    };
    Payment {
        status,
        refund_amount_krw: Some(amount),
        refund_reason: Some(reason),
        refunded_at: Some(now),
        updated_at: now,
        ..payment
    }
}

/// A refund of the whole amount cancels the payment; a refund of any other
/// amount leaves it partly cancelled. Either way it is no longer paid.
pub proof fn lemma_refund_status(refunded: i32, paid: i32)
    ensures
        refunded == paid ==> refund_status_of(refunded, paid) == PaymentStatus::CANCELLED.name(),
        refunded != paid ==> refund_status_of(refunded, paid)
            == PaymentStatus::PARTIAL_CANCELLED.name(),
        refund_status_of(refunded, paid) != PaymentStatus::PAID.name(),
{
    reveal_strlit("CANCELLED");
    reveal_strlit("PARTIAL_CANCELLED");
    reveal_strlit("PAID");
    assert("CANCELLED"@[0] != "PAID"@[0]);
    assert("PARTIAL_CANCELLED"@.len() != "PAID"@.len());
}

} // verus!
