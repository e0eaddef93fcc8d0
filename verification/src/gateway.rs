//! The messages exchanged with the two payment gateways, KakaoPay's single
//! payment API and NaverPay's Orders API, and how their answers are judged.

use vstd::prelude::*;
use crate::text::{concat2, str_eq};

verus! {

// ---------------------------------------------------------------------------
// KakaoPay
// ---------------------------------------------------------------------------

/// KakaoPay: request to prepare a payment.
#[derive(Debug, Clone)]
pub struct KakaoPayReadyRequest {
    pub cid: String,
    pub partner_order_id: String,
    pub partner_user_id: String,
    pub item_name: String,
    pub quantity: i32,
    pub total_amount: i32,
    pub tax_free_amount: i32,
    pub approval_url: String,
    pub cancel_url: String,
    pub fail_url: String,
}

/// KakaoPay: answer to a prepare request.
#[derive(Debug, Clone)]
pub struct KakaoPayReadyResponse {
    pub tid: String,
    pub next_redirect_app_url: Option<String>,
    pub next_redirect_mobile_url: Option<String>,
    pub next_redirect_pc_url: Option<String>,
    pub created_at: String,
}

/// KakaoPay: request to approve a prepared payment.
#[derive(Debug, Clone)]
pub struct KakaoPayApproveRequest {
    pub cid: String,
    pub tid: String,
    pub partner_order_id: String,
    pub partner_user_id: String,
    pub pg_token: String,
}

/// KakaoPay: an amount split into its parts.
#[derive(Debug, Clone, Copy)]
pub struct KakaoPayAmount {
    pub total: i32,
    pub tax_free: i32,
    pub vat: i32,
}

/// KakaoPay: answer to an approve request.
#[derive(Debug, Clone)]
pub struct KakaoPayApproveResponse {
    pub tid: String,
    pub partner_order_id: String,
    pub partner_user_id: String,
    pub payment_method_type: String,
    pub amount: KakaoPayAmount,
    pub approved_at: String,
}

/// KakaoPay: request to cancel (refund) a payment.
#[derive(Debug, Clone)]
pub struct KakaoPayCancelRequest {
    pub cid: String,
    pub tid: String,
    pub cancel_amount: i32,
    pub cancel_tax_free_amount: i32,
}

/// KakaoPay: answer to a cancel request.
#[derive(Debug, Clone)]
pub struct KakaoPayCancelResponse {
    pub tid: String,
    pub status: String,
    pub canceled_amount: KakaoPayAmount,
    pub canceled_at: String,
}

// ---------------------------------------------------------------------------
// NaverPay
// ---------------------------------------------------------------------------

/// NaverPay: request to prepare a payment.
#[derive(Debug, Clone)]
pub struct NaverPayReadyRequest {
    pub merchant_user_key: String,
    pub merchant_pay_key: String,
    pub product_name: String,
    pub total_pay_amount: i32,
    pub tax_scope_amount: i32,
    pub tax_ex_scope_amount: i32,
    pub return_url: String,
}

/// NaverPay: answer to a prepare request.
#[derive(Debug, Clone)]
pub struct NaverPayReadyResponse {
    pub result_code: String,
    pub result_message: String,
    pub pay_highlight_url: Option<String>,
    pub pay_express_url: Option<String>,
}

/// NaverPay: request to approve a prepared payment.
#[derive(Debug, Clone)]
pub struct NaverPayApproveRequest {
    pub merchant_pay_key: String,
    pub merchant_user_key: String,
    pub payment_id: String,
}

/// NaverPay: the body of an approve answer.
#[derive(Debug, Clone)]
pub struct NaverPayApproveDetail {
    pub payment_id: String,
    pub detail: Option<NaverPayDetail>,
}

/// NaverPay: details of an approved payment.
#[derive(Debug, Clone)]
pub struct NaverPayDetail {
    pub payment_id: String,
    pub primary_pay_amount: i32,
    pub merchant_pay_key: String,
}

/// NaverPay: answer to an approve request.
#[derive(Debug, Clone)]
pub struct NaverPayApproveResponse {
    pub result_code: String,
    pub result_message: String,
    pub body: Option<NaverPayApproveDetail>,
}

/// NaverPay: request to cancel (refund) a payment.
#[derive(Debug, Clone)]
pub struct NaverPayCancelRequest {
    pub payment_id: String,
    pub cancel_amount: i32,
    pub cancel_reason: String,
    pub cancel_require_point: Option<i32>,
}

/// NaverPay: answer to a cancel request.
#[derive(Debug, Clone)]
pub struct NaverPayCancelResponse {
    pub result_code: String,
    pub result_message: String,
}

// ---------------------------------------------------------------------------
// Judging answers
// ---------------------------------------------------------------------------

/// The step of a gateway exchange.
#[derive(Debug, Clone, Copy, PartialEq, Eq, Structural)]
pub enum GatewayStep {
    Ready,
    Approve,
    Cancel,
}

impl GatewayStep {
    /// The step's word in error messages.
    pub open spec fn word(self) -> Seq<char> {
        match self {
            GatewayStep::Ready => "ready"@,
            GatewayStep::Approve => "approve"@,
            GatewayStep::Cancel => "cancel"@,
        }
    }

    /// The step's word in error messages.
    pub fn as_str(&self) -> (res: &'static str)
        ensures
            res@ == self.word(),
    {
        match self {
            GatewayStep::Ready => "ready",
            GatewayStep::Approve => "approve",
            GatewayStep::Cancel => "cancel",
        }
    }
}

/// A gateway exchange that failed.
#[derive(Debug, Clone)]
pub enum GatewayError {
    /// NaverPay answered with a result code other than `Success`.
    NaverPay { step: GatewayStep, message: String },
    /// KakaoPay answered with an HTTP status outside the success range.
    KakaoPay { step: GatewayStep, body: String },
}

impl GatewayError {
    /// The text of the failure: the gateway, the step, and what the gateway
    /// answered.
    pub open spec fn text(self) -> Seq<char> {
        match self {
            GatewayError::NaverPay { step, message } => "NaverPay "@ + step.word() + " failed: "@
                + message@,
            GatewayError::KakaoPay { step, body } => "KakaoPay "@ + step.word() + " failed: "@
                + body@,
        }
    }

    /// The text of the failure.
    pub fn message(&self) -> (res: String)
        ensures
            res@ == self.text(),
    {
        match self {
            GatewayError::NaverPay { step, message } => {
                let a = concat2("NaverPay ", step.as_str());
                let b = concat2(a.as_str(), " failed: ");
                concat2(b.as_str(), message.as_str())
            },
            GatewayError::KakaoPay { step, body } => {
                let a = concat2("KakaoPay ", step.as_str());
                let b = concat2(a.as_str(), " failed: ");
                concat2(b.as_str(), body.as_str())
            },
        }
    }
}

/// The result code with which NaverPay reports success.
pub open spec fn naver_success() -> Seq<char> {
    "Success"@
}

/// NaverPay's verdict on an answer: an error carrying the answer's message
/// unless the result code is `Success`.
pub fn check_naver_result(step: GatewayStep, result_code: &str, result_message: String) -> (res:
    Result<(), GatewayError>)
    ensures
        res is Ok <==> result_code@ == naver_success(),
        res matches Err(e) ==> e == (GatewayError::NaverPay { step, message: result_message }),
{
    if str_eq(result_code, "Success") {
        Ok(())
    } else {
        Err(GatewayError::NaverPay { step, message: result_message })
    }
}

/// Whether an HTTP status counts as success: 200 to 299.
pub open spec fn http_success(status: u16) -> bool {
    200 <= status <= 299
}

/// KakaoPay's verdict on an answer: an error carrying the answer's body unless
/// the HTTP status is a success.
pub fn check_kakao_status(step: GatewayStep, status: u16, body: String) -> (res: Result<
    (),
    GatewayError,
>)
    ensures
        res is Ok <==> http_success(status),
        res is Ok <==> 200 <= status <= 299,
        res matches Err(e) ==> e == (GatewayError::KakaoPay { step, body }),
{
    if 200 <= status && status <= 299 {
        Ok(())
    } else {
        Err(GatewayError::KakaoPay { step, body })
    }
}

/// KakaoPay's answer counts as success exactly for the HTTP statuses 200 to
/// 299: every 1xx, 3xx, 4xx and 5xx answer is a failure.
pub proof fn lemma_kakao_success_is_2xx(status: u16)
    ensures
        http_success(status) <==> 200 <= status <= 299,
        status < 200 ==> !http_success(status),
        300 <= status ==> !http_success(status),
        http_success(200) && http_success(299) && !http_success(300) && !http_success(500),
{
}

} // verus!
