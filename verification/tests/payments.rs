use nail_salon::common::PaymentProvider;
use nail_salon::gateway::{
    check_kakao_status, check_naver_result, GatewayError, GatewayStep, KakaoPayReadyResponse,
    NaverPayReadyResponse,
};
use nail_salon::models::Payment;
use nail_salon::payment::{
    apply_refund, kakao_approve_request, kakao_payment_url, kakao_ready_request, mark_paid,
    naver_approve_request, naver_payment_url, naver_ready_request, new_order_id, order_id,
    plan_refund, ready_payment, PaymentError, RefundCall,
};
use uuid::Uuid;

const USER: u128 = 0xa1a2a3a4b1b2c1c2d1d2d3d4d5d6d7d8;

fn payment(provider: &str, tid: Option<&str>) -> Payment {
    Payment {
        id: 5,
        booking_id: 6,
        user_id: USER,
        provider: provider.to_string(),
        payment_type: "INSTANT".to_string(),
        amount_krw: 50000,
        status: "PAID".to_string(),
        pg_order_id: "KAKAO-x".to_string(),
        pg_transaction_id: tid.map(str::to_string),
        paid_at: Some(10),
        refund_amount_krw: None,
        refund_reason: None,
        refunded_at: None,
        created_at: 1,
        updated_at: 10,
    }
}

#[test]
fn order_ids_carry_the_gateway_prefix_and_uuid() {
    assert_eq!(
        order_id(PaymentProvider::NAVER_PAY, USER),
        "NAVER-a1a2a3a4-b1b2-c1c2-d1d2-d3d4d5d6d7d8"
    );
    assert_eq!(
        order_id(PaymentProvider::KAKAO_PAY, 0),
        "KAKAO-00000000-0000-0000-0000-000000000000"
    );
    let fresh = new_order_id(PaymentProvider::KAKAO_PAY);
    assert!(fresh.starts_with("KAKAO-"));
    assert_eq!(fresh.len(), 42);
    assert!(Uuid::parse_str(&fresh[6..]).is_ok());
    assert_ne!(fresh, new_order_id(PaymentProvider::KAKAO_PAY));
}

#[test]
fn naver_ready_request_taxes_the_whole_amount() {
    let r = naver_ready_request(
        USER,
        "NAVER-1".to_string(),
        "기본 젤네일".to_string(),
        50000,
        "http://localhost:8080/api/payments/naver/approve".to_string(),
    );
    assert_eq!(r.merchant_user_key, Uuid::from_u128(USER).to_string());
    assert_eq!(r.merchant_pay_key, "NAVER-1");
    assert_eq!(r.total_pay_amount, 50000);
    assert_eq!(r.tax_scope_amount, 50000);
    assert_eq!(r.tax_ex_scope_amount, 0);
}

#[test]
fn kakao_ready_request_is_one_taxed_item() {
    let r = kakao_ready_request(
        "TC0ONETIME".to_string(),
        "KAKAO-1".to_string(),
        USER,
        "기본 젤네일".to_string(),
        50000,
        "a".to_string(),
        "c".to_string(),
        "f".to_string(),
    );
    assert_eq!(r.cid, "TC0ONETIME");
    assert_eq!(r.partner_user_id, "a1a2a3a4-b1b2-c1c2-d1d2-d3d4d5d6d7d8");
    assert_eq!(r.quantity, 1);
    assert_eq!(r.total_amount, 50000);
    assert_eq!(r.tax_free_amount, 0);
    assert_eq!((r.approval_url.as_str(), r.cancel_url.as_str(), r.fail_url.as_str()), ("a", "c", "f"));
}

#[test]
fn naver_payment_url_prefers_express() {
    let res = |express: Option<&str>, highlight: Option<&str>| NaverPayReadyResponse {
        result_code: "Success".to_string(),
        result_message: "ok".to_string(),
        pay_highlight_url: highlight.map(str::to_string),
        pay_express_url: express.map(str::to_string),
    };
    assert_eq!(naver_payment_url(res(Some("e"), Some("h"))).unwrap(), "e");
    assert_eq!(naver_payment_url(res(None, Some("h"))).unwrap(), "h");
    assert!(matches!(naver_payment_url(res(None, None)), Err(PaymentError::NaverNoPaymentUrl)));
}

#[test]
fn kakao_payment_url_prefers_app_then_mobile_then_pc() {
    let res = |app: Option<&str>, mobile: Option<&str>, pc: Option<&str>| KakaoPayReadyResponse {
        tid: "T1".to_string(),
        next_redirect_app_url: app.map(str::to_string),
        next_redirect_mobile_url: mobile.map(str::to_string),
        next_redirect_pc_url: pc.map(str::to_string),
        created_at: "2026-06-22T00:00:00".to_string(),
    };
    assert_eq!(kakao_payment_url(&res(Some("a"), Some("m"), Some("p"))).unwrap(), "a");
    assert_eq!(kakao_payment_url(&res(None, Some("m"), Some("p"))).unwrap(), "m");
    assert_eq!(kakao_payment_url(&res(None, None, Some("p"))).unwrap(), "p");
    assert!(matches!(
        kakao_payment_url(&res(None, None, None)),
        Err(PaymentError::KakaoNoRedirectUrl)
    ));
}

#[test]
fn prepared_payment_is_ready_and_instant() {
    let p = ready_payment(6, USER, PaymentProvider::KAKAO_PAY, 50000, "KAKAO-1".to_string(), Some("T1".to_string()));
    assert_eq!(p.provider, "KAKAO_PAY");
    assert_eq!(p.payment_type, "INSTANT");
    assert_eq!(p.status, "READY");
    assert_eq!(p.amount_krw, 50000);
    assert_eq!(p.pg_transaction_id, Some("T1".to_string()));
    let p = ready_payment(6, USER, PaymentProvider::NAVER_PAY, 1, "NAVER-1".to_string(), None);
    assert_eq!(p.provider, "NAVER_PAY");
    assert_eq!(p.pg_transaction_id, None);
}

#[test]
fn approve_requests() {
    let r = naver_approve_request("NAVER-1".to_string(), "key".to_string(), "P1".to_string());
    assert_eq!((r.merchant_pay_key.as_str(), r.merchant_user_key.as_str(), r.payment_id.as_str()), ("NAVER-1", "key", "P1"));

    let r = kakao_approve_request("CID".to_string(), &payment("KAKAO_PAY", Some("T1")), "KAKAO-1".to_string(), "tok".to_string()).unwrap();
    assert_eq!(r.tid, "T1");
    assert_eq!(r.cid, "CID");
    assert_eq!(r.partner_user_id, Uuid::from_u128(USER).to_string());
    assert_eq!(r.pg_token, "tok");
    match kakao_approve_request("CID".to_string(), &payment("KAKAO_PAY", None), "KAKAO-9".to_string(), "tok".to_string()) {
        Err(PaymentError::KakaoTidNotFound { pg_order_id }) => assert_eq!(pg_order_id, "KAKAO-9"),
        other => panic!("unexpected {:?}", other),
    }
}

#[test]
fn approval_marks_paid() {
    let mut ready = payment("NAVER_PAY", None);
    ready.status = "READY".to_string();
    ready.paid_at = None;
    let paid = mark_paid(ready, Some("P1".to_string()), 77);
    assert_eq!(paid.status, "PAID");
    assert_eq!(paid.pg_transaction_id, Some("P1".to_string()));
    assert_eq!(paid.paid_at, Some(77));
    assert_eq!(paid.updated_at, 77);
    let paid = mark_paid(payment("KAKAO_PAY", Some("T1")), None, 78);
    assert_eq!(paid.pg_transaction_id, Some("T1".to_string()));
}

#[test]
fn refund_goes_to_the_payments_gateway() {
    match plan_refund(&payment("NAVER_PAY", Some("P1")), 50000, "고객 요청 취소".to_string(), "CID".to_string()) {
        Ok(RefundCall::Naver(r)) => {
            assert_eq!(r.payment_id, "P1");
            assert_eq!(r.cancel_amount, 50000);
            assert_eq!(r.cancel_reason, "고객 요청 취소");
            assert_eq!(r.cancel_require_point, None);
        }
        other => panic!("unexpected {:?}", other),
    }
    match plan_refund(&payment("KAKAO_PAY", Some("T1")), 20000, "r".to_string(), "CID".to_string()) {
        Ok(RefundCall::Kakao(r)) => {
            assert_eq!(r.tid, "T1");
            assert_eq!(r.cid, "CID");
            assert_eq!(r.cancel_amount, 20000);
            assert_eq!(r.cancel_tax_free_amount, 0);
        }
        other => panic!("unexpected {:?}", other),
    }
    assert!(matches!(plan_refund(&payment("NAVER_PAY", None), 1, "r".to_string(), "C".to_string()), Err(PaymentError::NaverNoTransactionId)));
    assert!(matches!(plan_refund(&payment("KAKAO_PAY", None), 1, "r".to_string(), "C".to_string()), Err(PaymentError::KakaoNoTid)));
    match plan_refund(&payment("STRIPE", Some("x")), 1, "r".to_string(), "C".to_string()) {
        Err(PaymentError::UnknownProvider { provider }) => assert_eq!(provider, "STRIPE"),
        other => panic!("unexpected {:?}", other),
    }
}

#[test]
fn full_refund_cancels_partial_refund_partly_cancels() {
    let full = apply_refund(payment("KAKAO_PAY", Some("T1")), 50000, "전액".to_string(), 99);
    assert_eq!(full.status, "CANCELLED");
    assert_eq!(full.refund_amount_krw, Some(50000));
    assert_eq!(full.refund_reason, Some("전액".to_string()));
    assert_eq!(full.refunded_at, Some(99));
    assert_eq!(full.updated_at, 99);
    assert_eq!(full.paid_at, Some(10));
    let part = apply_refund(payment("KAKAO_PAY", Some("T1")), 20000, "부분".to_string(), 99);
    assert_eq!(part.status, "PARTIAL_CANCELLED");
    let over = apply_refund(payment("KAKAO_PAY", Some("T1")), 60000, "over".to_string(), 99);
    assert_eq!(over.status, "PARTIAL_CANCELLED");
}

#[test]
fn gateway_answers_are_judged() {
    assert!(check_naver_result(GatewayStep::Ready, "Success", "ok".to_string()).is_ok());
    match check_naver_result(GatewayStep::Cancel, "Fail", "no such payment".to_string()) {
        Err(GatewayError::NaverPay { step, message }) => {
            assert_eq!(step, GatewayStep::Cancel);
            assert_eq!(message, "no such payment");
        }
        other => panic!("unexpected {:?}", other),
    }
    assert!(check_kakao_status(GatewayStep::Ready, 200, String::new()).is_ok());
    assert!(check_kakao_status(GatewayStep::Ready, 299, String::new()).is_ok());
    assert!(check_kakao_status(GatewayStep::Approve, 199, String::new()).is_err());
    match check_kakao_status(GatewayStep::Approve, 400, "bad".to_string()) {
        Err(GatewayError::KakaoPay { step, body }) => {
            assert_eq!(step, GatewayStep::Approve);
            assert_eq!(body, "bad");
        }
        other => panic!("unexpected {:?}", other),
    }
    assert_eq!(GatewayStep::Approve.as_str(), "approve");
}

#[test]
fn kakao_approval_carries_what_preparing_gave() {
    let ready = kakao_ready_request(
        "CID".to_string(),
        "KAKAO-7".to_string(),
        USER,
        "기본 젤네일".to_string(),
        50000,
        "a".to_string(),
        "c".to_string(),
        "f".to_string(),
    );
    let stored = ready_payment(6, USER, PaymentProvider::KAKAO_PAY, 50000, "KAKAO-7".to_string(), Some("T7".to_string()));
    let row = Payment {
        id: 5,
        booking_id: stored.booking_id,
        user_id: stored.user_id,
        provider: stored.provider.clone(),
        payment_type: stored.payment_type.clone(),
        amount_krw: stored.amount_krw,
        status: stored.status.clone(),
        pg_order_id: stored.pg_order_id.clone(),
        pg_transaction_id: stored.pg_transaction_id.clone(),
        paid_at: None,
        refund_amount_krw: None,
        refund_reason: None,
        refunded_at: None,
        created_at: 1,
        updated_at: 1,
    };
    assert_eq!(row.status, "READY");
    let approve = kakao_approve_request("CID".to_string(), &row, "KAKAO-7".to_string(), "tok".to_string()).unwrap();
    assert_eq!(approve.tid, "T7");
    assert_eq!(approve.cid, ready.cid);
    assert_eq!(approve.partner_order_id, ready.partner_order_id);
    assert_eq!(approve.partner_user_id, ready.partner_user_id);
    let paid = mark_paid(row, None, 99);
    assert_eq!(paid.status, "PAID");
    assert_eq!(paid.amount_krw, 50000);
    assert_eq!(paid.booking_id, 6);
    assert_eq!(paid.pg_transaction_id, Some("T7".to_string()));
}

#[test]
fn refusal_and_failure_texts() {
    assert_eq!(PaymentError::NaverNoPaymentUrl.message(), "NaverPay: no payment URL in response");
    assert_eq!(PaymentError::KakaoNoRedirectUrl.message(), "KakaoPay: no redirect URL in response");
    assert_eq!(
        PaymentError::KakaoTidNotFound { pg_order_id: "KAKAO-1".to_string() }.message(),
        "KakaoPay: tid not found for order KAKAO-1"
    );
    assert_eq!(PaymentError::NaverNoTransactionId.message(), "NaverPay: no transaction id");
    assert_eq!(PaymentError::KakaoNoTid.message(), "KakaoPay: no tid");
    assert_eq!(
        PaymentError::UnknownProvider { provider: "TOSS".to_string() }.message(),
        "Unknown payment provider: TOSS"
    );
    assert_eq!(
        GatewayError::NaverPay { step: GatewayStep::Ready, message: "bad".to_string() }.message(),
        "NaverPay ready failed: bad"
    );
    assert_eq!(
        GatewayError::KakaoPay { step: GatewayStep::Cancel, body: "{}".to_string() }.message(),
        "KakaoPay cancel failed: {}"
    );
}
