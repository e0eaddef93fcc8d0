use nail_salon::auth::AuthTokens;
use nail_salon::models::{User, UserSocialAccount};
use nail_salon::payment::PaymentReadyResult;
use nail_salon::requests::{
    AccessTokenResponse, AddClosedDayRequest, AuthResponse, OAuthStateQuery, CreateCategoryRequest, CreateServiceRequest,
    LinkCallbackQuery, MeResponse, OAuthCallbackQuery, PaymentReadyResponse,
    UpdateCategoryRequest, UpdateServiceRequest,
};
use nail_salon::stripe::{is_payment_succeeded, PaymentIntentStatus};

fn user() -> User {
    User {
        id: 0xa1a2a3a4b1b2c1c2d1d2d3d4d5d6d7d8,
        name: "홍길동".to_string(),
        email: Some("test@test.com".to_string()),
        phone: None,
        profile_image_url: None,
        role: "USER".to_string(),
    }
}

#[test]
fn omitted_fields_take_their_defaults() {
    let c = CreateCategoryRequest { name: "젤네일".to_string(), display_order: None };
    assert_eq!(c.display_order_or_default(), 0);
    let u = UpdateCategoryRequest { name: "n".to_string(), display_order: Some(3), is_active: None };
    assert_eq!(u.display_order_or_default(), 3);
    assert!(u.is_active_or_default());
    let s = CreateServiceRequest {
        category_id: None,
        name: "n".to_string(),
        description: None,
        duration_minutes: 60,
        price_krw: 50000,
        thumbnail_url: None,
        display_order: None,
    };
    assert_eq!(s.display_order_or_default(), 0);
    let s = UpdateServiceRequest {
        category_id: None,
        name: "n".to_string(),
        description: None,
        duration_minutes: 60,
        price_krw: 50000,
        thumbnail_url: None,
        display_order: None,
        is_active: Some(false),
    };
    assert!(!s.is_active_or_default());
    let d = AddClosedDayRequest { closed_date: 1, day_type: None, reason: None };
    assert_eq!(d.day_type_or_default(), "TEMPORARY");
    let d = AddClosedDayRequest { closed_date: 1, day_type: Some("REGULAR".to_string()), reason: None };
    assert_eq!(d.day_type_or_default(), "REGULAR");
    let q = OAuthCallbackQuery { code: "c".to_string(), state: None };
    assert_eq!(q.state_or_empty(), "");
    let q = LinkCallbackQuery { code: "c".to_string(), state: Some("st".to_string()) };
    assert_eq!(q.state_or_empty(), "st");
}

#[test]
fn sign_in_answer() {
    let r = AuthResponse::from_tokens(AuthTokens {
        access_token: "acc".to_string(),
        refresh_token: "ref".to_string(),
        user: user(),
    });
    assert_eq!(r.access_token, "acc");
    assert_eq!(r.refresh_token, "ref");
    assert_eq!(r.token_type, "Bearer");
    assert_eq!(r.user_id, "a1a2a3a4-b1b2-c1c2-d1d2-d3d4d5d6d7d8");
    assert_eq!(r.name, "홍길동");
    assert_eq!(r.role, "USER");
}

#[test]
fn me_answer_lists_linked_providers() {
    let acc = |p: &str| UserSocialAccount {
        id: 1,
        user_id: 2,
        provider: p.to_string(),
        provider_id_encrypted: "x".to_string(),
        created_at: 0,
    };
    let me = MeResponse::describe(user(), vec![acc("NAVER"), acc("KAKAO")]);
    assert_eq!(me.id, "a1a2a3a4-b1b2-c1c2-d1d2-d3d4d5d6d7d8");
    assert_eq!(me.linked_providers, vec!["NAVER", "KAKAO"]);
    assert_eq!(me.email, Some("test@test.com".to_string()));
}

#[test]
fn payment_ready_answer_keeps_the_tid_inside() {
    let r = PaymentReadyResponse::from_result(PaymentReadyResult {
        pg_order_id: "KAKAO-1".to_string(),
        payment_url: "https://online-pay.kakao.com/x".to_string(),
        tid: Some("T1".to_string()),
    });
    assert_eq!(r.pg_order_id, "KAKAO-1");
    assert_eq!(r.payment_url, "https://online-pay.kakao.com/x");
}

#[test]
fn only_succeeded_intents_are_paid() {
    assert!(is_payment_succeeded(PaymentIntentStatus::Succeeded));
    for s in [
        PaymentIntentStatus::Canceled,
        PaymentIntentStatus::Processing,
        PaymentIntentStatus::RequiresAction,
        PaymentIntentStatus::RequiresCapture,
        PaymentIntentStatus::RequiresConfirmation,
        PaymentIntentStatus::RequiresPaymentMethod,
    ] {
        assert!(!is_payment_succeeded(s));
    }
}

#[test]
fn refresh_answer_hands_back_the_new_refresh_token() {
    let r = AccessTokenResponse::issued("acc2".to_string(), "ref2".to_string());
    assert_eq!(r.access_token, "acc2");
    assert_eq!(r.refresh_token, "ref2");
    assert_eq!(r.token_type, "Bearer");
}

#[test]
fn sign_in_url_state_defaults_to_a_fresh_one() {
    let q = OAuthStateQuery { state: Some("mine".to_string()) };
    assert_eq!(q.state_or("fresh".to_string()), "mine");
    let q = OAuthStateQuery { state: None };
    assert_eq!(q.state_or("fresh".to_string()), "fresh");
}
