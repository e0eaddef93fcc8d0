use nail_salon::auth::{
    access_decision, bearer_token, build_claims, check_link_allowed, generate_refresh_token,
    hash_provider_id, hash_refresh_token, linked_providers, refresh_expires_at, AuthRejection,
    Claims, LinkError,
};
use nail_salon::models::UserSocialAccount;

fn claims(role: &str) -> Claims {
    Claims {
        sub: "user-1".to_string(),
        role: role.to_string(),
        provider: String::new(),
        iat: 0,
        exp: 900,
    }
}

#[test]
fn hashes_are_lowercase_hex_sha256() {
    assert_eq!(
        hash_provider_id("abc"),
        "ba7816bf8f01cfea414140de5dae2223b00361a396177a9cb410ff61f20015ad"
    );
    assert_eq!(
        hash_refresh_token("카카오123"),
        "861d990560fddad1b8512a917fb7e6ea26e4a59f6024ad67defdea4dedc82347"
    );
    assert_eq!(hash_provider_id("x"), hash_refresh_token("x"));
}

#[test]
fn refresh_tokens_are_64_hex_digits_and_fresh() {
    let a = generate_refresh_token();
    let b = generate_refresh_token();
    assert_eq!(a.len(), 64);
    assert!(a.chars().all(|c| c.is_ascii_digit() || ('a'..='f').contains(&c)));
    assert_ne!(a, b);
}

#[test]
fn claims_of_an_access_token() {
    let c = build_claims(0xa1a2a3a4b1b2c1c2d1d2d3d4d5d6d7d8, "USER", "", 1000, 900);
    assert_eq!(c.sub, "a1a2a3a4-b1b2-c1c2-d1d2-d3d4d5d6d7d8");
    assert_eq!(c.role, "USER");
    assert_eq!(c.provider, "");
    assert_eq!(c.iat, 1000);
    assert_eq!(c.exp, 1900);
}

#[test]
fn refresh_tokens_expire_after_whole_days() {
    assert_eq!(refresh_expires_at(1_000_000, 30), 1_000_000 + 30 * 86_400_000_000);
    assert_eq!(refresh_expires_at(1_000_000, 0), 1_000_000);
}

#[test]
fn bearer_tokens_follow_the_scheme_word() {
    assert_eq!(bearer_token(Some("Bearer abc.def")), Some("abc.def".to_string()));
    assert_eq!(bearer_token(Some("Bearer ")), Some(String::new()));
    assert_eq!(bearer_token(Some("bearer abc")), None);
    assert_eq!(bearer_token(Some("Basic abc")), None);
    assert_eq!(bearer_token(Some("Bearer")), None);
    assert_eq!(bearer_token(None), None);
}

#[test]
fn user_routes_take_any_valid_token() {
    let u = access_decision(Some(claims("USER")), false).unwrap();
    assert_eq!(u.user_id, "user-1");
    assert_eq!(u.role, "USER");
    assert_eq!(access_decision(None, false).unwrap_err(), AuthRejection::InvalidToken);
}

#[test]
fn admin_routes_take_only_admins() {
    assert_eq!(access_decision(Some(claims("USER")), true).unwrap_err(), AuthRejection::AdminOnly);
    assert_eq!(access_decision(None, true).unwrap_err(), AuthRejection::InvalidToken);
    let a = access_decision(Some(claims("ADMIN")), true).unwrap();
    assert_eq!(a.role, "ADMIN");
    assert!(access_decision(Some(claims("ADMIN")), false).is_ok());
}

#[test]
fn refusals_carry_status_and_text() {
    assert_eq!(AuthRejection::MissingToken.status(), 401);
    assert_eq!(AuthRejection::MissingToken.message(), "Authorization header missing");
    assert_eq!(AuthRejection::InvalidToken.status(), 401);
    assert_eq!(AuthRejection::InvalidToken.message(), "Invalid or expired token");
    assert_eq!(AuthRejection::AdminOnly.status(), 403);
    assert_eq!(AuthRejection::AdminOnly.message(), "Admin only");
}

#[test]
fn linking_a_linked_identity_is_refused() {
    assert_eq!(check_link_allowed(true), Err(LinkError::AlreadyLinked));
    assert_eq!(LinkError::AlreadyLinked.message(), "이미 다른 계정에 연동된 소셜 계정입니다");
    assert_eq!(check_link_allowed(false), Ok(()));
}

#[test]
fn linked_providers_in_order() {
    let acc = |p: &str| UserSocialAccount {
        id: 1,
        user_id: 2,
        provider: p.to_string(),
        provider_id_encrypted: "x".to_string(),
        created_at: 0,
    };
    assert_eq!(linked_providers(vec![acc("NAVER"), acc("KAKAO")]), vec!["NAVER", "KAKAO"]);
    assert!(linked_providers(vec![]).is_empty());
}
