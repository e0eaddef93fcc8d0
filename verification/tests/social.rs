use nail_salon::social::kakao::{self, KakaoAccount, KakaoProfile, KakaoProfileResponse};
use nail_salon::social::naver::{self, NaverProfileInner};

#[test]
fn authorization_urls() {
    assert_eq!(
        naver::get_oauth_url("cid", "https://x/cb", "s1"),
        "https://nid.naver.com/oauth2.0/authorize?response_type=code&client_id=cid&redirect_uri=https://x/cb&state=s1"
    );
    assert_eq!(
        kakao::get_oauth_url("cid", "https://x/cb", "s1"),
        "https://kauth.kakao.com/oauth/authorize?response_type=code&client_id=cid&redirect_uri=https://x/cb&state=s1"
    );
}

#[test]
fn naver_profile_defaults_the_name() {
    let p = naver::profile_from(NaverProfileInner {
        id: "N1".to_string(),
        name: None,
        email: Some("test@test.com".to_string()),
        mobile: Some("010-1234-5678".to_string()),
        profile_image: None,
    });
    assert_eq!(p.provider_id, "N1");
    assert_eq!(p.name, "이름없음");
    assert_eq!(p.email, Some("test@test.com".to_string()));
    assert_eq!(p.phone, Some("010-1234-5678".to_string()));
    assert_eq!(p.profile_image_url, None);
}

#[test]
fn kakao_profile_reads_the_nested_account() {
    let p = kakao::profile_from(KakaoProfileResponse {
        id: 1234567890,
        kakao_account: Some(KakaoAccount {
            email: Some("k@k.com".to_string()),
            profile: Some(KakaoProfile {
                nickname: Some("홍길동".to_string()),
                profile_image_url: Some("https://img".to_string()),
            }),
            phone_number: None,
        }),
    });
    assert_eq!(p.provider_id, "1234567890");
    assert_eq!(p.name, "홍길동");
    assert_eq!(p.email, Some("k@k.com".to_string()));
    assert_eq!(p.profile_image_url, Some("https://img".to_string()));

    let empty = kakao::profile_from(KakaoProfileResponse { id: -42, kakao_account: None });
    assert_eq!(empty.provider_id, "-42");
    assert_eq!(empty.name, "이름없음");
    assert_eq!(empty.email, None);
    assert_eq!(empty.phone, None);
}
