//! Kakao sign-in.

use vstd::prelude::*;
use crate::social::{unnamed, SocialProfile};
use crate::text::{concat2, owned};

verus! {

/// Kakao's answer to a profile request.
#[derive(Debug, Clone)]
pub struct KakaoProfileResponse {
    pub id: i64,
    pub kakao_account: Option<KakaoAccount>,
}

/// The account part of Kakao's answer.
#[derive(Debug, Clone)]
pub struct KakaoAccount {
    pub email: Option<String>,
    pub profile: Option<KakaoProfile>,
    pub phone_number: Option<String>,
}

/// The profile part of Kakao's account.
#[derive(Debug, Clone)]
pub struct KakaoProfile {
    pub nickname: Option<String>,
    pub profile_image_url: Option<String>,
}

/// The decimal digits of `n`, most significant first.
pub open spec fn digits_text(n: nat) -> Seq<char>
    decreases n,
{
    if n < 10 {
        seq![('0' as u8 + n) as char]
    } else {
        digits_text(n / 10).push(('0' as u8 + n % 10) as char)
    }
}

/// The decimal text of `v`, with a leading `-` when negative.
pub open spec fn decimal_text(v: int) -> Seq<char> {
    if v < 0 {
        seq!['-'] + digits_text((-v) as nat)
    } else {
        digits_text(v as nat)
    }
}

/// Calls std's `i64::to_string`. Claimed, as std documents for integers: the
/// decimal digits of the value, with a leading `-` when it is negative.
#[verifier::external_body]
fn i64_to_string(v: i64) -> (res: String)
    ensures
        res@ == decimal_text(v as int),
{
    v.to_string()
}

/// The start of Kakao's authorization URL, up to the client id.
pub open spec fn authorize_prefix() -> Seq<char> {
    "https://kauth.kakao.com/oauth/authorize?response_type=code&client_id="@
}

/// Kakao's authorization URL for the app `client_id`, returning to
/// `redirect_uri` with `state`.
pub fn get_oauth_url(client_id: &str, redirect_uri: &str, state: &str) -> (res: String)
    ensures
        res@ == authorize_prefix() + client_id@ + "&redirect_uri="@ + redirect_uri@ + "&state="@
            + state@,
{
    let a = concat2("https://kauth.kakao.com/oauth/authorize?response_type=code&client_id=", client_id);
    let b = concat2(a.as_str(), "&redirect_uri=");
    let c = concat2(b.as_str(), redirect_uri);
    let d = concat2(c.as_str(), "&state=");
    concat2(d.as_str(), state)
}

/// The profile of Kakao's answer: its id in decimal, the nickname (or "no
/// name"), e-mail, phone number and profile image; a missing account or
/// profile counts as one with nothing in it.
pub fn profile_from(res: KakaoProfileResponse) -> (p: SocialProfile)
    ensures
        p.provider_id@ == decimal_text(res.id as int),
        p.name@ == (match res.kakao_account {
            Some(a) => match a.profile {
                Some(pr) => match pr.nickname {
                    Some(n) => n@,
                    None => unnamed(),
                },
                None => unnamed(),
            },
            None => unnamed(),
        }),
        p.email == (match res.kakao_account {
            Some(a) => a.email,
            None => None,
        }),
        p.phone == (match res.kakao_account {
            Some(a) => a.phone_number,
            None => None,
        }),
        p.profile_image_url == (match res.kakao_account {
            Some(a) => match a.profile {
                Some(pr) => pr.profile_image_url,
                None => None,
            },
            None => None,
        }),
{
    let account = match res.kakao_account {
        Some(a) => a,
        None => KakaoAccount { email: None, profile: None, phone_number: None },
    };
    let profile = match account.profile {
        Some(p) => p,
        None => KakaoProfile { nickname: None, profile_image_url: None },
    };
    let name = match profile.nickname {
        Some(n) => n,
        None => owned("이름없음"),
    };
    SocialProfile {
        provider_id: i64_to_string(res.id),
        name,
        email: account.email,
        phone: account.phone_number,
        profile_image_url: profile.profile_image_url,
    }
}

} // verus!
