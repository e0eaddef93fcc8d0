//! Naver sign-in.

use vstd::prelude::*;
use crate::social::{unnamed, SocialProfile};
use crate::text::{concat2, owned};

verus! {

/// The profile part of Naver's answer to a profile request.
#[derive(Debug, Clone)]
pub struct NaverProfileInner {
    pub id: String,
    pub name: Option<String>,
    pub email: Option<String>,
    pub mobile: Option<String>,
    pub profile_image: Option<String>,
}

/// The start of Naver's authorization URL, up to the client id.
pub open spec fn authorize_prefix() -> Seq<char> {
    "https://nid.naver.com/oauth2.0/authorize?response_type=code&client_id="@
}

/// Naver's authorization URL for the app `client_id`, returning to
/// `redirect_uri` with `state`.
pub fn get_oauth_url(client_id: &str, redirect_uri: &str, state: &str) -> (res: String)
    ensures
        res@ == authorize_prefix() + client_id@ + "&redirect_uri="@ + redirect_uri@ + "&state="@
            + state@,
{
    let a = concat2("https://nid.naver.com/oauth2.0/authorize?response_type=code&client_id=", client_id);
    let b = concat2(a.as_str(), "&redirect_uri=");
    let c = concat2(b.as_str(), redirect_uri);
    let d = concat2(c.as_str(), "&state=");
    concat2(d.as_str(), state)
}

/// The profile of Naver's answer: its id, its name (or "no name"), e-mail,
/// mobile number and profile image.
pub fn profile_from(inner: NaverProfileInner) -> (res: SocialProfile)
    ensures
        res.provider_id == inner.id,
        res.name@ == (match inner.name {
            Some(n) => n@,
            None => unnamed(),
        }),
        res.email == inner.email,
        res.phone == inner.mobile,
        res.profile_image_url == inner.profile_image,
{
    let name = match inner.name {
        Some(n) => n,
        None => owned("이름없음"),
    };
    SocialProfile {
        provider_id: inner.id,
        name,
        email: inner.email,
        phone: inner.mobile,
        profile_image_url: inner.profile_image,
    }
}

} // verus!
