//! Social sign-in with Naver and Kakao: where to send the user to sign in,
//! and the profile that each provider's answer gives.

use vstd::prelude::*;

pub mod kakao;
pub mod naver;

verus! {

/// A user's profile as a social provider reports it.
#[derive(Debug, Clone)]
pub struct SocialProfile {
    pub provider_id: String,
    pub name: String,
    pub email: Option<String>,
    pub phone: Option<String>,
    pub profile_image_url: Option<String>,
}

/// The name given to a profile that has none ("no name").
pub open spec fn unnamed() -> Seq<char> {
    "이름없음"@
}

} // verus!
