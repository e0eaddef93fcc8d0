//! Sign-in and access: hashing of social identifiers and refresh tokens,
//! fresh refresh tokens, the claims of access tokens, and who may pass the
//! user-only and admin-only routes.

use vstd::prelude::*;
use vstd::utf8::encode_utf8;
use sha2::{Digest, Sha256};
use crate::common::UserRole;
use crate::crypto::random_bytes;
use crate::ids::{hex_encode, hex_lower, is_hex_lower_char, lemma_hex_lower_shape, uuid_text, uuid_to_string};
use crate::models::{User, UserSocialAccount};
use crate::text::{owned, str_eq, strip_prefix};
use crate::time::{valid_instant, MICROS_PER_DAY};

verus! {

/// What sha2's `Sha256` digest of `data` is.
pub uninterp spec fn sha256(data: Seq<u8>) -> Seq<u8>;

/// Calls sha2's `Sha256::new`, `update` and `finalize`. Claimed: the result
/// is `sha256(data)`, 32 bytes long.
#[verifier::external_body]
fn sha256_digest(data: &[u8]) -> (res: Vec<u8>)
    ensures
        res@ == sha256(data@),
        res@.len() == 32,
{
    let mut hasher = Sha256::new();
    hasher.update(data);
    hasher.finalize().to_vec()
}

/// The lookup hash of a text: lowercase hexadecimal of the SHA-256 of its
/// UTF-8 bytes.
pub open spec fn text_hash(text: Seq<char>) -> Seq<char> {
    hex_lower(sha256(encode_utf8(text)))
}

/// The lookup hash of `text`.
fn sha256_hex(text: &str) -> (res: String)
    ensures
        res@ == text_hash(text@),
        res@.len() == 64,
{
    let digest = sha256_digest(text.as_bytes());
    hex_encode(digest.as_slice())
}

/// The hash under which a provider's identifier of a user is looked up.
pub fn hash_provider_id(provider_id: &str) -> (res: String)
    ensures
        res@ == text_hash(provider_id@),
        res@.len() == 64,
{
    sha256_hex(provider_id)
}

/// The hash under which a refresh token is stored, looked up and revoked.
pub fn hash_refresh_token(raw: &str) -> (res: String)
    ensures
        res@ == text_hash(raw@),
        res@.len() == 64,
{
    sha256_hex(raw)
}

/// A fresh refresh token: 32 random bytes in lowercase hexadecimal.
pub fn generate_refresh_token() -> (res: String)
    ensures
        exists|bytes: Seq<u8>| bytes.len() == 32 && res@ == hex_lower(bytes),
        res@.len() == 64,
        forall|i: int| 0 <= i < res@.len() ==> is_hex_lower_char(#[trigger] res@[i]),
{
    let bytes = random_bytes(32);
    let text = hex_encode(bytes.as_slice());
    proof {
        lemma_hex_lower_shape(bytes@);
    }
    text
}

/// The claims carried by an access token.
#[derive(Debug, Clone)]
pub struct Claims {
    pub sub: String,
    pub role: String,
    pub provider: String,
    pub iat: i64,
    pub exp: i64,
}

/// The claims of an access token for `user_id` with `role`, issued at `now`
/// and valid for `expiry_secs` seconds; as in every JSON Web Token, the
/// times are whole seconds since the Unix epoch.
pub fn build_claims(user_id: u128, role: &str, provider: &str, now: i64, expiry_secs: i64) -> (res:
    Claims)
    requires
        i64::MIN <= now + expiry_secs <= i64::MAX,
    ensures
        res.sub@ == uuid_text(user_id),
        res.role@ == role@,
        res.provider@ == provider@,
        res.iat == now,
        res.exp == now + expiry_secs,
{
    Claims {
        sub: uuid_to_string(user_id),
        role: owned(role),
        provider: owned(provider),
        iat: now,
        exp: now + expiry_secs,
    }
}

/// When a refresh token issued at the instant `now` for `days` days expires.
pub fn refresh_expires_at(now: i64, days: i64) -> (res: i64)
    requires
        valid_instant(now as int),
        valid_instant(now + MICROS_PER_DAY * days),
    ensures
        res == now + MICROS_PER_DAY * days,
{
    let wide = now as i128 + (MICROS_PER_DAY as i128) * (days as i128);
    wide as i64
}

/// The tokens handed to a user who signs in.
#[derive(Debug, Clone)]
pub struct AuthTokens {
    pub access_token: String,
    pub refresh_token: String,
    pub user: User,
}

/// The user on whose behalf a request is made.
#[derive(Debug, Clone)]
pub struct AuthUser {
    pub user_id: String,
    pub role: String,
}

/// Why a request is refused.
#[derive(Debug, Clone, Copy, PartialEq, Eq, Structural)]
pub enum AuthRejection {
    /// No bearer token in the `Authorization` header.
    MissingToken,
    /// The token does not verify or has expired.
    InvalidToken,
    /// The route is for admins and the token's role is not `ADMIN`.
    AdminOnly,
}

impl AuthRejection {
    /// The HTTP status of the refusal.
    pub open spec fn spec_status(self) -> u16 {
        match self {
            AuthRejection::MissingToken => 401,
            AuthRejection::InvalidToken => 401,
            AuthRejection::AdminOnly => 403,
        }
    }

    /// The HTTP status of the refusal: 401, or 403 for a non-admin on an
    /// admin route.
    pub fn status(&self) -> (res: u16)
        ensures
            res == self.spec_status(),
    {
        match self {
            AuthRejection::MissingToken => 401,
            AuthRejection::InvalidToken => 401,
            AuthRejection::AdminOnly => 403,
        }
    }

    /// The text of the refusal.
    pub fn message(&self) -> (res: &'static str)
        ensures
            res@ == match self {
                AuthRejection::MissingToken => "Authorization header missing"@,
                AuthRejection::InvalidToken => "Invalid or expired token"@,
                AuthRejection::AdminOnly => "Admin only"@,
            },
    {
        match self {
            AuthRejection::MissingToken => "Authorization header missing",
            AuthRejection::InvalidToken => "Invalid or expired token",
            AuthRejection::AdminOnly => "Admin only",
        }
    }
}

/// The bearer token of an `Authorization` header: what follows `Bearer `.
pub fn bearer_token(header: Option<&str>) -> (res: Option<String>)
    ensures
        match header {
            None => res is None,
            Some(h) => match res {
                Some(t) => h@ == "Bearer "@ + t@,
                None => !(exists|t: Seq<char>| h@ == "Bearer "@ + t),
            },
        },
{
    match header {
        None => None,
        Some(h) => {
            let r = strip_prefix(h, "Bearer ");
            proof {
                match &r {
                    Some(t) => {
                        assert(h@ =~= "Bearer "@ + t@);
                    },
                    None => {
                        assert forall|t: Seq<char>| h@ != "Bearer "@ + t by {
                            if h@ == "Bearer "@ + t {
                                assert(h@.subrange(0, "Bearer "@.len() as int) =~= "Bearer "@);
                            }
                        }
                    },
                }
            }
            r
        },
    }
}

/// Whether a request whose token verified to `claims` (`None` when it did
/// not verify) is let through to a route, which is for admins when `admin_only`.
pub open spec fn admitted(claims: Option<Claims>, admin_only: bool) -> bool {
    match claims {
        None => false,
        Some(c) => !admin_only || c.role@ == UserRole::ADMIN.name(),
    }
}

/// The access decision on a request that carried a bearer token, which
/// verified to `claims` (`None` when it did not verify): refused when the
/// token did not verify, refused as forbidden on an admin route unless the
/// role is `ADMIN`, and otherwise let through as the token's subject and role.
pub fn access_decision(claims: Option<Claims>, admin_only: bool) -> (res: Result<AuthUser, AuthRejection>)
    ensures
        res is Ok <==> admitted(claims, admin_only),
        claims is None ==> res == Err::<AuthUser, AuthRejection>(AuthRejection::InvalidToken),
        claims is Some && !admitted(claims, admin_only) ==> res == Err::<AuthUser, AuthRejection>(
            AuthRejection::AdminOnly,
        ),
        res matches Ok(u) ==> u.user_id == claims->0.sub && u.role == claims->0.role,
{
    match claims {
        None => Err(AuthRejection::InvalidToken),
        Some(c) => {
            if admin_only && !str_eq(c.role.as_str(), UserRole::ADMIN.as_str()) {
                Err(AuthRejection::AdminOnly)
            } else {
                Ok(AuthUser { user_id: c.sub, role: c.role })
            }
        },
    }
}

/// Whoever is let through to admin routes is let through to user routes too, and is an admin.
pub proof fn lemma_admin_access_is_stricter(claims: Option<Claims>)
    ensures
        admitted(claims, true) ==> admitted(claims, false),
        admitted(claims, true) ==> claims->0.role@ == UserRole::ADMIN.name(),
{
}

/// Refusing to link a social identity that is linked already.
#[derive(Debug, Clone, Copy, PartialEq, Eq, Structural)]
pub enum LinkError {
    /// The identity is linked to an account already.
    AlreadyLinked,
}

impl LinkError {
    /// The text of the refusal ("this social account is linked to another
    /// account already").
    pub fn message(&self) -> (res: String)
        ensures
            res@ == "이미 다른 계정에 연동된 소셜 계정입니다"@,
    {
        owned("이미 다른 계정에 연동된 소셜 계정입니다")
    }
}

/// Whether a social identity may be linked to the current account: only when
/// no account has it yet.
pub fn check_link_allowed(already_linked: bool) -> (res: Result<(), LinkError>)
    ensures
        res is Ok <==> !already_linked,
{
    if already_linked {
        Err(LinkError::AlreadyLinked)
    } else {
        Ok(())
    }
}

/// The providers of a user's linked social accounts, in order.
pub fn linked_providers(accounts: Vec<UserSocialAccount>) -> (res: Vec<String>)
    ensures
        res@.len() == accounts@.len(),
        forall|i: int| 0 <= i < res@.len() ==> res@[i] == #[trigger] accounts@[i].provider,
{
    let mut res: Vec<String> = Vec::new();
    let mut i: usize = 0;
    while i < accounts.len()
        invariant
            i <= accounts@.len(),
            res@.len() == i,
            forall|j: int| 0 <= j < i ==> res@[j] == #[trigger] accounts@[j].provider,
        decreases accounts@.len() - i,
    {
        res.push(accounts[i].provider.clone());
        i = i + 1;
    }
    res
}

} // verus!
