//! Encryption of social identifiers at rest: AES-256-GCM under a key given
//! in Base64, with a random 12-byte nonce stored in front of the ciphertext,
//! the whole written in Base64.

use vstd::prelude::*;
use vstd::utf8::{decode_utf8, encode_utf8, encode_utf8_decode_utf8, encode_utf8_valid_utf8, valid_utf8};
use aes_gcm::aead::{Aead, KeyInit};
use aes_gcm::{Aes256Gcm, Key, Nonce};
use base64::engine::general_purpose::STANDARD;
use base64::Engine;
use rand::RngCore;
use crate::text::owned;

verus! {

/// Length of an AES-256 key in bytes.
pub const KEY_LEN: usize = 32;

/// Length of an AES-GCM nonce in bytes.
pub const NONCE_LEN: usize = 12;

/// Length of an AES-GCM authentication tag in bytes.
pub const TAG_LEN: usize = 16;

/// The longest plaintext that AES-GCM encrypts, in bytes.
pub open spec fn max_plaintext() -> int {
    0x10_0000_0000
}

/// Why a social identifier could not be encrypted or decrypted.
#[derive(Debug, Clone, PartialEq, Eq)]
pub enum CryptoError {
    /// The key is not valid Base64; `detail` is base64's account of why.
    KeyNotBase64 { detail: String },
    /// The key does not decode to 32 bytes.
    KeyLength,
    /// The cipher refused to encrypt.
    EncryptionFailed,
    /// The stored text is not valid Base64; `detail` is base64's account of why.
    NotBase64 { detail: String },
    /// The stored bytes are too short to hold a nonce and a ciphertext.
    TooShort,
    /// The ciphertext does not authenticate under the key and nonce.
    DecryptionFailed,
    /// The decrypted bytes are not UTF-8 text; `detail` is std's account of why.
    NotUtf8 { detail: String },
}

/// A refusal of `CryptoError` as a mathematical value.
pub enum CryptoFailure {
    KeyNotBase64(Seq<char>),
    KeyLength,
    EncryptionFailed,
    NotBase64(Seq<char>),
    TooShort,
    DecryptionFailed,
    NotUtf8(Seq<char>),
}

impl View for CryptoError {
    type V = CryptoFailure;

    open spec fn view(&self) -> CryptoFailure {
        match self {
            CryptoError::KeyNotBase64 { detail } => CryptoFailure::KeyNotBase64(detail@),
            CryptoError::KeyLength => CryptoFailure::KeyLength,
            CryptoError::EncryptionFailed => CryptoFailure::EncryptionFailed,
            CryptoError::NotBase64 { detail } => CryptoFailure::NotBase64(detail@),
            CryptoError::TooShort => CryptoFailure::TooShort,
            CryptoError::DecryptionFailed => CryptoFailure::DecryptionFailed,
            CryptoError::NotUtf8 { detail } => CryptoFailure::NotUtf8(detail@),
        }
    }
}

/// The text of a refusal.
pub open spec fn failure_text(f: CryptoFailure) -> Seq<char> {
    match f {
        CryptoFailure::KeyNotBase64(d) => d,
        CryptoFailure::KeyLength => "SOCIAL_ID_ENCRYPTION_KEY_BASE64 must decode to 32 bytes"@,
        CryptoFailure::EncryptionFailed => "encryption failed"@,
        CryptoFailure::NotBase64(d) => d,
        CryptoFailure::TooShort => "invalid encrypted social id"@,
        CryptoFailure::DecryptionFailed => "decryption failed"@,
        CryptoFailure::NotUtf8(d) => d,
    }
}

impl CryptoError {
    /// The text of the refusal: base64's or std's own account where one of
    /// them refused, a fixed text otherwise.
    pub fn message(&self) -> (res: String)
        ensures
            res@ == failure_text(self@),
    {
        match self {
            CryptoError::KeyNotBase64 { detail } => detail.clone(),
            CryptoError::KeyLength => owned("SOCIAL_ID_ENCRYPTION_KEY_BASE64 must decode to 32 bytes"),
            CryptoError::EncryptionFailed => owned("encryption failed"),
            CryptoError::NotBase64 { detail } => detail.clone(),
            CryptoError::TooShort => owned("invalid encrypted social id"),
            CryptoError::DecryptionFailed => owned("decryption failed"),
            CryptoError::NotUtf8 { detail } => detail.clone(),
        }
    }
}

/// What the base64 crate's `DecodeError` that `STANDARD.decode` reports for
/// `text` displays.
pub uninterp spec fn base64_error_text(text: Seq<char>) -> Seq<char>;

/// What std's `FromUtf8Error` that `String::from_utf8` reports for `bytes`
/// displays.
pub uninterp spec fn utf8_error_text(bytes: Seq<u8>) -> Seq<char>;

/// What the base64 crate's `STANDARD.encode` gives for `bytes`.
pub uninterp spec fn base64_encode(bytes: Seq<u8>) -> Seq<char>;

/// What the base64 crate's `STANDARD.decode` gives for `text`, `None` when it
/// reports an error.
pub uninterp spec fn base64_decode(text: Seq<char>) -> Option<Seq<u8>>;

/// What aes-gcm's `Aes256Gcm::encrypt` gives for `plain` under `key` and
/// `nonce` (with no associated data): the ciphertext followed by its tag.
pub uninterp spec fn aes256_gcm_seal(key: Seq<u8>, nonce: Seq<u8>, plain: Seq<u8>) -> Seq<u8>;

/// What aes-gcm's `Aes256Gcm::decrypt` gives for `sealed` under `key` and
/// `nonce` (with no associated data), `None` when it reports an error.
pub uninterp spec fn aes256_gcm_open(key: Seq<u8>, nonce: Seq<u8>, sealed: Seq<u8>) -> Option<Seq<u8>>;

/// Calls base64's `STANDARD.encode`. Claimed: the result is
/// `base64_encode(bytes)`, and `STANDARD.decode` reads it back to `bytes`.
#[verifier::external_body]
fn base64_encode_bytes(bytes: &[u8]) -> (res: String)
    requires
        4 * (bytes@.len() / 3 + 1) <= usize::MAX,
    ensures
        res@ == base64_encode(bytes@),
        base64_decode(res@) == Some(bytes@),
{
    STANDARD.encode(bytes)
}

/// Calls base64's `STANDARD.decode`, and on an error its `Display`. Claimed:
/// the result is `base64_decode(text)`, and the error's text is
/// `base64_error_text(text)`.
#[verifier::external_body]
fn base64_decode_text(text: &str) -> (res: Result<Vec<u8>, String>)
    ensures
        match res {
            Ok(b) => base64_decode(text@) == Some(b@),
            Err(e) => base64_decode(text@) is None && e@ == base64_error_text(text@),
        },
{
    match STANDARD.decode(text) {
        Ok(b) => Ok(b),
        Err(e) => Err(e.to_string()),
    }
}

/// Calls aes-gcm's `Aes256Gcm::new(key).encrypt(nonce, plain)`. Claimed: it
/// succeeds exactly when the plaintext is at most 2^36 bytes (its `P_MAX`),
/// giving `aes256_gcm_seal(key, nonce, plain)`, which is 16 bytes longer
/// than the plaintext and which `decrypt` under the same key and nonce reads
/// back to the plaintext.
#[verifier::external_body]
fn aes_gcm_seal(key: &[u8], nonce: &[u8], plain: &[u8]) -> (res: Option<Vec<u8>>)
    requires
        key@.len() == KEY_LEN,
        nonce@.len() == NONCE_LEN,
    ensures
        res is Some <==> plain@.len() <= max_plaintext(),
        res matches Some(c) ==> c@ == aes256_gcm_seal(key@, nonce@, plain@),
        res matches Some(c) ==> c@.len() == plain@.len() + TAG_LEN,
        res matches Some(c) ==> aes256_gcm_open(key@, nonce@, c@) == Some(plain@),
{
    let cipher = Aes256Gcm::new(Key::<Aes256Gcm>::from_slice(key));
    cipher.encrypt(Nonce::from_slice(nonce), plain).ok()
}

/// Calls aes-gcm's `Aes256Gcm::new(key).decrypt(nonce, sealed)`. Claimed:
/// the result is `aes256_gcm_open(key, nonce, sealed)`.
#[verifier::external_body]
fn aes_gcm_open(key: &[u8], nonce: &[u8], sealed: &[u8]) -> (res: Option<Vec<u8>>)
    requires
        key@.len() == KEY_LEN,
        nonce@.len() == NONCE_LEN,
    ensures
        match res {
            Some(p) => aes256_gcm_open(key@, nonce@, sealed@) == Some(p@),
            None => aes256_gcm_open(key@, nonce@, sealed@) is None,
        },
{
    let cipher = Aes256Gcm::new(Key::<Aes256Gcm>::from_slice(key));
    cipher.decrypt(Nonce::from_slice(nonce), sealed).ok()
}

/// Calls rand's `thread_rng().fill_bytes` on `len` zero bytes. Claimed: the
/// result has `len` bytes; their values are random and nothing is claimed of
/// them.
#[verifier::external_body]
pub(crate) fn random_bytes(len: usize) -> (res: Vec<u8>)
    ensures
        res@.len() == len,
{
    let mut bytes = vec![0u8; len];
    rand::thread_rng().fill_bytes(&mut bytes);
    bytes
}

/// Calls std's `String::from_utf8`, and on an error its `Display`. Claimed,
/// as std documents: it succeeds exactly on valid UTF-8, giving the text that
/// the bytes encode; the error's text is `utf8_error_text(bytes)`.
#[verifier::external_body]
fn string_from_utf8(bytes: Vec<u8>) -> (res: Result<String, String>)
    ensures
        res is Ok <==> valid_utf8(bytes@),
        res matches Ok(s) ==> s@ == decode_utf8(bytes@),
        res matches Err(e) ==> e@ == utf8_error_text(bytes@),
{
    match String::from_utf8(bytes) {
        Ok(s) => Ok(s),
        Err(e) => Err(e.to_string()),
    }
}

/// The cipher key given as Base64 text: it must decode to 32 bytes.
pub open spec fn spec_cipher_key(key_base64: Seq<char>) -> Result<Seq<u8>, CryptoFailure> {
    match base64_decode(key_base64) {
        None => Err(CryptoFailure::KeyNotBase64(base64_error_text(key_base64))),
        Some(k) => if k.len() == KEY_LEN {
            Ok(k)
        } else {
            Err(CryptoFailure::KeyLength)
        },
    }
}

/// The text that encrypting `plain` under `key` with `nonce` stores.
pub open spec fn sealed_text(key: Seq<u8>, nonce: Seq<u8>, plain: Seq<char>) -> Seq<char> {
    base64_encode(nonce + aes256_gcm_seal(key, nonce, encode_utf8(plain)))
}

/// What decrypting the stored text `encoded` under `key` gives.
pub open spec fn spec_decrypt(key: Seq<u8>, encoded: Seq<char>) -> Result<Seq<char>, CryptoFailure> {
    match base64_decode(encoded) {
        None => Err(CryptoFailure::NotBase64(base64_error_text(encoded))),
        Some(c) => if c.len() < NONCE_LEN + 1 {
            Err(CryptoFailure::TooShort)
        } else {
            match aes256_gcm_open(
                key,
                c.subrange(0, NONCE_LEN as int),
                c.subrange(NONCE_LEN as int, c.len() as int),
            ) {
                None => Err(CryptoFailure::DecryptionFailed),
                Some(p) => if valid_utf8(p) {
                    Ok(decode_utf8(p))
                } else {
                    Err(CryptoFailure::NotUtf8(utf8_error_text(p)))
                },
            }
        },
    }
}

/// Reads the cipher key from its Base64 text.
pub fn cipher_key(key_base64: &str) -> (res: Result<Vec<u8>, CryptoError>)
    ensures
        match res {
            Ok(k) => spec_cipher_key(key_base64@) == Ok::<Seq<u8>, CryptoFailure>(k@),
            Err(e) => spec_cipher_key(key_base64@) == Err::<Seq<u8>, CryptoFailure>(e@),
        },
{
    match base64_decode_text(key_base64) {
        Err(detail) => Err(CryptoError::KeyNotBase64 { detail }),
        Ok(k) => if k.len() == KEY_LEN {
            Ok(k)
        } else {
            Err(CryptoError::KeyLength)
        },
    }
}

/// Encrypts a social identifier under `key` with a fresh random nonce: the
/// Base64 text of the 12-byte nonce followed by the sealed UTF-8 bytes, which
/// are 16 bytes longer than the plaintext. Decrypting the result under the
/// same key gives `plain` back.
pub fn encrypt_social_id(key: &Vec<u8>, plain: &str) -> (res: Result<String, CryptoError>)
    requires
        key@.len() == KEY_LEN,
        4 * ((encode_utf8(plain@).len() + NONCE_LEN + TAG_LEN) / 3 + 1) <= usize::MAX,
    ensures
        res is Ok <==> encode_utf8(plain@).len() <= max_plaintext(),
        res matches Ok(t) ==> exists|nonce: Seq<u8>|
            nonce.len() == NONCE_LEN && t@ == sealed_text(key@, nonce, plain@),
        res matches Ok(t) ==> exists|nonce: Seq<u8>, sealed: Seq<u8>|
            #![trigger nonce + sealed]
            nonce.len() == NONCE_LEN && sealed.len() == encode_utf8(plain@).len() + TAG_LEN
                && base64_decode(t@) == Some(nonce + sealed),
        res matches Ok(t) ==> spec_decrypt(key@, t@) == Ok::<Seq<char>, CryptoFailure>(plain@),
        res matches Err(e) ==> e == CryptoError::EncryptionFailed,
{
    let mut combined = random_bytes(NONCE_LEN);
    let ghost nonce = combined@;
    let bytes = plain.as_bytes();
    match aes_gcm_seal(key.as_slice(), combined.as_slice(), bytes) {
        None => Err(CryptoError::EncryptionFailed),
        Some(sealed) => {
            let ghost sealed_seq = sealed@;
            let mut sealed = sealed;
            combined.append(&mut sealed);
            assert(combined@ == nonce + sealed_seq);
            let text = base64_encode_bytes(combined.as_slice());
            proof {
                let c = nonce + sealed_seq;
                assert(c.subrange(0, NONCE_LEN as int) =~= nonce);
                assert(c.subrange(NONCE_LEN as int, c.len() as int) =~= sealed_seq);
                encode_utf8_valid_utf8(plain@);
                encode_utf8_decode_utf8(plain@);
            }
            Ok(text)
        },
    }
}

/// Decrypts a stored social identifier under `key`: the Base64 text must
/// hold a 12-byte nonce and a ciphertext that authenticates, sealing UTF-8
/// text.
pub fn decrypt_social_id(key: &Vec<u8>, encoded: &str) -> (res: Result<String, CryptoError>)
    requires
        key@.len() == KEY_LEN,
    ensures
        match res {
            Ok(s) => spec_decrypt(key@, encoded@) == Ok::<Seq<char>, CryptoFailure>(s@),
            Err(e) => spec_decrypt(key@, encoded@) == Err::<Seq<char>, CryptoFailure>(e@),
        },
{
    let combined = match base64_decode_text(encoded) {
        Err(detail) => {
            return Err(CryptoError::NotBase64 { detail });
        },
        Ok(c) => c,
    };
    if combined.len() < NONCE_LEN + 1 {
        return Err(CryptoError::TooShort);
    }
    let (nonce, sealed) = combined.as_slice().split_at(NONCE_LEN);
    match aes_gcm_open(key.as_slice(), nonce, sealed) {
        None => Err(CryptoError::DecryptionFailed),
        Some(p) => match string_from_utf8(p) {
            Err(detail) => Err(CryptoError::NotUtf8 { detail }),
            Ok(s) => Ok(s),
        },
    }
}

} // verus!
