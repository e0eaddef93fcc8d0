//! Hexadecimal text and UUIDs.

use vstd::prelude::*;
use vstd::arithmetic::power::pow;
use vstd::arithmetic::div_mod::{lemma_div_denominator, lemma_fundamental_div_mod};
use uuid::Uuid;

verus! {

/// The lowercase hexadecimal digit for `n` (0 to 15).
pub open spec fn hex_digit(n: int) -> char {
    "0123456789abcdef"@[n]
}

/// Lowercase hexadecimal text of `bytes`: two digits per byte, the high
/// half of the byte first.
pub open spec fn hex_lower(bytes: Seq<u8>) -> Seq<char> {
    Seq::new(
        (2 * bytes.len()) as nat,
        |i: int|
            if i % 2 == 0 {
                hex_digit(bytes[i / 2] as int / 16)
            } else {
                hex_digit(bytes[i / 2] as int % 16)
            },
    )
}

/// Whether `c` is a lowercase hexadecimal digit.
pub open spec fn is_hex_lower_char(c: char) -> bool {
    ('0' <= c <= '9') || ('a' <= c <= 'f')
}

/// The sixteen bytes of `v`, most significant first.
pub open spec fn be_bytes(v: u128) -> Seq<u8> {
    Seq::new(16, |i: int| ((v as int / pow(256, (15 - i) as nat)) % 256) as u8)
}

/// The hyphenated lowercase text of the UUID with value `v`:
/// 8-4-4-4-12 hexadecimal digits, most significant first.
pub open spec fn uuid_text(v: u128) -> Seq<char> {
    let h = hex_lower(be_bytes(v));
    h.subrange(0, 8) + "-"@ + h.subrange(8, 12) + "-"@ + h.subrange(12, 16) + "-"@ + h.subrange(
        16,
        20,
    ) + "-"@ + h.subrange(20, 32)
}

/// Calls the hex crate's `encode`. Claimed: two lowercase hexadecimal digits
/// per byte, the high half first, as its `byte2hex` and lowercase table do.
#[verifier::external_body]
pub(crate) fn hex_encode(bytes: &[u8]) -> (res: String)
    ensures
        res@ == hex_lower(bytes@),
{
    hex::encode(bytes)
}

/// Calls the uuid crate's `Uuid::from_u128(v).to_string()`. Claimed: the
/// hyphenated lowercase form of the big-endian bytes of `v`, as its
/// `format_hyphenated` writes it.
#[verifier::external_body]
pub(crate) fn uuid_to_string(v: u128) -> (res: String)
    ensures
        res@ == uuid_text(v),
{
    Uuid::from_u128(v).to_string()
}

/// Whether `v` is the value of a random (version 4, RFC 4122 variant) UUID:
/// its version field (bits 76 to 79) is 4 and its variant field (bits 62
/// and 63) is binary 10.
pub open spec fn is_v4_uuid(v: u128) -> bool {
    &&& (v as int / 75557863725914323419136) % 16 == 4
    &&& (v as int / 4611686018427387904) % 4 == 2
}

/// Calls the uuid crate's `Uuid::new_v4()`: a random UUID. Claimed: as its
/// source sets them, the version field is 4 and the variant field is RFC
/// 4122's; the other 122 bits come from the operating system's randomness
/// and nothing is claimed of them.
#[verifier::external_body]
pub(crate) fn new_random_uuid() -> (res: u128)
    ensures
        is_v4_uuid(res),
{
    Uuid::new_v4().as_u128()
}

/// Hexadecimal text is made of lowercase hexadecimal digits, two per byte.
pub proof fn lemma_hex_lower_shape(bytes: Seq<u8>)
    ensures
        hex_lower(bytes).len() == 2 * bytes.len(),
        forall|i: int| 0 <= i < hex_lower(bytes).len() ==> is_hex_lower_char(#[trigger] hex_lower(bytes)[i]),
{
    reveal_strlit("0123456789abcdef");
    assert forall|i: int| 0 <= i < hex_lower(bytes).len() implies is_hex_lower_char(
        #[trigger] hex_lower(bytes)[i],
    ) by {
        let b = bytes[i / 2];
        assert(0 <= b / 16 < 16);
        assert(0 <= b % 16 < 16);
    }
}

/// The text of a UUID is 36 characters long, with hyphens at positions 8, 13,
/// 18 and 23.
pub proof fn lemma_uuid_text_shape(v: u128)
    ensures
        uuid_text(v).len() == 36,
        uuid_text(v)[8] == '-',
        uuid_text(v)[13] == '-',
        uuid_text(v)[18] == '-',
        uuid_text(v)[23] == '-',
{
    reveal_strlit("-");
}

/// The text of a random UUID shows its version: its fifteenth character (the
/// first of the third group) is `4`; so no random UUID is the nil UUID.
pub proof fn lemma_v4_uuid_text(v: u128)
    requires
        is_v4_uuid(v),
    ensures
        uuid_text(v)[14] == '4',
        uuid_text(0)[14] == '0',
        uuid_text(v) != uuid_text(0),
        v != 0,
{
    reveal_strlit("0123456789abcdef");
    reveal_strlit("-");
    let p72: int = 4722366482869645213696;
    assert(pow(256, 9) == p72) by {
        reveal_with_fuel(pow, 10);
    }
    let x = v as int / p72;
    lemma_div_denominator(v as int, p72, 16);
    assert(p72 * 16 == 75557863725914323419136);
    assert(x / 16 == v as int / 75557863725914323419136);
    let r = x % 256;
    assert(r / 16 == (x / 16) % 16) by {
        lemma_fundamental_div_mod(x, 256);
        let q = x / 256;
        assert(x == 256 * q + r);
        assert(0 <= r < 256);
        assert(x / 16 == 16 * q + r / 16) by (nonlinear_arith)
            requires
                x == 256 * q + r,
                0 <= r < 256,
        ;
        assert((16 * q + r / 16) % 16 == r / 16) by (nonlinear_arith)
            requires
                0 <= r < 256,
        ;
    }
    let b = be_bytes(v);
    assert(b[6] == r as u8);
    assert(hex_lower(b)[12] == hex_digit(b[6] as int / 16));
    assert(uuid_text(v)[14] == hex_lower(b)[12]);
    let z = be_bytes(0);
    assert(z[6] == 0);
    assert(uuid_text(0)[14] == hex_lower(z)[12]);
}

} // verus!
