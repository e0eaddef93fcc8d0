//! Settings read from the environment, with their defaults, and the
//! decimal numbers they are written in.

use vstd::prelude::*;
use crate::text::{concat2, owned, str_eq};

verus! {

/// Whether `c` is an ASCII decimal digit.
pub open spec fn is_digit(c: char) -> bool {
    '0' <= c <= '9'
}

/// The value of the decimal digit `c`.
pub open spec fn digit_value(c: char) -> int {
    c as int - '0' as int
}

/// Whether every character of `s` is a decimal digit.
pub open spec fn all_digits(s: Seq<char>) -> bool {
    forall|i: int| 0 <= i < s.len() ==> is_digit(#[trigger] s[i])
}

/// The value of the decimal digits `s`, most significant first.
pub open spec fn digits_value(s: Seq<char>) -> int
    decreases s.len(),
{
    if s.len() == 0 {
        0
    } else {
        10 * digits_value(s.drop_last()) + digit_value(s.last())
    }
}

/// The `i64` written in `s` as std's `str::parse::<i64>` reads it: an
/// optional `+` or `-`, then one or more decimal digits, the value in range.
pub open spec fn decimal_i64(s: Seq<char>) -> Option<i64> {
    let neg = s.len() > 0 && s[0] == '-';
    let body = if s.len() > 0 && (s[0] == '-' || s[0] == '+') {
        s.drop_first()
    } else {
        s
    };
    let v = if neg {
        -digits_value(body)
    } else {
        digits_value(body)
    };
    if body.len() == 0 || !all_digits(body) {
        None
    } else if i64::MIN <= v <= i64::MAX {
        Some(v as i64)
    } else {
        None
    }
}

/// One more than the largest magnitude an `i64` can have.
spec fn magnitude_cap() -> int {
    0x8000_0000_0000_0001
}

proof fn lemma_digits_value_nonneg(s: Seq<char>)
    requires
        all_digits(s),
    ensures
        digits_value(s) >= 0,
    decreases s.len(),
{
    if s.len() > 0 {
        lemma_digits_value_nonneg(s.drop_last());
    }
}

/// Reads an `i64` written in decimal, as std's `str::parse::<i64>` does.
pub fn parse_i64(text: &str) -> (res: Option<i64>)
    ensures
        res == decimal_i64(text@),
{
    let n = text.unicode_len();
    let ghost s = text@;
    if n == 0 {
        return None;
    }
    let first = text.get_char(0);
    let neg = first == '-';
    let start: usize = if first == '-' || first == '+' {
        1
    } else {
        0
    };
    let ghost body = s.subrange(start as int, n as int);
    proof {
        if start == 1 {
            assert(body =~= s.drop_first());
        } else {
            assert(body =~= s);
        }
    }
    if start == n {
        return None;
    }
    let mut acc: u128 = 0;
    let mut i: usize = start;
    while i < n
        invariant
            n == s.len(),
            s == text@,
            start <= i <= n,
            body == s.subrange(start as int, n as int),
            body == (if s.len() > 0 && (s[0] == '-' || s[0] == '+') {
                s.drop_first()
            } else {
                s
            }),
            all_digits(s.subrange(start as int, i as int)),
            acc as int == if digits_value(s.subrange(start as int, i as int)) < magnitude_cap() {
                digits_value(s.subrange(start as int, i as int))
            } else {
                magnitude_cap()
            },
        decreases n - i,
    {
        let c = text.get_char(i);
        if !('0' <= c && c <= '9') {
            proof {
                assert(body[i - start] == c);
                assert(!is_digit(body[i - start]));
                assert(!all_digits(body));
                assert(body.len() != 0);
            }
            return None;
        }
        let d = (c as u32 - '0' as u32) as u128;
        let ghost prev = s.subrange(start as int, i as int);
        let ghost next = s.subrange(start as int, i + 1);
        proof {
            assert(next.drop_last() =~= prev);
            assert(next.last() == c);
            lemma_digits_value_nonneg(prev);
            assert(all_digits(next));
        }
        let grown = acc * 10 + d;
        acc = if grown < 0x8000_0000_0000_0001 {
            grown
        } else {
            0x8000_0000_0000_0001
        };
        i = i + 1;
    }
    proof {
        assert(s.subrange(start as int, n as int) == body);
        lemma_digits_value_nonneg(body);
    }
    if neg {
        if acc <= 0x8000_0000_0000_0000 {
            let m = acc as i128;
            Some((-m) as i64)
        } else {
            None
        }
    } else {
        if acc <= 0x7fff_ffff_ffff_ffff {
            Some(acc as i64)
        } else {
            None
        }
    }
}

/// `configured`, or `default` when it is not set.
pub open spec fn or_default(configured: Option<String>, default: Seq<char>) -> Seq<char> {
    match configured {
        Some(s) => s@,
        None => default,
    }
}

/// Lifetime of an access token in seconds, as configured; 900 when not set.
/// `None` when the configured value is not a decimal `i64`.
pub fn access_expiry_seconds(configured: Option<String>) -> (res: Option<i64>)
    ensures
        res == decimal_i64(or_default(configured, "900"@)),
        configured is None ==> res == Some(900i64),
{
    proof {
        reveal_strlit("900");
        reveal_with_fuel(digits_value, 4);
        assert("900"@.drop_first() =~= "900"@ || "900"@[0] != '-');
    }
    match configured {
        Some(s) => parse_i64(s.as_str()),
        None => {
            let r = parse_i64("900");
            proof {
                let s = "900"@;
                assert(s.drop_last() =~= seq!['9', '0']);
                assert(s.drop_last().drop_last() =~= seq!['9']);
                assert(s.drop_last().drop_last().drop_last() =~= Seq::<char>::empty());
                assert(all_digits(s));
            }
            r
        },
    }
}

/// Lifetime of a refresh token in days, as configured; 30 when it is not set
/// or is not a decimal `i64`.
pub fn refresh_expiry_days(configured: Option<String>) -> (res: i64)
    ensures
        res == match decimal_i64(or_default(configured, "30"@)) {
            Some(v) => v,
            None => 30i64,
        },
{
    let text = match configured {
        Some(s) => s,
        None => owned("30"),
    };
    match parse_i64(text.as_str()) {
        Some(v) => v,
        None => 30,
    }
}

/// The KakaoPay merchant id, as configured; the test merchant `TC0ONETIME`
/// when not set.
pub fn kakao_pay_cid(configured: Option<String>) -> (res: String)
    ensures
        res@ == or_default(configured, "TC0ONETIME"@),
{
    match configured {
        Some(s) => s,
        None => owned("TC0ONETIME"),
    }
}

/// The NaverPay host: production only when the environment says
/// `production`, the sandbox otherwise.
pub fn naver_pay_base_url(environment: Option<String>) -> (res: String)
    ensures
        res@ == (if environment matches Some(e) && e@ == "production"@ {
            "https://pay.naver.com"@
        } else {
            "https://sandbox-pay.naver.com"@
        }),
{
    let production = match &environment {
        Some(e) => str_eq(e.as_str(), "production"),
        None => false,
    };
    if production {
        owned("https://pay.naver.com")
    } else {
        owned("https://sandbox-pay.naver.com")
    }
}

/// A NaverPay endpoint: the host followed by the API path.
pub fn naver_pay_endpoint(base_url: &str, path: &str) -> (res: String)
    ensures
        res@ == base_url@ + path@,
{
    concat2(base_url, path)
}

/// The address the server listens on: host and port, by default
/// `127.0.0.1` and `8080`.
pub fn listen_address(host: Option<String>, port: Option<String>) -> (res: String)
    ensures
        res@ == or_default(host, "127.0.0.1"@) + ":"@ + or_default(port, "8080"@),
{
    let host = match host {
        Some(h) => h,
        None => owned("127.0.0.1"),
    };
    let port = match port {
        Some(p) => p,
        None => owned("8080"),
    };
    let with_colon = concat2(host.as_str(), ":");
    concat2(with_colon.as_str(), port.as_str())
}

/// The log filter, as configured; `info` when not set.
pub fn log_filter(configured: Option<String>) -> (res: String)
    ensures
        res@ == or_default(configured, "info"@),
{
    match configured {
        Some(s) => s,
        None => owned("info"),
    }
}

} // verus!
