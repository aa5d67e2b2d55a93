//! The response classifier: maps one completed HTTP exchange — status code,
//! the raw `Retry-After` header if any, and the body text — to either "decode
//! the body" or a classified error. Only this module looks at status codes.
//!
//! The decoding of a successful body into a typed value happens outside this
//! crate; the classifier's `Ok` hands the body back for it.

use vstd::prelude::*;
use crate::errors::AnthropicError;

verus! {

/// The byte of ASCII `+`.
pub open spec fn plus_byte() -> u8 {
    43
}

pub open spec fn is_ascii_digit(b: u8) -> bool {
    48 <= b <= 57
}

pub open spec fn all_ascii_digits(s: Seq<u8>) -> bool {
    forall|i: int| 0 <= i < s.len() ==> is_ascii_digit(#[trigger] s[i])
}

/// The numeric value of a big-endian decimal digit string.
pub open spec fn digits_value(s: Seq<u8>) -> int
    decreases s.len(),
{
    if s.len() == 0 {
        0
    } else {
        digits_value(s.drop_last()) * 10 + (s.last() - 48)
    }
}

/// What a `Retry-After` header value parses to, following the standard
/// integer syntax: an optional leading `+`, then one or more decimal digits,
/// whose value fits in a `u64`. Anything else (an empty value, a date, a
/// sign alone, other bytes, an overflowing value) parses to nothing.
/// The digit segment of a header value: everything after an optional
/// leading `+`.
pub open spec fn spec_digits(s: Seq<u8>) -> Seq<u8> {
    if s.len() >= 1 && s[0] == plus_byte() {
        s.skip(1)
    } else {
        s
    }
}

pub open spec fn spec_parse_u64(s: Seq<u8>) -> Option<u64> {
    let digits = spec_digits(s);
    if digits.len() >= 1 && all_ascii_digits(digits) && digits_value(digits) <= u64::MAX {
        Some(digits_value(digits) as u64)
    } else {
        None
    }
}

proof fn lemma_digits_value_nonneg(s: Seq<u8>)
    requires
        all_ascii_digits(s),
    ensures
        digits_value(s) >= 0,
    decreases s.len(),
{
    if s.len() > 0 {
        assert(all_ascii_digits(s.drop_last()));
        lemma_digits_value_nonneg(s.drop_last());
    }
}

/// A digit string is worth at least any of its prefixes.
proof fn lemma_digits_prefix_le(s: Seq<u8>, i: int)
    requires
        all_ascii_digits(s),
        0 <= i <= s.len(),
    ensures
        digits_value(s.subrange(0, i)) <= digits_value(s),
    decreases s.len() - i,
{
    if i == s.len() {
        assert(s.subrange(0, i) =~= s);
    } else {
        let shorter = s.subrange(0, i);
        let longer = s.subrange(0, i + 1);
        assert(longer.drop_last() =~= shorter);
        assert(all_ascii_digits(shorter));
        lemma_digits_value_nonneg(shorter);
        lemma_digits_prefix_le(s, i + 1);
    }
}

/// Parses a `Retry-After` header value as whole seconds. Returns `None` on
/// anything but an optionally `+`-signed decimal integer that fits in a
/// `u64`.
pub fn parse_retry_after(s: &[u8]) -> (r: Option<u64>)
    ensures
        r == spec_parse_u64(s@),
{
    let n = s.len();
    let start: usize = if n >= 1 && s[0] == 43 {
        1
    } else {
        0
    };
    let ghost digits = s@.subrange(start as int, n as int);
    proof {
        if start == 1 {
            assert(digits =~= s@.skip(1));
        } else {
            assert(digits =~= s@);
        }
        assert(digits == spec_digits(s@));
    }
    if start >= n {
        return None;
    }
    let mut acc: u64 = 0;
    let mut i: usize = start;
    while i < n
        invariant
            start <= i <= n,
            n == s@.len(),
            digits == s@.subrange(start as int, n as int),
            digits == spec_digits(s@),
            all_ascii_digits(s@.subrange(start as int, i as int)),
            acc == digits_value(s@.subrange(start as int, i as int)),
        decreases n - i,
    {
        let b = s[i];
        let ghost seen = s@.subrange(start as int, i as int);
        let ghost next = s@.subrange(start as int, i as int + 1);
        proof {
            assert(next.drop_last() =~= seen);
            assert(digits[i - start] == s@[i as int]);
        }
        if b < 48 || b > 57 {
            // one non-digit byte spoils the whole value
            proof {
                assert(digits[i - start] == b);
                assert(!is_ascii_digit(digits[i - start]));
                assert(!all_ascii_digits(digits));
            }
            return None;
        }
        let d = b - 48;
        proof {
            assert(next.last() == b);
            assert(digits_value(next) == acc * 10 + (b - 48));
            assert(all_ascii_digits(next)) by {
                assert(forall|j: int|
                    0 <= j < next.len() - 1 ==> next[j] == #[trigger] seen[j]);
            }
        }
        let widened = match acc.checked_mul(10) {
            Some(x) => x.checked_add(d as u64),
            None => None,
        };
        match widened {
            Some(y) => {
                acc = y;
            },
            None => {
                proof {
                    assert(digits_value(next) > u64::MAX);
                    if all_ascii_digits(digits) {
                        assert(next =~= digits.subrange(0, i - start + 1));
                        lemma_digits_prefix_le(digits, i - start + 1);
                        assert(digits_value(digits) > u64::MAX);
                    }
                }
                return None;
            },
        }
        i = i + 1;
    }
    proof {
        assert(s@.subrange(start as int, n as int) =~= digits);
    }
    Some(acc)
}

/// The parse of an optional raw `Retry-After` header.
pub open spec fn spec_retry_after_of(header: Option<&[u8]>) -> Option<u64> {
    match header {
        Some(h) => spec_parse_u64(h@),
        None => None,
    }
}

/// Classifies one completed exchange. `Ok` carries the body back for
/// decoding exactly when the status is 200. Otherwise:
/// 400 is a malformed request (with the raw body), 401 is unauthorized
/// (no body read), 429 and the vendor's 529 are rate limits carrying the
/// parsed `Retry-After` if one was sent, and every other status is unknown
/// (with the raw body).
pub fn classify_response(status: u16, retry_after_header: Option<&[u8]>, body: String) -> (r:
    Result<String, AnthropicError>)
    ensures
        status == 200 ==> (r matches Ok(b) && b == body),
        status == 400 ==> r == Err::<String, AnthropicError>(AnthropicError::BadRequest(body)),
        status == 401 ==> r == Err::<String, AnthropicError>(AnthropicError::Unauthorized),
        status == 429 || status == 529 ==> r == Err::<String, AnthropicError>(
            (AnthropicError::RateLimit { retry_after: spec_retry_after_of(retry_after_header) }),
        ),
        !(status == 200 || status == 400 || status == 401 || status == 429 || status == 529)
            ==> r == Err::<String, AnthropicError>(AnthropicError::Unknown(body)),
{
    if status == 200 {
        Ok(body)
    } else if status == 400 {
        Err(AnthropicError::BadRequest(body))
    } else if status == 401 {
        Err(AnthropicError::Unauthorized)
    } else if status == 429 || status == 529 {
        let retry_after = match retry_after_header {
            Some(h) => parse_retry_after(h),
            None => None,
        };
        Err(AnthropicError::RateLimit { retry_after })
    } else {
        Err(AnthropicError::Unknown(body))
    }
}

} // verus!
