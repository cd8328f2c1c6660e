//! Unsigned decimal integers as the standard library's `FromStr` reads them:
//! an optional leading `+`, then one or more ASCII digits, with no white
//! space and no other sign.
use vstd::prelude::*;

use crate::text::chars_of;

verus! {

/// Whether `c` is an ASCII digit.
pub open spec fn is_digit(c: char) -> bool {
    '0' <= c && c <= '9'
}

/// The value of an ASCII digit.
pub open spec fn digit_value(c: char) -> int {
    (c as u32) - ('0' as u32)
}

/// The value of a string of ASCII digits.
pub open spec fn digits_value(s: Seq<char>) -> nat
    decreases s.len(),
{
    if s.len() == 0 {
        0
    } else {
        (digits_value(s.drop_last()) * 10 + digit_value(s.last())) as nat
    }
}

/// The digits of `s` after an optional leading `+`.
pub open spec fn unsigned_body(s: Seq<char>) -> Seq<char> {
    if s.len() > 0 && s[0] == '+' {
        s.drop_first()
    } else {
        s
    }
}

/// The value `s` denotes as an unsigned decimal, if it is one.
pub open spec fn decimal_value(s: Seq<char>) -> Option<nat> {
    let body = unsigned_body(s);
    if body.len() > 0 && forall|i: int| 0 <= i < body.len() ==> is_digit(body[i]) {
        Some(digits_value(body))
    } else {
        None
    }
}

/// `s` read as a `u64`, as `u64::from_str` reads it.
pub open spec fn parse_u64_spec(s: Seq<char>) -> Option<u64> {
    match decimal_value(s) {
        Some(v) => if v <= u64::MAX {
            Some(v as u64)
        } else {
            None
        },
        None => None,
    }
}

/// `s` read as a `u32`, as `u32::from_str` reads it.
pub open spec fn parse_u32_spec(s: Seq<char>) -> Option<u32> {
    match decimal_value(s) {
        Some(v) => if v <= u32::MAX {
            Some(v as u32)
        } else {
            None
        },
        None => None,
    }
}

/// `s` read as a `usize`, as `usize::from_str` reads it.
pub open spec fn parse_usize_spec(s: Seq<char>) -> Option<usize> {
    match decimal_value(s) {
        Some(v) => if v <= usize::MAX {
            Some(v as usize)
        } else {
            None
        },
        None => None,
    }
}

proof fn lemma_digits_value_grows(s: Seq<char>, i: int, n: int)
    requires
        0 <= i <= n <= s.len(),
        forall|k: int| 0 <= k < s.len() ==> is_digit(s[k]),
    ensures
        digits_value(s.take(i)) <= digits_value(s.take(n)),
    decreases n - i,
{
    if i < n {
        lemma_digits_value_grows(s, i, n - 1);
        assert(s.take(n).drop_last() =~= s.take(n - 1));
        assert(s.take(n).last() == s[n - 1]);
    }
}

/// `v` read as a `u64`.
pub fn parse_u64_chars(v: &Vec<char>) -> (r: Option<u64>)
    ensures
        r == parse_u64_spec(v@),
{
    let start: usize = if v.len() > 0 && v[0] == '+' {
        1
    } else {
        0
    };
    let ghost body = unsigned_body(v@);
    assert(body =~= v@.subrange(start as int, v@.len() as int));
    if start >= v.len() {
        return None;
    }
    let mut value: u64 = 0;
    let mut i: usize = start;
    while i < v.len()
        invariant
            start <= i <= v.len(),
            start < v.len(),
            body == v@.subrange(start as int, v@.len() as int),
            body == unsigned_body(v@),
            forall|k: int| 0 <= k < i - start ==> is_digit(body[k]),
            value as nat == digits_value(body.take(i - start)),
        decreases v.len() - i,
    {
        let c = v[i];
        if !('0' <= c && c <= '9') {
            assert(!is_digit(body[i - start]));
            return None;
        }
        let d: u64 = ((c as u32) - ('0' as u32)) as u64;
        let ghost k: int = i - start;
        assert(body.take(k + 1).drop_last() =~= body.take(k));
        assert(body.take(k + 1).last() == c);
        let next = value.checked_mul(10);
        match next {
            None => {
                proof {
                    finish_overflow(body, k, v@.len() - start);
                }
                return None;
            },
            Some(t) => {
                let sum = t.checked_add(d);
                match sum {
                    None => {
                        proof {
                            finish_overflow(body, k, v@.len() - start);
                        }
                        return None;
                    },
                    Some(n) => {
                        value = n;
                    },
                }
            },
        }
        i = i + 1;
    }
    assert(body.take(body.len() as int) =~= body);
    Some(value)
}

/// If the digits of `body` before index `k + 1` already exceed `u64::MAX`,
/// or `body` holds a non-digit, `body` is no `u64`.
proof fn finish_overflow(body: Seq<char>, k: int, len: int)
    requires
        0 <= k < len,
        len == body.len(),
        body.len() > 0,
        forall|j: int| 0 <= j < k ==> is_digit(body[j]),
        is_digit(body[k]),
        digits_value(body.take(k + 1)) > u64::MAX,
    ensures
        decimal_value_is_not_u64(body),
{
    if forall|j: int| 0 <= j < body.len() ==> is_digit(body[j]) {
        lemma_digits_value_grows(body, k + 1, body.len() as int);
        assert(body.take(body.len() as int) =~= body);
    }
}

/// Whether `body` (a string without sign) denotes no `u64`.
pub open spec fn decimal_value_is_not_u64(body: Seq<char>) -> bool {
    !(body.len() > 0 && forall|i: int| 0 <= i < body.len() ==> is_digit(body[i]))
        || digits_value(body) > u64::MAX
}

/// `s` read as a `u64`, as `u64::from_str` reads it.
pub fn parse_u64(s: &str) -> (r: Option<u64>)
    ensures
        r == parse_u64_spec(s@),
{
    let v = chars_of(s);
    parse_u64_chars(&v)
}

/// `s` read as a `u32`, as `u32::from_str` reads it.
pub fn parse_u32(s: &str) -> (r: Option<u32>)
    ensures
        r == parse_u32_spec(s@),
{
    match parse_u64(s) {
        Some(v) => if v <= 0xffff_ffffu64 {
            Some(v as u32)
        } else {
            None
        },
        None => None,
    }
}

/// `v` read as a `u32`.
pub fn parse_u32_chars(v: &Vec<char>) -> (r: Option<u32>)
    ensures
        r == parse_u32_spec(v@),
{
    match parse_u64_chars(v) {
        Some(n) => if n <= 0xffff_ffffu64 {
            Some(n as u32)
        } else {
            None
        },
        None => None,
    }
}

/// `s` read as a `usize`, as `usize::from_str` reads it.
pub fn parse_usize(s: &str) -> (r: Option<usize>)
    ensures
        r == parse_usize_spec(s@),
{
    match parse_u64(s) {
        Some(v) => if v as u128 <= usize::MAX as u128 {
            Some(v as usize)
        } else {
            None
        },
        None => None,
    }
}

} // verus!
