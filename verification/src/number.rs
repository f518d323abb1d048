//! Integers and flags from their decimal form.

use crate::error::Error;
use crate::error::ErrorView;
use crate::text::to_chars;
use vstd::prelude::*;

verus! {

/// Whether `c` is a decimal digit.
pub open spec fn is_digit(c: char) -> bool {
    '0' <= c <= '9'
}

/// The number that a decimal digit stands for.
pub open spec fn digit_value(c: char) -> nat {
    (c as int - '0' as int) as nat
}

/// Whether every character of `s` is a decimal digit.
pub open spec fn all_digits(s: Seq<char>) -> bool {
    forall|i: int| 0 <= i < s.len() ==> is_digit(#[trigger] s[i])
}

/// The number that a run of decimal digits writes, most significant first.
pub open spec fn digits_value(s: Seq<char>) -> nat
    decreases s.len(),
{
    if s.len() == 0 {
        0
    } else {
        digits_value(s.drop_last()) * 10 + digit_value(s.last())
    }
}

/// The number that `s` writes without a minus sign: an optional `+`, then at
/// least one digit and nothing else.
pub open spec fn unsigned_value(s: Seq<char>) -> Option<nat> {
    let digits = if s.len() > 0 && s[0] == '+' {
        s.skip(1)
    } else {
        s
    };
    if digits.len() > 0 && all_digits(digits) {
        Some(digits_value(digits))
    } else {
        None
    }
}

/// The integer that `s` writes: an optional sign, then at least one digit
/// and nothing else.
pub open spec fn signed_value(s: Seq<char>) -> Option<int> {
    if s.len() > 0 && s[0] == '-' {
        let digits = s.skip(1);
        if digits.len() > 0 && all_digits(digits) {
            Some(-(digits_value(digits) as int))
        } else {
            None
        }
    } else {
        match unsigned_value(s) {
            Some(n) => Some(n as int),
            None => None,
        }
    }
}

/// What reading `s` as a `u32` gives.
pub open spec fn u32_of(s: Seq<char>) -> Result<u32, ErrorView> {
    match unsigned_value(s) {
        Some(n) if n <= u32::MAX => Ok(n as u32),
        _ => Err(ErrorView::InvalidNumber(s)),
    }
}

/// What reading `s` as an `i32` gives.
pub open spec fn i32_of(s: Seq<char>) -> Result<i32, ErrorView> {
    match signed_value(s) {
        Some(n) if i32::MIN <= n <= i32::MAX => Ok(n as i32),
        _ => Err(ErrorView::InvalidNumber(s)),
    }
}

/// What reading `s` as a flag gives: the number 0 for false, 1 for true.
pub open spec fn bool_of(s: Seq<char>) -> Result<bool, ErrorView> {
    match unsigned_value(s) {
        Some(n) if n <= 1 => Ok(n == 1),
        _ => Err(ErrorView::InvalidNumber(s)),
    }
}

/// A run of digits is worth at least as much as any of its prefixes.
proof fn lemma_digits_value_grows(s: Seq<char>, k: int)
    requires
        0 <= k <= s.len(),
    ensures
        digits_value(s.take(k)) <= digits_value(s),
    decreases s.len(),
{
    if k == s.len() {
        assert(s.take(k) =~= s);
    } else {
        lemma_digits_value_grows(s.drop_last(), k);
        assert(s.drop_last().take(k) =~= s.take(k));
    }
}

/// Reads the digits of `chars` from `start` to the end, as long as their
/// value stays within `limit`.
fn scan_digits(chars: &Vec<char>, start: usize, limit: u64) -> (value: Option<u64>)
    requires
        start <= chars.len(),
        limit <= 0xffff_ffff_ffff,
    ensures
        value is Some <==> start < chars.len() && all_digits(chars@.skip(start as int))
            && digits_value(chars@.skip(start as int)) <= limit,
        value is Some ==> value->0 == digits_value(chars@.skip(start as int)),
{
    let ghost digits = chars@.skip(start as int);
    if start == chars.len() {
        return None;
    }
    let mut acc: u64 = 0;
    let mut i: usize = start;
    while i < chars.len()
        invariant
            start <= i <= chars.len(),
            digits == chars@.skip(start as int),
            all_digits(digits.take(i - start)),
            acc == digits_value(digits.take(i - start)),
            acc <= limit,
            limit <= 0xffff_ffff_ffff,
        decreases chars.len() - i,
    {
        let c = chars[i];
        if c < '0' || c > '9' {
            assert(!is_digit(digits[i - start]));
            return None;
        }
        let d: u64 = (c as u32 - '0' as u32) as u64;
        proof {
            assert(digits.take(i + 1 - start).drop_last() =~= digits.take(i - start));
            assert(digits.take(i + 1 - start).last() == c);
            assert(d == digit_value(c));
        }
        acc = acc * 10 + d;
        if acc > limit {
            proof {
                if all_digits(digits) {
                    lemma_digits_value_grows(digits, i + 1 - start);
                }
            }
            return None;
        }
        assert forall|j: int| 0 <= j < i + 1 - start implies is_digit(
            #[trigger] digits.take(i + 1 - start)[j],
        ) by {
            if j < i - start {
                assert(digits.take(i - start)[j] == digits[j]);
            }
        }
        i += 1;
    }
    assert(digits.take(i - start) =~= digits);
    Some(acc)
}

/// Reads `text` as a `u32`: an optional `+` and decimal digits, no more than
/// the type holds. Anything else is an invalid number, reported with the text.
pub fn read_u32(text: &str) -> (result: Result<u32, Error>)
    ensures
        match u32_of(text@) {
            Ok(n) => result == Ok::<u32, Error>(n),
            Err(e) => result is Err && result->Err_0@ == e,
        },
{
    let chars = to_chars(text);
    let start: usize = if chars.len() > 0 && chars[0] == '+' {
        1
    } else {
        0
    };
    proof {
        if start == 0 {
            assert(chars@.skip(0) =~= chars@);
        }
    }
    match scan_digits(&chars, start, 0xffff_ffff) {
        Some(n) => Ok(n as u32),
        None => Err(Error::InvalidNumber(String::from_str(text))),
    }
}

/// Reads `text` as an `i32`: an optional sign and decimal digits, within the
/// type's range. Anything else is an invalid number, reported with the text.
pub fn read_i32(text: &str) -> (result: Result<i32, Error>)
    ensures
        match i32_of(text@) {
            Ok(n) => result == Ok::<i32, Error>(n),
            Err(e) => result is Err && result->Err_0@ == e,
        },
{
    let chars = to_chars(text);
    if chars.len() > 0 && chars[0] == '-' {
        match scan_digits(&chars, 1, 0x8000_0000) {
            Some(n) => {
                let value: i64 = 0 - (n as i64);
                Ok(value as i32)
            },
            None => Err(Error::InvalidNumber(String::from_str(text))),
        }
    } else {
        let start: usize = if chars.len() > 0 && chars[0] == '+' {
            1
        } else {
            0
        };
        proof {
            if start == 0 {
                assert(chars@.skip(0) =~= chars@);
            }
        }
        match scan_digits(&chars, start, 0x7fff_ffff) {
            Some(n) => Ok(n as i32),
            None => Err(Error::InvalidNumber(String::from_str(text))),
        }
    }
}

/// Reads `text` as a flag: the number 0 is false and the number 1 is true.
/// Anything else is an invalid number, reported with the text.
pub fn read_bool(text: &str) -> (result: Result<bool, Error>)
    ensures
        match bool_of(text@) {
            Ok(flag) => result == Ok::<bool, Error>(flag),
            Err(e) => result is Err && result->Err_0@ == e,
        },
{
    let chars = to_chars(text);
    let start: usize = if chars.len() > 0 && chars[0] == '+' {
        1
    } else {
        0
    };
    proof {
        if start == 0 {
            assert(chars@.skip(0) =~= chars@);
        }
    }
    match scan_digits(&chars, start, 1) {
        Some(n) => Ok(n == 1),
        None => Err(Error::InvalidNumber(String::from_str(text))),
    }
}

} // verus!
