//! Colors and their hexadecimal form.

use crate::error::Error;
use crate::error::ErrorView;
use crate::text::to_chars;
use vstd::prelude::*;

verus! {

/// A color by its four channels.
#[derive(Debug, Clone, Copy, PartialEq, Eq, Structural)]
pub struct Color {
    pub alpha: u8,
    pub red: u8,
    pub green: u8,
    pub blue: u8,
}

/// Whether `c` is a hexadecimal digit, in either case.
pub open spec fn is_hex_digit(c: char) -> bool {
    ('0' <= c <= '9') || ('a' <= c <= 'f') || ('A' <= c <= 'F')
}

/// The number that a hexadecimal digit stands for.
pub open spec fn hex_value(c: char) -> int {
    if '0' <= c <= '9' {
        c as int - '0' as int
    } else if 'a' <= c <= 'f' {
        c as int - 'a' as int + 10
    } else {
        c as int - 'A' as int + 10
    }
}

/// Whether every character of `s` is a hexadecimal digit.
pub open spec fn all_hex_digits(s: Seq<char>) -> bool {
    forall|i: int| 0 <= i < s.len() ==> is_hex_digit(#[trigger] s[i])
}

/// The byte that the two hexadecimal digits at `i` and `i + 1` write.
pub open spec fn hex_byte(s: Seq<char>, i: int) -> u8 {
    (hex_value(s[i]) * 16 + hex_value(s[i + 1])) as u8
}

/// What reading `s` as a color gives. After an optional `#` stand six digits
/// (red, green, blue, fully opaque) or eight (alpha first).
pub open spec fn color_of(s: Seq<char>) -> Result<Color, ErrorView> {
    let digits = if s.len() > 0 && s[0] == '#' {
        s.skip(1)
    } else {
        s
    };
    if digits.len() == 6 && all_hex_digits(digits) {
        Ok(
            Color {
                alpha: 255,
                red: hex_byte(digits, 0),
                green: hex_byte(digits, 2),
                blue: hex_byte(digits, 4),
            },
        )
    } else if digits.len() == 8 && all_hex_digits(digits) {
        Ok(
            Color {
                alpha: hex_byte(digits, 0),
                red: hex_byte(digits, 2),
                green: hex_byte(digits, 4),
                blue: hex_byte(digits, 6),
            },
        )
    } else {
        Err(ErrorView::InvalidColor(s))
    }
}

/// The value of one hexadecimal digit, if `c` is one.
fn hex_digit(c: char) -> (value: Option<u8>)
    ensures
        value is Some <==> is_hex_digit(c),
        value is Some ==> value->0 == hex_value(c) && value->0 < 16,
{
    if c >= '0' && c <= '9' {
        Some((c as u32 - '0' as u32) as u8)
    } else if c >= 'a' && c <= 'f' {
        Some((c as u32 - 'a' as u32 + 10) as u8)
    } else if c >= 'A' && c <= 'F' {
        Some((c as u32 - 'A' as u32 + 10) as u8)
    } else {
        None
    }
}

/// The bytes that the hexadecimal digits of `chars` from `start` on write,
/// two digits each, if they are all digits and even in number.
fn hex_bytes(chars: &Vec<char>, start: usize) -> (bytes: Option<Vec<u8>>)
    requires
        start <= chars.len(),
    ensures
        bytes is Some <==> (chars.len() - start) % 2 == 0 && all_hex_digits(
            chars@.skip(start as int),
        ),
        bytes is Some ==> bytes->0.len() * 2 == chars.len() - start && forall|k: int|
            0 <= k < bytes->0.len() ==> #[trigger] bytes->0[k] == hex_byte(
                chars@.skip(start as int),
                2 * k,
            ),
{
    let ghost digits = chars@.skip(start as int);
    if (chars.len() - start) % 2 != 0 {
        return None;
    }
    let mut bytes: Vec<u8> = Vec::new();
    let mut i: usize = start;
    while i < chars.len()
        invariant
            start <= i <= chars.len(),
            (chars.len() - start) % 2 == 0,
            (i - start) % 2 == 0,
            digits == chars@.skip(start as int),
            bytes.len() * 2 == i - start,
            forall|j: int| 0 <= j < i - start ==> is_hex_digit(#[trigger] digits[j]),
            forall|k: int| 0 <= k < bytes.len() ==> #[trigger] bytes[k] == hex_byte(digits, 2 * k),
        decreases chars.len() - i,
    {
        let high = hex_digit(chars[i]);
        let low = hex_digit(chars[i + 1]);
        match (high, low) {
            (Some(h), Some(l)) => {
                assert(digits[i - start] == chars@[i as int]);
                assert(digits[i + 1 - start] == chars@[i + 1]);
                bytes.push(h * 16 + l);
                i += 2;
            },
            _ => {
                assert(digits[i - start] == chars@[i as int]);
                assert(digits[i + 1 - start] == chars@[i + 1]);
                return None;
            },
        }
    }
    Some(bytes)
}

impl Color {
    /// Reads a color from its hexadecimal form: six digits for red, green and
    /// blue with full opacity, or eight with the alpha channel first; a
    /// leading `#` is optional. Anything else is an invalid color, reported
    /// with the text.
    pub fn parse(text: &str) -> (result: Result<Color, Error>)
        ensures
            match color_of(text@) {
                Ok(color) => result == Ok::<Color, Error>(color),
                Err(e) => result is Err && result->Err_0@ == e,
            },
    {
        let chars = to_chars(text);
        let start: usize = if chars.len() > 0 && chars[0] == '#' {
            1
        } else {
            0
        };
        proof {
            if start == 0 {
                assert(chars@.skip(0) =~= chars@);
            }
        }
        match hex_bytes(&chars, start) {
            Some(bytes) => {
                if bytes.len() == 3 {
                    Ok(Color { alpha: 255, red: bytes[0], green: bytes[1], blue: bytes[2] })
                } else if bytes.len() == 4 {
                    Ok(Color { alpha: bytes[0], red: bytes[1], green: bytes[2], blue: bytes[3] })
                } else {
                    Err(Error::InvalidColor(String::from_str(text)))
                }
            },
            None => Err(Error::InvalidColor(String::from_str(text))),
        }
    }

    /// The alpha channel.
    pub fn alpha(&self) -> (channel: u8)
        ensures
            channel == self.alpha,
    {
        self.alpha
    }

    /// The red channel.
    pub fn red(&self) -> (channel: u8)
        ensures
            channel == self.red,
    {
        self.red
    }

    /// The green channel.
    pub fn green(&self) -> (channel: u8)
        ensures
            channel == self.green,
    {
        self.green
    }

    /// The blue channel.
    pub fn blue(&self) -> (channel: u8)
        ensures
            channel == self.blue,
    {
        self.blue
    }
}

} // verus!
