//! Decimal numbers, kept as the literals that wrote them.

use crate::error::Error;
use crate::error::ErrorView;
use crate::number::is_digit;
use crate::text::to_chars;
use vstd::prelude::*;

verus! {

/// Where the run of digits that begins at `from` ends: the first position at
/// or after `from` that holds no digit, or the length of `s`.
pub open spec fn digits_end(s: Seq<char>, from: int) -> int
    decreases s.len() - from,
{
    if 0 <= from < s.len() && is_digit(s[from]) {
        digits_end(s, from + 1)
    } else {
        from
    }
}

/// Whether `c` is a sign.
pub open spec fn is_sign(c: char) -> bool {
    c == '+' || c == '-'
}

/// Whether `s` is a decimal literal: an optional sign; digits with an
/// optional point among, before or after them, at least one digit in all;
/// then optionally `e` or `E`, an optional sign and at least one digit.
pub open spec fn is_decimal(s: Seq<char>) -> bool {
    let whole = if s.len() > 0 && is_sign(s[0]) {
        1
    } else {
        0int
    };
    let point = digits_end(s, whole);
    let has_point = point < s.len() && s[point] == '.';
    let exponent = if has_point {
        digits_end(s, point + 1)
    } else {
        point
    };
    let digits = if has_point {
        exponent - whole - 1
    } else {
        exponent - whole
    };
    digits > 0 && (exponent == s.len() || ((s[exponent] == 'e' || s[exponent] == 'E') && {
        let power = if exponent + 1 < s.len() && is_sign(s[exponent + 1]) {
            exponent + 2
        } else {
            exponent + 1
        };
        power < s.len() && digits_end(s, power) == s.len()
    }))
}

/// What reading `s` as a decimal number gives: the literal itself.
pub open spec fn decimal_of(s: Seq<char>) -> Result<Seq<char>, ErrorView> {
    if is_decimal(s) {
        Ok(s)
    } else {
        Err(ErrorView::InvalidNumber(s))
    }
}

/// The end of the run of digits of `chars` that begins at `from`.
fn scan_digits_end(chars: &Vec<char>, from: usize) -> (end: usize)
    requires
        from <= chars.len(),
    ensures
        end == digits_end(chars@, from as int),
        from <= end <= chars.len(),
{
    let mut i: usize = from;
    while i < chars.len() && chars[i] >= '0' && chars[i] <= '9'
        invariant
            from <= i <= chars.len(),
            digits_end(chars@, i as int) == digits_end(chars@, from as int),
        decreases chars.len() - i,
    {
        i += 1;
    }
    i
}

/// Whether `chars` is a decimal literal.
fn check_decimal(chars: &Vec<char>) -> (valid: bool)
    ensures
        valid == is_decimal(chars@),
{
    let n = chars.len();
    let whole: usize = if n > 0 && (chars[0] == '+' || chars[0] == '-') {
        1
    } else {
        0
    };
    let point = scan_digits_end(chars, whole);
    let has_point = point < n && chars[point] == '.';
    let exponent = if has_point {
        scan_digits_end(chars, point + 1)
    } else {
        point
    };
    let digits = if has_point {
        exponent - whole - 1
    } else {
        exponent - whole
    };
    if digits == 0 {
        return false;
    }
    if exponent == n {
        return true;
    }
    if chars[exponent] != 'e' && chars[exponent] != 'E' {
        return false;
    }
    let power = if exponent + 1 < n && (chars[exponent + 1] == '+' || chars[exponent + 1] == '-') {
        exponent + 2
    } else {
        exponent + 1
    };
    power < n && scan_digits_end(chars, power) == n
}

/// A decimal number, kept as the literal that wrote it.
#[derive(Debug, PartialEq, Eq)]
pub struct Decimal {
    text: String,
}

impl View for Decimal {
    type V = Seq<char>;

    closed spec fn view(&self) -> Seq<char> {
        self.text@
    }
}

impl Clone for Decimal {
    fn clone(&self) -> (copy: Decimal)
        ensures
            copy@ == self@,
    {
        proof {
            use_type_invariant(self);
        }
        Decimal { text: self.text.clone() }
    }
}

impl Decimal {
    #[verifier::type_invariant]
    spec fn well_formed(&self) -> bool {
        is_decimal(self.text@)
    }

    /// Reads a decimal number. A text that is no decimal literal is an
    /// invalid number, reported with the text.
    pub fn parse(text: &str) -> (result: Result<Decimal, Error>)
        ensures
            match decimal_of(text@) {
                Ok(literal) => result is Ok && result->Ok_0@ == literal,
                Err(e) => result is Err && result->Err_0@ == e,
            },
    {
        let chars = to_chars(text);
        if check_decimal(&chars) {
            Ok(Decimal { text: String::from_str(text) })
        } else {
            Err(Error::InvalidNumber(String::from_str(text)))
        }
    }

    /// The number zero.
    pub fn zero() -> (zero: Decimal)
        ensures
            zero@ == seq!['0'],
    {
        proof {
            reveal_strlit("0");
            lemma_single_digit('0');
        }
        let text = String::from_str("0");
        assert(text@ =~= seq!['0']);
        Decimal { text }
    }

    /// The number one.
    pub fn one() -> (one: Decimal)
        ensures
            one@ == seq!['1'],
    {
        proof {
            reveal_strlit("1");
            lemma_single_digit('1');
        }
        let text = String::from_str("1");
        assert(text@ =~= seq!['1']);
        Decimal { text }
    }

    /// The literal, as it was written: always a decimal literal.
    pub fn as_str(&self) -> (text: &str)
        ensures
            text@ == self@,
            is_decimal(text@),
    {
        proof {
            use_type_invariant(self);
        }
        self.text.as_str()
    }
}

/// One digit alone is a decimal literal.
proof fn lemma_single_digit(c: char)
    requires
        is_digit(c),
    ensures
        is_decimal(seq![c]),
{
    let s = seq![c];
    assert(s.len() == 1);
    assert(s[0] == c);
    assert(digits_end(s, 1) == 1);
    assert(digits_end(s, 0) == 1);
}

} // verus!
