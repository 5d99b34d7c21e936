//! Text helpers: comparing strings, writing numbers and amounts, and
//! reading numbers.

use vstd::prelude::*;
use vstd::string::StringExecFns;

verus! {

/// `str`'s `==` holds exactly when both strings have the same characters.
pub assume_specification[ <str as PartialEq>::eq ](left: &str, right: &str) -> (same: bool)
    ensures
        same == (left@ == right@),
;

/// The character of a decimal digit.
pub open spec fn digit_char(digit: int) -> char {
    if digit == 0 {
        '0'
    } else if digit == 1 {
        '1'
    } else if digit == 2 {
        '2'
    } else if digit == 3 {
        '3'
    } else if digit == 4 {
        '4'
    } else if digit == 5 {
        '5'
    } else if digit == 6 {
        '6'
    } else if digit == 7 {
        '7'
    } else if digit == 8 {
        '8'
    } else {
        '9'
    }
}

/// The decimal digits of `n`, most significant first, without leading
/// zeros; a single `0` for zero.
pub open spec fn decimal(n: nat) -> Seq<char>
    decreases n,
{
    if n < 10 {
        seq![digit_char(n as int)]
    } else {
        decimal(n / 10).push(digit_char((n % 10) as int))
    }
}

/// An amount of cents written in dollars with two decimals, a minus sign
/// in front of a loss: `-0.05` for -5, `12.30` for 1230.
pub open spec fn dollars(cents: int) -> Seq<char> {
    let magnitude = if cents < 0 {
        -cents
    } else {
        cents
    };
    let sign = if cents < 0 {
        "-"@
    } else {
        ""@
    };
    sign + decimal((magnitude / 100) as nat) + "."@ + decimal((magnitude % 100 / 10) as nat)
        + decimal((magnitude % 10) as nat)
}

/// `u64`'s `to_string` writes the number in decimal, most significant
/// digit first, without sign or leading zeros.
#[verifier::external_body]
pub(crate) fn decimal_string(n: u64) -> (text: String)
    ensures
        text@ == decimal(n as nat),
{
    n.to_string()
}

/// Writes an amount of cents in dollars with two decimals.
pub fn dollars_string(cents: i64) -> (text: String)
    ensures
        text@ == dollars(cents as int),
{
    let negative = cents < 0;
    let magnitude: u64 = if cents == i64::MIN {
        9223372036854775808
    } else if negative {
        (-cents) as u64
    } else {
        cents as u64
    };
    let mut text = if negative {
        String::from_str("-")
    } else {
        String::from_str("")
    };
    let whole = decimal_string(magnitude / 100);
    let tens = decimal_string(magnitude % 100 / 10);
    let ones = decimal_string(magnitude % 10);
    text.append(whole.as_str());
    text.append(".");
    text.append(tens.as_str());
    text.append(ones.as_str());
    text
}

/// `c` is one of the ten decimal digits.
pub open spec fn is_digit(c: char) -> bool {
    '0' <= c && c <= '9'
}

/// The number that a sequence of decimal digits writes.
pub open spec fn digits_value(digits: Seq<char>) -> nat
    decreases digits.len(),
{
    if digits.len() == 0 {
        0
    } else {
        (digits_value(digits.drop_last()) * 10 + (digits.last() as u32 - '0' as u32)) as nat
    }
}

/// The number that `text` writes, if it is an optional `+` followed by one
/// or more decimal digits and nothing else, and the number fits 16 bits.
pub open spec fn parsed_u16(text: Seq<char>) -> Option<u16> {
    let digits = if text.len() > 0 && text[0] == '+' {
        text.subrange(1, text.len() as int)
    } else {
        text
    };
    if digits.len() > 0 && (forall|i: int| 0 <= i < digits.len() ==> is_digit(#[trigger] digits[i]))
        && digits_value(digits) <= u16::MAX {
        Some(digits_value(digits) as u16)
    } else {
        None
    }
}

/// `str::parse::<u16>` accepts an optional `+` followed by decimal digits
/// only, rejects the empty string, a lone sign, any other character and
/// any number above 65535, and yields the number written.
#[verifier::external_body]
pub(crate) fn parse_u16(text: &str) -> (number: Option<u16>)
    ensures
        number == parsed_u16(text@),
{
    text.parse::<u16>().ok()
}

/// The Unicode lower-case form of a text.
pub uninterp spec fn lowercase(text: Seq<char>) -> Seq<char>;

/// `str::to_lowercase` gives the lower-case form of the text, which
/// depends on the characters alone.
#[verifier::external_body]
pub(crate) fn to_lowercase(text: &str) -> (lowered: String)
    ensures
        lowered@ == lowercase(text@),
{
    text.to_lowercase()
}

} // verus!
