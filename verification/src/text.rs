//! Reading the values of flags: unsigned decimal numbers and booleans.
//!
//! The conversions are those of the standard library. The verifier knows
//! nothing of them, so each stands behind a wrapper, and this file says in
//! full what the wrapper is trusted to return.

use vstd::prelude::*;

verus! {

/// Whether a character is one of the decimal digits `0` to `9`.
pub open spec fn is_digit(c: char) -> bool {
    '0' <= c <= '9'
}

/// Whether a text consists of decimal digits only.
pub open spec fn all_digits(text: Seq<char>) -> bool {
    forall|i: int| 0 <= i < text.len() ==> is_digit(#[trigger] text[i])
}

/// The number that a decimal digit denotes.
pub open spec fn digit_value(c: char) -> nat {
    (c as nat - '0' as nat) as nat
}

/// The number that a text of decimal digits denotes, most significant
/// digit first.
pub open spec fn digits_value(text: Seq<char>) -> nat
    decreases text.len(),
{
    if text.len() == 0 {
        0
    } else {
        digits_value(text.drop_last()) * 10 + digit_value(text.last())
    }
}

/// A text without the plus sign that may lead it.
pub open spec fn unsigned_part(text: Seq<char>) -> Seq<char> {
    if text.len() > 0 && text[0] == '+' {
        text.skip(1)
    } else {
        text
    }
}

/// What a text means as a weight: an optional plus sign, then at least one
/// decimal digit and nothing else, denoting a number that a `u8` can hold.
/// Any other text, the empty one and one with surrounding blanks included,
/// means nothing.
pub open spec fn decimal_u8(text: Seq<char>) -> Option<u8> {
    let digits = unsigned_part(text);
    if digits.len() > 0 && all_digits(digits) && digits_value(digits) <= u8::MAX {
        Some(digits_value(digits) as u8)
    } else {
        None
    }
}

/// What a text means as a flag: `true` and `false` mean themselves, and no
/// other text means anything.
pub open spec fn literal_bool(text: Seq<char>) -> Option<bool> {
    if text == "true"@ {
        Some(true)
    } else if text == "false"@ {
        Some(false)
    } else {
        None
    }
}

/// `str::parse::<u8>`, with the error dropped. The standard library
/// documents the accepted texts as an optional `+` followed by decimal
/// digits, with anything else, the empty text and a number that overflows
/// the type being errors; `decimal_u8` says the same.
#[verifier::external_body]
pub(crate) fn parse_u8(text: &str) -> (parsed: Option<u8>)
    ensures
        parsed == decimal_u8(text@),
{
    text.parse::<u8>().ok()
}

/// `str::parse::<bool>`, with the error dropped. The standard library
/// accepts the two texts `true` and `false` and nothing else.
#[verifier::external_body]
pub(crate) fn parse_bool(text: &str) -> (parsed: Option<bool>)
    ensures
        parsed == literal_bool(text@),
{
    text.parse::<bool>().ok()
}

} // verus!
