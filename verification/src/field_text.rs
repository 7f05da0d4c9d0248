//! The text in which a field element is printed, `Fq(0x...)`, and the decimal
//! number that it stands for.

use crate::decimal::nat_decimal;
use vstd::prelude::*;
use vstd::slice::slice_subrange;
use vstd::string::*;

verus! {

/// The number of bytes before the hexadecimal digits: `Fq(0x`.
pub const FIELD_TEXT_PREFIX_BYTES: usize = 5;

/// Whether `byte` is an ASCII hexadecimal digit, in either case.
pub open spec fn is_hex_digit(byte: u8) -> bool {
    0x30 <= byte <= 0x39 || 0x61 <= byte <= 0x66 || 0x41 <= byte <= 0x46
}

/// The number that the hexadecimal digit `byte` stands for.
pub open spec fn hex_digit_value(byte: u8) -> nat
    recommends
        is_hex_digit(byte),
{
    if byte <= 0x39 {
        (byte - 0x30) as nat
    } else if byte >= 0x61 {
        (byte - 0x61 + 10) as nat
    } else {
        (byte - 0x41 + 10) as nat
    }
}

/// Whether `byte` is the underscore that may separate digits.
pub open spec fn is_separator(byte: u8) -> bool {
    byte == 0x5f
}

/// The number that hexadecimal digits denote, separators passed over.
pub open spec fn hex_value(text: Seq<u8>) -> nat
    decreases text.len(),
{
    if text.len() == 0 {
        0
    } else if is_separator(text.last()) {
        hex_value(text.drop_last())
    } else {
        hex_value(text.drop_last()) * 16 + hex_digit_value(text.last())
    }
}

/// Whether every byte of `text` is a hexadecimal digit or a separator.
pub open spec fn all_hex_digits(text: Seq<u8>) -> bool {
    forall|i: int| 0 <= i < text.len() ==> is_hex_digit(#[trigger] text[i]) || is_separator(text[i])
}

/// The number that a hexadecimal text denotes: an optional plus sign, then
/// a digit, then digits and separators; `None` for any other text.
pub open spec fn hex_number(text: Seq<u8>) -> Option<nat> {
    let body = if text.len() > 0 && text[0] == 0x2b {
        text.skip(1)
    } else {
        text
    };
    if body.len() > 0 && !is_separator(body[0]) && all_hex_digits(body) {
        Some(hex_value(body))
    } else {
        None
    }
}

/// Whether `byte` can only stand inside the encoding of a character, so
/// that no text can be cut before it.
pub open spec fn is_inner_byte(byte: u8) -> bool {
    0x80 <= byte <= 0xbf
}

/// The decimal digits of the number between the first five bytes and the
/// last byte of a printed field element. There is none where the text is
/// shorter than six bytes, cannot be cut before its last byte, or holds no
/// hexadecimal number in between.
pub open spec fn field_text_decimal(text: Seq<u8>) -> Option<Seq<char>> {
    if text.len() <= FIELD_TEXT_PREFIX_BYTES || is_inner_byte(text.last()) {
        None
    } else {
        match hex_number(text.subrange(FIELD_TEXT_PREFIX_BYTES as int, text.len() - 1)) {
            Some(value) => Some(nat_decimal(value)),
            None => None,
        }
    }
}

/// Calls `num_bigint::BigUint::parse_bytes` with radix 16 and writes the
/// number with its `Display`. The first accepts an optional plus sign before
/// digits of either case, which underscores may separate but not lead; the
/// second writes decimal digits without leading zeros.
#[verifier::external_body]
fn hex_to_decimal(hex: &[u8]) -> (decimal: Option<String>)
    ensures
        match decimal {
            Some(digits) => hex_number(hex@) is Some && digits@ == nat_decimal(hex_number(hex@)->0),
            None => hex_number(hex@) is None,
        },
{
    match num_bigint::BigUint::parse_bytes(hex, 16) {
        Some(value) => Some(value.to_string()),
        None => None,
    }
}

/// Turns a printed field element, such as `Fq(0x24fc...70c3)`, into the
/// decimal digits of its number.
pub fn extract_decimal_from_string(s: &str) -> (decimal: Option<String>)
    ensures
        match decimal {
            Some(digits) => field_text_decimal(s.spec_bytes()) == Some(digits@),
            None => field_text_decimal(s.spec_bytes()) is None,
        },
{
    let text = s.as_bytes();
    let len = text.len();
    if len <= FIELD_TEXT_PREFIX_BYTES {
        return None;
    }
    let last = text[len - 1];
    if 0x80 <= last && last <= 0xbf {
        return None;
    }
    hex_to_decimal(slice_subrange(text, FIELD_TEXT_PREFIX_BYTES, len - 1))
}

} // verus!
