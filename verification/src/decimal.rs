//! Decimal text: how an integer is written, and what number a text denotes.

use vstd::prelude::*;
use vstd::string::*;

verus! {

/// The character that stands for the digit `d`.
pub open spec fn decimal_digit(d: nat) -> char {
    if d == 0 {
        '0'
    } else if d == 1 {
        '1'
    } else if d == 2 {
        '2'
    } else if d == 3 {
        '3'
    } else if d == 4 {
        '4'
    } else if d == 5 {
        '5'
    } else if d == 6 {
        '6'
    } else if d == 7 {
        '7'
    } else if d == 8 {
        '8'
    } else {
        '9'
    }
}

/// The decimal digits of `n`, most significant first, without leading zeros.
pub open spec fn nat_decimal(n: nat) -> Seq<char>
    decreases n,
{
    if n < 10 {
        seq![decimal_digit(n)]
    } else {
        nat_decimal(n / 10).push(decimal_digit(n % 10))
    }
}

/// The decimal text of `i`: a minus sign before the digits of a negative
/// number.
pub open spec fn int_decimal(i: int) -> Seq<char> {
    if i < 0 {
        seq!['-'] + nat_decimal((-i) as nat)
    } else {
        nat_decimal(i as nat)
    }
}

/// Whether `byte` is one of the ten ASCII decimal digits.
pub open spec fn is_decimal_digit(byte: u8) -> bool {
    0x30 <= byte <= 0x39
}

/// The number that the digit `byte` stands for, zero for any other byte.
pub open spec fn digit_value(byte: u8) -> nat {
    if is_decimal_digit(byte) {
        (byte - 0x30) as nat
    } else {
        0
    }
}

/// The number that a text of decimal digits denotes.
pub open spec fn decimal_value(digits: Seq<u8>) -> nat
    decreases digits.len(),
{
    if digits.len() == 0 {
        0
    } else {
        decimal_value(digits.drop_last()) * 10 + digit_value(digits.last())
    }
}

/// Whether every byte of `text` is a decimal digit.
pub open spec fn all_decimal_digits(text: Seq<u8>) -> bool {
    forall|i: int| 0 <= i < text.len() ==> is_decimal_digit(#[trigger] text[i])
}

/// The unsigned 32-bit number that `text` denotes: an optional plus sign,
/// then at least one digit and nothing else, with a value that fits.
pub open spec fn parse_u32_spec(text: Seq<u8>) -> Option<u32> {
    let digits = if text.len() > 0 && text[0] == 0x2b {
        text.skip(1)
    } else {
        text
    };
    if digits.len() > 0 && all_decimal_digits(digits) && decimal_value(digits) <= u32::MAX {
        Some(decimal_value(digits) as u32)
    } else {
        None
    }
}

/// A text denotes at least what any of its beginnings denotes.
pub proof fn lemma_decimal_value_grows(digits: Seq<u8>, n: int)
    requires
        0 <= n <= digits.len(),
    ensures
        decimal_value(digits.take(n)) <= decimal_value(digits),
    decreases digits.len(),
{
    if n == digits.len() {
        assert(digits.take(n) =~= digits);
    } else {
        lemma_decimal_value_grows(digits.drop_last(), n);
        assert(digits.drop_last().take(n) =~= digits.take(n));
    }
}

/// The one-character text of the digit `d`.
pub fn digit_text(d: u8) -> (text: &'static str)
    requires
        d < 10,
    ensures
        text@ == seq![decimal_digit(d as nat)],
{
    proof {
        reveal_strlit("0");
        reveal_strlit("1");
        reveal_strlit("2");
        reveal_strlit("3");
        reveal_strlit("4");
        reveal_strlit("5");
        reveal_strlit("6");
        reveal_strlit("7");
        reveal_strlit("8");
        reveal_strlit("9");
    }
    let text = match d {
        0 => "0",
        1 => "1",
        2 => "2",
        3 => "3",
        4 => "4",
        5 => "5",
        6 => "6",
        7 => "7",
        8 => "8",
        _ => "9",
    };
    assert(text@ =~= seq![decimal_digit(d as nat)]);
    text
}

/// Writes `n` in decimal.
pub fn u64_to_decimal(n: u64) -> (text: String)
    ensures
        text@ == nat_decimal(n as nat),
    decreases n,
{
    if n < 10 {
        String::from_str(digit_text(n as u8))
    } else {
        let mut text = u64_to_decimal(n / 10);
        text.append(digit_text((n % 10) as u8));
        assert(text@ =~= nat_decimal(n as nat));
        text
    }
}

/// Writes `i` in decimal, with a minus sign if it is negative.
pub fn i32_to_decimal(i: i32) -> (text: String)
    ensures
        text@ == int_decimal(i as int),
{
    if i < 0 {
        proof {
            reveal_strlit("-");
        }
        let magnitude: u64 = (-(i as i64)) as u64;
        let digits = u64_to_decimal(magnitude);
        let text = String::from_str("-").concat(digits.as_str());
        assert(text@ =~= int_decimal(i as int));
        text
    } else {
        u64_to_decimal(i as u64)
    }
}

/// Reads an unsigned 32-bit number from `text`, as `parse_u32_spec` says.
pub fn parse_u32(text: &[u8]) -> (number: Option<u32>)
    ensures
        number == parse_u32_spec(text@),
{
    let len = text.len();
    let start: usize = if len > 0 && text[0] == 0x2b {
        1
    } else {
        0
    };
    let ghost digits = text@.skip(start as int);
    assert(text@.skip(0) =~= text@);
    if start == len {
        return None;
    }
    let mut value: u32 = 0;
    let mut i: usize = start;
    while i < len
        invariant
            start <= i <= len,
            start <= 1,
            start < len,
            (text@.len() > 0 && text@[0] == 0x2b) <==> start == 1,
            len == text@.len(),
            digits == text@.skip(start as int),
            start == 0 ==> digits == text@,
            all_decimal_digits(digits.take(i - start)),
            value == decimal_value(digits.take(i - start)),
        decreases len - i,
    {
        let byte = text[i];
        assert(byte == digits[i - start]);
        assert(digits.take(i - start + 1).drop_last() =~= digits.take(i - start));
        assert(digits.take(i - start + 1).last() == byte);
        if byte < 0x30 || byte > 0x39 {
            assert(!all_decimal_digits(digits));
            return None;
        }
        let next: u64 = value as u64 * 10 + (byte - 0x30) as u64;
        assert(next == decimal_value(digits.take(i - start + 1)));
        if next > u32::MAX as u64 {
            proof {
                lemma_decimal_value_grows(digits, i - start + 1);
            }
            return None;
        }
        value = next as u32;
        i += 1;
        assert forall|j: int| 0 <= j < i - start implies is_decimal_digit(
            #[trigger] digits.take(i - start)[j],
        ) by {
            if j < i - start - 1 {
                assert(digits.take(i - start)[j] == digits.take(i - start - 1)[j]);
            }
        }
    }
    assert(digits.take(len - start) =~= digits);
    Some(value)
}

} // verus!
