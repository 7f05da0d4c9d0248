use zkwasm::decimal::{digit_text, i32_to_decimal, parse_u32, u64_to_decimal};

#[test]
fn digits_are_written_one_by_one() {
    assert_eq!(digit_text(0), "0");
    assert_eq!(digit_text(7), "7");
    assert_eq!(digit_text(9), "9");
}

#[test]
fn numbers_are_written_without_leading_zeros() {
    assert_eq!(u64_to_decimal(0), "0");
    assert_eq!(u64_to_decimal(9), "9");
    assert_eq!(u64_to_decimal(10), "10");
    assert_eq!(u64_to_decimal(1234567890), "1234567890");
    assert_eq!(u64_to_decimal(u64::MAX), "18446744073709551615");
}

#[test]
fn negative_numbers_are_written_with_a_minus_sign() {
    assert_eq!(i32_to_decimal(0), "0");
    assert_eq!(i32_to_decimal(23), "23");
    assert_eq!(i32_to_decimal(-1), "-1");
    assert_eq!(i32_to_decimal(i32::MAX), "2147483647");
    assert_eq!(i32_to_decimal(i32::MIN), "-2147483648");
    for i in [-1000, -99, -10, 5, 100, 65536] {
        assert_eq!(i32_to_decimal(i), format!("{:?}", i));
    }
}

#[test]
fn digits_are_read_as_a_number() {
    assert_eq!(parse_u32(b"0"), Some(0));
    assert_eq!(parse_u32(b"22"), Some(22));
    assert_eq!(parse_u32(b"007"), Some(7));
    assert_eq!(parse_u32(b"+7"), Some(7));
    assert_eq!(parse_u32(b"4294967295"), Some(u32::MAX));
    assert_eq!(parse_u32(b"0000000000004294967295"), Some(u32::MAX));
}

#[test]
fn anything_but_digits_is_no_number() {
    assert_eq!(parse_u32(b""), None);
    assert_eq!(parse_u32(b"+"), None);
    assert_eq!(parse_u32(b"++7"), None);
    assert_eq!(parse_u32(b"-7"), None);
    assert_eq!(parse_u32(b"7 "), None);
    assert_eq!(parse_u32(b" 7"), None);
    assert_eq!(parse_u32(b"7_0"), None);
    assert_eq!(parse_u32(b"0x7"), None);
    assert_eq!(parse_u32(b"4294967296"), None);
    assert_eq!(parse_u32(b"99999999999999999999999"), None);
    assert_eq!(parse_u32(b"4294967296x"), None);
}

#[test]
fn reading_agrees_with_the_standard_parser() {
    for text in ["", "+", "1", "+1", "-1", "12a", "4294967295", "4294967296", "00", "1 ", "٣"] {
        assert_eq!(parse_u32(text.as_bytes()), text.parse::<u32>().ok());
    }
}
