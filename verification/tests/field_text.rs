use pairing_ce::bn256::Fq;
use pairing_ce::ff::{Field, PrimeField};
use zkwasm::field_text::extract_decimal_from_string;

fn decimal(text: &str) -> Option<String> {
    extract_decimal_from_string(text)
}

#[test]
fn a_printed_field_element_gives_its_decimal_digits() {
    assert_eq!(
        decimal("Fq(0x24fc1e1c263a7de7abec5edaeea87625890c96a018bb8c60522333fa206f70c3)"),
        Some(String::from(
            "16728715820616582450594109459208172618408974327542441440317506932429837791427"
        ))
    );
}

#[test]
fn small_numbers_are_written_without_leading_zeros() {
    assert_eq!(decimal("Fq(0x0)"), Some(String::from("0")));
    assert_eq!(decimal("Fq(0x0000)"), Some(String::from("0")));
    assert_eq!(decimal("Fq(0x000a)"), Some(String::from("10")));
    assert_eq!(decimal("Fq(0xff)"), Some(String::from("255")));
    assert_eq!(decimal("Fq(0xFF)"), Some(String::from("255")));
    assert_eq!(decimal("Fq(0xfF)"), Some(String::from("255")));
    assert_eq!(decimal("Fq(0x10000000000000000)"), Some(String::from("18446744073709551616")));
}

#[test]
fn only_the_place_of_the_digits_counts() {
    assert_eq!(decimal("12345ff6"), Some(String::from("255")));
    assert_eq!(decimal("\u{e9}\u{e9}xff)"), Some(String::from("255")));
}

#[test]
fn a_sign_and_separators_are_passed_over() {
    assert_eq!(decimal("Fq(0x+ff)"), Some(String::from("255")));
    assert_eq!(decimal("Fq(0xf_f)"), Some(String::from("255")));
    assert_eq!(decimal("Fq(0xff_)"), Some(String::from("255")));
    assert_eq!(decimal("Fq(0x+f__f_)"), Some(String::from("255")));
}

#[test]
fn a_text_without_a_number_gives_nothing() {
    assert_eq!(decimal(""), None);
    assert_eq!(decimal("Fq(0x"), None);
    assert_eq!(decimal("Fq(0x)"), None);
    assert_eq!(decimal("Fq(0xg)"), None);
    assert_eq!(decimal("Fq(0x 1)"), None);
    assert_eq!(decimal("Fq(0x-1)"), None);
    assert_eq!(decimal("Fq(0x+)"), None);
    assert_eq!(decimal("Fq(0x++1)"), None);
    assert_eq!(decimal("Fq(0x_1)"), None);
    assert_eq!(decimal("Fq(0x+_1)"), None);
    assert_eq!(decimal("Fq(0x\u{e9})"), None);
    assert_eq!(decimal("Fq(0x1\u{e9}"), None);
    assert_eq!(decimal("Fq(0\u{e9}1)"), None);
}

#[test]
fn the_text_of_a_field_element_of_the_curve_library_is_understood() {
    assert_eq!(decimal(&Fq::zero().to_string()), Some(String::from("0")));
    assert_eq!(decimal(&Fq::one().to_string()), Some(String::from("1")));
    let modulus_minus_one = {
        let mut x = Fq::zero();
        x.sub_assign(&Fq::one());
        x
    };
    assert_eq!(
        decimal(&modulus_minus_one.to_string()),
        Some(String::from(
            "21888242871839275222246405745257275088696311157297823662689037894645226208582"
        ))
    );
    let seven = Fq::from_str("7").expect("a field element");
    assert_eq!(decimal(&seven.to_string()), Some(String::from("7")));
}
