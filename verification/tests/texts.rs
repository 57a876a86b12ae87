use ever_send::address::Address;
use ever_send::bytes::{array_32, array_64};
use ever_send::decimal;
use ever_send::text::ascii_string;

#[test]
fn decimal_formats_canonically() {
    assert_eq!(decimal::format(0), b"0");
    assert_eq!(decimal::format(7), b"7");
    assert_eq!(decimal::format(10), b"10");
    assert_eq!(decimal::format(-1), b"-1");
    assert_eq!(decimal::format(1_000_000), b"1000000");
    assert_eq!(decimal::format(i32::MAX), b"2147483647");
    assert_eq!(decimal::format(i32::MIN), b"-2147483648");
}

#[test]
fn decimal_parses_signs_and_leading_zeros() {
    assert_eq!(decimal::parse(b"0"), Some(0));
    assert_eq!(decimal::parse(b"-0"), Some(0));
    assert_eq!(decimal::parse(b"+0"), Some(0));
    assert_eq!(decimal::parse(b"0012"), Some(12));
    assert_eq!(decimal::parse(b"+12"), Some(12));
    assert_eq!(decimal::parse(b"-12"), Some(-12));
    assert_eq!(decimal::parse(b"2147483647"), Some(i32::MAX));
    assert_eq!(decimal::parse(b"-2147483648"), Some(i32::MIN));
    assert_eq!(decimal::parse(b"000000000000000000002147483647"), Some(i32::MAX));
}

#[test]
fn decimal_rejects_everything_else() {
    let cases: [&[u8]; 12] = [
        b"", b"-", b"+", b"--1", b"+-1", b"1-", b"1 ", b" 1", b"1a", b"2147483648", b"-2147483649",
        b"99999999999999999999999999",
    ];
    for text in cases {
        assert_eq!(decimal::parse(text), None, "{:?}", std::str::from_utf8(text));
    }
}

#[test]
fn decimal_agrees_with_the_standard_parser() {
    for text in ["5", "-5", "+5", "05", "", "-", "4294967296", "-2147483648", "2147483648", "١"] {
        assert_eq!(decimal::parse(text.as_bytes()), text.parse::<i32>().ok(), "{text:?}");
    }
    for n in [i32::MIN, -100, -9, 0, 9, 99, 100, 12345, i32::MAX] {
        assert_eq!(decimal::format(n), n.to_string().into_bytes());
        assert_eq!(decimal::parse(&decimal::format(n)), Some(n));
    }
}

#[test]
fn ascii_string_spells_the_bytes() {
    assert_eq!(ascii_string(b""), "");
    assert_eq!(ascii_string(b"0:ab\x7f"), "0:ab\u{7f}");
}

#[test]
fn array_32_copies() {
    let bytes: Vec<u8> = (0..32).collect();
    let copy = array_32(&bytes);
    assert_eq!(copy.to_vec(), bytes);
    let bytes: Vec<u8> = (100..164).collect();
    assert_eq!(array_64(&bytes).to_vec(), bytes);
}

#[test]
fn address_bytes_and_text_agree() {
    let address = Address { workchain: -1, hash: [0xa5; 32] };
    assert_eq!(address.to_bytes(), address.to_string().into_bytes());
    assert_eq!(Address::parse(&address.to_bytes()), Some(address));
    assert_eq!(Address::parse(b"-1:a5"), None);
}
