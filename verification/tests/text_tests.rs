use rtp_pattern_server::text::{append_decimal, decimal_string};

#[test]
fn decimal_string_of_single_digits() {
    assert_eq!(decimal_string(0), "0");
    assert_eq!(decimal_string(7), "7");
    assert_eq!(decimal_string(9), "9");
}

#[test]
fn decimal_string_of_longer_values() {
    assert_eq!(decimal_string(10), "10");
    assert_eq!(decimal_string(100), "100");
    assert_eq!(decimal_string(5000), "5000");
    assert_eq!(decimal_string(5001), "5001");
    assert_eq!(decimal_string(40_404), "40404");
    assert_eq!(decimal_string(65_535), "65535");
}

#[test]
fn decimal_string_agrees_with_the_standard_rendering() {
    for value in 0..=u16::MAX {
        assert_eq!(decimal_string(value), format!("{}", value));
    }
}

#[test]
fn append_decimal_keeps_what_was_there() {
    let mut text = String::from("port=");
    append_decimal(&mut text, 5002);
    assert_eq!(text, "port=5002");
    append_decimal(&mut text, 0);
    assert_eq!(text, "port=50020");
}
