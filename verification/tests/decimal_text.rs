//! The decimal renderer and the token parser on edge inputs.

use grocery_backend::decimal::i64_to_string;
use grocery_backend::decimal::parse_i64_str;

#[test]
fn renders_decimal_values() {
    assert_eq!("0", i64_to_string(0));
    assert_eq!("7", i64_to_string(7));
    assert_eq!("999", i64_to_string(999));
    assert_eq!("-5", i64_to_string(-5));
    assert_eq!("1000", i64_to_string(1000));
    assert_eq!("9223372036854775807", i64_to_string(i64::MAX));
    assert_eq!("-9223372036854775808", i64_to_string(i64::MIN));
}

#[test]
fn parses_plain_and_signed_integers() {
    assert_eq!(Some(123), parse_i64_str("123"));
    assert_eq!(Some(123), parse_i64_str("+123"));
    assert_eq!(Some(-123), parse_i64_str("-123"));
    assert_eq!(Some(0), parse_i64_str("0"));
    assert_eq!(Some(0), parse_i64_str("-0"));
    assert_eq!(Some(12), parse_i64_str("0012"));
}

#[test]
fn parses_the_64_bit_boundaries() {
    assert_eq!(Some(i64::MAX), parse_i64_str("9223372036854775807"));
    assert_eq!(None, parse_i64_str("9223372036854775808"));
    assert_eq!(Some(i64::MIN), parse_i64_str("-9223372036854775808"));
    assert_eq!(None, parse_i64_str("-9223372036854775809"));
    assert_eq!(None, parse_i64_str("99999999999999999999999999"));
}

#[test]
fn rejects_malformed_tokens() {
    assert_eq!(None, parse_i64_str(""));
    assert_eq!(None, parse_i64_str("+"));
    assert_eq!(None, parse_i64_str("-"));
    assert_eq!(None, parse_i64_str("12a3"));
    assert_eq!(None, parse_i64_str(" 12"));
    assert_eq!(None, parse_i64_str("12 "));
    assert_eq!(None, parse_i64_str("--12"));
    assert_eq!(None, parse_i64_str("one"));
}

/// The parser agrees with the standard library's.
#[test]
fn agrees_with_std_parse() {
    let samples = [
        "", "0", "-0", "+0", "123", "-123", "+123", "0012", "12a3", " 12",
        "9223372036854775807", "9223372036854775808", "-9223372036854775808",
        "-9223372036854775809", "999999999999999999999999", "x", "+-1", "1-1",
    ];
    for s in samples {
        assert_eq!(s.parse::<i64>().ok(), parse_i64_str(s), "input {:?}", s);
    }
}
