use funky::config::port_from;
use funky::text::{decimal_i64, parse_i64, parse_u16, to_hex};

#[test]
fn decimal_of_small_numbers() {
    assert_eq!(decimal_i64(0), "0");
    assert_eq!(decimal_i64(7), "7");
    assert_eq!(decimal_i64(42), "42");
    assert_eq!(decimal_i64(-42), "-42");
    assert_eq!(decimal_i64(1000), "1000");
}

#[test]
fn decimal_of_extremes() {
    assert_eq!(decimal_i64(i64::MAX), "9223372036854775807");
    assert_eq!(decimal_i64(i64::MIN), "-9223372036854775808");
}

#[test]
fn parse_i64_accepts_signed_digits() {
    assert_eq!(parse_i64("42"), Some(42));
    assert_eq!(parse_i64("+7"), Some(7));
    assert_eq!(parse_i64("-0"), Some(0));
    assert_eq!(parse_i64("-15"), Some(-15));
    assert_eq!(parse_i64("007"), Some(7));
}

#[test]
fn parse_i64_range_edges() {
    assert_eq!(parse_i64("9223372036854775807"), Some(i64::MAX));
    assert_eq!(parse_i64("9223372036854775808"), None);
    assert_eq!(parse_i64("-9223372036854775808"), Some(i64::MIN));
    assert_eq!(parse_i64("-9223372036854775809"), None);
    assert_eq!(parse_i64("123456789012345678901234567890"), None);
}

#[test]
fn parse_i64_rejects_malformed() {
    assert_eq!(parse_i64(""), None);
    assert_eq!(parse_i64("-"), None);
    assert_eq!(parse_i64("+"), None);
    assert_eq!(parse_i64("12a"), None);
    assert_eq!(parse_i64(" 1"), None);
    assert_eq!(parse_i64("+-1"), None);
    assert_eq!(parse_i64("٣"), None);
}

#[test]
fn parse_i64_agrees_with_std() {
    for s in ["0", "-1", "+12", "99999999999999999999", "x", "", "-", "1_0", "-9223372036854775808"] {
        assert_eq!(parse_i64(s), s.parse::<i64>().ok(), "{}", s);
    }
}

#[test]
fn decimal_reads_back() {
    for n in [0i64, 1, -1, 10, -99, 123456789, i64::MAX, i64::MIN] {
        assert_eq!(parse_i64(&decimal_i64(n)), Some(n));
    }
}

#[test]
fn parse_u16_bounds_and_signs() {
    assert_eq!(parse_u16("8080"), Some(8080));
    assert_eq!(parse_u16("+80"), Some(80));
    assert_eq!(parse_u16("65535"), Some(65535));
    assert_eq!(parse_u16("65536"), None);
    assert_eq!(parse_u16("-1"), None);
    assert_eq!(parse_u16("-0"), None);
    assert_eq!(parse_u16(""), None);
}

#[test]
fn port_defaults_to_8000() {
    assert_eq!(port_from(None), 8000);
    assert_eq!(port_from(Some("abc")), 8000);
    assert_eq!(port_from(Some("70000")), 8000);
    assert_eq!(port_from(Some("3000")), 3000);
}

#[test]
fn hex_two_digits_a_byte() {
    assert_eq!(to_hex(&[]), "");
    assert_eq!(to_hex(&[0x00, 0xff, 0x1a, 0x09]), "00ff1a09");
}
