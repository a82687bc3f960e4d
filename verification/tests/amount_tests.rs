use invoice_rs::amount::{format_amount, parse_amount};

#[test]
fn parse_plain_integer() {
    assert_eq!(parse_amount("0"), Some(0));
    assert_eq!(parse_amount("7"), Some(700));
    assert_eq!(parse_amount("42"), Some(4200));
}

#[test]
fn parse_two_decimals() {
    assert_eq!(parse_amount("999.00"), Some(99900));
    assert_eq!(parse_amount("12.34"), Some(1234));
    assert_eq!(parse_amount("0.05"), Some(5));
}

#[test]
fn parse_one_decimal() {
    assert_eq!(parse_amount("12.5"), Some(1250));
    assert_eq!(parse_amount("0.5"), Some(50));
}

#[test]
fn parse_negative() {
    assert_eq!(parse_amount("-3.75"), Some(-375));
    assert_eq!(parse_amount("-1"), Some(-100));
}

#[test]
fn parse_rejects_non_numeric() {
    assert_eq!(parse_amount("abc"), None);
    assert_eq!(parse_amount("12a"), None);
    assert_eq!(parse_amount("1 2"), None);
}

#[test]
fn parse_rejects_malformed() {
    assert_eq!(parse_amount(""), None);
    assert_eq!(parse_amount("-"), None);
    assert_eq!(parse_amount("."), None);
    assert_eq!(parse_amount(".5"), None);
    assert_eq!(parse_amount("5."), None);
    assert_eq!(parse_amount("1.234"), None);
    assert_eq!(parse_amount("1.2.3"), None);
    assert_eq!(parse_amount("--1"), None);
}

#[test]
fn parse_length_limits() {
    assert_eq!(parse_amount("999999999999999"), Some(99_999_999_999_999_900));
    assert_eq!(parse_amount("1000000000000000"), None);
}

#[test]
fn format_two_decimal_fixed() {
    assert_eq!(format_amount(99900), "999.00");
    assert_eq!(format_amount(0), "0.00");
    assert_eq!(format_amount(5), "0.05");
    assert_eq!(format_amount(1250), "12.50");
    assert_eq!(format_amount(-375), "-3.75");
}

#[test]
fn format_then_parse_round_trips() {
    for v in [0i64, 1, 99, 100, 99900, -375, 123_456_789] {
        assert_eq!(parse_amount(&format_amount(v)), Some(v));
    }
}
