//! Tests for decimal parsing and integer formatting.

use rustyocean::decimal::FixedDec;
use rustyocean::decimal::parse_decimal;
use rustyocean::decimal::u64_to_string;

#[test]
fn parse_plain_decimal() {
    assert_eq!(parse_decimal("12.50"), Some(FixedDec { micro: 12_500_000 }));
}

#[test]
fn parse_integer_string() {
    assert_eq!(parse_decimal("42"), Some(FixedDec { micro: 42_000_000 }));
}

#[test]
fn parse_zero() {
    assert_eq!(parse_decimal("0"), Some(FixedDec { micro: 0 }));
}

#[test]
fn parse_negative() {
    assert_eq!(parse_decimal("-3.5"), Some(FixedDec { micro: -3_500_000 }));
}

#[test]
fn parse_negative_zero() {
    assert_eq!(parse_decimal("-0.0"), Some(FixedDec { micro: 0 }));
}

#[test]
fn parse_six_fraction_digits() {
    assert_eq!(parse_decimal("0.123456"), Some(FixedDec { micro: 123_456 }));
}

#[test]
fn parse_cuts_beyond_six_fraction_digits() {
    assert_eq!(parse_decimal("0.1234567"), Some(FixedDec { micro: 123_456 }));
}

#[test]
fn parse_leading_zeros() {
    assert_eq!(parse_decimal("00123.456789"), Some(FixedDec { micro: 123_456_789 }));
}

#[test]
fn parse_rejects_words() {
    assert_eq!(parse_decimal("not-a-number"), None);
}

#[test]
fn parse_rejects_empty() {
    assert_eq!(parse_decimal(""), None);
}

#[test]
fn parse_rejects_sign_alone() {
    assert_eq!(parse_decimal("-"), None);
}

#[test]
fn parse_rejects_trailing_dot() {
    assert_eq!(parse_decimal("1."), None);
}

#[test]
fn parse_rejects_leading_dot() {
    assert_eq!(parse_decimal(".5"), None);
}

#[test]
fn parse_rejects_second_dot() {
    assert_eq!(parse_decimal("1.2.3"), None);
}

#[test]
fn parse_rejects_plus_sign() {
    assert_eq!(parse_decimal("+5"), None);
}

#[test]
fn parse_rejects_exponent() {
    assert_eq!(parse_decimal("1e5"), None);
}

#[test]
fn parse_rejects_inner_space() {
    assert_eq!(parse_decimal("1 2"), None);
}

#[test]
fn parse_rejects_overflow() {
    assert_eq!(parse_decimal("99999999999999999999"), None);
}

#[test]
fn parse_rejects_value_just_past_i64_micro_range() {
    // i64::MAX is 9223372036854775807 micro, i.e. 9223372036854.775807
    assert_eq!(parse_decimal("9223372036854.775808"), None);
    assert_eq!(
        parse_decimal("9223372036854.775807"),
        Some(FixedDec { micro: i64::MAX })
    );
}

#[test]
fn parse_accepts_exact_i64_min_micro() {
    // i64::MIN is -9223372036854775808 micro, i.e. -9223372036854.775808
    assert_eq!(
        parse_decimal("-9223372036854.775808"),
        Some(FixedDec { micro: i64::MIN })
    );
    assert_eq!(parse_decimal("-9223372036854.775809"), None);
}

#[test]
fn format_zero() {
    assert_eq!(u64_to_string(0), "0");
}

#[test]
fn format_single_digit() {
    assert_eq!(u64_to_string(7), "7");
}

#[test]
fn format_round_number() {
    assert_eq!(u64_to_string(3600), "3600");
}

#[test]
fn format_large_number() {
    assert_eq!(u64_to_string(1234567890), "1234567890");
}

#[test]
fn format_u64_max() {
    assert_eq!(u64_to_string(u64::MAX), "18446744073709551615");
}
