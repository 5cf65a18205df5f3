use pg_ivfflat::decimal::{decimal_string, parse_unsigned, push_decimal, push_integer};

#[test]
fn decimal_string_writes_the_digits() {
    assert_eq!(decimal_string(0), "0");
    assert_eq!(decimal_string(7), "7");
    assert_eq!(decimal_string(9), "9");
    assert_eq!(decimal_string(10), "10");
    assert_eq!(decimal_string(109), "109");
    assert_eq!(decimal_string(65535), "65535");
    assert_eq!(decimal_string(u64::MAX), "18446744073709551615");
}

#[test]
fn decimal_string_agrees_with_the_standard_formatter() {
    let mut n: u64 = 1;
    for _ in 0..64 {
        assert_eq!(decimal_string(n), n.to_string());
        assert_eq!(decimal_string(n - 1), (n - 1).to_string());
        n = n.wrapping_mul(2);
    }
}

#[test]
fn push_decimal_appends() {
    let mut text = String::from("n = ");
    push_decimal(&mut text, 42);
    assert_eq!(text, "n = 42");
    push_decimal(&mut text, 0);
    assert_eq!(text, "n = 420");
}

#[test]
fn push_integer_writes_the_sign() {
    let mut text = String::new();
    push_integer(&mut text, -1);
    assert_eq!(text, "-1");
    let mut text = String::from("[");
    push_integer(&mut text, i64::MIN);
    assert_eq!(text, "[-9223372036854775808");
    let mut text = String::new();
    push_integer(&mut text, i64::MAX);
    assert_eq!(text, "9223372036854775807");
    let mut text = String::new();
    push_integer(&mut text, 0);
    assert_eq!(text, "0");
}

#[test]
fn parse_unsigned_reads_up_to_the_limit() {
    assert_eq!(parse_unsigned("0", 10), Some(0));
    assert_eq!(parse_unsigned("10", 10), Some(10));
    assert_eq!(parse_unsigned("11", 10), None);
    assert_eq!(parse_unsigned("4294967295", u32::MAX), Some(u32::MAX));
    assert_eq!(parse_unsigned("4294967296", u32::MAX), None);
    assert_eq!(parse_unsigned("+12", 100), Some(12));
    assert_eq!(parse_unsigned("0000012", 100), Some(12));
    assert_eq!(parse_unsigned("5", 0), None);
    assert_eq!(parse_unsigned("0", 0), Some(0));
}

#[test]
fn parse_unsigned_refuses_other_text() {
    for text in ["", "+", "-1", "1-", "1+", "one", "1.5", " 1", "1 ", "\u{661}", "1\u{0}"] {
        assert_eq!(parse_unsigned(text, u32::MAX), None, "{:?}", text);
    }
}

#[test]
fn parse_unsigned_inverts_decimal_string() {
    for n in [0u32, 1, 9, 10, 11, 99, 100, 65535, 65536, 1_000_000, u32::MAX] {
        assert_eq!(parse_unsigned(&decimal_string(u64::from(n)), u32::MAX), Some(n));
    }
}
