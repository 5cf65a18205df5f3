use pg_ivfflat::error::VectorError;
use pg_ivfflat::modifier::{
    names_dimension, vector_modifier_input, vector_modifier_output, well_formed_modifier,
    MAX_DIMENSION, UNCONSTRAINED,
};

fn tokens(texts: &[&str]) -> Vec<String> {
    texts.iter().map(|t| t.to_string()).collect()
}

fn decode_one(text: &str) -> Result<i32, VectorError> {
    vector_modifier_input(&tokens(&[text]))
}

#[test]
fn decode_reads_the_single_token() {
    assert_eq!(decode_one("3"), Ok(3));
    assert_eq!(decode_one("1536"), Ok(1536));
}

#[test]
fn decode_accepts_both_ends_of_the_range() {
    assert_eq!(decode_one("1"), Ok(1));
    assert_eq!(decode_one("65535"), Ok(65535));
}

#[test]
fn decode_refuses_numbers_outside_the_range() {
    assert_eq!(decode_one("0"), Err(VectorError::ModifierRange));
    assert_eq!(decode_one("65536"), Err(VectorError::ModifierRange));
    assert_eq!(decode_one("70000"), Err(VectorError::ModifierRange));
    assert_eq!(decode_one("4294967296"), Err(VectorError::ModifierRange));
    assert_eq!(
        decode_one("99999999999999999999999999999999999999"),
        Err(VectorError::ModifierRange)
    );
    assert_eq!(decode_one("-1"), Err(VectorError::ModifierRange));
    assert_eq!(decode_one("-3"), Err(VectorError::ModifierRange));
}

#[test]
fn decode_refuses_what_is_not_a_number() {
    for text in ["", "+", "-", "abc", "3x", "x3", " 3", "3 ", "3.0", "1e2", "0x10", "1_000", "++3", "+-3"] {
        assert_eq!(decode_one(text), Err(VectorError::ModifierRange), "{:?}", text);
    }
}

#[test]
fn decode_refuses_digits_outside_ascii() {
    assert_eq!(decode_one("\u{ff13}"), Err(VectorError::ModifierRange));
    assert_eq!(decode_one("3\u{e9}"), Err(VectorError::ModifierRange));
    assert_eq!(decode_one("\u{0663}"), Err(VectorError::ModifierRange));
}

#[test]
fn decode_takes_a_leading_plus_and_leading_zeros() {
    assert_eq!(decode_one("+3"), Ok(3));
    assert_eq!(decode_one("007"), Ok(7));
    assert_eq!(decode_one("+00065535"), Ok(65535));
    assert_eq!(decode_one("0000000000000000000000000000000000001"), Ok(1));
    assert_eq!(decode_one("000"), Err(VectorError::ModifierRange));
}

#[test]
fn decode_agrees_with_the_standard_parser() {
    let samples = [
        "0", "1", "9", "10", "65534", "65535", "65536", "100000", "+1", "+0", "-0", "", "+", "a",
        "12a", "0012", " 1", "1 ", "1\n", "6553 5", "٣",
    ];
    for text in samples {
        let expected = match text.parse::<u16>() {
            Ok(d) if d >= 1 => Ok(i32::from(d)),
            _ => Err(VectorError::ModifierRange),
        };
        assert_eq!(decode_one(text), expected, "{:?}", text);
    }
}

#[test]
fn decode_wants_exactly_one_token() {
    assert_eq!(
        vector_modifier_input(&tokens(&[])),
        Err(VectorError::ModifierArity { found: 0 })
    );
    assert_eq!(
        vector_modifier_input(&tokens(&["3", "4"])),
        Err(VectorError::ModifierArity { found: 2 })
    );
    assert_eq!(
        vector_modifier_input(&tokens(&["x", "y", "z"])),
        Err(VectorError::ModifierArity { found: 3 })
    );
}

#[test]
fn encode_puts_the_number_in_parentheses() {
    assert_eq!(vector_modifier_output(3), "(3)");
    assert_eq!(vector_modifier_output(1), "(1)");
    assert_eq!(vector_modifier_output(10), "(10)");
    assert_eq!(vector_modifier_output(65535), "(65535)");
}

#[test]
fn encode_shows_any_integer() {
    assert_eq!(vector_modifier_output(UNCONSTRAINED), "(-1)");
    assert_eq!(vector_modifier_output(0), "(0)");
    assert_eq!(vector_modifier_output(i32::MAX), "(2147483647)");
    assert_eq!(vector_modifier_output(i32::MIN), "(-2147483648)");
    for m in [-100000, -10, -9, 7, 99, 100, 101, 123456789] {
        assert_eq!(vector_modifier_output(m), format!("({})", m));
    }
}

#[test]
fn modifier_round_trip_over_every_dimension() {
    for d in 1..=65535i32 {
        assert_eq!(decode_one(&d.to_string()), Ok(d));
        let shown = vector_modifier_output(d);
        assert_eq!(shown, format!("({})", d));
        assert_eq!(decode_one(&shown[1..shown.len() - 1]), Ok(d));
    }
}

#[test]
fn modifier_text_outside_the_range_is_refused() {
    for d in [0i64, 65536, 65537, 100000, 4294967295, 4294967297, -1, -65535] {
        assert_eq!(decode_one(&d.to_string()), Err(VectorError::ModifierRange));
    }
}

#[test]
fn modifier_predicates() {
    assert_eq!(UNCONSTRAINED, -1);
    assert_eq!(MAX_DIMENSION, 65535);
    assert!(well_formed_modifier(-1));
    assert!(well_formed_modifier(1));
    assert!(well_formed_modifier(65535));
    assert!(!well_formed_modifier(0));
    assert!(!well_formed_modifier(-2));
    assert!(!well_formed_modifier(65536));
    assert!(names_dimension(1));
    assert!(names_dimension(65535));
    assert!(!names_dimension(-1));
    assert!(!names_dimension(0));
    assert!(!names_dimension(65536));
}
