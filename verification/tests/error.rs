use pg_ivfflat::error::VectorError;

#[test]
fn message_of_a_parse_failure_holds_the_detail() {
    let error = VectorError::Parse { detail: String::from("expected value at line 1 column 1") };
    assert_eq!(
        error.message(),
        "failed to deserialize the input string due to error expected value at line 1 column 1"
    );
}

#[test]
fn message_of_a_wrong_arity_holds_the_count() {
    assert_eq!(
        VectorError::ModifierArity { found: 0 }.message(),
        "wrong number of modifiers, expect 1, found 0"
    );
    assert_eq!(
        VectorError::ModifierArity { found: 12 }.message(),
        "wrong number of modifiers, expect 1, found 12"
    );
}

#[test]
fn message_of_a_bad_modifier_names_the_range() {
    assert_eq!(
        VectorError::ModifierRange.message(),
        "invalid dimension value, expect a number in range [1, 65535]"
    );
}

#[test]
fn message_of_a_large_vector_holds_its_length() {
    assert_eq!(
        VectorError::DimensionTooLarge { found: 65536 }.message(),
        "this vector's dimension [65536] is too large"
    );
}

#[test]
fn message_of_a_mismatch_holds_both_numbers() {
    assert_eq!(
        VectorError::DimensionMismatch { expected: 2, found: 3 }.message(),
        "mismatched dimension, expected 2, found 3"
    );
    assert_eq!(
        VectorError::DimensionMismatch { expected: 65535, found: 0 }.message(),
        "mismatched dimension, expected 65535, found 0"
    );
}
