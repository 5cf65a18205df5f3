//! The type modifier: the one integer that a column declaration or a cast
//! target carries, which says how many elements a vector must have.
use vstd::prelude::*;
use vstd::string::*;
use crate::decimal::{
    decimal_text, integer_text, is_digit, lemma_decimal_round_trip, parse_unsigned,
    parse_unsigned_spec, push_integer, unsigned_digits,
};
use crate::error::VectorError;

verus! {

/// The modifier of a declaration that names no dimension.
pub const UNCONSTRAINED: i32 = -1;

/// The largest dimension that a modifier can say.
pub const MAX_DIMENSION: usize = 65535;

/// Whether a vector may have `d` elements under a declared dimension.
pub open spec fn is_dimension(d: int) -> bool {
    1 <= d <= 65535
}

/// Whether `m` is a modifier at all: the one that leaves the dimension open,
/// or a dimension.
pub open spec fn is_modifier(m: int) -> bool {
    m == -1 || is_dimension(m)
}

/// Whether the modifier `m` requires a dimension.
pub open spec fn is_known(m: int) -> bool {
    m != -1
}

/// Whether `type_modifier` is a dimension.
pub fn names_dimension(type_modifier: i32) -> (yes: bool)
    ensures
        yes == is_dimension(type_modifier as int),
{
    1 <= type_modifier && type_modifier <= 65535
}

/// Whether `type_modifier` is the open modifier or a dimension.
pub fn well_formed_modifier(type_modifier: i32) -> (yes: bool)
    ensures
        yes == is_modifier(type_modifier as int),
{
    type_modifier == UNCONSTRAINED || names_dimension(type_modifier)
}

/// The texts of the parameters in `tokens`.
pub open spec fn token_texts(tokens: Seq<String>) -> Seq<Seq<char>> {
    Seq::new(tokens.len(), |i: int| tokens[i]@)
}

/// The modifier that the parameters `tokens` of a declaration stand for.
///
/// There must be exactly one parameter, and it must write a number from 1 to
/// 65535; that number is the modifier.
pub open spec fn decode(tokens: Seq<Seq<char>>) -> Result<i32, VectorError> {
    if tokens.len() != 1 {
        Err(VectorError::ModifierArity { found: tokens.len() as usize })
    } else {
        match parse_unsigned_spec(tokens[0], 65535) {
            Some(d) => if d >= 1 {
                Ok(d as i32)
            } else {
                Err(VectorError::ModifierRange)
            },
            None => Err(VectorError::ModifierRange),
        }
    }
}

/// How a modifier is shown: its number in parentheses.
pub open spec fn encode(m: int) -> Seq<char> {
    seq!['('] + integer_text(m) + seq![')']
}

/// Reads the parameters of a declaration into a modifier.
pub fn vector_modifier_input(tokens: &Vec<String>) -> (result: Result<i32, VectorError>)
    ensures
        result == decode(token_texts(tokens@)),
        result matches Ok(m) ==> is_dimension(m as int),
{
    if tokens.len() != 1 {
        return Err(VectorError::ModifierArity { found: tokens.len() });
    }
    match parse_unsigned(tokens[0].as_str(), 65535) {
        Some(d) => {
            if d >= 1 {
                Ok(d as i32)
            } else {
                Err(VectorError::ModifierRange)
            }
        },
        None => Err(VectorError::ModifierRange),
    }
}

/// Shows a modifier as it stands in a type's name.
pub fn vector_modifier_output(type_modifier: i32) -> (text: String)
    ensures
        text@ == encode(type_modifier as int),
{
    proof {
        reveal_strlit("(");
        reveal_strlit(")");
    }
    let mut text = String::from_str("(");
    push_integer(&mut text, type_modifier as i64);
    text.append(")");
    assert(text@ =~= encode(type_modifier as int));
    text
}

/// Reading the decimal text of a number as the one parameter gives that
/// number back where it is a dimension, and is refused as out of range
/// where it is not.
pub proof fn lemma_decode_inverts_text(d: nat)
    ensures
        decode(seq![decimal_text(d)]) == if is_dimension(d as int) {
            Ok::<i32, VectorError>(d as i32)
        } else {
            Err(VectorError::ModifierRange)
        },
{
    let text = decimal_text(d);
    lemma_decimal_round_trip(d);
    assert(is_digit(text[0]));
    assert(unsigned_digits(text) == text);
}

/// The text of a negative number is no parameter: it is refused as out of
/// range.
pub proof fn lemma_decode_refuses_negative(d: int)
    requires
        d < 0,
    ensures
        decode(seq![integer_text(d)]) == Err::<i32, VectorError>(VectorError::ModifierRange),
{
    let text = integer_text(d);
    lemma_decimal_round_trip((-d) as nat);
    assert(text[0] == '-');
    assert(unsigned_digits(text) == text);
    assert(!is_digit(text[0]));
}

/// Any number of parameters but one is refused, whatever they hold.
pub proof fn lemma_decode_arity(tokens: Seq<Seq<char>>)
    requires
        tokens.len() != 1,
    ensures
        decode(tokens) == Err::<i32, VectorError>(
            VectorError::ModifierArity { found: tokens.len() as usize },
        ),
{
}

/// A shown modifier is its number's text between two parentheses, so the
/// text inside them reads back as the modifier where it names a dimension.
pub proof fn lemma_encode_frames_text(m: int)
    requires
        is_dimension(m),
    ensures
        encode(m).len() >= 3,
        encode(m).first() == '(',
        encode(m).last() == ')',
        decode(seq![encode(m).subrange(1, encode(m).len() - 1)]) == Ok::<i32, VectorError>(
            m as i32,
        ),
{
    let inner = decimal_text(m as nat);
    lemma_decimal_round_trip(m as nat);
    lemma_decode_inverts_text(m as nat);
    assert(encode(m).subrange(1, encode(m).len() - 1) =~= inner);
}

} // verus!
