//! The ways in which an operation on a vector fails, and what each says.
use vstd::prelude::*;
use vstd::string::*;
use crate::decimal::{decimal_text, push_decimal};

verus! {

/// A failure. Each ends the operation that met it; none is recovered from.
#[derive(Debug, PartialEq, Eq)]
pub enum VectorError {
    /// The literal is not the text of an array of numbers. `detail` is what
    /// the parser said of it.
    Parse { detail: String },
    /// A type modifier was given with `found` parameters instead of one.
    ModifierArity { found: usize },
    /// The parameter of a type modifier is not a number from 1 to 65535.
    ModifierRange,
    /// A literal holds `found` elements, more than a dimension can say.
    DimensionTooLarge { found: usize },
    /// A vector of `found` elements stood where `expected` were required.
    DimensionMismatch { expected: usize, found: usize },
}

impl VectorError {
    /// The text of `message`.
    pub open spec fn message_text(self) -> Seq<char> {
        match self {
            VectorError::Parse { detail } => "failed to deserialize the input string due to error "@
                + detail@,
            VectorError::ModifierArity { found } => "wrong number of modifiers, expect 1, found "@
                + decimal_text(found as nat),
            VectorError::ModifierRange =>
                "invalid dimension value, expect a number in range [1, 65535]"@,
            VectorError::DimensionTooLarge { found } => "this vector's dimension ["@
                + decimal_text(found as nat) + "] is too large"@,
            VectorError::DimensionMismatch { expected, found } => "mismatched dimension, expected "@
                + decimal_text(expected as nat) + ", found "@ + decimal_text(found as nat),
        }
    }

    /// What to tell the user. Where numbers were compared, the message holds
    /// them.
    pub fn message(&self) -> (text: String)
        ensures
            text@ == self.message_text(),
    {
        match self {
            VectorError::Parse { detail } => {
                let mut text = String::from_str(
                    "failed to deserialize the input string due to error ",
                );
                text.append(detail.as_str());
                text
            },
            VectorError::ModifierArity { found } => {
                let mut text = String::from_str("wrong number of modifiers, expect 1, found ");
                push_decimal(&mut text, *found as u64);
                text
            },
            VectorError::ModifierRange => {
                String::from_str("invalid dimension value, expect a number in range [1, 65535]")
            },
            VectorError::DimensionTooLarge { found } => {
                let mut text = String::from_str("this vector's dimension [");
                push_decimal(&mut text, *found as u64);
                text.append("] is too large");
                text
            },
            VectorError::DimensionMismatch { expected, found } => {
                let mut text = String::from_str("mismatched dimension, expected ");
                push_decimal(&mut text, *expected as u64);
                text.append(", found ");
                push_decimal(&mut text, *found as u64);
                text
            },
        }
    }
}

} // verus!
