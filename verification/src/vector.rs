//! The vector value, and the checks that hold its length to a declared
//! dimension.
//!
//! An element is kept as the 64 bits of a double-precision number, so that a
//! vector can be carried, compared and handed back without any arithmetic on
//! its elements.
use vstd::prelude::*;
use crate::error::VectorError;
use crate::modifier::{is_dimension, is_known, is_modifier, UNCONSTRAINED, MAX_DIMENSION};

verus! {

/// A vector: its elements in order, each as the bits of a double.
///
/// Once made, a vector does not change: nothing here gives access to its
/// elements but for reading.
#[derive(Debug, PartialEq, Eq)]
pub struct Vector {
    value: Vec<u64>,
}

impl View for Vector {
    type V = Seq<u64>;

    closed spec fn view(&self) -> Seq<u64> {
        self.value@
    }
}

impl Vector {
    /// Whether the vector has a length that a modifier can declare.
    pub open spec fn has_dimension(&self) -> bool {
        is_dimension(self@.len() as int)
    }

    /// The vector of the elements `value`, whatever their number.
    pub fn new(value: Vec<u64>) -> (vector: Vector)
        ensures
            vector@ == value@,
    {
        Vector { value }
    }

    /// The elements.
    pub fn elements(&self) -> (value: &Vec<u64>)
        ensures
            value@ == self@,
    {
        &self.value
    }

    /// The elements, with the vector given up.
    pub fn into_elements(self) -> (value: Vec<u64>)
        ensures
            value@ == self@,
    {
        self.value
    }

    /// The number of elements.
    pub fn dimension(&self) -> (d: usize)
        ensures
            d == self@.len(),
    {
        self.value.len()
    }
}

/// What an operation that yields a vector came to, with the vector taken as
/// the sequence of its elements.
pub open spec fn outcome(result: Result<Vector, VectorError>) -> Result<Seq<u64>, VectorError> {
    match result {
        Ok(vector) => Ok(vector@),
        Err(error) => Err(error),
    }
}

/// The check of a vector against a required dimension: the same elements
/// where there are `dimension` of them, else the two numbers that differ.
pub open spec fn validated(elements: Seq<u64>, dimension: int) -> Result<Seq<u64>, VectorError> {
    if elements.len() == dimension {
        Ok(elements)
    } else {
        Err(
            VectorError::DimensionMismatch {
                expected: dimension as usize,
                found: elements.len() as usize,
            },
        )
    }
}

/// What a parsed literal becomes under the modifier `m`.
///
/// A literal that did not parse is refused with what the parser said. One of
/// more than 65535 elements is refused as too large. Under a modifier that
/// requires a dimension the elements are checked against it; under the open
/// modifier they are taken as they are.
pub open spec fn accepted(parsed: Result<Vec<u64>, String>, m: int) -> Result<
    Seq<u64>,
    VectorError,
> {
    match parsed {
        Err(detail) => Err(VectorError::Parse { detail }),
        Ok(elements) => if elements@.len() > 65535 {
            Err(VectorError::DimensionTooLarge { found: elements@.len() as usize })
        } else if is_known(m) {
            validated(elements@, m)
        } else {
            Ok(elements@)
        },
    }
}

/// Holds `vector` to the dimension that `type_modifier` requires.
///
/// The vector comes back untouched where its length is that dimension.
pub fn validate(vector: Vector, type_modifier: i32) -> (result: Result<Vector, VectorError>)
    requires
        is_dimension(type_modifier as int),
    ensures
        outcome(result) == validated(vector@, type_modifier as int),
        result matches Ok(kept) ==> kept.has_dimension() && kept@.len() == type_modifier,
{
    let found: usize = vector.value.len();
    let expected: usize = type_modifier as usize;
    if found != expected {
        Err(VectorError::DimensionMismatch { expected, found })
    } else {
        Ok(vector)
    }
}

/// Takes the elements that a literal parsed to, or the parser's complaint,
/// and makes the vector of a column or cast that carries `type_modifier`.
///
/// The dimension is checked only where the modifier requires one: under the
/// open modifier a vector of any length up to 65535 is taken, and is held to
/// a dimension later, by a cast.
pub fn vector_input(parsed: Result<Vec<u64>, String>, type_modifier: i32) -> (result: Result<
    Vector,
    VectorError,
>)
    requires
        is_modifier(type_modifier as int),
    ensures
        outcome(result) == accepted(parsed, type_modifier as int),
        result matches Ok(vector) ==> vector@.len() <= 65535 && (is_known(type_modifier as int)
            ==> vector@.len() == type_modifier),
{
    match parsed {
        Err(detail) => Err(VectorError::Parse { detail }),
        Ok(value) => {
            let found: usize = value.len();
            if found > MAX_DIMENSION {
                Err(VectorError::DimensionTooLarge { found })
            } else if type_modifier != UNCONSTRAINED {
                validate(Vector { value }, type_modifier)
            } else {
                Ok(Vector { value })
            }
        },
    }
}

/// Casts a vector to the vector type with the dimension `type_modifier`.
///
/// The cast changes nothing in the vector. It is where a vector that was
/// taken under the open modifier is held to a dimension: the check is made
/// whatever `_explicit` says. A cast to the length that the vector has
/// succeeds and gives the vector back as it was; any other fails, and the
/// failure holds the dimension asked for and the length found.
pub fn cast_vector_to_vector(vector: Vector, type_modifier: i32, _explicit: bool) -> (result: Result<
    Vector,
    VectorError,
>)
    requires
        is_dimension(type_modifier as int),
    ensures
        outcome(result) == validated(vector@, type_modifier as int),
        vector@.len() == type_modifier ==> outcome(result) == Ok::<Seq<u64>, VectorError>(
            vector@,
        ),
        vector@.len() != type_modifier ==> result == Err::<Vector, VectorError>(
            VectorError::DimensionMismatch {
                expected: type_modifier as usize,
                found: vector@.len() as usize,
            },
        ),
        result matches Ok(kept) ==> kept.has_dimension() && kept@.len() == type_modifier,
{
    validate(vector, type_modifier)
}

/// Checking late is checking all the same: a literal taken under the open
/// modifier and then cast to a dimension ends as the literal taken under
/// that dimension at once, with the same vector or the same failure.
pub proof fn lemma_cast_completes_open_input(parsed: Result<Vec<u64>, String>, dimension: int)
    requires
        is_dimension(dimension),
    ensures
        accepted(parsed, dimension) == match accepted(parsed, UNCONSTRAINED as int) {
            Ok(elements) => validated(elements, dimension),
            Err(error) => Err(error),
        },
{
}

/// Input adds nothing to a literal and takes nothing from it: elements that
/// parsed, no more of them than a dimension can say, become the vector of
/// exactly these elements, under the open modifier and under the modifier
/// that names their number.
pub proof fn lemma_input_keeps_elements(elements: Vec<u64>, m: int)
    requires
        elements@.len() <= 65535,
        !is_known(m) || m == elements@.len(),
    ensures
        accepted(Ok(elements), m) == Ok::<Seq<u64>, VectorError>(elements@),
{
}

} // verus!
