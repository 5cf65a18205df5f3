//! The cosine distance of two vectors: everything about it but the
//! arithmetic.
//!
//! The distance is one minus the cosine of the angle between the operands.
//! The sums and the division are the work of a numeric kernel that the caller
//! brings. Decided here is whether the kernel may run at all, what the
//! distance is where the formula has no value, and that what leaves is a
//! number from zero to two:
//!
//! - operands of different lengths are refused, and the kernel never sees
//!   them;
//! - an operand whose elements are all zero has no direction, and its
//!   distance to anything is one, as if it stood at a right angle to it;
//! - where the kernel's arithmetic breaks down and yields no number, the
//!   distance is one as well;
//! - a result that rounding or overflow carried below zero or above two is
//!   brought back to the nearer end.
use vstd::prelude::*;
use crate::binary64::{
    holds_nan, holds_zero, in_unit_range, is_nan, is_negative, is_zero, lemma_number_zero,
    lemma_order_by_bits, lemma_unit_range_by_bits, number, ONE, SIGN, TWO, ZERO,
};
use crate::error::VectorError;
use crate::vector::Vector;

verus! {

/// What is to be done for a distance once the operands have been looked at.
#[derive(Debug, Clone, Copy, PartialEq, Eq)]
pub enum DistanceStep {
    /// The distance is known without arithmetic: these are its bits.
    Fixed(u64),
    /// The kernel is to compute on the operands, and its result is to be
    /// settled.
    Compute,
}

/// Whether every element of `elements` is zero. The vector without elements
/// is one such.
pub open spec fn is_zero_vector(elements: Seq<u64>) -> bool {
    forall|i: int| 0 <= i < elements.len() ==> is_zero(#[trigger] elements[i])
}

/// The step that the operands call for.
pub open spec fn planned(left: Seq<u64>, right: Seq<u64>) -> Result<DistanceStep, VectorError> {
    if left.len() != right.len() {
        Err(
            VectorError::DimensionMismatch {
                expected: left.len() as usize,
                found: right.len() as usize,
            },
        )
    } else if is_zero_vector(left) || is_zero_vector(right) {
        Ok(DistanceStep::Fixed(ONE))
    } else {
        Ok(DistanceStep::Compute)
    }
}

/// The distance that the kernel's result `raw` stands for.
pub open spec fn settled(raw: u64) -> u64 {
    if is_nan(raw) {
        ONE
    } else if is_negative(raw) {
        ZERO
    } else if raw > TWO {
        TWO
    } else {
        raw
    }
}

/// The distance of `left` and `right`, where `raw` is what the kernel
/// computes on them.
pub open spec fn distance(left: Seq<u64>, right: Seq<u64>, raw: u64) -> Result<u64, VectorError> {
    match planned(left, right) {
        Err(error) => Err(error),
        Ok(DistanceStep::Fixed(bits)) => Ok(bits),
        Ok(DistanceStep::Compute) => Ok(settled(raw)),
    }
}

/// Whether `vector` has no direction: whether all its elements are zero.
pub fn has_zero_magnitude(vector: &Vector) -> (yes: bool)
    ensures
        yes == is_zero_vector(vector@),
{
    let elements = vector.elements();
    let n: usize = elements.len();
    let mut i: usize = 0;
    while i < n
        invariant
            i <= n,
            n == elements@.len(),
            elements@ == vector@,
            forall|j: int| 0 <= j < i ==> is_zero(#[trigger] elements@[j]),
        decreases n - i,
    {
        if !holds_zero(elements[i]) {
            return false;
        }
        i = i + 1;
    }
    true
}

/// Looks at the operands and says what is to be done.
///
/// Operands of different lengths are refused with both lengths. Where one
/// operand has no direction the distance is fixed at one. Otherwise the
/// kernel is to compute.
pub fn plan_cosine_distance(left: &Vector, right: &Vector) -> (step: Result<
    DistanceStep,
    VectorError,
>)
    ensures
        step == planned(left@, right@),
{
    let expected: usize = left.dimension();
    let found: usize = right.dimension();
    if expected != found {
        Err(VectorError::DimensionMismatch { expected, found })
    } else if has_zero_magnitude(left) || has_zero_magnitude(right) {
        Ok(DistanceStep::Fixed(ONE))
    } else {
        Ok(DistanceStep::Compute)
    }
}

/// Turns what the kernel computed into the distance.
///
/// A result from zero to two is the distance. One that is no number becomes
/// one, one below zero becomes zero, and one above two becomes two. Zero
/// with the sign bit set becomes zero without it.
pub fn settle_cosine_distance(raw: u64) -> (bits: u64)
    ensures
        bits == settled(raw),
        in_unit_range(bits),
        in_unit_range(raw) ==> bits == raw,
{
    proof {
        lemma_unit_range_by_bits(raw);
        lemma_unit_range_by_bits(settled(raw));
    }
    if holds_nan(raw) {
        ONE
    } else if raw >= SIGN {
        ZERO
    } else if raw > TWO {
        TWO
    } else {
        raw
    }
}

/// The cosine distance of `left` and `right`, with the arithmetic done by
/// `kernel`.
///
/// The kernel is called at most once, and only on operands of one length of
/// which neither is all zero. It is handed the elements of `left` and of
/// `right`, in this order, and returns the bits of one minus their cosine
/// similarity.
pub fn cosine_distance(
    left: &Vector,
    right: &Vector,
    kernel: impl Fn(&Vec<u64>, &Vec<u64>) -> u64,
) -> (result: Result<u64, VectorError>)
    requires
        forall|l: &Vec<u64>, r: &Vec<u64>|
            l@ == left@ && r@ == right@ && l@.len() == r@.len() ==> call_requires(kernel, (l, r)),
    ensures
        match planned(left@, right@) {
            Err(error) => result == Err::<u64, VectorError>(error),
            Ok(DistanceStep::Fixed(bits)) => result == Ok::<u64, VectorError>(bits),
            Ok(DistanceStep::Compute) => exists|l: &Vec<u64>, r: &Vec<u64>, raw: u64|
                l@ == left@ && r@ == right@ && call_ensures(kernel, (l, r), raw) && result
                    == distance(left@, right@, raw),
        },
        result matches Ok(bits) ==> in_unit_range(bits),
{
    proof {
        lemma_unit_range_by_bits(ONE);
    }
    match plan_cosine_distance(left, right) {
        Err(error) => Err(error),
        Ok(DistanceStep::Fixed(bits)) => Ok(bits),
        Ok(DistanceStep::Compute) => {
            let l = left.elements();
            let r = right.elements();
            let raw: u64 = kernel(l, r);
            let bits: u64 = settle_cosine_distance(raw);
            assert(l@ == left@ && r@ == right@ && call_ensures(kernel, (l, r), raw) && Ok::<
                u64,
                VectorError,
            >(bits) == distance(left@, right@, raw));
            Ok(bits)
        },
    }
}

/// Whatever the kernel computes, a distance is a number from zero to two.
pub proof fn lemma_distance_in_unit_range(left: Seq<u64>, right: Seq<u64>, raw: u64)
    ensures
        distance(left, right, raw) matches Ok(bits) ==> in_unit_range(bits),
{
    lemma_unit_range_by_bits(ONE);
    lemma_unit_range_by_bits(settled(raw));
}

/// Settling keeps the order of what the kernel computed: of two results
/// that are numbers, the one that is not the larger stands for a distance
/// that is not the larger. Ranking by distance is ranking by the kernel's
/// results.
pub proof fn lemma_settling_keeps_order(a: u64, b: u64)
    requires
        !is_nan(a),
        !is_nan(b),
        number(a) <= number(b),
    ensures
        number(settled(a)) <= number(settled(b)),
        settled(a) <= settled(b),
{
    lemma_number_zero(a);
    lemma_number_zero(b);
    lemma_number_zero(ZERO);
    lemma_unit_range_by_bits(settled(a));
    lemma_unit_range_by_bits(settled(b));
    if !is_negative(a) && !is_negative(b) {
        lemma_order_by_bits(a, b);
    }
    lemma_order_by_bits(settled(a), settled(b));
}

/// Whether a distance is fixed or computed does not depend on the order of
/// the operands: exchanged, they are refused where they were refused, and
/// call for the same step where they were not. So the distance of operands
/// of one length is the same in either order wherever the kernel's result
/// is.
pub proof fn lemma_distance_symmetric_up_to_kernel(left: Seq<u64>, right: Seq<u64>, raw: u64)
    ensures
        planned(left, right) is Err <==> planned(right, left) is Err,
        planned(left, right) is Ok ==> planned(left, right) == planned(right, left),
        left.len() == right.len() ==> distance(left, right, raw) == distance(right, left, raw),
{
}

/// The distance of a vector to itself is never refused, and is computed
/// unless the vector is all zero.
pub proof fn lemma_self_distance_is_computed(v: Seq<u64>)
    ensures
        planned(v, v) == Ok::<DistanceStep, VectorError>(
            if is_zero_vector(v) {
                DistanceStep::Fixed(ONE)
            } else {
                DistanceStep::Compute
            },
        ),
{
}

} // verus!
