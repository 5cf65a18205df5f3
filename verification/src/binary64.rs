//! Double-precision numbers read from their 64 bits.
//!
//! The topmost bit is the sign. The eleven bits below it are the exponent
//! field and the remaining fifty-two the fraction field. With the sign put
//! aside, the bits of the finite numbers lie below those of infinity, and the
//! bits of everything that is not a number lie above.
use vstd::prelude::*;
use vstd::arithmetic::power2::{
    lemma2_to64_rest, lemma_pow2_adds, lemma_pow2_pos, lemma_pow2_strictly_increases,
    lemma_pow2_unfold, pow2,
};

verus! {

/// The sign bit alone: the bits of negative zero.
pub const SIGN: u64 = 0x8000_0000_0000_0000;

/// The bits of positive infinity.
pub const INFINITY: u64 = 0x7ff0_0000_0000_0000;

/// The bits of positive zero.
pub const ZERO: u64 = 0;

/// The bits of the number one.
pub const ONE: u64 = 0x3ff0_0000_0000_0000;

/// The bits of the number two.
pub const TWO: u64 = 0x4000_0000_0000_0000;

/// Whether the sign bit of `bits` is set.
pub open spec fn is_negative(bits: u64) -> bool {
    bits >= SIGN
}

/// The bits without the sign: the bits of the absolute value.
pub open spec fn magnitude(bits: u64) -> u64 {
    if bits >= SIGN {
        (bits - SIGN) as u64
    } else {
        bits
    }
}

/// Whether `bits` holds no number.
pub open spec fn is_nan(bits: u64) -> bool {
    magnitude(bits) > INFINITY
}

/// Whether `bits` holds a number that is not infinite.
pub open spec fn is_finite(bits: u64) -> bool {
    magnitude(bits) < INFINITY
}

/// Whether `bits` holds zero, of either sign.
pub open spec fn is_zero(bits: u64) -> bool {
    magnitude(bits) == 0
}

/// The exponent field of `bits`.
pub open spec fn exponent(bits: u64) -> nat {
    (magnitude(bits) / 0x10_0000_0000_0000) as nat
}

/// The fraction field of `bits`.
pub open spec fn fraction(bits: u64) -> nat {
    (magnitude(bits) % 0x10_0000_0000_0000) as nat
}

/// The absolute value of the number that `bits` holds, counted in units of
/// two to the power of -1074, the smallest positive double. Every finite
/// double is a whole number of them. Infinity counts as the power of two
/// above every finite double.
pub open spec fn scaled(bits: u64) -> nat
    recommends
        !is_nan(bits),
{
    if exponent(bits) == 0 {
        fraction(bits)
    } else {
        (pow2(52) + fraction(bits)) * pow2((exponent(bits) - 1) as nat)
    }
}

/// The number that `bits` holds, in the units of `scaled`.
pub open spec fn number(bits: u64) -> int
    recommends
        !is_nan(bits),
{
    if is_negative(bits) {
        -(scaled(bits) as int)
    } else {
        scaled(bits) as int
    }
}

/// Whether `bits` holds a number from zero to two, both included, with the
/// sign bit clear.
pub open spec fn in_unit_range(bits: u64) -> bool {
    &&& !is_negative(bits)
    &&& is_finite(bits)
    &&& 0 <= number(bits) <= 2 * pow2(1074)
}

/// The number with the smaller bits, sign aside, has the smaller absolute
/// value.
pub proof fn lemma_scaled_increases(a: u64, b: u64)
    requires
        !is_nan(a),
        !is_nan(b),
        magnitude(a) < magnitude(b),
    ensures
        scaled(a) < scaled(b),
{
    lemma2_to64_rest();
    let ea = exponent(a);
    let eb = exponent(b);
    let fa = fraction(a);
    let fb = fraction(b);
    let unit = pow2(52);
    assert(unit == 0x10_0000_0000_0000);
    assert(fa < unit && fb < unit);
    assert(ea <= eb);
    if ea == eb {
        assert(fa < fb);
        if ea != 0 {
            let scale = pow2((ea - 1) as nat);
            lemma_pow2_pos((ea - 1) as nat);
            assert((unit + fa) * scale < (unit + fb) * scale) by (nonlinear_arith)
                requires
                    fa < fb,
                    scale > 0,
            ;
        }
    } else {
        let high = pow2((eb - 1) as nat);
        lemma_pow2_pos((eb - 1) as nat);
        assert(unit * high <= (unit + fb) * high) by (nonlinear_arith)
            requires
                high > 0,
                unit > 0,
        ;
        if ea == 0 {
            assert(unit * 1 <= unit * high) by (nonlinear_arith)
                requires
                    high >= 1,
                    unit > 0,
            ;
        } else {
            let low = pow2((ea - 1) as nat);
            lemma_pow2_pos((ea - 1) as nat);
            lemma_pow2_unfold(ea);
            assert(pow2(ea) <= high) by {
                if ea < eb - 1 {
                    lemma_pow2_strictly_increases(ea, (eb - 1) as nat);
                }
            }
            assert((unit + fa) * low < unit * (2 * low)) by (nonlinear_arith)
                requires
                    fa < unit,
                    low > 0,
            ;
            assert(unit * (2 * low) <= unit * high) by (nonlinear_arith)
                requires
                    2 * low <= high,
                    unit > 0,
            ;
        }
    }
}

/// One is `2^1074` units, and two is twice that.
pub proof fn lemma_scaled_one_and_two()
    ensures
        scaled(ZERO) == 0,
        scaled(ONE) == pow2(1074),
        scaled(TWO) == 2 * pow2(1074),
{
    lemma2_to64_rest();
    assert(exponent(ZERO) == 0 && fraction(ZERO) == 0);
    assert(exponent(ONE) == 1023 && fraction(ONE) == 0);
    assert(exponent(TWO) == 1024 && fraction(TWO) == 0);
    lemma_pow2_adds(52, 1022);
    lemma_pow2_adds(52, 1023);
    lemma_pow2_unfold(1075);
}

/// The numbers from zero to two are those whose bits are at most the bits
/// of two.
pub proof fn lemma_unit_range_by_bits(bits: u64)
    ensures
        in_unit_range(bits) <==> bits <= TWO,
{
    lemma_scaled_one_and_two();
    if bits < TWO {
        lemma_scaled_increases(bits, TWO);
    } else if TWO < bits && bits < INFINITY {
        lemma_scaled_increases(TWO, bits);
    }
}

/// Numbers without a sign are ordered as their bits are.
pub proof fn lemma_order_by_bits(a: u64, b: u64)
    requires
        !is_nan(a),
        !is_nan(b),
        !is_negative(a),
        !is_negative(b),
    ensures
        number(a) <= number(b) <==> a <= b,
{
    if a < b {
        lemma_scaled_increases(a, b);
    } else if b < a {
        lemma_scaled_increases(b, a);
    }
}

/// Only the two zeros hold the number zero, and the sign bit says on which
/// side of zero a number lies.
pub proof fn lemma_number_zero(bits: u64)
    requires
        !is_nan(bits),
    ensures
        number(bits) == 0 <==> is_zero(bits),
        is_negative(bits) ==> number(bits) <= 0,
        !is_negative(bits) ==> number(bits) >= 0,
{
    assert(exponent(ZERO) == 0 && fraction(ZERO) == 0);
    if magnitude(bits) > 0 {
        lemma_scaled_increases(ZERO, bits);
    } else {
        assert(exponent(bits) == 0 && fraction(bits) == 0);
    }
}

/// Whether `bits` holds no number.
pub fn holds_nan(bits: u64) -> (yes: bool)
    ensures
        yes == is_nan(bits),
{
    let magnitude: u64 = if bits >= SIGN {
        bits - SIGN
    } else {
        bits
    };
    magnitude > INFINITY
}

/// Whether `bits` holds zero, of either sign.
pub fn holds_zero(bits: u64) -> (yes: bool)
    ensures
        yes == is_zero(bits),
{
    bits == ZERO || bits == SIGN
}

} // verus!
