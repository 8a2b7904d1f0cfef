//! Money amounts.
//!
//! An amount is an IEEE-754 binary64 number, carried as its 64-bit pattern
//! (what `to_bits` gives for a double). Holding the pattern rather than a
//! machine float keeps every value a plain integer, so that two forecasts can
//! be compared bit for bit and the arithmetic gives the same result on every
//! platform.
//!
//! Sign, ordering and negation are decided here on the pattern itself, and
//! proved against the number that the pattern stands for. Rounded
//! arithmetic (sum, difference, product) is done by the `rustc_apfloat`
//! crate, a software implementation of IEEE-754 arithmetic that rounds to
//! nearest, ties to even; the three functions that call it are the only
//! unverified code in this module.
use rustc_apfloat::ieee::Double;
use rustc_apfloat::Float;
use vstd::prelude::*;
use vstd::arithmetic::mul::{
    lemma_mul_inequality, lemma_mul_left_inequality, lemma_mul_strict_inequality,
};
use vstd::arithmetic::power2::{
    lemma_pow2_pos, lemma_pow2_strictly_increases, lemma_pow2_unfold, pow2,
};

verus! {

/// `+0.0`.
pub const ZERO: u64 = 0;

/// `1.0`.
pub const ONE: u64 = 0x3FF0_0000_0000_0000;

/// The sign bit; alone it is the pattern of `-0.0`.
pub const SIGN_BIT: u64 = 0x8000_0000_0000_0000;

/// `+infinity`; every magnitude above it is a NaN.
pub const INFINITY: u64 = 0x7FF0_0000_0000_0000;

/// Two to the power 52: one more than the largest fraction field.
pub const FRACTION_RANGE: u64 = 0x0010_0000_0000_0000;

/// Whether the sign bit is set.
pub open spec fn spec_sign(a: u64) -> bool {
    a >= SIGN_BIT
}

/// The pattern with its sign bit cleared.
pub open spec fn spec_magnitude(a: u64) -> u64 {
    if a >= SIGN_BIT {
        (a - SIGN_BIT) as u64
    } else {
        a
    }
}

/// The exponent field: the eleven bits below the sign bit.
pub open spec fn spec_exponent(a: u64) -> nat {
    (spec_magnitude(a) / FRACTION_RANGE) as nat
}

/// The fraction field: the lowest 52 bits.
pub open spec fn spec_fraction(a: u64) -> nat {
    (spec_magnitude(a) % FRACTION_RANGE) as nat
}

/// Whether the pattern is a NaN: exponent all ones and a non-zero fraction.
pub open spec fn spec_is_nan(a: u64) -> bool {
    spec_exponent(a) == 2047 && spec_fraction(a) != 0
}

/// How far the amount is from zero, counted in the smallest amount above
/// zero (two to the power -1074). With exponent field `e` and fraction
/// field `f`, a pattern stands for `f` such units when `e` is 0 and for
/// `(2^52 + f) * 2^(e - 1)` of them otherwise. Infinity is given the size
/// that the same rule gives it, which is above that of every number.
pub open spec fn spec_size(a: u64) -> nat {
    if spec_exponent(a) == 0 {
        spec_fraction(a)
    } else {
        ((FRACTION_RANGE + spec_fraction(a)) * pow2((spec_exponent(a) - 1) as nat)) as nat
    }
}

/// The amount as a whole number of units of two to the power -1074.
pub open spec fn spec_value(a: u64) -> int {
    if spec_sign(a) {
        -(spec_size(a) as int)
    } else {
        spec_size(a) as int
    }
}

/// The pattern with its sign bit flipped.
pub open spec fn spec_negated(a: u64) -> u64 {
    if a >= SIGN_BIT {
        (a - SIGN_BIT) as u64
    } else {
        (a + SIGN_BIT) as u64
    }
}

/// Whether the amount is strictly below zero. Neither zero nor a NaN is.
pub open spec fn spec_is_negative(a: u64) -> bool {
    !spec_is_nan(a) && spec_value(a) < 0
}

/// Whether `a` is strictly below `b`. A NaN is below nothing and nothing is
/// below a NaN.
pub open spec fn spec_less_than(a: u64, b: u64) -> bool {
    !spec_is_nan(a) && !spec_is_nan(b) && spec_value(a) < spec_value(b)
}

/// Of two patterns with different exponent fields, the one with the
/// smaller field has the smaller size.
proof fn lemma_size_grows_with_exponent(a: u64, b: u64)
    requires
        spec_exponent(a) < spec_exponent(b),
    ensures
        spec_size(a) < spec_size(b),
{
    let range = FRACTION_RANGE as int;
    let lower = spec_exponent(a);
    let upper = spec_exponent(b);
    let whole = range + spec_fraction(b);
    let above = pow2((upper - 1) as nat);
    lemma_pow2_pos((upper - 1) as nat);
    // the larger one is at least 2^52 * 2^(upper - 1)
    lemma_mul_inequality(range, whole, above as int);
    if lower == 0 {
        lemma_mul_left_inequality(range, 1, above as int);
    } else {
        let below = pow2((lower - 1) as nat);
        lemma_pow2_pos((lower - 1) as nat);
        lemma_pow2_unfold(lower);
        // the smaller one is below 2^53 * 2^(lower - 1), which is 2^52 * 2^lower
        lemma_mul_strict_inequality(range + spec_fraction(a), 2 * range, below as int);
        assert((2 * range) * below == range * (2 * below)) by (nonlinear_arith);
        if lower < upper - 1 {
            lemma_pow2_strictly_increases(lower, (upper - 1) as nat);
        }
        lemma_mul_left_inequality(range, pow2(lower) as int, above as int);
    }
}

/// Of two patterns with the same exponent field, the one with the smaller
/// fraction field has the smaller size.
proof fn lemma_size_grows_with_fraction(a: u64, b: u64)
    requires
        spec_exponent(a) == spec_exponent(b),
        spec_fraction(a) < spec_fraction(b),
    ensures
        spec_size(a) < spec_size(b),
{
    if spec_exponent(a) != 0 {
        let scale = pow2((spec_exponent(a) - 1) as nat);
        lemma_pow2_pos((spec_exponent(a) - 1) as nat);
        lemma_mul_strict_inequality(
            FRACTION_RANGE + spec_fraction(a),
            FRACTION_RANGE + spec_fraction(b),
            scale as int,
        );
    }
}

/// Sizes are in the order of the patterns without their sign bits, and
/// only the two zeros have size zero.
pub proof fn lemma_size_orders_as_magnitude(a: u64, b: u64)
    ensures
        spec_magnitude(a) < spec_magnitude(b) <==> spec_size(a) < spec_size(b),
        spec_magnitude(a) == spec_magnitude(b) ==> spec_size(a) == spec_size(b),
        spec_magnitude(a) == 0 <==> spec_size(a) == 0,
{
    if spec_exponent(a) < spec_exponent(b) {
        lemma_size_grows_with_exponent(a, b);
    } else if spec_exponent(b) < spec_exponent(a) {
        lemma_size_grows_with_exponent(b, a);
    } else if spec_fraction(a) < spec_fraction(b) {
        lemma_size_grows_with_fraction(a, b);
    } else if spec_fraction(b) < spec_fraction(a) {
        lemma_size_grows_with_fraction(b, a);
    }
    if spec_exponent(a) > 0 {
        lemma_size_grows_with_exponent(ZERO, a);
    }
}

/// The pattern without its sign bit, counted below zero when the sign bit
/// is set: patterns of numbers are in the order of the numbers they stand
/// for exactly when these counts are.
pub open spec fn spec_position(a: u64) -> int {
    if spec_sign(a) {
        -(spec_magnitude(a) as int)
    } else {
        spec_magnitude(a) as int
    }
}

/// How to tell from the pattern alone: a NaN is a pattern that without its
/// sign bit is above that of infinity, an amount below zero is a pattern
/// above that of minus zero and up to that of minus infinity, and of two
/// amounts that are no NaN the one at the lower position is the lesser.
pub proof fn lemma_order_by_pattern(a: u64, b: u64)
    ensures
        spec_is_nan(a) <==> spec_magnitude(a) > INFINITY,
        spec_is_negative(a) <==> SIGN_BIT < a <= SIGN_BIT + INFINITY,
        spec_less_than(a, b) <==> !spec_is_nan(a) && !spec_is_nan(b) && spec_position(a)
            < spec_position(b),
{
    lemma_size_orders_as_magnitude(a, b);
    lemma_size_orders_as_magnitude(b, a);
}

/// Negating an amount negates its value and leaves it a NaN or not as it
/// was.
pub proof fn lemma_negated_value(a: u64)
    ensures
        spec_value(spec_negated(a)) == -spec_value(a),
        spec_is_nan(spec_negated(a)) == spec_is_nan(a),
        spec_negated(spec_negated(a)) == a,
{
}

/// The rounded sum of two amounts, as `rustc_apfloat` computes it.
pub uninterp spec fn amount_sum(a: u64, b: u64) -> u64;

/// The rounded difference `a - b`, as `rustc_apfloat` computes it.
pub uninterp spec fn amount_difference(a: u64, b: u64) -> u64;

/// The rounded product of two amounts, as `rustc_apfloat` computes it.
pub uninterp spec fn amount_product(a: u64, b: u64) -> u64;

/// Adds the two patterns as `rustc_apfloat::ieee::Double` values, with the
/// `+` of that type. The result is not described further: it is whatever
/// that operator returns for these two patterns, which depends on nothing
/// else.
#[verifier::external_body]
pub(crate) fn sum_of(a: u64, b: u64) -> (r: u64)
    ensures
        r == amount_sum(a, b),
{
    (Double::from_bits(a as u128) + Double::from_bits(b as u128)).value.to_bits() as u64
}

/// Subtracts `b` from `a` as `rustc_apfloat::ieee::Double` values, with the
/// `-` of that type. The result is not described further: it is whatever
/// that operator returns for these two patterns, which depends on nothing
/// else.
#[verifier::external_body]
pub(crate) fn difference_of(a: u64, b: u64) -> (r: u64)
    ensures
        r == amount_difference(a, b),
{
    (Double::from_bits(a as u128) - Double::from_bits(b as u128)).value.to_bits() as u64
}

/// Multiplies the two patterns as `rustc_apfloat::ieee::Double` values,
/// with the `*` of that type. The result is not described further: it is
/// whatever that operator returns for these two patterns, which depends on
/// nothing else.
#[verifier::external_body]
pub(crate) fn product_of(a: u64, b: u64) -> (r: u64)
    ensures
        r == amount_product(a, b),
{
    (Double::from_bits(a as u128) * Double::from_bits(b as u128)).value.to_bits() as u64
}

/// Flips the sign of an amount.
pub fn negated(a: u64) -> (r: u64)
    ensures
        r == spec_negated(a),
{
    if a >= SIGN_BIT {
        a - SIGN_BIT
    } else {
        a + SIGN_BIT
    }
}

/// Whether the amount is a NaN.
pub fn is_nan(a: u64) -> (r: bool)
    ensures
        r == spec_is_nan(a),
{
    let magnitude: u64 = if a >= SIGN_BIT {
        a - SIGN_BIT
    } else {
        a
    };
    magnitude > INFINITY
}

/// Whether the amount is strictly below zero.
pub fn is_negative(a: u64) -> (r: bool)
    ensures
        r == spec_is_negative(a),
{
    proof {
        lemma_order_by_pattern(a, a);
    }
    a > SIGN_BIT && !is_nan(a)
}

/// Whether `a` is strictly below `b`.
pub fn less_than(a: u64, b: u64) -> (r: bool)
    ensures
        r == spec_less_than(a, b),
{
    if is_nan(a) || is_nan(b) {
        return false;
    }
    proof {
        lemma_order_by_pattern(a, b);
    }
    if a >= SIGN_BIT {
        if b >= SIGN_BIT {
            // both at or below zero: the larger magnitude is the smaller amount
            a > b
        } else {
            // a is at or below zero, b at or above: equal only when both are zero
            a > SIGN_BIT || b > 0
        }
    } else {
        b < SIGN_BIT && a < b
    }
}

} // verus!
