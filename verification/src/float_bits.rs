//! Trusted access to IEEE-754 double-precision arithmetic.
//!
//! The engine stores every observation as the raw 64-bit pattern of a double
//! (`f64::to_bits`). Each arithmetic step it needs is one primitive double
//! operation, wrapped here as an `external_body` function whose result is
//! named by an uninterpreted spec function: the operations are deterministic
//! in their operands, so equal bit patterns always yield equal results, which
//! is all the verified engine relies on.

use vstd::prelude::*;
use core::primitive::f64 as Double;

verus! {

/// Bit pattern of positive zero, the seed of the running max, sum and
/// sum-of-squares accumulators.
pub const ZERO_BITS: u64 = 0;

/// Bit pattern of the largest finite double (`f64::MAX`), the seed of the
/// running min accumulator.
pub const DOUBLE_MAX_BITS: u64 = 0x7FEF_FFFF_FFFF_FFFF;

/// Bit pattern of the double 10000.0, the scale factor for rounding to four
/// decimal places.
pub const TEN_THOUSAND_BITS: u64 = 0x40C3_8800_0000_0000;

/// What double addition produces, on operands and result as bit patterns.
pub uninterp spec fn add_bits(a: u64, b: u64) -> u64;

/// What double subtraction produces, on operands and result as bit patterns.
pub uninterp spec fn sub_bits(a: u64, b: u64) -> u64;

/// What double multiplication produces, on operands and result as bit patterns.
pub uninterp spec fn mul_bits(a: u64, b: u64) -> u64;

/// What double division produces, on operands and result as bit patterns.
pub uninterp spec fn div_bits(a: u64, b: u64) -> u64;

/// What `f64::min` produces, on operands and result as bit patterns.
pub uninterp spec fn min_bits(a: u64, b: u64) -> u64;

/// What `f64::max` produces, on operands and result as bit patterns.
pub uninterp spec fn max_bits(a: u64, b: u64) -> u64;

/// What `f64::round` (round half away from zero) produces, on operand and
/// result as bit patterns.
pub uninterp spec fn round_bits(a: u64) -> u64;

/// The bit pattern of the double nearest to the given unsigned integer, as
/// the `u64`-to-`f64` cast produces it.
pub uninterp spec fn double_of_uint(n: u64) -> u64;

/// Relies on `f64`'s `Add` impl: the sum of two doubles is determined by the
/// two operands.
#[verifier::external_body]
pub(crate) fn fadd(a: u64, b: u64) -> (r: u64)
    ensures
        r == add_bits(a, b),
{
    Double::to_bits(Double::from_bits(a) + Double::from_bits(b))
}

/// Relies on `f64`'s `Sub` impl: the difference of two doubles is determined
/// by the two operands.
#[verifier::external_body]
pub(crate) fn fsub(a: u64, b: u64) -> (r: u64)
    ensures
        r == sub_bits(a, b),
{
    Double::to_bits(Double::from_bits(a) - Double::from_bits(b))
}

/// Relies on `f64`'s `Mul` impl: the product of two doubles is determined by
/// the two operands.
#[verifier::external_body]
pub(crate) fn fmul(a: u64, b: u64) -> (r: u64)
    ensures
        r == mul_bits(a, b),
{
    Double::to_bits(Double::from_bits(a) * Double::from_bits(b))
}

/// Relies on `f64`'s `Div` impl: the quotient of two doubles is determined by
/// the two operands.
#[verifier::external_body]
pub(crate) fn fdiv(a: u64, b: u64) -> (r: u64)
    ensures
        r == div_bits(a, b),
{
    Double::to_bits(Double::from_bits(a) / Double::from_bits(b))
}

/// Relies on `f64::min`: the smaller of two doubles is determined by the two
/// operands.
#[verifier::external_body]
pub(crate) fn fmin(a: u64, b: u64) -> (r: u64)
    ensures
        r == min_bits(a, b),
{
    Double::to_bits(Double::from_bits(a).min(Double::from_bits(b)))
}

/// Relies on `f64::max`: the larger of two doubles is determined by the two
/// operands.
#[verifier::external_body]
pub(crate) fn fmax(a: u64, b: u64) -> (r: u64)
    ensures
        r == max_bits(a, b),
{
    Double::to_bits(Double::from_bits(a).max(Double::from_bits(b)))
}

/// Relies on `f64::round`: the nearest integer-valued double, half-way cases
/// away from zero, is determined by the operand.
#[verifier::external_body]
pub(crate) fn fround(a: u64) -> (r: u64)
    ensures
        r == round_bits(a),
{
    Double::to_bits(Double::from_bits(a).round())
}

/// Relies on the `u64`-to-`f64` cast: the double nearest to an unsigned
/// integer is determined by that integer.
#[verifier::external_body]
pub(crate) fn uint_to_double(n: u64) -> (r: u64)
    ensures
        r == double_of_uint(n),
{
    Double::to_bits(n as Double)
}

/// The value queries report after rounding to four decimal places: scale by
/// 10000, round half away from zero, scale back down.
pub open spec fn round4_spec(v: u64) -> u64 {
    div_bits(round_bits(mul_bits(v, TEN_THOUSAND_BITS)), TEN_THOUSAND_BITS)
}

/// Rounds a double, given as its bit pattern, to four decimal places, with
/// half-way cases rounded away from zero on the fifth decimal digit.
pub fn round_to_4_decimals(value: u64) -> (r: u64)
    ensures
        r == round4_spec(value),
{
    let scaled = fmul(value, TEN_THOUSAND_BITS);
    let rounded = fround(scaled);
    fdiv(rounded, TEN_THOUSAND_BITS)
}

} // verus!
