//! Scalar arithmetic on IEEE-754 single-precision bit patterns.
//!
//! The library stores every scalar as the `u32` bit pattern of an IEEE-754
//! single-precision value. Arithmetic on such values is performed in software
//! by outside crates; each operation is named by an uninterpreted spec
//! function, so contracts can state exactly which computation produced a
//! value without restating IEEE-754 arithmetic itself.

use vstd::prelude::*;
use const_soft_float::soft_f32::SoftF32;
use rustc_apfloat::Float;

verus! {

/// Bit pattern of the single-precision value `1.0`.
pub const ONE_BITS: u32 = 0x3F80_0000;

/// Bit pattern of the single-precision value `2.0`.
pub const TWO_BITS: u32 = 0x4000_0000;

/// Bit pattern of the single-precision value closest to `2 * pi`
/// (`6.2831855`), the full turn used by circle tessellation.
pub const TWO_PI_BITS: u32 = 0x40C9_0FDB;

/// The sign bit of a single-precision value.
pub const SIGN_BIT: u32 = 0x8000_0000;

/// Holds exactly of the two bit patterns that compare equal to `0.0`:
/// positive and negative zero.
pub open spec fn is_zero_bits(a: u32) -> bool {
    a == 0u32 || a == SIGN_BIT
}

/// IEEE-754 negation is exactly a flip of the sign bit.
pub open spec fn spec_neg_bits(a: u32) -> u32 {
    a ^ SIGN_BIT
}

/// Negate a single-precision value by flipping its sign bit.
pub fn neg_bits(a: u32) -> (r: u32)
    ensures
        r == spec_neg_bits(a),
{
    a ^ SIGN_BIT
}

pub uninterp spec fn add_bits(a: u32, b: u32) -> u32;

pub uninterp spec fn sub_bits(a: u32, b: u32) -> u32;

pub uninterp spec fn mul_bits(a: u32, b: u32) -> u32;

pub uninterp spec fn div_bits(a: u32, b: u32) -> u32;

pub uninterp spec fn sqrt_bits(a: u32) -> u32;

pub uninterp spec fn sin_bits(a: u32) -> u32;

pub uninterp spec fn cos_bits(a: u32) -> u32;

pub uninterp spec fn of_int_bits(n: int) -> u32;

/// Relies on const_soft_float's `SoftF32::add`: IEEE-754 single-precision
/// addition, computed in software from the bit patterns alone.
#[verifier::external_body]
pub(crate) fn scalar_add(a: u32, b: u32) -> (r: u32)
    ensures
        r == add_bits(a, b),
{
    SoftF32::from_bits(a).add(SoftF32::from_bits(b)).to_bits()
}

/// Relies on const_soft_float's `SoftF32::sub`: IEEE-754 single-precision
/// subtraction, computed in software from the bit patterns alone.
#[verifier::external_body]
pub(crate) fn scalar_sub(a: u32, b: u32) -> (r: u32)
    ensures
        r == sub_bits(a, b),
{
    SoftF32::from_bits(a).sub(SoftF32::from_bits(b)).to_bits()
}

/// Relies on const_soft_float's `SoftF32::mul`: IEEE-754 single-precision
/// multiplication, computed in software from the bit patterns alone.
#[verifier::external_body]
pub(crate) fn scalar_mul(a: u32, b: u32) -> (r: u32)
    ensures
        r == mul_bits(a, b),
{
    SoftF32::from_bits(a).mul(SoftF32::from_bits(b)).to_bits()
}

/// Relies on const_soft_float's `SoftF32::div`: IEEE-754 single-precision
/// division, computed in software from the bit patterns alone.
#[verifier::external_body]
pub(crate) fn scalar_div(a: u32, b: u32) -> (r: u32)
    ensures
        r == div_bits(a, b),
{
    SoftF32::from_bits(a).div(SoftF32::from_bits(b)).to_bits()
}

/// Relies on const_soft_float's `SoftF32::sqrt`: the square root of a
/// single-precision value, computed in software from the bit pattern alone.
#[verifier::external_body]
pub(crate) fn scalar_sqrt(a: u32) -> (r: u32)
    ensures
        r == sqrt_bits(a),
{
    SoftF32::from_bits(a).sqrt().to_bits()
}

/// Relies on const_soft_float's `SoftF32::sin`: the sine of a
/// single-precision value, computed in software from the bit pattern alone.
#[verifier::external_body]
pub(crate) fn scalar_sin(a: u32) -> (r: u32)
    ensures
        r == sin_bits(a),
{
    SoftF32::from_bits(a).sin().to_bits()
}

/// Relies on const_soft_float's `SoftF32::cos`: the cosine of a
/// single-precision value, computed in software from the bit pattern alone.
#[verifier::external_body]
pub(crate) fn scalar_cos(a: u32) -> (r: u32)
    ensures
        r == cos_bits(a),
{
    SoftF32::from_bits(a).cos().to_bits()
}

/// Relies on rustc_apfloat's `Single::from_u128`: conversion of an unsigned
/// integer to the nearest single-precision value, returned as bits.
#[verifier::external_body]
pub(crate) fn scalar_of_int(n: usize) -> (r: u32)
    ensures
        r == of_int_bits(n as int),
{
    rustc_apfloat::ieee::Single::from_u128(n as u128).value.to_bits() as u32
}

} // verus!
