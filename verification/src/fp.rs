//! IEEE-754 binary64 scalar arithmetic on raw bit patterns.
//!
//! Every scalar in this library is carried as the `u64` bit pattern of an
//! IEEE-754 binary64 value. The four basic operations are performed by
//! `rustc_apfloat` and the square root by `ieee-apsqrt`, always rounding
//! to nearest, ties to even; each is trusted here and given an
//! uninterpreted name, so that every caller's contract pins its result
//! down as the exact composition of these operations.

use vstd::prelude::*;
use rustc_apfloat::Float;
use rustc_apfloat::Round;
use rustc_apfloat::ieee::Double;

verus! {

/// What IEEE-754 binary64 addition (round to nearest, ties to even)
/// returns on the two operand bit patterns.
pub uninterp spec fn add_bits(a: u64, b: u64) -> u64;

/// What IEEE-754 binary64 subtraction (round to nearest, ties to even)
/// returns on the two operand bit patterns.
pub uninterp spec fn sub_bits(a: u64, b: u64) -> u64;

/// What IEEE-754 binary64 multiplication (round to nearest, ties to even)
/// returns on the two operand bit patterns.
pub uninterp spec fn mul_bits(a: u64, b: u64) -> u64;

/// What IEEE-754 binary64 division (round to nearest, ties to even)
/// returns on the two operand bit patterns.
pub uninterp spec fn div_bits(a: u64, b: u64) -> u64;

/// What IEEE-754 binary64 square root (round to nearest, ties to even)
/// returns on the operand bit pattern.
pub uninterp spec fn sqrt_bits(a: u64) -> u64;

/// The bit pattern holds a finite value (zero, subnormal or normal):
/// its exponent field is not saturated.
pub open spec fn is_finite_bits(b: u64) -> bool {
    (b >> 52) & 0x7ff != 0x7ff
}

/// IEEE-754 negation is exact: it flips the sign bit and nothing else.
pub open spec fn neg_bits(a: u64) -> u64 {
    a ^ 0x8000_0000_0000_0000
}

/// Flips the sign bit: IEEE-754 binary64 negation.
pub fn neg64(a: u64) -> (r: u64)
    ensures
        r == neg_bits(a),
{
    a ^ 0x8000_0000_0000_0000
}

/// Relies on rustc_apfloat::ieee::Double::add_r: IEEE-754 binary64
/// addition, round to nearest, ties to even. The sum of two positive
/// zeros is the positive zero.
#[verifier::external_body]
pub(crate) fn add64(a: u64, b: u64) -> (r: u64)
    ensures
        r == add_bits(a, b),
        a == 0 && b == 0 ==> r == 0,
{
    let v = Double::from_bits(a as u128).add_r(Double::from_bits(b as u128), Round::NearestTiesToEven);
    v.value.to_bits() as u64
}

/// Relies on rustc_apfloat::ieee::Double::sub_r: IEEE-754 binary64
/// subtraction, round to nearest, ties to even. A finite value minus
/// itself is the positive zero under this rounding mode.
#[verifier::external_body]
pub(crate) fn sub64(a: u64, b: u64) -> (r: u64)
    ensures
        r == sub_bits(a, b),
        a == b && is_finite_bits(a) ==> r == 0,
{
    let v = Double::from_bits(a as u128).sub_r(Double::from_bits(b as u128), Round::NearestTiesToEven);
    v.value.to_bits() as u64
}

/// Relies on rustc_apfloat::ieee::Double::mul_r: IEEE-754 binary64
/// multiplication, round to nearest, ties to even. The product of two
/// positive zeros is the positive zero.
#[verifier::external_body]
pub(crate) fn mul64(a: u64, b: u64) -> (r: u64)
    ensures
        r == mul_bits(a, b),
        a == 0 && b == 0 ==> r == 0,
{
    let v = Double::from_bits(a as u128).mul_r(Double::from_bits(b as u128), Round::NearestTiesToEven);
    v.value.to_bits() as u64
}

/// Relies on rustc_apfloat::ieee::Double::div_r: IEEE-754 binary64
/// division, round to nearest, ties to even.
#[verifier::external_body]
pub(crate) fn div64(a: u64, b: u64) -> (r: u64)
    ensures
        r == div_bits(a, b),
{
    let v = Double::from_bits(a as u128).div_r(Double::from_bits(b as u128), Round::NearestTiesToEven);
    v.value.to_bits() as u64
}

/// Relies on ieee_apsqrt::sqrt_accurate: correctly rounded IEEE-754
/// binary64 square root, round to nearest, ties to even.
#[verifier::external_body]
pub(crate) fn sqrt64(a: u64) -> (r: u64)
    ensures
        r == sqrt_bits(a),
{
    let (v, _iterations) = ieee_apsqrt::sqrt_accurate(a, Round::NearestTiesToEven);
    v.value
}

} // verus!
