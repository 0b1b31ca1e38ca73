//! Single-precision arithmetic on bit patterns.
//!
//! Addition, subtraction, multiplication, division and square root of
//! IEEE-754 binary32 values are performed by the softfp crate, which
//! computes them in software directly on the bit patterns.  Each operation
//! is deterministic once the rounding mode is fixed, so its result is given
//! a name that the contracts of this crate speak of; the wrappers pin the
//! rounding mode to round-to-nearest-even, the default of the format.

use vstd::prelude::*;

verus! {

/// The sum of the two encoded values, rounded to nearest even.
pub uninterp spec fn add_single(a: u32, b: u32) -> u32;

/// The difference of the two encoded values, rounded to nearest even.
pub uninterp spec fn sub_single(a: u32, b: u32) -> u32;

/// The product of the two encoded values, rounded to nearest even.
pub uninterp spec fn mul_single(a: u32, b: u32) -> u32;

/// The quotient of the two encoded values, rounded to nearest even.
pub uninterp spec fn div_single(a: u32, b: u32) -> u32;

/// The square root of the encoded value, rounded to nearest even.
pub uninterp spec fn sqrt_single(a: u32) -> u32;

#[verifier::external_type_specification]
#[verifier::external_body]
pub struct ExRoundingMode(softfp::RoundingMode);

#[verifier::external_type_specification]
#[verifier::external_body]
pub struct ExExceptionFlags(softfp::ExceptionFlags);

/// Relies on softfp's `RoundingMode`: the round-to-nearest-even constant,
/// handed to softfp as its rounding-mode callback.
#[verifier::external_body]
fn round_to_nearest() -> softfp::RoundingMode {
    softfp::RoundingMode::TiesToEven
}

/// Relies on softfp's `ExceptionFlags`: the exception-flag callback that
/// discards the flags, which nothing here reads.
#[verifier::external_body]
fn discard_flags(_flags: softfp::ExceptionFlags) {
}

/// Relies on softfp's `Fp::add` on its binary32 type: the IEEE-754 sum of
/// the values the bit patterns encode, under round-to-nearest-even.
#[verifier::external_body]
pub(crate) fn add_bits(a: u32, b: u32) -> (r: u32)
    ensures
        r == add_single(a, b),
{
    softfp::register_get_rounding_mode(round_to_nearest);
    softfp::register_set_exception_flags(discard_flags);
    (softfp::F32::new(a) + softfp::F32::new(b)).0
}

/// Relies on softfp's `Fp::sub` on its binary32 type: the IEEE-754
/// difference of the encoded values, under round-to-nearest-even.
#[verifier::external_body]
pub(crate) fn sub_bits(a: u32, b: u32) -> (r: u32)
    ensures
        r == sub_single(a, b),
{
    softfp::register_get_rounding_mode(round_to_nearest);
    softfp::register_set_exception_flags(discard_flags);
    (softfp::F32::new(a) - softfp::F32::new(b)).0
}

/// Relies on softfp's `Fp::mul` on its binary32 type: the IEEE-754 product
/// of the encoded values, under round-to-nearest-even.
#[verifier::external_body]
pub(crate) fn mul_bits(a: u32, b: u32) -> (r: u32)
    ensures
        r == mul_single(a, b),
{
    softfp::register_get_rounding_mode(round_to_nearest);
    softfp::register_set_exception_flags(discard_flags);
    (softfp::F32::new(a) * softfp::F32::new(b)).0
}

/// Relies on softfp's `Fp::div` on its binary32 type: the IEEE-754 quotient
/// of the encoded values, under round-to-nearest-even.
#[verifier::external_body]
pub(crate) fn div_bits(a: u32, b: u32) -> (r: u32)
    ensures
        r == div_single(a, b),
{
    softfp::register_get_rounding_mode(round_to_nearest);
    softfp::register_set_exception_flags(discard_flags);
    (softfp::F32::new(a) / softfp::F32::new(b)).0
}

/// Relies on softfp's `Fp::square_root` on its binary32 type: the IEEE-754
/// square root of the encoded value, under round-to-nearest-even.
#[verifier::external_body]
pub(crate) fn sqrt_bits(a: u32) -> (r: u32)
    ensures
        r == sqrt_single(a),
{
    softfp::register_get_rounding_mode(round_to_nearest);
    softfp::register_set_exception_flags(discard_flags);
    softfp::F32::new(a).square_root().0
}

} // verus!
