//! Bit-level view of IEEE-754 binary32 values.
//!
//! Every scalar in this crate is carried as the `u32` bit pattern of the
//! single-precision value it encodes.  The operations here — sign flip,
//! zero test, ordering — are fixed exactly by the encoding, so they are
//! implemented and verified directly on the bits.

use vstd::prelude::*;

verus! {

/// Bit pattern of the single-precision value 1.0.
pub const ONE_BITS: u32 = 0x3F80_0000;

/// Bit pattern of the single-precision value 0.0 (positive zero).
pub const ZERO_BITS: u32 = 0x0000_0000;

/// Bit pattern of the single-precision value 2.0.
pub const TWO_BITS: u32 = 0x4000_0000;

/// Bit pattern of the single-precision value closest to pi.
pub const PI_BITS: u32 = 0x4049_0FDB;

/// Bit pattern of the single-precision value 180.0.
pub const DEG_HALF_TURN_BITS: u32 = 0x4334_0000;

/// The encoded value is a NaN: exponent field all ones, significand nonzero.
pub open spec fn single_is_nan(a: u32) -> bool {
    a & 0x7F80_0000 == 0x7F80_0000 && a & 0x007F_FFFF != 0
}

/// The encoded value is zero, of either sign.
pub open spec fn single_is_zero(a: u32) -> bool {
    a & 0x7FFF_FFFF == 0
}

/// Negation of the encoded value: the encoding negates by flipping the sign bit.
pub open spec fn single_neg(a: u32) -> u32 {
    a ^ 0x8000_0000
}

/// `a < b` on the encoded values: false when either operand is a NaN, the
/// two zeros compare equal, and otherwise the order is sign-magnitude —
/// for equal signs the magnitude order of the remaining bits, reversed on
/// the negative side.
pub open spec fn single_lt(a: u32, b: u32) -> bool {
    &&& !single_is_nan(a)
    &&& !single_is_nan(b)
    &&& !(single_is_zero(a) && single_is_zero(b))
    &&& if a >> 31 != b >> 31 {
            a >> 31 == 1u32
        } else if a >> 31 == 0u32 {
            a < b
        } else {
            b < a
        }
}

/// `a > b` on the encoded values.
pub open spec fn single_gt(a: u32, b: u32) -> bool {
    single_lt(b, a)
}

/// Tests whether the encoded value is zero, as comparing it to 0.0 would.
pub fn is_zero_bits(a: u32) -> (r: bool)
    ensures
        r == single_is_zero(a),
{
    a & 0x7FFF_FFFF == 0
}

/// Negates the encoded value by flipping its sign bit.
pub fn neg_bits(a: u32) -> (r: u32)
    ensures
        r == single_neg(a),
{
    a ^ 0x8000_0000
}

/// `a < b` on the encoded values.
pub fn lt_bits(a: u32, b: u32) -> (r: bool)
    ensures
        r == single_lt(a, b),
{
    let a_nan: bool = a & 0x7F80_0000 == 0x7F80_0000 && a & 0x007F_FFFF != 0;
    let b_nan: bool = b & 0x7F80_0000 == 0x7F80_0000 && b & 0x007F_FFFF != 0;
    if a_nan || b_nan {
        false
    } else if a & 0x7FFF_FFFF == 0 && b & 0x7FFF_FFFF == 0 {
        false
    } else if a >> 31 != b >> 31 {
        a >> 31 == 1
    } else if a >> 31 == 0 {
        a < b
    } else {
        b < a
    }
}

/// `a > b` on the encoded values.
pub fn gt_bits(a: u32, b: u32) -> (r: bool)
    ensures
        r == single_gt(a, b),
{
    lt_bits(b, a)
}

} // verus!
