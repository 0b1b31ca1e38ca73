//! Three-component vectors of single-precision values, carried as bit patterns.

use vstd::prelude::*;

verus! {

use crate::ieee::ZERO_BITS;
use crate::ieee::single_is_zero;
use crate::ieee::is_zero_bits;
use crate::scalar::add_single;
use crate::scalar::mul_single;
use crate::scalar::div_single;
use crate::scalar::sqrt_single;
use crate::scalar::add_bits;
use crate::scalar::mul_bits;
use crate::scalar::div_bits;
use crate::scalar::sqrt_bits;
use crate::quat::Quaternion;
use crate::quat::product_of;
use crate::quat::inverse_of;
use crate::quat::norm_of;

/// A 3-component vector.  Each field is the bit pattern of the
/// single-precision value of that component.
#[derive(Clone, Copy, Debug, PartialEq, Eq, Structural)]
pub struct Vector3 {
    pub x: u32,
    pub y: u32,
    pub z: u32,
}

/// The Euclidean length of the vector: the square root of the sum of the
/// squared components, accumulated left to right.
pub open spec fn length_of(v: Vector3) -> u32 {
    sqrt_single(add_single(add_single(mul_single(v.x, v.x), mul_single(v.y, v.y)), mul_single(v.z, v.z)))
}

/// The normalized vector: the zero vector when the length is zero, and
/// otherwise every component divided by the length.
pub open spec fn normalized_vec_of(v: Vector3) -> Vector3 {
    if single_is_zero(length_of(v)) {
        Vector3 { x: ZERO_BITS, y: ZERO_BITS, z: ZERO_BITS }
    } else {
        Vector3 {
            x: div_single(v.x, length_of(v)),
            y: div_single(v.y, length_of(v)),
            z: div_single(v.z, length_of(v)),
        }
    }
}

/// The vector rotated by the quaternion `q`: the vector part of
/// `q * p * q.inverse()`, where `p` is the quaternion with zero scalar part
/// and this vector as its vector part.
pub open spec fn rotated_of(v: Vector3, q: Quaternion) -> Vector3 {
    let p = Quaternion { w: ZERO_BITS, x: v.x, y: v.y, z: v.z };
    let m = product_of(product_of(q, p), inverse_of(q));
    Vector3 { x: m.x, y: m.y, z: m.z }
}

impl Vector3 {
    /// Builds a vector from its components; any bit patterns are accepted.
    pub fn factory(x: u32, y: u32, z: u32) -> (r: Vector3)
        ensures
            r.x == x,
            r.y == y,
            r.z == z,
    {
        Vector3 { x, y, z }
    }

    /// Divides the vector by its Euclidean length; the zero-length vector
    /// comes back as the zero vector rather than dividing by zero.
    pub fn normalize(self) -> (r: Vector3)
        ensures
            r == normalized_vec_of(self),
    {
        let len = sqrt_bits(add_bits(add_bits(mul_bits(self.x, self.x), mul_bits(self.y, self.y)), mul_bits(self.z, self.z)));
        if is_zero_bits(len) {
            return Vector3::factory(ZERO_BITS, ZERO_BITS, ZERO_BITS);
        }
        Vector3::factory(div_bits(self.x, len), div_bits(self.y, len), div_bits(self.z, len))
    }

    /// Rotates the vector by the quaternion `q`, by conjugation.  It goes
    /// through `q`'s inverse, so a `q` of zero magnitude has no rotation and
    /// the caller must rule it out; `try_rotate` tests it instead.
    pub fn rotate(self, q: Quaternion) -> (r: Vector3)
        requires
            !single_is_zero(norm_of(q)),
        ensures
            r == rotated_of(self, q),
    {
        let p = Quaternion::factory_scalar_vector(ZERO_BITS, self);
        let m = q.product(p).product(q.inverse());
        Vector3::factory(m.x, m.y, m.z)
    }

    /// Rotates the vector by the quaternion `q`, or yields `None` exactly
    /// when `q`'s magnitude is zero — the one input on which `rotate` has
    /// no value.
    pub fn try_rotate(self, q: Quaternion) -> (r: Option<Vector3>)
        ensures
            r is Some <==> !single_is_zero(norm_of(q)),
            r is Some ==> r->Some_0 == rotated_of(self, q),
    {
        let n = q.norm();
        if is_zero_bits(n) {
            None
        } else {
            Some(self.rotate(q))
        }
    }
}

} // verus!
