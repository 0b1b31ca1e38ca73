//! Quaternions over single-precision values, carried as bit patterns.

use vstd::prelude::*;

verus! {

use crate::ieee::ONE_BITS;
use crate::ieee::ZERO_BITS;
use crate::ieee::TWO_BITS;
use crate::ieee::PI_BITS;
use crate::ieee::DEG_HALF_TURN_BITS;
use crate::ieee::single_is_zero;
use crate::ieee::single_neg;
use crate::ieee::single_lt;
use crate::ieee::single_gt;
use crate::ieee::is_zero_bits;
use crate::ieee::neg_bits;
use crate::ieee::lt_bits;
use crate::ieee::gt_bits;
use crate::scalar::add_single;
use crate::scalar::sub_single;
use crate::scalar::mul_single;
use crate::scalar::div_single;
use crate::scalar::sqrt_single;
use crate::scalar::add_bits;
use crate::scalar::sub_bits;
use crate::scalar::mul_bits;
use crate::scalar::div_bits;
use crate::scalar::sqrt_bits;
use crate::vec3::Vector3;
use crate::vec3::normalized_vec_of;

/// A quaternion with scalar part `w` and vector part `(x, y, z)`.  Each
/// field is the bit pattern of the single-precision value of that component.
#[derive(Clone, Copy, Debug, PartialEq, Eq, Structural)]
pub struct Quaternion {
    pub w: u32,
    pub x: u32,
    pub y: u32,
    pub z: u32,
}

/// The sum of the squared components, accumulated left to right.
pub open spec fn sum_squares_of(q: Quaternion) -> u32 {
    add_single(
        add_single(add_single(mul_single(q.w, q.w), mul_single(q.x, q.x)), mul_single(q.y, q.y)),
        mul_single(q.z, q.z),
    )
}

/// The Euclidean magnitude of the quaternion as a 4-vector.
pub open spec fn norm_of(q: Quaternion) -> u32 {
    sqrt_single(sum_squares_of(q))
}

/// Every component multiplied by the scalar `a`.
pub open spec fn scaled_of(q: Quaternion, a: u32) -> Quaternion {
    Quaternion {
        w: mul_single(q.w, a),
        x: mul_single(q.x, a),
        y: mul_single(q.y, a),
        z: mul_single(q.z, a),
    }
}

/// Componentwise sum of two quaternions.
pub open spec fn sum_of(a: Quaternion, b: Quaternion) -> Quaternion {
    Quaternion {
        w: add_single(a.w, b.w),
        x: add_single(a.x, b.x),
        y: add_single(a.y, b.y),
        z: add_single(a.z, b.z),
    }
}

/// Componentwise difference of two quaternions.
pub open spec fn diff_of(a: Quaternion, b: Quaternion) -> Quaternion {
    Quaternion {
        w: sub_single(a.w, b.w),
        x: sub_single(a.x, b.x),
        y: sub_single(a.y, b.y),
        z: sub_single(a.z, b.z),
    }
}

/// The conjugate: the vector part negated, the scalar part unchanged.
pub open spec fn conjugate_of(q: Quaternion) -> Quaternion {
    Quaternion { w: q.w, x: single_neg(q.x), y: single_neg(q.y), z: single_neg(q.z) }
}

/// The Hamilton product of `a` and `b`: the scalar part is the product of
/// the scalar parts less the dot product of the vector parts, and the vector
/// part combines the scaled vector parts with their cross product, every
/// component accumulated left to right.
pub open spec fn product_of(a: Quaternion, b: Quaternion) -> Quaternion {
    Quaternion {
        w: sub_single(
            sub_single(sub_single(mul_single(a.w, b.w), mul_single(a.x, b.x)), mul_single(a.y, b.y)),
            mul_single(a.z, b.z),
        ),
        x: sub_single(
            add_single(add_single(mul_single(a.w, b.x), mul_single(b.w, a.x)), mul_single(a.y, b.z)),
            mul_single(a.z, b.y),
        ),
        y: sub_single(
            add_single(add_single(mul_single(a.w, b.y), mul_single(b.w, a.y)), mul_single(a.z, b.x)),
            mul_single(a.x, b.z),
        ),
        z: sub_single(
            add_single(add_single(mul_single(a.w, b.z), mul_single(b.w, a.z)), mul_single(a.x, b.y)),
            mul_single(a.y, b.x),
        ),
    }
}

/// The 4-component dot product, accumulated left to right.
pub open spec fn dot_of(a: Quaternion, b: Quaternion) -> u32 {
    add_single(
        add_single(add_single(mul_single(a.w, b.w), mul_single(a.x, b.x)), mul_single(a.y, b.y)),
        mul_single(a.z, b.z),
    )
}

/// Every component divided by the magnitude.  When the magnitude is zero the
/// divisions are by zero and yield the bit patterns the format gives them;
/// no case is made of it.
pub open spec fn normalized_of(q: Quaternion) -> Quaternion {
    Quaternion {
        w: div_single(q.w, norm_of(q)),
        x: div_single(q.x, norm_of(q)),
        y: div_single(q.y, norm_of(q)),
        z: div_single(q.z, norm_of(q)),
    }
}

/// The multiplicative inverse: the conjugate scaled by one over the squared
/// magnitude, the square being taken of the already-rounded magnitude.
pub open spec fn inverse_of(q: Quaternion) -> Quaternion {
    scaled_of(conjugate_of(q), div_single(ONE_BITS, mul_single(norm_of(q), norm_of(q))))
}

/// Linear interpolation: a step above one yields `to` as it stands, a step
/// below zero yields `from` as it stands, and anything else yields the
/// normalized componentwise blend `from + (to - from) * t`.
pub open spec fn lerp_of(from: Quaternion, to: Quaternion, t: u32) -> Quaternion {
    if single_gt(t, ONE_BITS) {
        to
    } else if single_lt(t, ZERO_BITS) {
        from
    } else {
        normalized_of(sum_of(from, scaled_of(diff_of(to, from), t)))
    }
}

/// The interpolation step clamped to the unit interval.
pub open spec fn clamp_unit_of(t: u32) -> u32 {
    if single_gt(t, ONE_BITS) {
        ONE_BITS
    } else if single_lt(t, ZERO_BITS) {
        ZERO_BITS
    } else {
        t
    }
}

/// Half of the angle, in radians: the angle in degrees times pi, divided by
/// 180, divided by 2, each step rounded in single precision.
pub open spec fn half_angle_of(angle: u32) -> u32 {
    div_single(div_single(mul_single(angle, PI_BITS), DEG_HALF_TURN_BITS), TWO_BITS)
}

/// The axis-angle quaternion assembled from the half-angle sine and cosine:
/// the cosine is the scalar part and the sine scales the normalized axis.
pub open spec fn axis_angle_of(axis: Vector3, half_sine: u32, half_cosine: u32) -> Quaternion {
    Quaternion {
        w: half_cosine,
        x: mul_single(half_sine, normalized_vec_of(axis).x),
        y: mul_single(half_sine, normalized_vec_of(axis).y),
        z: mul_single(half_sine, normalized_vec_of(axis).z),
    }
}

/// The spherical blend assembled from the sines of the subtended angles:
/// when the sine of the full angle is zero the blend falls back to linear
/// interpolation at the given step, and otherwise it is the normalized sum
/// of the endpoints weighted by their sine ratios.
pub open spec fn slerp_mix_of(
    from: Quaternion,
    to: Quaternion,
    step: u32,
    sin_theta: u32,
    sin_rest: u32,
    sin_step: u32,
) -> Quaternion {
    if single_is_zero(sin_theta) {
        lerp_of(from, to, step)
    } else {
        normalized_of(
            sum_of(
                scaled_of(from, div_single(sin_rest, sin_theta)),
                scaled_of(to, div_single(sin_step, sin_theta)),
            ),
        )
    }
}

impl Quaternion {
    /// Builds a quaternion from its components; any bit patterns are
    /// accepted, including non-unit and zero quaternions.
    pub fn factory(w: u32, x: u32, y: u32, z: u32) -> (r: Quaternion)
        ensures
            r.w == w,
            r.x == x,
            r.y == y,
            r.z == z,
    {
        Quaternion { w, x, y, z }
    }

    /// Builds a quaternion from a scalar part and a vector part.
    pub fn factory_scalar_vector(s: u32, v: Vector3) -> (r: Quaternion)
        ensures
            r.w == s,
            r.x == v.x,
            r.y == v.y,
            r.z == v.z,
    {
        Quaternion::factory(s, v.x, v.y, v.z)
    }

    /// The multiplicative identity and null rotation, `(1, 0, 0, 0)`.
    pub fn identity() -> (r: Quaternion)
        ensures
            r.w == ONE_BITS,
            r.x == ZERO_BITS,
            r.y == ZERO_BITS,
            r.z == ZERO_BITS,
    {
        Quaternion::factory(ONE_BITS, ZERO_BITS, ZERO_BITS, ZERO_BITS)
    }

    /// Half of the given angle in degrees, converted to radians.
    pub fn half_angle(angle: u32) -> (r: u32)
        ensures
            r == half_angle_of(angle),
    {
        let radian = div_bits(mul_bits(angle, PI_BITS), DEG_HALF_TURN_BITS);
        div_bits(radian, TWO_BITS)
    }

    /// Assembles the axis-angle quaternion from the axis and the sine and
    /// cosine of the half-angle, which the caller computes.  A zero-length
    /// axis normalizes to the zero vector, so the vector part is then zero
    /// whatever the sine is.
    pub fn from_axis_angle_parts(axis: Vector3, half_sine: u32, half_cosine: u32) -> (r: Quaternion)
        ensures
            r == axis_angle_of(axis, half_sine, half_cosine),
    {
        let normalized_axis = axis.normalize();
        Quaternion::factory(
            half_cosine,
            mul_bits(half_sine, normalized_axis.x),
            mul_bits(half_sine, normalized_axis.y),
            mul_bits(half_sine, normalized_axis.z),
        )
    }

    /// The Euclidean magnitude of the quaternion as a 4-vector.
    pub fn norm(&self) -> (r: u32)
        ensures
            r == norm_of(*self),
    {
        sqrt_bits(
            add_bits(
                add_bits(add_bits(mul_bits(self.w, self.w), mul_bits(self.x, self.x)), mul_bits(self.y, self.y)),
                mul_bits(self.z, self.z),
            ),
        )
    }

    /// Every component divided by the magnitude.  A zero magnitude is not
    /// special-cased: the divisions are by zero and the components come back
    /// as the format rounds them.
    pub fn normalized(&self) -> (r: Quaternion)
        ensures
            r == normalized_of(*self),
    {
        let len = self.norm();
        Quaternion::factory(
            div_bits(self.w, len),
            div_bits(self.x, len),
            div_bits(self.y, len),
            div_bits(self.z, len),
        )
    }

    /// The conjugate: vector part negated, scalar part unchanged.
    pub fn conjugate(&self) -> (r: Quaternion)
        ensures
            r == conjugate_of(*self),
    {
        Quaternion::factory(self.w, neg_bits(self.x), neg_bits(self.y), neg_bits(self.z))
    }

    /// The multiplicative inverse.  A quaternion whose magnitude is zero has
    /// none, and the caller must rule it out; `try_inverse` tests it instead.
    pub fn inverse(self) -> (r: Quaternion)
        requires
            !single_is_zero(norm_of(self)),
        ensures
            r == inverse_of(self),
    {
        let n = self.norm();
        let s = div_bits(ONE_BITS, mul_bits(n, n));
        let c = self.conjugate();
        c.mult(s)
    }

    /// The multiplicative inverse, or `None` exactly when the magnitude is
    /// zero — the one input on which `inverse` has no value.
    pub fn try_inverse(self) -> (r: Option<Quaternion>)
        ensures
            r is Some <==> !single_is_zero(norm_of(self)),
            r is Some ==> r->Some_0 == inverse_of(self),
    {
        let n = self.norm();
        if is_zero_bits(n) {
            None
        } else {
            Some(self.inverse())
        }
    }

    /// Every component multiplied by the scalar `a`.
    pub fn mult(&self, a: u32) -> (r: Quaternion)
        ensures
            r == scaled_of(*self, a),
    {
        Quaternion::factory(
            mul_bits(self.w, a),
            mul_bits(self.x, a),
            mul_bits(self.y, a),
            mul_bits(self.z, a),
        )
    }

    /// The Hamilton product `self * p`; it is not commutative.
    pub fn product(&self, p: Quaternion) -> (r: Quaternion)
        ensures
            r == product_of(*self, p),
    {
        Quaternion::factory(
            sub_bits(
                sub_bits(sub_bits(mul_bits(self.w, p.w), mul_bits(self.x, p.x)), mul_bits(self.y, p.y)),
                mul_bits(self.z, p.z),
            ),
            sub_bits(
                add_bits(add_bits(mul_bits(self.w, p.x), mul_bits(p.w, self.x)), mul_bits(self.y, p.z)),
                mul_bits(self.z, p.y),
            ),
            sub_bits(
                add_bits(add_bits(mul_bits(self.w, p.y), mul_bits(p.w, self.y)), mul_bits(self.z, p.x)),
                mul_bits(self.x, p.z),
            ),
            sub_bits(
                add_bits(add_bits(mul_bits(self.w, p.z), mul_bits(p.w, self.z)), mul_bits(self.x, p.y)),
                mul_bits(self.y, p.x),
            ),
        )
    }

    /// The 4-component dot product of the two quaternions.
    pub fn dot(&self, p: Quaternion) -> (r: u32)
        ensures
            r == dot_of(*self, p),
    {
        add_bits(
            add_bits(add_bits(mul_bits(self.w, p.w), mul_bits(self.x, p.x)), mul_bits(self.y, p.y)),
            mul_bits(self.z, p.z),
        )
    }

    /// Componentwise sum.
    pub fn add(&self, p: Quaternion) -> (r: Quaternion)
        ensures
            r == sum_of(*self, p),
    {
        Quaternion::factory(
            add_bits(self.w, p.w),
            add_bits(self.x, p.x),
            add_bits(self.y, p.y),
            add_bits(self.z, p.z),
        )
    }

    /// Componentwise difference.
    pub fn sub(&self, p: Quaternion) -> (r: Quaternion)
        ensures
            r == diff_of(*self, p),
    {
        Quaternion::factory(
            sub_bits(self.w, p.w),
            sub_bits(self.x, p.x),
            sub_bits(self.y, p.y),
            sub_bits(self.z, p.z),
        )
    }

    /// Linear interpolation from `from` to `to` at step `t`: a step above
    /// one yields `to` as it stands and a step below zero yields `from` as
    /// it stands, while an interior step yields the normalized blend.
    pub fn lerp(from: Quaternion, to: Quaternion, t: u32) -> (r: Quaternion)
        ensures
            r == lerp_of(from, to, t),
    {
        if gt_bits(t, ONE_BITS) {
            to
        } else if lt_bits(t, ZERO_BITS) {
            from
        } else {
            from.add(to.sub(from).mult(t)).normalized()
        }
    }

    /// The interpolation step clamped to the unit interval, as spherical
    /// interpolation clamps it before blending.
    pub fn clamp_unit(t: u32) -> (r: u32)
        ensures
            r == clamp_unit_of(t),
    {
        if gt_bits(t, ONE_BITS) {
            ONE_BITS
        } else if lt_bits(t, ZERO_BITS) {
            ZERO_BITS
        } else {
            t
        }
    }

    /// The two angles whose sines weight a spherical blend: the full angle
    /// scaled by one minus the step, and by the step.
    pub fn blend_angles(step: u32, theta: u32) -> (r: (u32, u32))
        ensures
            r.0 == mul_single(sub_single(ONE_BITS, step), theta),
            r.1 == mul_single(step, theta),
    {
        (mul_bits(sub_bits(ONE_BITS, step), theta), mul_bits(step, theta))
    }

    /// The spherical blend of `from` and `to` at the clamped step, from the
    /// sines of the subtended angles, which the caller computes: the sine of
    /// the full angle between them, and the sines of the two angles that
    /// `blend_angles` gives for this step.  A zero full-angle sine — the
    /// endpoints identical or exactly opposite — falls back to linear
    /// interpolation at the step.
    pub fn slerp_mix(
        from: Quaternion,
        to: Quaternion,
        step: u32,
        sin_theta: u32,
        sin_rest: u32,
        sin_step: u32,
    ) -> (r: Quaternion)
        ensures
            r == slerp_mix_of(from, to, step, sin_theta, sin_rest, sin_step),
    {
        if is_zero_bits(sin_theta) {
            return Quaternion::lerp(from, to, step);
        }
        let blended_from = div_bits(sin_rest, sin_theta);
        let blended_to = div_bits(sin_step, sin_theta);
        from.mult(blended_from).add(to.mult(blended_to)).normalized()
    }
}

/// Law: a linear interpolation step above one yields the `to` endpoint
/// exactly as it was given, with whatever magnitude it already has.
pub proof fn lemma_lerp_clamps_high(from: Quaternion, to: Quaternion, t: u32)
    requires
        single_gt(t, ONE_BITS),
    ensures
        lerp_of(from, to, t) == to,
{
}

/// Law: a linear interpolation step below zero yields the `from` endpoint
/// exactly as it was given, with whatever magnitude it already has.
pub proof fn lemma_lerp_clamps_low(from: Quaternion, to: Quaternion, t: u32)
    requires
        !single_gt(t, ONE_BITS),
        single_lt(t, ZERO_BITS),
    ensures
        lerp_of(from, to, t) == from,
{
}

/// Law: the spherical interpolation step is clamped to the unit interval,
/// so steps outside it blend exactly as the nearer endpoint's step does.
pub proof fn lemma_clamp_unit_sticks_to_ends(t: u32)
    requires
        single_gt(t, ONE_BITS) || single_lt(t, ZERO_BITS),
    ensures
        single_gt(t, ONE_BITS) ==> clamp_unit_of(t) == ONE_BITS,
        !single_gt(t, ONE_BITS) ==> clamp_unit_of(t) == ZERO_BITS,
{
}

} // verus!
