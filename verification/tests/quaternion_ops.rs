use quaternion::Quaternion;
use quaternion::Vector3;

fn qf(w: f32, x: f32, y: f32, z: f32) -> Quaternion {
    Quaternion::factory(w.to_bits(), x.to_bits(), y.to_bits(), z.to_bits())
}

fn vf(x: f32, y: f32, z: f32) -> Vector3 {
    Vector3::factory(x.to_bits(), y.to_bits(), z.to_bits())
}

fn assert_approx_eq(a: &Quaternion, b: &Quaternion) {
    let e = 1.0e-6_f32;
    assert!(
        (f32::from_bits(a.w) - f32::from_bits(b.w)).abs() < e
            && (f32::from_bits(a.x) - f32::from_bits(b.x)).abs() < e
            && (f32::from_bits(a.y) - f32::from_bits(b.y)).abs() < e
            && (f32::from_bits(a.z) - f32::from_bits(b.z)).abs() < e,
        "{:?} is not approximately equal to {:?}",
        *a,
        *b
    );
}

fn assert_approx_eq_vec(a: &Vector3, b: &Vector3) {
    let e = 1.0e-6_f32;
    assert!(
        (f32::from_bits(a.x) - f32::from_bits(b.x)).abs() < e
            && (f32::from_bits(a.y) - f32::from_bits(b.y)).abs() < e
            && (f32::from_bits(a.z) - f32::from_bits(b.z)).abs() < e,
        "{:?} is not approximately equal to {:?}",
        *a,
        *b
    );
}

// The half-angle sine and cosine come from std's single-precision floats,
// which the verified library cannot hold; the library does the rest.
fn from_axis_angle(axis: Vector3, angle: f32) -> Quaternion {
    let half_angle = f32::from_bits(Quaternion::half_angle(angle.to_bits()));
    Quaternion::from_axis_angle_parts(
        axis,
        half_angle.sin().to_bits(),
        half_angle.cos().to_bits(),
    )
}

// The arc cosine and the sines come from std's single-precision floats,
// which the verified library cannot hold; the library does the rest.
fn slerp(from: Quaternion, to: Quaternion, t: f32) -> Quaternion {
    let step = Quaternion::clamp_unit(t.to_bits());
    let theta = f32::from_bits(from.dot(to)).acos();
    let sin_theta = theta.sin();
    let (angle_rest, angle_step) = Quaternion::blend_angles(step, theta.to_bits());
    Quaternion::slerp_mix(
        from,
        to,
        step,
        sin_theta.to_bits(),
        f32::from_bits(angle_rest).sin().to_bits(),
        f32::from_bits(angle_step).sin().to_bits(),
    )
}

fn lerp(from: Quaternion, to: Quaternion, t: f32) -> Quaternion {
    Quaternion::lerp(from, to, t.to_bits())
}

#[test]
fn it_can_be_created() {
    let _q0 = Quaternion::factory(
        0.2_f32.to_bits(),
        0.1_f32.to_bits(),
        0.2_f32.to_bits(),
        1.0_f32.to_bits(),
    );
}

#[test]
fn it_is_equatable() {
    let q0 = qf(0.2, 0.1, 0.2, 1.0);
    let q1 = qf(0.2, 0.1, 0.2, 1.0);

    assert_approx_eq(&q0, &q1);
}

#[test]
fn it_is_createable_from_angle_axis() {
    let q0 = qf(0.9659258, 0.1929123, 0.07716493, 0.1543299);

    assert_approx_eq(&q0, &from_axis_angle(vf(10., 4., 8.), 30.));
}

#[test]
fn it_has_a_product() {
    let q0 = qf(0.96592, 0.19291, 0.07716, 0.15432);
    let q1 = qf(0.5, 0.36337, 0.43605, 0.65407);

    let p = qf(0.27828056, 0.43061814, 0.389668, 0.76502013);

    assert_approx_eq(&p, &q0.product(q1));
}

#[test]
fn it_slerps() {
    let q0 = qf(0.9659258, 0.1929123, 0.07716493, 0.1543299);
    let q1 = qf(0.5, 0.3633762, 0.4360515, 0.6540772);

    let p = qf(0.8676022, 0.2722757, 0.2181232, 0.3543367);

    assert_approx_eq(&p, &slerp(q0, q1, 0.34));
}

#[test]
fn it_lerps() {
    let q0 = qf(0.9659258, 0.1929123, 0.07716493, 0.1543299);
    let q1 = qf(0.5, 0.3633762, 0.4360515, 0.6540772);

    let p = qf(0.8708531, 0.2705486, 0.2148108, 0.349678);

    assert_approx_eq(&p, &lerp(q0, q1, 0.34));
}

#[test]
fn factory_round_trips_exactly() {
    let q = Quaternion::factory(
        0.9659258_f32.to_bits(),
        0.1929123_f32.to_bits(),
        0.07716493_f32.to_bits(),
        0.1543299_f32.to_bits(),
    );
    assert_eq!(q.w, 0.9659258_f32.to_bits());
    assert_eq!(q.x, 0.1929123_f32.to_bits());
    assert_eq!(q.y, 0.07716493_f32.to_bits());
    assert_eq!(q.z, 0.1543299_f32.to_bits());

    let v = vf(10., 4., 8.);
    assert_eq!(v.x, 10.0_f32.to_bits());
    assert_eq!(v.y, 4.0_f32.to_bits());
    assert_eq!(v.z, 8.0_f32.to_bits());

    let sv = Quaternion::factory_scalar_vector(0.5_f32.to_bits(), v);
    assert_eq!(sv.w, 0.5_f32.to_bits());
    assert_eq!(sv.x, v.x);
    assert_eq!(sv.y, v.y);
    assert_eq!(sv.z, v.z);
}

#[test]
fn identity_is_the_null_rotation() {
    let i = Quaternion::identity();
    assert_eq!(i.w, 1.0_f32.to_bits());
    assert_eq!(i.x, 0.0_f32.to_bits());
    assert_eq!(i.y, 0.0_f32.to_bits());
    assert_eq!(i.z, 0.0_f32.to_bits());
}

#[test]
fn arithmetic_matches_native_single_precision() {
    let q = qf(1., 2., 3., 4.);
    let p = qf(0.5, -1.25, 8.0, 0.1);

    let s = q.add(p);
    assert_eq!(s.w, (1.0_f32 + 0.5).to_bits());
    assert_eq!(s.x, (2.0_f32 + -1.25).to_bits());
    assert_eq!(s.y, (3.0_f32 + 8.0).to_bits());
    assert_eq!(s.z, (4.0_f32 + 0.1).to_bits());

    let d = q.sub(p);
    assert_eq!(d.w, (1.0_f32 - 0.5).to_bits());
    assert_eq!(d.x, (2.0_f32 - -1.25).to_bits());
    assert_eq!(d.y, (3.0_f32 - 8.0).to_bits());
    assert_eq!(d.z, (4.0_f32 - 0.1).to_bits());

    let m = q.mult(0.3_f32.to_bits());
    assert_eq!(m.w, (1.0_f32 * 0.3).to_bits());
    assert_eq!(m.x, (2.0_f32 * 0.3).to_bits());
    assert_eq!(m.y, (3.0_f32 * 0.3).to_bits());
    assert_eq!(m.z, (4.0_f32 * 0.3).to_bits());

    assert_eq!(q.norm(), 30.0_f32.sqrt().to_bits());

    let len = 30.0_f32.sqrt();
    let n = q.normalized();
    assert_eq!(n.w, (1.0_f32 / len).to_bits());
    assert_eq!(n.x, (2.0_f32 / len).to_bits());
    assert_eq!(n.y, (3.0_f32 / len).to_bits());
    assert_eq!(n.z, (4.0_f32 / len).to_bits());

    let dot = q.dot(p);
    assert_eq!(
        dot,
        (1.0_f32 * 0.5 + 2.0_f32 * -1.25 + 3.0_f32 * 8.0 + 4.0_f32 * 0.1).to_bits()
    );
}

#[test]
fn conjugate_flips_the_vector_part() {
    let q = qf(0.96592, 0.19291, 0.07716, 0.15432);
    let c = q.conjugate();
    assert_eq!(c.w, 0.96592_f32.to_bits());
    assert_eq!(c.x, (-0.19291_f32).to_bits());
    assert_eq!(c.y, (-0.07716_f32).to_bits());
    assert_eq!(c.z, (-0.15432_f32).to_bits());
}

#[test]
fn unit_quaternion_times_its_inverse_is_the_identity() {
    let q = from_axis_angle(vf(10., 4., 8.), 30.);
    let inv = q.try_inverse().unwrap();
    assert_approx_eq(&q.product(inv), &qf(1., 0., 0., 0.));

    let r = qf(0.5, 0.3633762, 0.4360515, 0.6540772).normalized();
    let r_inv = r.try_inverse().unwrap();
    assert_approx_eq(&r.product(r_inv), &qf(1., 0., 0., 0.));
}

#[test]
fn conjugate_of_a_product_reverses_the_factors() {
    let a = qf(0.96592, 0.19291, 0.07716, 0.15432);
    let b = qf(0.5, 0.36337, 0.43605, 0.65407);
    assert_approx_eq(&a.product(b).conjugate(), &b.conjugate().product(a.conjugate()));

    let c = qf(1.5, -2.0, 0.25, 3.0);
    let d = qf(-0.75, 4.0, 1.0, -0.5);
    assert_approx_eq(&c.product(d).conjugate(), &d.conjugate().product(c.conjugate()));
}

#[test]
fn interpolation_at_the_unit_ends_meets_the_endpoints() {
    let a = qf(0.9659258, 0.1929123, 0.07716493, 0.1543299);
    let b = qf(0.5, 0.3633762, 0.4360515, 0.6540772);

    assert_approx_eq(&lerp(a, b, 0.), &a.normalized());
    assert_approx_eq(&lerp(a, b, 1.), &b.normalized());
    assert_approx_eq(&slerp(a, b, 0.), &a);
    assert_approx_eq(&slerp(a, b, 1.), &b);
}

#[test]
fn interpolation_outside_the_unit_range_clamps() {
    let a = qf(0.9659258, 0.1929123, 0.07716493, 0.1543299);
    let b = qf(0.5, 0.3633762, 0.4360515, 0.6540772);

    // Out-of-range lerp steps hand back the endpoint exactly as given.
    assert_eq!(lerp(a, b, 2.5), b);
    assert_eq!(lerp(a, b, -1.0), a);

    // Out-of-range slerp steps blend exactly as the nearer end's step does.
    assert_eq!(slerp(a, b, 2.5), slerp(a, b, 1.0));
    assert_eq!(slerp(a, b, -1.0), slerp(a, b, 0.0));

    assert_eq!(Quaternion::clamp_unit(2.5_f32.to_bits()), 1.0_f32.to_bits());
    assert_eq!(Quaternion::clamp_unit((-1.0_f32).to_bits()), 0.0_f32.to_bits());
    assert_eq!(Quaternion::clamp_unit(0.34_f32.to_bits()), 0.34_f32.to_bits());
}

#[test]
fn slerp_of_identical_endpoints_stays_put() {
    let u = from_axis_angle(vf(10., 4., 8.), 30.);
    assert_approx_eq(&slerp(u, u, 0.5), &u);
}

#[test]
fn inverse_of_a_zero_quaternion_is_refused() {
    let zero = qf(0., 0., 0., 0.);
    assert!(zero.try_inverse().is_none());

    let ok = qf(0.5, 0.3633762, 0.4360515, 0.6540772);
    assert!(ok.try_inverse().is_some());
}

#[test]
fn rotation_by_a_zero_quaternion_is_refused() {
    let zero = qf(0., 0., 0., 0.);
    assert!(vf(1., 1., 1.).try_rotate(zero).is_none());
}

#[test]
fn rotation_turns_a_vector_about_the_axis() {
    let q = from_axis_angle(vf(0., 0., 1.), 90.);
    let v = vf(1., 0., 0.);
    let r = v.try_rotate(q).unwrap();
    assert_approx_eq_vec(&r, &vf(0., 1., 0.));
}

#[test]
fn normalize_handles_the_zero_vector() {
    let z = vf(0., 0., 0.).normalize();
    assert_eq!(z.x, 0.0_f32.to_bits());
    assert_eq!(z.y, 0.0_f32.to_bits());
    assert_eq!(z.z, 0.0_f32.to_bits());

    let n = vf(10., 4., 8.).normalize();
    let len = (10.0_f32 * 10.0 + 4.0_f32 * 4.0 + 8.0_f32 * 8.0).sqrt();
    assert_eq!(n.x, (10.0_f32 / len).to_bits());
    assert_eq!(n.y, (4.0_f32 / len).to_bits());
    assert_eq!(n.z, (8.0_f32 / len).to_bits());
}

#[test]
fn zero_axis_gives_a_zero_vector_part() {
    let q = from_axis_angle(vf(0., 0., 0.), 30.);
    let half_angle = f32::from_bits(Quaternion::half_angle(30.0_f32.to_bits()));
    assert_eq!(q.w, half_angle.cos().to_bits());
    assert_eq!(q.x, 0.0_f32.to_bits());
    assert_eq!(q.y, 0.0_f32.to_bits());
    assert_eq!(q.z, 0.0_f32.to_bits());
}
