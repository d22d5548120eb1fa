use linal::{
    Element, FloatScalar, Lerp, Matrix2x2, Matrix3x3, Matrix4x4, Quaternion, Scalar, ScalarCast,
    SignedScalar, Vector2, Vector3,
};

/// The single-precision element kind: a newtype over `f32` implementing the
/// library's scalar capability traits.
#[derive(Clone, Copy, Debug, PartialEq)]
struct S32(f32);

// The `*_spec` items and the proof obligations of the library's traits are
// ghost; the bodies below are stand-ins that are never run.
impl Element for S32 {
    fn zero_spec() -> Self {
        S32(0.0)
    }

    fn one_spec() -> Self {
        S32(1.0)
    }

    fn eq_val_spec(a: Self, b: Self) -> bool {
        a.0 == b.0
    }

    fn zero() -> Self {
        S32(0.0)
    }

    fn one() -> Self {
        S32(1.0)
    }

    fn eq_val(a: Self, b: Self) -> bool {
        a.0 == b.0
    }
}

impl Scalar for S32 {
    fn add_spec(a: Self, b: Self) -> Self {
        S32(a.0 + b.0)
    }

    fn sub_spec(a: Self, b: Self) -> Self {
        S32(a.0 - b.0)
    }

    fn mul_spec(a: Self, b: Self) -> Self {
        S32(a.0 * b.0)
    }

    fn div_spec(a: Self, b: Self) -> Self {
        S32(a.0 / b.0)
    }

    fn div_req(_a: Self, _b: Self) -> bool {
        true
    }

    fn min_spec(a: Self, b: Self) -> Self {
        S32(a.0.min(b.0))
    }

    fn max_spec(a: Self, b: Self) -> Self {
        S32(a.0.max(b.0))
    }

    fn add(a: Self, b: Self) -> Self {
        S32(a.0 + b.0)
    }

    fn sub(a: Self, b: Self) -> Self {
        S32(a.0 - b.0)
    }

    fn mul(a: Self, b: Self) -> Self {
        S32(a.0 * b.0)
    }

    fn div(a: Self, b: Self) -> Self {
        S32(a.0 / b.0)
    }

    fn min(a: Self, b: Self) -> Self {
        S32(a.0.min(b.0))
    }

    fn max(a: Self, b: Self) -> Self {
        S32(a.0.max(b.0))
    }

    fn div_one_by_nonzero(_a: Self) {}
}

impl SignedScalar for S32 {
    fn neg_spec(a: Self) -> Self {
        S32(-a.0)
    }

    fn neg(a: Self) -> Self {
        S32(-a.0)
    }
}

impl FloatScalar for S32 {
    fn sqrt_spec(a: Self) -> Self {
        S32(a.0.sqrt())
    }

    fn sin_spec(a: Self) -> Self {
        S32(a.0.sin())
    }

    fn cos_spec(a: Self) -> Self {
        S32(a.0.cos())
    }

    fn tan_spec(a: Self) -> Self {
        S32(a.0.tan())
    }

    fn floor_spec(a: Self) -> Self {
        S32(a.0.floor())
    }

    fn round_spec(a: Self) -> Self {
        S32(a.0.round())
    }

    fn ceil_spec(a: Self) -> Self {
        S32(a.0.ceil())
    }

    fn half_spec() -> Self {
        S32(0.5)
    }

    fn two_spec() -> Self {
        S32(2.0)
    }

    fn of_count_spec(n: usize) -> Self {
        S32(n as f32)
    }

    fn sqrt(a: Self) -> Self {
        S32(a.0.sqrt())
    }

    fn sin(a: Self) -> Self {
        S32(a.0.sin())
    }

    fn cos(a: Self) -> Self {
        S32(a.0.cos())
    }

    fn tan(a: Self) -> Self {
        S32(a.0.tan())
    }

    fn floor(a: Self) -> Self {
        S32(a.0.floor())
    }

    fn round(a: Self) -> Self {
        S32(a.0.round())
    }

    fn ceil(a: Self) -> Self {
        S32(a.0.ceil())
    }

    fn half() -> Self {
        S32(0.5)
    }

    fn two() -> Self {
        S32(2.0)
    }

    fn of_count(n: usize) -> Self {
        S32(n as f32)
    }

    fn div_total(_a: Self, _b: Self) {}
}

impl ScalarCast<S32> for i32 {
    fn cast_spec(a: Self) -> S32 {
        S32(a as f32)
    }

    fn cast(a: Self) -> S32 {
        S32(a as f32)
    }
}

impl ScalarCast<i32> for S32 {
    fn cast_spec(a: Self) -> i32 {
        a.0 as i32
    }

    fn cast(a: Self) -> i32 {
        a.0 as i32
    }
}

fn s(v: f32) -> S32 {
    S32(v)
}

fn v2(x: f32, y: f32) -> Vector2<S32> {
    Vector2(S32(x), S32(y))
}

fn v3(x: f32, y: f32, z: f32) -> Vector3<S32> {
    Vector3(S32(x), S32(y), S32(z))
}

fn approx(a: f32, b: f32) -> bool {
    (a - b).abs() <= 1e-4 * (1.0f32).max(a.abs()).max(b.abs())
}

fn approx_v3(a: Vector3<S32>, b: Vector3<S32>) -> bool {
    approx(a.0.0, b.0.0) && approx(a.1.0, b.1.0) && approx(a.2.0, b.2.0)
}

#[test]
fn mat2_inverse_times_matrix_is_identity() {
    let m = Matrix2x2::new([[s(4.0), s(7.0)], [s(2.0), s(6.0)]]);
    assert_eq!(m.determinant(), s(10.0));
    let inv = m.inverse().unwrap();
    let prod = m.mul_mat(&inv);
    let id = Matrix2x2::<S32>::identity();
    for i in 0..2 {
        for j in 0..2 {
            assert!(approx(prod.entry(i, j).0, id.entry(i, j).0));
        }
    }
}

#[test]
fn mat3_inverse_times_matrix_is_identity() {
    let m = Matrix3x3::new([
        [s(2.0), s(0.0), s(1.0)],
        [s(1.0), s(3.0), s(2.0)],
        [s(1.0), s(1.0), s(4.0)],
    ]);
    let inv = m.inverse().unwrap();
    let prod = m.mul_mat(&inv);
    let id = Matrix3x3::<S32>::identity();
    for i in 0..3 {
        for j in 0..3 {
            assert!(approx(prod.entry(i, j).0, id.entry(i, j).0));
        }
    }
}

#[test]
fn mat4_inverse_times_matrix_is_identity() {
    let m = Matrix4x4::new([
        [s(1.0), s(2.0), s(0.0), s(0.5)],
        [s(3.0), s(1.0), s(0.0), s(2.0)],
        [s(0.0), s(0.25), s(1.0), s(1.0)],
        [s(1.0), s(0.0), s(2.0), s(1.0)],
    ]);
    let inv = m.inverse().unwrap();
    let prod = m.mul_mat(&inv);
    let id = Matrix4x4::<S32>::identity();
    for i in 0..4 {
        for j in 0..4 {
            assert!(approx(prod.entry(i, j).0, id.entry(i, j).0));
        }
    }
}

#[test]
fn singular_matrices_have_no_inverse() {
    // A 3x3 with a duplicated row has determinant exactly zero.
    let m = Matrix3x3::new([
        [s(1.0), s(2.0), s(3.0)],
        [s(1.0), s(2.0), s(3.0)],
        [s(4.0), s(5.0), s(6.0)],
    ]);
    assert_eq!(m.determinant(), s(0.0));
    assert!(m.inverse().is_none());
    let mut n = m;
    assert!(n.invert().is_none());
    // A failed in-place inversion leaves the matrix unchanged.
    assert_eq!(n, m);

    let m2 = Matrix2x2::new([[s(1.0), s(2.0)], [s(2.0), s(4.0)]]);
    assert!(m2.inverse().is_none());

    let m4 = Matrix4x4::new([
        [s(1.0), s(2.0), s(3.0), s(4.0)],
        [s(1.0), s(2.0), s(3.0), s(4.0)],
        [s(0.0), s(1.0), s(0.0), s(1.0)],
        [s(5.0), s(0.0), s(0.0), s(1.0)],
    ]);
    assert!(m4.inverse().is_none());
}

#[test]
fn normalized_has_magnitude_one_or_is_zero() {
    let v = v3(3.0, -4.0, 12.0);
    assert!(approx(v.normalized().magnitude().0, 1.0));
    let w = v2(0.3, 0.4);
    assert!(approx(w.normalized().magnitude().0, 1.0));
    // The zero vector comes back unchanged: a guard, not an error.
    let z = Vector3::<S32>::zero();
    assert_eq!(z.normalized(), z);
    assert_eq!(z.magnitude(), s(0.0));
}

#[test]
fn rotation_preserves_magnitude() {
    let axis = v3(1.0, 2.0, 2.0);
    let q = Quaternion::rotator(axis.normalized().mul_s(s(1.2)));
    let v = v3(3.0, -1.0, 2.0);
    assert!(approx(v.rotate(q).magnitude().0, v.magnitude().0));
}

#[test]
fn lerp_endpoints_and_factor_roundtrip() {
    let a = s(2.0);
    let b = s(10.0);
    assert_eq!(a.lerp(b, s(0.0)), a);
    assert_eq!(a.lerp(b, s(1.0)), b);
    let mid = a.lerp(b, s(0.25));
    assert!(approx(a.inv_lerp(b, mid).0, 0.25));

    let va = v2(1.0, 2.0);
    let vb = v2(3.0, 6.0);
    assert_eq!(va.lerp(vb, s(0.0)), va);
    assert_eq!(va.lerp(vb, s(1.0)), vb);
    assert_eq!(va.lerp(vb, s(0.5)), v2(2.0, 4.0));
    let t = va.inv_lerp(vb, va.lerp(vb, s(0.75)));
    assert!(approx(t.0.0, 0.75) && approx(t.1.0, 0.75));
    let c = va.lerp_c(vb, v2(0.0, 1.0));
    assert_eq!(c, v2(1.0, 6.0));
}

#[test]
fn cross_of_unit_x_and_unit_y_is_unit_z() {
    let r = v3(1.0, 0.0, 0.0).cross(v3(0.0, 1.0, 0.0));
    assert_eq!(r, v3(0.0, 0.0, 1.0));
}

#[test]
fn identity_matrix_determinant_and_inverse() {
    let id = Matrix2x2::<S32>::identity();
    assert_eq!(id.determinant(), s(1.0));
    assert_eq!(id.inverse(), Some(Matrix2x2::identity()));
}

#[test]
fn right_rotated_quarter_turn_about_up_is_back() {
    let quarter = std::f32::consts::FRAC_PI_2;
    let q = Quaternion::rotator(Vector3::up(s(quarter)));
    let rotated = Vector3::right(s(1.0)).rotate(q);
    assert!(approx_v3(rotated, Vector3::back(s(1.0))));
}

#[test]
fn planar_rotate_follows_screen_convention() {
    let quarter = std::f32::consts::FRAC_PI_2;
    let r = v2(1.0, 0.0).rotate(s(quarter));
    assert!(approx(r.0.0, 0.0) && approx(r.1.0, 1.0));
    let rc = v2(1.0, 0.0).rotate_cw(s(quarter));
    assert!(approx(rc.0.0, 0.0) && approx(rc.1.0, -1.0));
    // The y result is mirrored: rotating the y axis maps onto the x axis.
    let ry = v2(0.0, 1.0).rotate(s(quarter));
    assert!(approx(ry.0.0, 1.0) && approx(ry.1.0, 0.0));
}

#[test]
fn planar_cross_is_quarter_turn() {
    assert_eq!(v2(3.0, 4.0).cross(), v2(4.0, -3.0));
}

#[test]
fn hamilton_product_follows_convention() {
    let i = Quaternion::<S32>::i();
    let j = Quaternion::<S32>::j();
    let k = Quaternion::<S32>::k();
    assert_eq!(i.mul_q(j), k);
    assert_eq!(j.mul_q(i), k.mul_s(s(-1.0)));
    assert_eq!(i.mul_q(i), Quaternion::ident().mul_s(s(-1.0)));
    let ident = Quaternion::<S32>::ident();
    let q = Quaternion(s(0.3), s(0.5), s(-0.2), s(0.8));
    assert_eq!(ident.mul_q(q), q);
    assert_eq!(q.mul_q(ident), q);
}

#[test]
fn quaternion_inverse_undoes_product() {
    let q = Quaternion(s(0.0), s(2.0), s(0.0), s(0.0));
    assert_eq!(q.inverted(), Quaternion(s(0.0), s(-0.5), s(0.0), s(0.0)));
    let p = q.mul_q(q.inverted());
    assert!(approx(p.0.0, 1.0) && approx(p.1.0, 0.0) && approx(p.2.0, 0.0) && approx(p.3.0, 0.0));
}

#[test]
fn quaternion_norm_and_normalize() {
    let q = Quaternion(s(0.0), s(3.0), s(0.0), s(4.0));
    assert_eq!(q.norm(), s(5.0));
    let mut m = q;
    m.normalize();
    assert!(approx(m.norm().0, 1.0));
    assert!(approx(q.normalized().norm().0, 1.0));
    assert_eq!(q.conjugate(), Quaternion(s(0.0), s(-3.0), s(0.0), s(-4.0)));
    assert_eq!(q.vector(), v3(3.0, 0.0, 4.0));
}

#[test]
fn rotator_euler_negates_pitch() {
    let angle = 0.7f32;
    // Pitch-only Euler rotation equals an axis-angle rotation about the
    // negative x axis, because of the deliberate pitch negation.
    let e = Quaternion::rotator_euler(v3(angle, 0.0, 0.0));
    let a = Quaternion::rotator(Vector3::left(s(angle)));
    assert!(approx(e.0.0, a.0.0) && approx(e.1.0, a.1.0) && approx(e.2.0, a.2.0)
        && approx(e.3.0, a.3.0));
}

#[test]
fn basis_is_orthonormal() {
    let q = Quaternion::rotator(v3(0.3, 0.7, -0.2));
    let (x, y, z) = q.basis();
    assert!(approx(x.magnitude().0, 1.0));
    assert!(approx(y.magnitude().0, 1.0));
    assert!(approx(z.magnitude().0, 1.0));
    assert!(approx(x.dot(y).0, 0.0));
    assert!(approx(x.dot(z).0, 0.0));
    assert!(approx(y.dot(z).0, 0.0));
    assert_eq!(q.forw(), z);
}

#[test]
fn transform_matrix_places_scaled_basis() {
    let m = Matrix4x4::tf_matrix(v3(1.0, 2.0, 3.0), Quaternion::ident(), v3(2.0, 3.0, 4.0));
    let expected = Matrix4x4::new([
        [s(2.0), s(0.0), s(0.0), s(1.0)],
        [s(0.0), s(3.0), s(0.0), s(2.0)],
        [s(0.0), s(0.0), s(4.0), s(3.0)],
        [s(0.0), s(0.0), s(0.0), s(1.0)],
    ]);
    assert_eq!(m, expected);
}

#[test]
fn planar_transform_matrix_places_scaled_basis() {
    // The planar basis goes through the mirrored `rotate`, which negates the
    // y component of the up basis even at rotation zero.
    let m = Matrix3x3::tf_matrix(v2(5.0, 6.0), s(0.0), v2(2.0, 3.0));
    let expected = Matrix3x3::new([
        [s(2.0), s(0.0), s(5.0)],
        [s(0.0), s(-3.0), s(6.0)],
        [s(0.0), s(0.0), s(1.0)],
    ]);
    assert_eq!(m, expected);
}

#[test]
fn projection_matrix_rows_match_contract() {
    let fov = std::f32::consts::FRAC_PI_2;
    let m = Matrix4x4::proj_matrix(s(2.0), s(fov), s(1.0), s(101.0));
    assert!(approx(m.entry(0, 0).0, 0.5));
    assert!(approx(m.entry(1, 1).0, 1.0));
    assert!(approx(m.entry(2, 2).0, 1.01));
    assert!(approx(m.entry(2, 3).0, -1.01));
    assert!(approx(m.entry(3, 2).0, 1.0));
    assert_eq!(m.entry(0, 1), s(0.0));
    assert_eq!(m.entry(3, 3), s(0.0));

    let vk = Matrix4x4::proj_matrix_vk(s(2.0), s(fov), s(1.0), s(101.0));
    assert!(approx(vk.entry(1, 1).0, -1.0));
    assert!(approx(vk.entry(0, 0).0, 0.5));
    assert!(approx(vk.entry(2, 2).0, 1.01));
}

#[test]
fn average_and_distances() {
    let pts = [v2(1.0, 2.0), v2(3.0, 6.0), v2(5.0, 1.0)];
    assert_eq!(Vector2::average(&pts), v2(3.0, 3.0));
    assert_eq!(v2(1.0, 2.0).dist_to(v2(4.0, 6.0)), s(5.0));
    assert_eq!(v2(1.0, 2.0).sqr_dist_to(v2(4.0, 6.0)), s(25.0));
    let pts3 = [v3(1.0, 0.0, 3.0), v3(3.0, 4.0, 1.0)];
    assert_eq!(Vector3::average(&pts3), v3(2.0, 2.0, 2.0));
}

#[test]
fn magnitude_bounds() {
    let v = v2(3.0, 4.0);
    assert_eq!(v.magnitude(), s(5.0));
    assert!(approx(v.min_mag(s(1.0)).magnitude().0, 1.0));
    assert!(approx(v.max_mag(s(10.0)).magnitude().0, 10.0));
    assert!(approx(v.clamp_mag(s(1.0), s(4.0)).magnitude().0, 4.0));
    assert!(approx(v.clamp_mag(s(6.0), s(8.0)).magnitude().0, 6.0));
    assert_eq!(v.inverted(), v2(3.0 / 25.0, 4.0 / 25.0));
    assert_eq!(v2(2.0, 4.0).inv_dims(), v2(0.5, 0.25));
}

#[test]
fn rounding_is_componentwise() {
    let v = v2(1.4, -1.4);
    assert_eq!(v.floor(), v2(1.0, -2.0));
    assert_eq!(v.ceil(), v2(2.0, -1.0));
    assert_eq!(v.round(), v2(1.0, -1.0));
    assert_eq!(v3(1.6, -2.5, 0.2).floor(), v3(1.0, -3.0, 0.0));
}

#[test]
fn rotator_halves_the_angle() {
    let quarter = std::f32::consts::FRAC_PI_2;
    let q = Quaternion::rotator(Vector3::up(s(quarter)));
    let eighth = quarter * 0.5;
    assert!(approx(q.0.0, eighth.cos()));
    assert!(approx(q.1.0, 0.0));
    assert!(approx(q.2.0, eighth.sin()));
    assert!(approx(q.3.0, 0.0));
    assert_eq!(Quaternion::from_split(s(1.0), v3(2.0, 3.0, 4.0)),
        Quaternion(s(1.0), s(2.0), s(3.0), s(4.0)));
    assert_eq!(Quaternion::from_vector(v3(2.0, 3.0, 4.0)),
        Quaternion(s(0.0), s(2.0), s(3.0), s(4.0)));
}

#[test]
fn four_wide_float_vectors_measure_like_the_rest() {
    let v = linal::Vector4(s(1.0), s(2.0), s(2.0), s(4.0));
    assert_eq!(v.magnitude(), s(5.0));
    assert!(approx(v.normalized().magnitude().0, 1.0));
    assert_eq!(linal::Vector4::<S32>::zero().magnitude(), s(0.0));
    let w = linal::Vector4(s(2.0), s(4.0), s(8.0), s(16.0));
    assert_eq!(w.inv_dims(), linal::Vector4(s(0.5), s(0.25), s(0.125), s(0.0625)));
    assert_eq!(v.dot(w), s(90.0));
}

#[test]
fn float_casts_are_componentwise() {
    let v = Vector2(7i32, -2i32);
    let f: Vector2<S32> = v.cast();
    assert_eq!(f, v2(7.0, -2.0));
    let back: Vector2<i32> = v2(3.9, -1.2).cast();
    assert_eq!(back, Vector2(3, -1));
}
