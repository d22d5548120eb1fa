use linal::{
    Element, FloatScalar, Lerp, Matrix4x4, Quaternion, Scalar, SignedScalar, Vector2, Vector3,
};

/// The double-precision element kind: a newtype over `f64` implementing the
/// library's scalar capability traits.
#[derive(Clone, Copy, Debug, PartialEq)]
struct S64(f64);

// The `*_spec` items and the proof obligations of the library's traits are
// ghost; the bodies below are stand-ins that are never run.
impl Element for S64 {
    fn zero_spec() -> Self {
        S64(0.0)
    }

    fn one_spec() -> Self {
        S64(1.0)
    }

    fn eq_val_spec(a: Self, b: Self) -> bool {
        a.0 == b.0
    }

    fn zero() -> Self {
        S64(0.0)
    }

    fn one() -> Self {
        S64(1.0)
    }

    fn eq_val(a: Self, b: Self) -> bool {
        a.0 == b.0
    }
}

impl Scalar for S64 {
    fn add_spec(a: Self, b: Self) -> Self {
        S64(a.0 + b.0)
    }

    fn sub_spec(a: Self, b: Self) -> Self {
        S64(a.0 - b.0)
    }

    fn mul_spec(a: Self, b: Self) -> Self {
        S64(a.0 * b.0)
    }

    fn div_spec(a: Self, b: Self) -> Self {
        S64(a.0 / b.0)
    }

    fn div_req(_a: Self, _b: Self) -> bool {
        true
    }

    fn min_spec(a: Self, b: Self) -> Self {
        S64(a.0.min(b.0))
    }

    fn max_spec(a: Self, b: Self) -> Self {
        S64(a.0.max(b.0))
    }

    fn add(a: Self, b: Self) -> Self {
        S64(a.0 + b.0)
    }

    fn sub(a: Self, b: Self) -> Self {
        S64(a.0 - b.0)
    }

    fn mul(a: Self, b: Self) -> Self {
        S64(a.0 * b.0)
    }

    fn div(a: Self, b: Self) -> Self {
        S64(a.0 / b.0)
    }

    fn min(a: Self, b: Self) -> Self {
        S64(a.0.min(b.0))
    }

    fn max(a: Self, b: Self) -> Self {
        S64(a.0.max(b.0))
    }

    fn div_one_by_nonzero(_a: Self) {}
}

impl SignedScalar for S64 {
    fn neg_spec(a: Self) -> Self {
        S64(-a.0)
    }

    fn neg(a: Self) -> Self {
        S64(-a.0)
    }
}

impl FloatScalar for S64 {
    fn sqrt_spec(a: Self) -> Self {
        S64(a.0.sqrt())
    }

    fn sin_spec(a: Self) -> Self {
        S64(a.0.sin())
    }

    fn cos_spec(a: Self) -> Self {
        S64(a.0.cos())
    }

    fn tan_spec(a: Self) -> Self {
        S64(a.0.tan())
    }

    fn floor_spec(a: Self) -> Self {
        S64(a.0.floor())
    }

    fn round_spec(a: Self) -> Self {
        S64(a.0.round())
    }

    fn ceil_spec(a: Self) -> Self {
        S64(a.0.ceil())
    }

    fn half_spec() -> Self {
        S64(0.5)
    }

    fn two_spec() -> Self {
        S64(2.0)
    }

    fn of_count_spec(n: usize) -> Self {
        S64(n as f64)
    }

    fn sqrt(a: Self) -> Self {
        S64(a.0.sqrt())
    }

    fn sin(a: Self) -> Self {
        S64(a.0.sin())
    }

    fn cos(a: Self) -> Self {
        S64(a.0.cos())
    }

    fn tan(a: Self) -> Self {
        S64(a.0.tan())
    }

    fn floor(a: Self) -> Self {
        S64(a.0.floor())
    }

    fn round(a: Self) -> Self {
        S64(a.0.round())
    }

    fn ceil(a: Self) -> Self {
        S64(a.0.ceil())
    }

    fn half() -> Self {
        S64(0.5)
    }

    fn two() -> Self {
        S64(2.0)
    }

    fn of_count(n: usize) -> Self {
        S64(n as f64)
    }

    fn div_total(_a: Self, _b: Self) {}
}

fn d(v: f64) -> S64 {
    S64(v)
}

fn dapprox(a: f64, b: f64) -> bool {
    (a - b).abs() <= 1e-9 * (1.0f64).max(a.abs()).max(b.abs())
}

#[test]
fn double_mat4_inverse_times_matrix_is_identity() {
    let m = Matrix4x4::new([
        [d(2.0), d(1.0), d(0.0), d(3.0)],
        [d(0.0), d(1.0), d(4.0), d(1.0)],
        [d(5.0), d(0.0), d(1.0), d(0.0)],
        [d(1.0), d(1.0), d(0.0), d(1.0)],
    ]);
    let inv = m.inverse().unwrap();
    let prod = m.mul_mat(&inv);
    let id = Matrix4x4::<S64>::identity();
    for i in 0..4 {
        for j in 0..4 {
            assert!(dapprox(prod.entry(i, j).0, id.entry(i, j).0));
        }
    }
}

#[test]
fn double_rotation_preserves_magnitude_and_handedness() {
    let quarter = std::f64::consts::FRAC_PI_2;
    let q = Quaternion::rotator(Vector3::up(d(quarter)));
    let rotated = Vector3::right(d(1.0)).rotate(q);
    assert!(dapprox(rotated.0.0, 0.0));
    assert!(dapprox(rotated.1.0, 0.0));
    assert!(dapprox(rotated.2.0, -1.0));
    let v = Vector3(d(0.3), d(-2.0), d(1.5));
    assert!(dapprox(v.rotate(q).magnitude().0, v.magnitude().0));
}

#[test]
fn double_normalized_and_lerp() {
    let v = Vector2(d(8.0), d(-6.0));
    assert!(dapprox(v.normalized().magnitude().0, 1.0));
    let z = Vector2::<S64>::zero();
    assert_eq!(z.normalized(), z);
    let a = d(-4.0);
    let b = d(4.0);
    assert_eq!(a.lerp(b, d(0.0)), a);
    assert_eq!(a.lerp(b, d(1.0)), b);
    assert!(dapprox(a.inv_lerp(b, a.lerp(b, d(0.125))).0, 0.125));
}

#[test]
fn double_projection_follows_contract() {
    let fov = std::f64::consts::FRAC_PI_2;
    let m = Matrix4x4::proj_matrix(d(1.5), d(fov), d(0.5), d(100.5));
    assert!(dapprox(m.entry(0, 0).0, 1.0 / 1.5));
    assert!(dapprox(m.entry(1, 1).0, 1.0));
    assert!(dapprox(m.entry(2, 2).0, 100.5 / 100.0));
    assert!(dapprox(m.entry(2, 3).0, -100.5 * 0.5 / 100.0));
    let vk = Matrix4x4::proj_matrix_vk(d(1.5), d(fov), d(0.5), d(100.5));
    assert!(dapprox(vk.entry(1, 1).0, -1.0));
}
