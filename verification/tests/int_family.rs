use linal::{
    Lerp, Matrix2x2, Matrix3x3, Matrix4x4, Vector2, Vector3, Vector4, Vector2bool, Vector2i32,
    Vector2u32, Vector3i32, Vector4i32,
};

#[test]
fn signed_vector_arithmetic_wraps() {
    let a: Vector2i32 = Vector2(3, i32::MAX);
    let b = Vector2(4, 1);
    assert_eq!(a.add(b), Vector2(7, i32::MIN));
    assert_eq!(a.sub(b), Vector2(-1, i32::MAX - 1));
    assert_eq!(Vector2(3, -2).mul_s(5), Vector2(15, -10));
    assert_eq!(Vector2(7, -7).div_s(2), Vector2(3, -3));
    let mut c = Vector2(1, 2);
    c.add_assign(Vector2(10, 20));
    assert_eq!(c, Vector2(11, 22));
    c.sub_assign(Vector2(1, 2));
    assert_eq!(c, Vector2(10, 20));
    c.mul_assign(3);
    assert_eq!(c, Vector2(30, 60));
    c.div_assign(10);
    assert_eq!(c, Vector2(3, 6));
}

#[test]
fn unsigned_vector_arithmetic_wraps() {
    let a: Vector2u32 = Vector2(u32::MAX, 5);
    assert_eq!(a.add(Vector2(1, 1)), Vector2(0, 6));
    assert_eq!(Vector2(2u32, 3).scale(Vector2(5, 7)), Vector2(10, 21));
    assert_eq!(Vector2(10u32, 21).inv_scale(Vector2(5, 7)), Vector2(2, 3));
}

#[test]
fn dot_products_by_arity() {
    assert_eq!(Vector2(1, 2).dot(Vector2(3, 4)), 11);
    assert_eq!(Vector3(1, 2, 3).dot(Vector3(4, 5, 6)), 32);
    assert_eq!(Vector4(1, 2, 3, 4).dot(Vector4(5, 6, 7, 8)), 70);
    assert_eq!(Vector3(1, 2, 3).sqr_magnitude(), 14);
}

#[test]
fn min_max_clamp_are_componentwise() {
    let a = Vector3(1, 9, -4);
    let b = Vector3(3, 2, -8);
    assert_eq!(a.min(b), Vector3(1, 2, -8));
    assert_eq!(a.max(b), Vector3(3, 9, -4));
    assert_eq!(a.clamp(Vector3(0, 0, 0), Vector3(5, 5, 5)), Vector3(1, 5, 0));
    assert_eq!(a.max_axis(), 9);
    assert_eq!(a.min_axis(), -4);
    assert_eq!(Vector4(4, 1, 7, 2).max_axis(), 7);
    assert_eq!(Vector4(4, 1, 7, 2).min_axis(), 1);
}

#[test]
fn axis_constructors_and_projections() {
    assert_eq!(Vector2i32::zero(), Vector2(0, 0));
    assert_eq!(Vector2::up(2), Vector2(0, 2));
    assert_eq!(Vector2::right(3), Vector2(3, 0));
    assert_eq!(Vector2::down(2), Vector2(0, -2));
    assert_eq!(Vector2::left(3), Vector2(-3, 0));
    assert_eq!(Vector2::one(4), Vector2(4, 4));
    assert_eq!(Vector3::forw(5), Vector3(0, 0, 5));
    assert_eq!(Vector3::back(5), Vector3(0, 0, -5));
    assert_eq!(Vector4::posw(6), Vector4(0, 0, 0, 6));
    assert_eq!(Vector4::negw(6), Vector4(0, 0, 0, -6));

    let v = Vector3(7, 8, 9);
    assert_eq!(v.xvec(), Vector3(7, 0, 0));
    assert_eq!(v.yvec(), Vector3(0, 8, 0));
    assert_eq!(v.zvec(), Vector3(0, 0, 9));
    let w = Vector4(1, 2, 3, 4);
    assert_eq!(w.wvec(), Vector4(0, 0, 0, 4));
    assert_eq!(w.xvec(), Vector4(1, 0, 0, 0));
}

#[test]
fn swizzles_and_updims() {
    let v = Vector4(1, 2, 3, 4);
    assert_eq!(v.xy(), Vector2(1, 2));
    assert_eq!(v.yz(), Vector2(2, 3));
    assert_eq!(v.zw(), Vector2(3, 4));
    assert_eq!(v.xz(), Vector2(1, 3));
    assert_eq!(v.yw(), Vector2(2, 4));
    assert_eq!(v.xyz(), Vector3(1, 2, 3));
    assert_eq!(v.xyw(), Vector3(1, 2, 4));
    assert_eq!(v.xzw(), Vector3(1, 3, 4));
    assert_eq!(v.yzw(), Vector3(2, 3, 4));
    let u = Vector3(5, 6, 7);
    assert_eq!(u.xy(), Vector2(5, 6));
    assert_eq!(u.yz(), Vector2(6, 7));
    assert_eq!(u.xz(), Vector2(5, 7));
    assert_eq!(Vector3::from_xy(Vector2(1, 2), 9), Vector3(1, 2, 9));
    assert_eq!(Vector3::from_xz(Vector2(1, 2), 9), Vector3(1, 9, 2));
    assert_eq!(Vector3::from_yz(9, Vector2(1, 2)), Vector3(9, 1, 2));
}

#[test]
fn setters_overwrite_single_components() {
    let mut v: Vector3i32 = Vector3(1, 2, 3);
    v.set_x(10);
    v.set_y(20);
    v.set_z(30);
    assert_eq!(v, Vector3(10, 20, 30));
    assert_eq!(v.x(), 10);
    assert_eq!(v.y(), 20);
    assert_eq!(v.z(), 30);
    let mut w: Vector4i32 = Vector4(1, 2, 3, 4);
    w.set_w(40);
    assert_eq!(w.w(), 40);
}

#[test]
fn local_combines_basis() {
    let basis = (Vector2(0, 1), Vector2(-1, 0));
    assert_eq!(Vector2::local(3, 4, basis), Vector2(-4, 3));
}

#[test]
fn casts_are_componentwise() {
    let b: Vector2bool = Vector2(true, false);
    let i: Vector2i32 = b.cast();
    assert_eq!(i, Vector2(1, 0));
    let u: Vector2u32 = b.cast();
    assert_eq!(u, Vector2(1, 0));
    let back: Vector2bool = Vector2(0i32, -3i32).cast();
    assert_eq!(back, Vector2(false, true));
    let neg: Vector2u32 = Vector2(-1i32, 7).cast();
    assert_eq!(neg, Vector2(u32::MAX, 7));
    let signed: Vector2i32 = Vector2(u32::MAX, 7u32).cast();
    assert_eq!(signed, Vector2(-1, 7));
    let b3: Vector3<bool> = Vector3(0u32, 2, 0).cast();
    assert_eq!(b3, Vector3(false, true, false));
    let i4: Vector4<i32> = Vector4(true, false, true, true).cast();
    assert_eq!(i4, Vector4(1, 0, 1, 1));
}

#[test]
fn bool_vectors_compare_and_project() {
    let b = Vector2(true, false);
    assert_eq!(b.xvec(), Vector2(true, false));
    assert_eq!(b.yvec(), Vector2(false, false));
    assert_eq!(Vector2bool::zero(), Vector2(false, false));
    assert_eq!(Vector2::<bool>::one(true), Vector2(true, true));
    assert_ne!(b, Vector2(false, false));
}

#[test]
fn integer_lerp_hits_endpoints() {
    assert_eq!(5i32.lerp(9, 0), 5);
    assert_eq!(5i32.lerp(9, 1), 9);
    assert_eq!(5i32.inv_lerp(9, 9), 1);
    assert_eq!(5i32.inv_lerp(9, 5), 0);
    let a = Vector2(2i32, 4);
    let b = Vector2(6i32, 8);
    assert_eq!(a.lerp(b, 0), a);
    assert_eq!(a.lerp(b, 1), b);
    assert_eq!(a.inv_lerp(b, b), Vector2(1, 1));
}

#[test]
fn integer_matrix_inverse_is_exact() {
    let m = Matrix2x2::new([[1, 1], [0, 1]]);
    assert_eq!(m.determinant(), 1);
    let inv = m.inverse().unwrap();
    assert_eq!(inv, Matrix2x2::new([[1, -1], [0, 1]]));
    assert_eq!(m.mul_mat(&inv), Matrix2x2::identity());

    let n = Matrix3x3::new([[1, 0, 1], [0, 1, 0], [0, 0, 1]]);
    assert_eq!(n.determinant(), 1);
    let ninv = n.inverse().unwrap();
    assert_eq!(ninv, Matrix3x3::new([[1, 0, -1], [0, 1, 0], [0, 0, 1]]));
    assert_eq!(n.mul_mat(&ninv), Matrix3x3::identity());

    let p = Matrix4x4::new([
        [1, 0, 0, 5],
        [0, 1, 0, -2],
        [0, 0, 1, 3],
        [0, 0, 0, 1],
    ]);
    assert_eq!(p.determinant(), 1);
    let pinv = p.inverse().unwrap();
    assert_eq!(
        pinv,
        Matrix4x4::new([
            [1, 0, 0, -5],
            [0, 1, 0, 2],
            [0, 0, 1, -3],
            [0, 0, 0, 1],
        ])
    );
    assert_eq!(p.mul_mat(&pinv), Matrix4x4::identity());
}

#[test]
fn singular_integer_matrix_is_left_unchanged() {
    let m = Matrix2x2::new([[2, 4], [1, 2]]);
    assert_eq!(m.determinant(), 0);
    assert!(m.inverse().is_none());
    let mut n = m;
    assert!(n.invert().is_none());
    assert_eq!(n, m);
}

#[test]
fn matrix_rows_columns_and_entries() {
    let m = Matrix3x3::new([[1, 2, 3], [4, 5, 6], [7, 8, 9]]);
    assert_eq!(m.row(0), Vector3(1, 2, 3));
    assert_eq!(m.row(2), Vector3(7, 8, 9));
    assert_eq!(m.col(1), Vector3(2, 5, 8));
    assert_eq!(m.entry(1, 2), 6);
    let mut n = m;
    n.set_entry(1, 2, 60);
    assert_eq!(n.entry(1, 2), 60);
    assert_eq!(n.entry(0, 0), 1);
    assert_eq!(
        m.transp(),
        Matrix3x3::new([[1, 4, 7], [2, 5, 8], [3, 6, 9]])
    );
    assert_eq!(m.transp().transp(), m);
}

#[test]
fn matrix_products_use_rows_against_columns() {
    let a = Matrix2x2::new([[1, 2], [3, 4]]);
    let b = Matrix2x2::new([[5, 6], [7, 8]]);
    assert_eq!(a.mul_mat(&b), Matrix2x2::new([[19, 22], [43, 50]]));
    assert_eq!(a.mul_vec(Vector2(1, 1)), Vector2(3, 7));
    let id = Matrix2x2::identity();
    assert_eq!(a.mul_mat(&id), a);
    assert_eq!(id.mul_mat(&a), a);

    let m = Matrix4x4::new_with_vec(
        Vector4(1, 0, 0, 0),
        Vector4(0, 2, 0, 0),
        Vector4(0, 0, 3, 0),
        Vector4(0, 0, 0, 4),
    );
    assert_eq!(m.mul_vec(Vector4(1, 1, 1, 1)), Vector4(1, 2, 3, 4));
    assert_eq!(m.row(3), Vector4(0, 0, 0, 4));
    assert_eq!(m.col(2), Vector4(0, 0, 3, 0));
}
