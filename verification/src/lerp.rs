use vstd::prelude::*;

use crate::scalar::Scalar;
use crate::vector2::Vector2;
use crate::vector3::Vector3;
use crate::vector4::Vector4;

verus! {

/// Linear interpolation over a value family: `lerp` with a bare factor,
/// `lerp_c` with a componentwise factor, and `inv_lerp`, which recovers the
/// factor from an interpolated value.
pub trait Lerp<T>: Sized {
    spec fn lerp_spec(self, other: Self, t: T) -> Self;

    spec fn lerp_c_spec(self, other: Self, t: Self) -> Self;

    spec fn inv_lerp_spec(self, other: Self, res: Self) -> Self;

    /// The inputs on which `inv_lerp`'s division is defined.
    spec fn inv_lerp_req(self, other: Self, res: Self) -> bool;

    /// Linearly interpolates between `self` and `other` using the factor `t`.
    fn lerp(self, other: Self, t: T) -> (r: Self)
        ensures
            r == self.lerp_spec(other, t),
    ;

    /// Linearly interpolates between `self` and `other` using the factor `t`.
    /// The interpolation is done component-wise.
    fn lerp_c(self, other: Self, t: Self) -> (r: Self)
        ensures
            r == self.lerp_c_spec(other, t),
    ;

    /// Inverse of the lerp function. Returns the factor needed to get `res`
    /// from interpolation between `self` and `other`.
    fn inv_lerp(self, other: Self, res: Self) -> (r: Self)
        requires
            self.inv_lerp_req(other, res),
        ensures
            r == self.inv_lerp_spec(other, res),
    ;
}

impl<S: Scalar> Lerp<S> for S {
    open spec fn lerp_spec(self, other: Self, t: S) -> Self {
        S::add_spec(
            S::mul_spec(self, S::sub_spec(S::one_spec(), t)),
            S::mul_spec(other, t),
        )
    }

    open spec fn lerp_c_spec(self, other: Self, t: Self) -> Self {
        self.lerp_spec(other, t)
    }

    open spec fn inv_lerp_spec(self, other: Self, res: Self) -> Self {
        S::div_spec(S::sub_spec(res, self), S::sub_spec(other, self))
    }

    open spec fn inv_lerp_req(self, other: Self, res: Self) -> bool {
        S::div_req(S::sub_spec(res, self), S::sub_spec(other, self))
    }

    fn lerp(self, other: Self, t: S) -> (r: Self) {
        S::add(S::mul(self, S::sub(S::one(), t)), S::mul(other, t))
    }

    fn lerp_c(self, other: Self, t: Self) -> (r: Self) {
        self.lerp(other, t)
    }

    fn inv_lerp(self, other: Self, res: Self) -> (r: Self) {
        S::div(S::sub(res, self), S::sub(other, self))
    }
}

impl<S: Scalar> Lerp<S> for Vector2<S> {
    open spec fn lerp_spec(self, other: Self, t: S) -> Self {
        self.mul_s_spec(S::sub_spec(S::one_spec(), t)).add_spec(other.mul_s_spec(t))
    }

    open spec fn lerp_c_spec(self, other: Self, t: Self) -> Self {
        self.scale_spec(Vector2::<S>::one_of_spec(S::one_spec()).sub_spec(t)).add_spec(
            other.scale_spec(t),
        )
    }

    open spec fn inv_lerp_spec(self, other: Self, res: Self) -> Self {
        res.sub_spec(self).inv_scale_spec(other.sub_spec(self))
    }

    open spec fn inv_lerp_req(self, other: Self, res: Self) -> bool {
        res.sub_spec(self).inv_scale_req(other.sub_spec(self))
    }

    fn lerp(self, other: Self, t: S) -> (r: Self) {
        self.mul_s(S::sub(S::one(), t)).add(other.mul_s(t))
    }

    fn lerp_c(self, other: Self, t: Self) -> (r: Self) {
        self.scale(Vector2::one(S::one()).sub(t)).add(other.scale(t))
    }

    fn inv_lerp(self, other: Self, res: Self) -> (r: Self) {
        res.sub(self).inv_scale(other.sub(self))
    }
}

impl<S: Scalar> Lerp<S> for Vector3<S> {
    open spec fn lerp_spec(self, other: Self, t: S) -> Self {
        self.mul_s_spec(S::sub_spec(S::one_spec(), t)).add_spec(other.mul_s_spec(t))
    }

    open spec fn lerp_c_spec(self, other: Self, t: Self) -> Self {
        self.scale_spec(Vector3::<S>::one_of_spec(S::one_spec()).sub_spec(t)).add_spec(
            other.scale_spec(t),
        )
    }

    open spec fn inv_lerp_spec(self, other: Self, res: Self) -> Self {
        res.sub_spec(self).inv_scale_spec(other.sub_spec(self))
    }

    open spec fn inv_lerp_req(self, other: Self, res: Self) -> bool {
        res.sub_spec(self).inv_scale_req(other.sub_spec(self))
    }

    fn lerp(self, other: Self, t: S) -> (r: Self) {
        self.mul_s(S::sub(S::one(), t)).add(other.mul_s(t))
    }

    fn lerp_c(self, other: Self, t: Self) -> (r: Self) {
        self.scale(Vector3::one(S::one()).sub(t)).add(other.scale(t))
    }

    fn inv_lerp(self, other: Self, res: Self) -> (r: Self) {
        res.sub(self).inv_scale(other.sub(self))
    }
}

impl<S: Scalar> Lerp<S> for Vector4<S> {
    open spec fn lerp_spec(self, other: Self, t: S) -> Self {
        self.mul_s_spec(S::sub_spec(S::one_spec(), t)).add_spec(other.mul_s_spec(t))
    }

    open spec fn lerp_c_spec(self, other: Self, t: Self) -> Self {
        self.scale_spec(Vector4::<S>::one_of_spec(S::one_spec()).sub_spec(t)).add_spec(
            other.scale_spec(t),
        )
    }

    open spec fn inv_lerp_spec(self, other: Self, res: Self) -> Self {
        res.sub_spec(self).inv_scale_spec(other.sub_spec(self))
    }

    open spec fn inv_lerp_req(self, other: Self, res: Self) -> bool {
        res.sub_spec(self).inv_scale_req(other.sub_spec(self))
    }

    fn lerp(self, other: Self, t: S) -> (r: Self) {
        self.mul_s(S::sub(S::one(), t)).add(other.mul_s(t))
    }

    fn lerp_c(self, other: Self, t: Self) -> (r: Self) {
        self.scale(Vector4::one(S::one()).sub(t)).add(other.scale(t))
    }

    fn inv_lerp(self, other: Self, res: Self) -> (r: Self) {
        res.sub(self).inv_scale(other.sub(self))
    }
}

/// Interpolating over the 32-bit signed integers with the factor 0 returns
/// the start value, and with the factor 1 the end value.
pub proof fn lemma_lerp_i32_endpoints(a: i32, b: i32)
    ensures
        a.lerp_spec(b, 0i32) == a,
        a.lerp_spec(b, 1i32) == b,
{
    assert(<i32 as Scalar>::mul_spec(a, 1i32) == a);
    assert(<i32 as Scalar>::mul_spec(b, 0i32) == 0i32);
    assert(<i32 as Scalar>::mul_spec(a, 0i32) == 0i32);
    assert(<i32 as Scalar>::mul_spec(b, 1i32) == b);
}

/// Over the 32-bit signed integers, `inv_lerp` recovers the factor from an
/// interpolated value at both of the kind's interpolation factors, 0 and 1,
/// whenever the two interpolation ends differ.
pub proof fn lemma_inv_lerp_i32_roundtrip(a: i32, b: i32)
    requires
        a != b,
    ensures
        a.inv_lerp_req(b, a.lerp_spec(b, 0i32)),
        a.inv_lerp_spec(b, a.lerp_spec(b, 0i32)) == 0i32,
        a.inv_lerp_req(b, a.lerp_spec(b, 1i32)),
        a.inv_lerp_spec(b, a.lerp_spec(b, 1i32)) == 1i32,
{
    lemma_lerp_i32_endpoints(a, b);
    let d = <i32 as Scalar>::sub_spec(b, a);
    assert(d != 0);
    let zero_diff = <i32 as Scalar>::sub_spec(a, a);
    assert(zero_diff == 0);
    assert(0i32.checked_div(d) == Some(0i32));
    if d > 0 {
        vstd::arithmetic::div_mod::lemma_div_by_self(d as int);
    } else {
        vstd::arithmetic::div_mod::lemma_div_by_self(d as int * -1);
    }
    assert(d.checked_div(d) == Some(1i32));
}

} // verus!
