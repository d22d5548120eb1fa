use vstd::prelude::*;

use crate::scalar::{Element, FloatScalar};
use crate::vector3::Vector3;

verus! {

/// A quaternion (real, i, j, k) over a floating-point element kind. It
/// represents a rotation when normalized; the type itself does not enforce
/// unit length, so callers that accumulate products must normalize before
/// using a quaternion as a rotation.
#[derive(Clone, Copy, Debug)]
pub struct Quaternion<S: Copy>(pub S, pub S, pub S, pub S);

impl<S: Element> PartialEq for Quaternion<S> {
    /// Componentwise test with the element kind's own equality.
    fn eq(&self, other: &Self) -> (r: bool) {
        S::eq_val(self.0, other.0) && S::eq_val(self.1, other.1) && S::eq_val(self.2, other.2)
            && S::eq_val(self.3, other.3)
    }
}

impl<S: Element> vstd::std_specs::cmp::PartialEqSpecImpl for Quaternion<S> {
    open spec fn obeys_eq_spec() -> bool {
        true
    }

    open spec fn eq_spec(&self, other: &Self) -> bool {
        S::eq_val_spec(self.0, other.0) && S::eq_val_spec(self.1, other.1) && S::eq_val_spec(
            self.2,
            other.2,
        ) && S::eq_val_spec(self.3, other.3)
    }
}

impl<S: FloatScalar> Quaternion<S> {
    pub open spec fn ident_spec() -> Self {
        Quaternion(S::one_spec(), S::zero_spec(), S::zero_spec(), S::zero_spec())
    }

    /// The identity rotation (1, 0, 0, 0).
    pub fn ident() -> (r: Self)
        ensures
            r == Self::ident_spec(),
    {
        Quaternion(S::one(), S::zero(), S::zero(), S::zero())
    }

    pub open spec fn i_spec() -> Self {
        Quaternion(S::zero_spec(), S::one_spec(), S::zero_spec(), S::zero_spec())
    }

    /// The imaginary unit i, (0, 1, 0, 0).
    pub fn i() -> (r: Self)
        ensures
            r == Self::i_spec(),
    {
        Quaternion(S::zero(), S::one(), S::zero(), S::zero())
    }

    pub open spec fn j_spec() -> Self {
        Quaternion(S::zero_spec(), S::zero_spec(), S::one_spec(), S::zero_spec())
    }

    /// The imaginary unit j, (0, 0, 1, 0).
    pub fn j() -> (r: Self)
        ensures
            r == Self::j_spec(),
    {
        Quaternion(S::zero(), S::zero(), S::one(), S::zero())
    }

    pub open spec fn k_spec() -> Self {
        Quaternion(S::zero_spec(), S::zero_spec(), S::zero_spec(), S::one_spec())
    }

    /// The imaginary unit k, (0, 0, 0, 1).
    pub fn k() -> (r: Self)
        ensures
            r == Self::k_spec(),
    {
        Quaternion(S::zero(), S::zero(), S::zero(), S::one())
    }

    pub open spec fn from_split_spec(re: S, im: Vector3<S>) -> Self {
        Quaternion(re, im.0, im.1, im.2)
    }

    /// Assembles a quaternion from its real part and its imaginary vector.
    pub fn from_split(re: S, im: Vector3<S>) -> (r: Self)
        ensures
            r == Self::from_split_spec(re, im),
    {
        Quaternion(re, im.0, im.1, im.2)
    }

    pub open spec fn rotator_spec(axis_angle: Vector3<S>) -> Self {
        let theta = S::mul_spec(axis_angle.magnitude_spec(), S::half_spec());
        Self::from_split_spec(
            S::cos_spec(theta),
            axis_angle.normalized_spec().mul_s_spec(S::sin_spec(theta)),
        )
    }

    /// The rotation about the direction of `axis_angle` by the angle that is
    /// its magnitude, in radians: (cos(angle/2), axis * sin(angle/2)).
    pub fn rotator(axis_angle: Vector3<S>) -> (r: Self)
        ensures
            r == Self::rotator_spec(axis_angle),
    {
        let theta = S::mul(axis_angle.magnitude(), S::half());
        let axis = axis_angle.normalized();
        Self::from_split(S::cos(theta), axis.mul_s(S::sin(theta)))
    }

    pub open spec fn rotator_euler_spec(euler: Vector3<S>) -> Self {
        let pitch = S::neg_spec(euler.0);
        let yaw = euler.1;
        let roll = euler.2;
        let sp = S::sin_spec(S::mul_spec(pitch, S::half_spec()));
        let cp = S::cos_spec(S::mul_spec(pitch, S::half_spec()));
        let sy = S::sin_spec(S::mul_spec(yaw, S::half_spec()));
        let cy = S::cos_spec(S::mul_spec(yaw, S::half_spec()));
        let sr = S::sin_spec(S::mul_spec(roll, S::half_spec()));
        let cr = S::cos_spec(S::mul_spec(roll, S::half_spec()));
        Quaternion(
            S::add_spec(
                S::mul_spec(S::mul_spec(cp, cy), cr),
                S::mul_spec(S::mul_spec(sp, sy), sr),
            ),
            S::sub_spec(
                S::mul_spec(S::mul_spec(sp, cy), cr),
                S::mul_spec(S::mul_spec(cp, sy), sr),
            ),
            S::add_spec(
                S::mul_spec(S::mul_spec(cp, sy), cr),
                S::mul_spec(S::mul_spec(sp, cy), sr),
            ),
            S::sub_spec(
                S::mul_spec(S::mul_spec(cp, cy), sr),
                S::mul_spec(S::mul_spec(sp, sy), cr),
            ),
        )
    }

    /// The 3-2-1 Euler-angle (pitch, yaw, roll) rotation. The pitch is
    /// negated on entry: a deliberate handedness convention, not a mistake.
    pub fn rotator_euler(euler: Vector3<S>) -> (r: Self)
        ensures
            r == Self::rotator_euler_spec(euler),
    {
        let pitch = S::neg(euler.0);
        let yaw = euler.1;
        let roll = euler.2;
        let sp = S::sin(S::mul(pitch, S::half()));
        let cp = S::cos(S::mul(pitch, S::half()));
        let sy = S::sin(S::mul(yaw, S::half()));
        let cy = S::cos(S::mul(yaw, S::half()));
        let sr = S::sin(S::mul(roll, S::half()));
        let cr = S::cos(S::mul(roll, S::half()));
        Quaternion(
            S::add(S::mul(S::mul(cp, cy), cr), S::mul(S::mul(sp, sy), sr)),
            S::sub(S::mul(S::mul(sp, cy), cr), S::mul(S::mul(cp, sy), sr)),
            S::add(S::mul(S::mul(cp, sy), cr), S::mul(S::mul(sp, cy), sr)),
            S::sub(S::mul(S::mul(cp, cy), sr), S::mul(S::mul(sp, sy), cr)),
        )
    }

    pub open spec fn sqr_norm_spec(self) -> S {
        S::add_spec(
            S::add_spec(
                S::add_spec(
                    S::mul_spec(self.0, self.0),
                    S::mul_spec(self.1, self.1),
                ),
                S::mul_spec(self.2, self.2),
            ),
            S::mul_spec(self.3, self.3),
        )
    }

    pub open spec fn inverted_spec(self) -> Self {
        let inv_sqr_norm = S::div_spec(S::one_spec(), self.sqr_norm_spec());
        Quaternion(
            S::mul_spec(self.0, inv_sqr_norm),
            S::mul_spec(S::neg_spec(self.1), inv_sqr_norm),
            S::mul_spec(S::neg_spec(self.2), inv_sqr_norm),
            S::mul_spec(S::neg_spec(self.3), inv_sqr_norm),
        )
    }

    /// The multiplicative inverse of a possibly non-unit quaternion: the
    /// conjugate's components over the squared norm. The division is
    /// unguarded for the zero quaternion.
    pub fn inverted(self) -> (r: Self)
        ensures
            r == self.inverted_spec(),
    {
        let sqr_norm = S::add(
            S::add(
                S::add(S::mul(self.0, self.0), S::mul(self.1, self.1)),
                S::mul(self.2, self.2),
            ),
            S::mul(self.3, self.3),
        );
        proof {
            S::div_total(S::one_spec(), sqr_norm);
        }
        let inv_sqr_norm = S::div(S::one(), sqr_norm);
        Quaternion(
            S::mul(self.0, inv_sqr_norm),
            S::mul(S::neg(self.1), inv_sqr_norm),
            S::mul(S::neg(self.2), inv_sqr_norm),
            S::mul(S::neg(self.3), inv_sqr_norm),
        )
    }

    pub open spec fn norm_spec(self) -> S {
        S::sqrt_spec(self.sqr_norm_spec())
    }

    /// The Euclidean norm of the four components.
    pub fn norm(self) -> (r: S)
        ensures
            r == self.norm_spec(),
    {
        S::sqrt(
            S::add(
                S::add(
                    S::add(S::mul(self.0, self.0), S::mul(self.1, self.1)),
                    S::mul(self.2, self.2),
                ),
                S::mul(self.3, self.3),
            ),
        )
    }

    pub open spec fn normalized_spec(self) -> Self {
        let inv_norm = S::div_spec(S::one_spec(), self.norm_spec());
        Quaternion(
            S::mul_spec(self.0, inv_norm),
            S::mul_spec(self.1, inv_norm),
            S::mul_spec(self.2, inv_norm),
            S::mul_spec(self.3, inv_norm),
        )
    }

    /// The quaternion scaled by the reciprocal of its norm. Unguarded for
    /// the zero quaternion.
    pub fn normalized(self) -> (r: Self)
        ensures
            r == self.normalized_spec(),
    {
        let n = self.norm();
        proof {
            S::div_total(S::one_spec(), n);
        }
        let inv_norm = S::div(S::one(), n);
        Quaternion(
            S::mul(self.0, inv_norm),
            S::mul(self.1, inv_norm),
            S::mul(self.2, inv_norm),
            S::mul(self.3, inv_norm),
        )
    }

    /// Overwrites the quaternion with its normalized value.
    pub fn normalize(&mut self)
        ensures
            *final(self) == old(self).div_s_spec(old(self).norm_spec()),
    {
        let n = self.norm();
        *self = self.div_s(n);
    }

    pub open spec fn conjugate_spec(self) -> Self {
        Quaternion(self.0, S::neg_spec(self.1), S::neg_spec(self.2), S::neg_spec(self.3))
    }

    /// The conjugate: the imaginary part negated. It is an inverse only for
    /// a unit quaternion.
    pub fn conjugate(&self) -> (r: Self)
        ensures
            r == self.conjugate_spec(),
    {
        Quaternion(self.0, S::neg(self.1), S::neg(self.2), S::neg(self.3))
    }

    pub open spec fn vector_spec(self) -> Vector3<S> {
        Vector3(self.1, self.2, self.3)
    }

    /// The imaginary part as a vector.
    pub fn vector(&self) -> (r: Vector3<S>)
        ensures
            r == self.vector_spec(),
    {
        Vector3(self.1, self.2, self.3)
    }

    pub open spec fn basis_spec(self) -> (Vector3<S>, Vector3<S>, Vector3<S>) {
        let x = Vector3::<S>::right_of_spec(S::one_spec()).rotate_spec(self).normalized_spec();
        let y = Vector3::<S>::up_of_spec(S::one_spec()).rotate_spec(self).normalized_spec();
        (x, y, x.cross_spec(y))
    }

    /// The rotated orthonormal (right, up, forward) triple. Forward is
    /// recomputed as the cross product of the other two rather than rotated
    /// directly, which keeps the triple orthogonal even when the rotated
    /// axes carry small normalization error.
    pub fn basis(&self) -> (r: (Vector3<S>, Vector3<S>, Vector3<S>))
        ensures
            r == self.basis_spec(),
    {
        let x = Vector3::<S>::right(S::one()).rotate(*self).normalized();
        let y = Vector3::<S>::up(S::one()).rotate(*self).normalized();
        (x, y, x.cross(y))
    }

    /// The rotated forward axis, from `basis`.
    pub fn forw(&self) -> (r: Vector3<S>)
        ensures
            r == self.basis_spec().2,
    {
        self.basis().2
    }

    pub open spec fn add_spec(self, rhs: Self) -> Self {
        Quaternion(
            S::add_spec(self.0, rhs.0),
            S::add_spec(self.1, rhs.1),
            S::add_spec(self.2, rhs.2),
            S::add_spec(self.3, rhs.3),
        )
    }

    /// The componentwise sum.
    pub fn add(self, rhs: Self) -> (r: Self)
        ensures
            r == self.add_spec(rhs),
    {
        Quaternion(
            S::add(self.0, rhs.0),
            S::add(self.1, rhs.1),
            S::add(self.2, rhs.2),
            S::add(self.3, rhs.3),
        )
    }

    /// Overwrites the quaternion with the componentwise sum.
    pub fn add_assign(&mut self, rhs: Self)
        ensures
            *final(self) == old(self).add_spec(rhs),
    {
        *self = self.add(rhs);
    }

    pub open spec fn mul_s_spec(self, rhs: S) -> Self {
        Quaternion(
            S::mul_spec(self.0, rhs),
            S::mul_spec(self.1, rhs),
            S::mul_spec(self.2, rhs),
            S::mul_spec(self.3, rhs),
        )
    }

    /// Multiplies every component by the scalar.
    pub fn mul_s(self, rhs: S) -> (r: Self)
        ensures
            r == self.mul_s_spec(rhs),
    {
        Quaternion(S::mul(self.0, rhs), S::mul(self.1, rhs), S::mul(self.2, rhs), S::mul(self.3, rhs))
    }

    /// Overwrites the quaternion with the scalar product.
    pub fn mul_assign(&mut self, rhs: S)
        ensures
            *final(self) == old(self).mul_s_spec(rhs),
    {
        *self = self.mul_s(rhs);
    }

    pub open spec fn div_s_spec(self, rhs: S) -> Self {
        self.mul_s_spec(S::div_spec(S::one_spec(), rhs))
    }

    /// Divides every component by the scalar, computed as a product with the
    /// scalar's reciprocal. Unguarded for a zero divisor.
    pub fn div_s(self, rhs: S) -> (r: Self)
        ensures
            r == self.div_s_spec(rhs),
    {
        proof {
            S::div_total(S::one_spec(), rhs);
        }
        let recip = S::div(S::one(), rhs);
        self.mul_s(recip)
    }

    /// Overwrites the quaternion with the scalar quotient.
    pub fn div_assign(&mut self, rhs: S)
        ensures
            *final(self) == old(self).div_s_spec(rhs),
    {
        *self = self.div_s(rhs);
    }

    pub open spec fn mul_q_spec(self, rhs: Self) -> Self {
        Quaternion(
            S::sub_spec(
                S::sub_spec(
                    S::sub_spec(
                        S::mul_spec(self.0, rhs.0),
                        S::mul_spec(self.1, rhs.1),
                    ),
                    S::mul_spec(self.2, rhs.2),
                ),
                S::mul_spec(self.3, rhs.3),
            ),
            S::sub_spec(
                S::add_spec(
                    S::add_spec(
                        S::mul_spec(self.0, rhs.1),
                        S::mul_spec(self.1, rhs.0),
                    ),
                    S::mul_spec(self.2, rhs.3),
                ),
                S::mul_spec(self.3, rhs.2),
            ),
            S::add_spec(
                S::add_spec(
                    S::sub_spec(
                        S::mul_spec(self.0, rhs.2),
                        S::mul_spec(self.1, rhs.3),
                    ),
                    S::mul_spec(self.2, rhs.0),
                ),
                S::mul_spec(self.3, rhs.1),
            ),
            S::add_spec(
                S::sub_spec(
                    S::add_spec(
                        S::mul_spec(self.0, rhs.3),
                        S::mul_spec(self.1, rhs.2),
                    ),
                    S::mul_spec(self.2, rhs.1),
                ),
                S::mul_spec(self.3, rhs.0),
            ),
        )
    }

    /// The Hamilton product (a, u)(b, v) = (ab - u.v, av + bu + u x v), in
    /// exactly this sign convention; swapping conventions would change the
    /// composition order of rotations.
    pub fn mul_q(self, rhs: Self) -> (r: Self)
        ensures
            r == self.mul_q_spec(rhs),
    {
        Quaternion(
            S::sub(
                S::sub(
                    S::sub(S::mul(self.0, rhs.0), S::mul(self.1, rhs.1)),
                    S::mul(self.2, rhs.2),
                ),
                S::mul(self.3, rhs.3),
            ),
            S::sub(
                S::add(
                    S::add(S::mul(self.0, rhs.1), S::mul(self.1, rhs.0)),
                    S::mul(self.2, rhs.3),
                ),
                S::mul(self.3, rhs.2),
            ),
            S::add(
                S::add(
                    S::sub(S::mul(self.0, rhs.2), S::mul(self.1, rhs.3)),
                    S::mul(self.2, rhs.0),
                ),
                S::mul(self.3, rhs.1),
            ),
            S::add(
                S::sub(
                    S::add(S::mul(self.0, rhs.3), S::mul(self.1, rhs.2)),
                    S::mul(self.2, rhs.1),
                ),
                S::mul(self.3, rhs.0),
            ),
        )
    }

    /// Overwrites the quaternion with the Hamilton product.
    pub fn mul_assign_q(&mut self, rhs: Self)
        ensures
            *final(self) == old(self).mul_q_spec(rhs),
    {
        *self = self.mul_q(rhs);
    }

    pub open spec fn from_vector_spec(value: Vector3<S>) -> Self {
        Quaternion(S::zero_spec(), value.0, value.1, value.2)
    }

    /// The pure-vector quaternion with the given imaginary part.
    pub fn from_vector(value: Vector3<S>) -> (r: Self)
        ensures
            r == Self::from_vector_spec(value),
    {
        Quaternion(S::zero(), value.0, value.1, value.2)
    }
}

} // verus!
