use vstd::prelude::*;

use crate::scalar::{Element, FloatScalar, Scalar, ScalarCast, SignedScalar};
use crate::vector2::Vector2;
use crate::vector3::Vector3;

verus! {


/// A four-component vector over an element kind `S`, stored as the ordered
/// quadruple (x, y, z, w) with no hidden padding, with value semantics.
#[derive(Clone, Copy, Debug)]
pub struct Vector4<S: Copy>(pub S, pub S, pub S, pub S);

pub type Vector4bool = Vector4<bool>;

pub type Vector4i32 = Vector4<i32>;

pub type Vector4u32 = Vector4<u32>;

impl<S: Element> PartialEq for Vector4<S> {
    /// Componentwise test with the element kind's own equality.
    fn eq(&self, other: &Self) -> (r: bool) {
        S::eq_val(self.0, other.0) && S::eq_val(self.1, other.1) && S::eq_val(self.2, other.2)
            && S::eq_val(self.3, other.3)
    }
}

impl<S: Element> vstd::std_specs::cmp::PartialEqSpecImpl for Vector4<S> {
    open spec fn obeys_eq_spec() -> bool {
        true
    }

    open spec fn eq_spec(&self, other: &Self) -> bool {
        S::eq_val_spec(self.0, other.0) && S::eq_val_spec(self.1, other.1) && S::eq_val_spec(
            self.2,
            other.2,
        ) && S::eq_val_spec(self.3, other.3)
    }
}

impl<S: Copy> Vector4<S> {
    pub fn x(self) -> (r: S)
        ensures
            r == self.0,
    {
        self.0
    }

    pub fn y(self) -> (r: S)
        ensures
            r == self.1,
    {
        self.1
    }

    pub fn z(self) -> (r: S)
        ensures
            r == self.2,
    {
        self.2
    }

    pub fn w(self) -> (r: S)
        ensures
            r == self.3,
    {
        self.3
    }

    /// The (x, y) plane projection.
    pub fn xy(self) -> (r: Vector2<S>)
        ensures
            r == (Vector2(self.0, self.1)),
    {
        Vector2(self.0, self.1)
    }

    /// The (y, z) plane projection.
    pub fn yz(self) -> (r: Vector2<S>)
        ensures
            r == (Vector2(self.1, self.2)),
    {
        Vector2(self.1, self.2)
    }

    /// The (z, w) plane projection.
    pub fn zw(self) -> (r: Vector2<S>)
        ensures
            r == (Vector2(self.2, self.3)),
    {
        Vector2(self.2, self.3)
    }

    /// The (x, z) plane projection.
    pub fn xz(self) -> (r: Vector2<S>)
        ensures
            r == (Vector2(self.0, self.2)),
    {
        Vector2(self.0, self.2)
    }

    /// The (y, w) plane projection.
    pub fn yw(self) -> (r: Vector2<S>)
        ensures
            r == (Vector2(self.1, self.3)),
    {
        Vector2(self.1, self.3)
    }

    /// The (x, y, z) space projection.
    pub fn xyz(self) -> (r: Vector3<S>)
        ensures
            r == (Vector3(self.0, self.1, self.2)),
    {
        Vector3(self.0, self.1, self.2)
    }

    /// The (x, y, w) space projection.
    pub fn xyw(self) -> (r: Vector3<S>)
        ensures
            r == (Vector3(self.0, self.1, self.3)),
    {
        Vector3(self.0, self.1, self.3)
    }

    /// The (x, z, w) space projection.
    pub fn xzw(self) -> (r: Vector3<S>)
        ensures
            r == (Vector3(self.0, self.2, self.3)),
    {
        Vector3(self.0, self.2, self.3)
    }

    /// The (y, z, w) space projection.
    pub fn yzw(self) -> (r: Vector3<S>)
        ensures
            r == (Vector3(self.1, self.2, self.3)),
    {
        Vector3(self.1, self.2, self.3)
    }

    pub fn set_x(&mut self, x: S)
        ensures
            *final(self) == (Vector4(x, old(self).1, old(self).2, old(self).3)),
    {
        self.0 = x;
    }

    pub fn set_y(&mut self, y: S)
        ensures
            *final(self) == (Vector4(old(self).0, y, old(self).2, old(self).3)),
    {
        self.1 = y;
    }

    pub fn set_z(&mut self, z: S)
        ensures
            *final(self) == (Vector4(old(self).0, old(self).1, z, old(self).3)),
    {
        self.2 = z;
    }

    pub fn set_w(&mut self, w: S)
        ensures
            *final(self) == (Vector4(old(self).0, old(self).1, old(self).2, w)),
    {
        self.3 = w;
    }
}

impl<S: Element> Vector4<S> {
    pub open spec fn zero_spec() -> Self {
        Vector4(S::zero_spec(), S::zero_spec(), S::zero_spec(), S::zero_spec())
    }

    /// The vector with every component zero.
    pub fn zero() -> (r: Self)
        ensures
            r == Self::zero_spec(),
    {
        Vector4(S::zero(), S::zero(), S::zero(), S::zero())
    }

    pub open spec fn up_of_spec(fact: S) -> Self {
        Vector4(S::zero_spec(), fact, S::zero_spec(), S::zero_spec())
    }

    /// The vector along the positive y axis with the given length.
    pub fn up(fact: S) -> (r: Self)
        ensures
            r == Self::up_of_spec(fact),
    {
        Vector4(S::zero(), fact, S::zero(), S::zero())
    }

    pub open spec fn right_of_spec(fact: S) -> Self {
        Vector4(fact, S::zero_spec(), S::zero_spec(), S::zero_spec())
    }

    /// The vector along the positive x axis with the given length.
    pub fn right(fact: S) -> (r: Self)
        ensures
            r == Self::right_of_spec(fact),
    {
        Vector4(fact, S::zero(), S::zero(), S::zero())
    }

    pub open spec fn forw_of_spec(fact: S) -> Self {
        Vector4(S::zero_spec(), S::zero_spec(), fact, S::zero_spec())
    }

    /// The vector along the positive z axis with the given length.
    pub fn forw(fact: S) -> (r: Self)
        ensures
            r == Self::forw_of_spec(fact),
    {
        Vector4(S::zero(), S::zero(), fact, S::zero())
    }

    pub open spec fn posw_of_spec(fact: S) -> Self {
        Vector4(S::zero_spec(), S::zero_spec(), S::zero_spec(), fact)
    }

    /// The vector along the positive w axis with the given length.
    pub fn posw(fact: S) -> (r: Self)
        ensures
            r == Self::posw_of_spec(fact),
    {
        Vector4(S::zero(), S::zero(), S::zero(), fact)
    }

    pub open spec fn one_of_spec(fact: S) -> Self {
        Vector4(fact, fact, fact, fact)
    }

    /// The vector with the given value in every component.
    pub fn one(fact: S) -> (r: Self)
        ensures
            r == Self::one_of_spec(fact),
    {
        Vector4(fact, fact, fact, fact)
    }

    pub open spec fn xvec_spec(self) -> Self {
        Vector4(self.0, S::zero_spec(), S::zero_spec(), S::zero_spec())
    }

    /// The projection onto the x axis.
    pub fn xvec(self) -> (r: Self)
        ensures
            r == self.xvec_spec(),
    {
        Vector4(self.0, S::zero(), S::zero(), S::zero())
    }

    pub open spec fn yvec_spec(self) -> Self {
        Vector4(S::zero_spec(), self.1, S::zero_spec(), S::zero_spec())
    }

    /// The projection onto the y axis.
    pub fn yvec(self) -> (r: Self)
        ensures
            r == self.yvec_spec(),
    {
        Vector4(S::zero(), self.1, S::zero(), S::zero())
    }

    pub open spec fn zvec_spec(self) -> Self {
        Vector4(S::zero_spec(), S::zero_spec(), self.2, S::zero_spec())
    }

    /// The projection onto the z axis.
    pub fn zvec(self) -> (r: Self)
        ensures
            r == self.zvec_spec(),
    {
        Vector4(S::zero(), S::zero(), self.2, S::zero())
    }

    pub open spec fn wvec_spec(self) -> Self {
        Vector4(S::zero_spec(), S::zero_spec(), S::zero_spec(), self.3)
    }

    /// The projection onto the w axis.
    pub fn wvec(self) -> (r: Self)
        ensures
            r == self.wvec_spec(),
    {
        Vector4(S::zero(), S::zero(), S::zero(), self.3)
    }

    pub open spec fn cast_spec<T: Copy>(self) -> Vector4<T> where S: ScalarCast<T> {
        Vector4(
            S::cast_spec(self.0),
            S::cast_spec(self.1),
            S::cast_spec(self.2),
            S::cast_spec(self.3),
        )
    }

    /// Converts each component to the element kind `T`.
    pub fn cast<T: Copy>(self) -> (r: Vector4<T>) where S: ScalarCast<T>
        ensures
            r == self.cast_spec::<T>(),
    {
        Vector4(S::cast(self.0), S::cast(self.1), S::cast(self.2), S::cast(self.3))
    }
}

impl<S: SignedScalar> Vector4<S> {
    pub open spec fn down_of_spec(fact: S) -> Self {
        Vector4(S::zero_spec(), S::neg_spec(fact), S::zero_spec(), S::zero_spec())
    }

    /// The vector along the negative y axis with the given length.
    pub fn down(fact: S) -> (r: Self)
        ensures
            r == Self::down_of_spec(fact),
    {
        Vector4(S::zero(), S::neg(fact), S::zero(), S::zero())
    }

    pub open spec fn left_of_spec(fact: S) -> Self {
        Vector4(S::neg_spec(fact), S::zero_spec(), S::zero_spec(), S::zero_spec())
    }

    /// The vector along the negative x axis with the given length.
    pub fn left(fact: S) -> (r: Self)
        ensures
            r == Self::left_of_spec(fact),
    {
        Vector4(S::neg(fact), S::zero(), S::zero(), S::zero())
    }

    pub open spec fn back_of_spec(fact: S) -> Self {
        Vector4(S::zero_spec(), S::zero_spec(), S::neg_spec(fact), S::zero_spec())
    }

    /// The vector along the negative z axis with the given length.
    pub fn back(fact: S) -> (r: Self)
        ensures
            r == Self::back_of_spec(fact),
    {
        Vector4(S::zero(), S::zero(), S::neg(fact), S::zero())
    }

    pub open spec fn negw_of_spec(fact: S) -> Self {
        Vector4(S::zero_spec(), S::zero_spec(), S::zero_spec(), S::neg_spec(fact))
    }

    /// The vector along the negative w axis with the given length.
    pub fn negw(fact: S) -> (r: Self)
        ensures
            r == Self::negw_of_spec(fact),
    {
        Vector4(S::zero(), S::zero(), S::zero(), S::neg(fact))
    }
}

impl<S: Scalar> Vector4<S> {
    pub open spec fn dot_spec(self, other: Self) -> S {
        S::add_spec(
            S::add_spec(
                S::add_spec(
                    S::mul_spec(self.0, other.0),
                    S::mul_spec(self.1, other.1),
                ),
                S::mul_spec(self.2, other.2),
            ),
            S::mul_spec(self.3, other.3),
        )
    }

    /// The dot product: the sum of the componentwise products.
    pub fn dot(self, other: Self) -> (r: S)
        ensures
            r == self.dot_spec(other),
    {
        S::add(
            S::add(
                S::add(S::mul(self.0, other.0), S::mul(self.1, other.1)),
                S::mul(self.2, other.2),
            ),
            S::mul(self.3, other.3),
        )
    }

    pub open spec fn sqr_magnitude_spec(self) -> S {
        self.dot_spec(self)
    }

    /// The squared Euclidean length: the dot product of the vector with itself.
    pub fn sqr_magnitude(self) -> (r: S)
        ensures
            r == self.sqr_magnitude_spec(),
    {
        self.dot(self)
    }

    pub open spec fn scale_spec(self, other: Self) -> Self {
        Vector4(
            S::mul_spec(self.0, other.0),
            S::mul_spec(self.1, other.1),
            S::mul_spec(self.2, other.2),
            S::mul_spec(self.3, other.3),
        )
    }

    /// Multiplies the vectors componentwise.
    pub fn scale(self, other: Self) -> (r: Self)
        ensures
            r == self.scale_spec(other),
    {
        Vector4(
            S::mul(self.0, other.0),
            S::mul(self.1, other.1),
            S::mul(self.2, other.2),
            S::mul(self.3, other.3),
        )
    }

    pub open spec fn inv_scale_spec(self, other: Self) -> Self {
        Vector4(
            S::div_spec(self.0, other.0),
            S::div_spec(self.1, other.1),
            S::div_spec(self.2, other.2),
            S::div_spec(self.3, other.3),
        )
    }

    pub open spec fn inv_scale_req(self, other: Self) -> bool {
        S::div_req(self.0, other.0) && S::div_req(self.1, other.1) && S::div_req(
            self.2,
            other.2,
        ) && S::div_req(self.3, other.3)
    }

    /// Divides the vectors componentwise.
    pub fn inv_scale(self, other: Self) -> (r: Self)
        requires
            self.inv_scale_req(other),
        ensures
            r == self.inv_scale_spec(other),
    {
        Vector4(
            S::div(self.0, other.0),
            S::div(self.1, other.1),
            S::div(self.2, other.2),
            S::div(self.3, other.3),
        )
    }

    pub open spec fn min_spec(self, other: Self) -> Self {
        Vector4(
            S::min_spec(self.0, other.0),
            S::min_spec(self.1, other.1),
            S::min_spec(self.2, other.2),
            S::min_spec(self.3, other.3),
        )
    }

    /// The componentwise minimum.
    pub fn min(self, other: Self) -> (r: Self)
        ensures
            r == self.min_spec(other),
    {
        Vector4(
            S::min(self.0, other.0),
            S::min(self.1, other.1),
            S::min(self.2, other.2),
            S::min(self.3, other.3),
        )
    }

    pub open spec fn max_spec(self, other: Self) -> Self {
        Vector4(
            S::max_spec(self.0, other.0),
            S::max_spec(self.1, other.1),
            S::max_spec(self.2, other.2),
            S::max_spec(self.3, other.3),
        )
    }

    /// The componentwise maximum.
    pub fn max(self, other: Self) -> (r: Self)
        ensures
            r == self.max_spec(other),
    {
        Vector4(
            S::max(self.0, other.0),
            S::max(self.1, other.1),
            S::max(self.2, other.2),
            S::max(self.3, other.3),
        )
    }

    pub open spec fn clamp_spec(self, min: Self, max: Self) -> Self {
        self.max_spec(min).min_spec(max)
    }

    /// Clamps each component between the corresponding components of the two
    /// bounds; the result is unspecified by design where a lower bound
    /// exceeds an upper bound.
    pub fn clamp(self, min: Self, max: Self) -> (r: Self)
        ensures
            r == self.clamp_spec(min, max),
    {
        self.max(min).min(max)
    }

    pub open spec fn max_axis_spec(self) -> S {
        S::max_spec(S::max_spec(S::max_spec(self.0, self.1), self.2), self.3)
    }

    /// The largest component.
    pub fn max_axis(self) -> (r: S)
        ensures
            r == self.max_axis_spec(),
    {
        S::max(S::max(S::max(self.0, self.1), self.2), self.3)
    }

    pub open spec fn min_axis_spec(self) -> S {
        S::min_spec(S::min_spec(S::min_spec(self.0, self.1), self.2), self.3)
    }

    /// The smallest component.
    pub fn min_axis(self) -> (r: S)
        ensures
            r == self.min_axis_spec(),
    {
        S::min(S::min(S::min(self.0, self.1), self.2), self.3)
    }

    pub open spec fn add_spec(self, rhs: Self) -> Self {
        Vector4(
            S::add_spec(self.0, rhs.0),
            S::add_spec(self.1, rhs.1),
            S::add_spec(self.2, rhs.2),
            S::add_spec(self.3, rhs.3),
        )
    }

    /// The componentwise sum.
    pub fn add(self, rhs: Self) -> (r: Self)
        ensures
            r == self.add_spec(rhs),
    {
        Vector4(
            S::add(self.0, rhs.0),
            S::add(self.1, rhs.1),
            S::add(self.2, rhs.2),
            S::add(self.3, rhs.3),
        )
    }

    /// Overwrites the vector with the componentwise sum.
    pub fn add_assign(&mut self, rhs: Self)
        ensures
            *final(self) == old(self).add_spec(rhs),
    {
        *self = self.add(rhs);
    }

    pub open spec fn sub_spec(self, rhs: Self) -> Self {
        Vector4(
            S::sub_spec(self.0, rhs.0),
            S::sub_spec(self.1, rhs.1),
            S::sub_spec(self.2, rhs.2),
            S::sub_spec(self.3, rhs.3),
        )
    }

    /// The componentwise difference.
    pub fn sub(self, rhs: Self) -> (r: Self)
        ensures
            r == self.sub_spec(rhs),
    {
        Vector4(
            S::sub(self.0, rhs.0),
            S::sub(self.1, rhs.1),
            S::sub(self.2, rhs.2),
            S::sub(self.3, rhs.3),
        )
    }

    /// Overwrites the vector with the componentwise difference.
    pub fn sub_assign(&mut self, rhs: Self)
        ensures
            *final(self) == old(self).sub_spec(rhs),
    {
        *self = self.sub(rhs);
    }

    pub open spec fn mul_s_spec(self, rhs: S) -> Self {
        Vector4(
            S::mul_spec(self.0, rhs),
            S::mul_spec(self.1, rhs),
            S::mul_spec(self.2, rhs),
            S::mul_spec(self.3, rhs),
        )
    }

    /// Multiplies every component by the scalar.
    pub fn mul_s(self, rhs: S) -> (r: Self)
        ensures
            r == self.mul_s_spec(rhs),
    {
        Vector4(S::mul(self.0, rhs), S::mul(self.1, rhs), S::mul(self.2, rhs), S::mul(self.3, rhs))
    }

    /// Overwrites the vector with the scalar product.
    pub fn mul_assign(&mut self, rhs: S)
        ensures
            *final(self) == old(self).mul_s_spec(rhs),
    {
        *self = self.mul_s(rhs);
    }

    pub open spec fn div_s_spec(self, rhs: S) -> Self {
        Vector4(
            S::div_spec(self.0, rhs),
            S::div_spec(self.1, rhs),
            S::div_spec(self.2, rhs),
            S::div_spec(self.3, rhs),
        )
    }

    pub open spec fn div_s_req(self, rhs: S) -> bool {
        S::div_req(self.0, rhs) && S::div_req(self.1, rhs) && S::div_req(self.2, rhs)
            && S::div_req(self.3, rhs)
    }

    /// Divides every component by the scalar.
    pub fn div_s(self, rhs: S) -> (r: Self)
        requires
            self.div_s_req(rhs),
        ensures
            r == self.div_s_spec(rhs),
    {
        Vector4(S::div(self.0, rhs), S::div(self.1, rhs), S::div(self.2, rhs), S::div(self.3, rhs))
    }

    /// Overwrites the vector with the scalar quotient.
    pub fn div_assign(&mut self, rhs: S)
        requires
            old(self).div_s_req(rhs),
        ensures
            *final(self) == old(self).div_s_spec(rhs),
    {
        *self = self.div_s(rhs);
    }
}

impl<S: FloatScalar> Vector4<S> {
    /// Whether every component compares equal to the kind's zero.
    pub open spec fn is_zero_spec(self) -> bool {
        S::eq_val_spec(self.0, S::zero_spec()) && S::eq_val_spec(self.1, S::zero_spec())
            && S::eq_val_spec(self.2, S::zero_spec()) && S::eq_val_spec(self.3, S::zero_spec())
    }

    pub open spec fn magnitude_spec(self) -> S {
        if self.is_zero_spec() {
            S::zero_spec()
        } else {
            S::sqrt_spec(self.dot_spec(self))
        }
    }

    /// The Euclidean length; exactly zero for the vector that compares equal
    /// to the zero vector, so no square root of zero is taken.
    pub fn magnitude(self) -> (r: S)
        ensures
            r == self.magnitude_spec(),
    {
        if self == Self::zero() {
            return S::zero();
        }
        S::sqrt(self.dot(self))
    }

    pub open spec fn normalized_spec(self) -> Self {
        if S::eq_val_spec(self.magnitude_spec(), S::zero_spec()) {
            self
        } else {
            self.div_s_spec(self.magnitude_spec())
        }
    }

    /// The vector scaled to length one, or the input unchanged when its
    /// magnitude is exactly zero: a deliberate divide-by-zero guard, not a
    /// signaled failure.
    pub fn normalized(self) -> (r: Self)
        ensures
            r == self.normalized_spec(),
    {
        let mag = self.magnitude();
        if S::eq_val(mag, S::zero()) {
            return self;
        }
        proof {
            S::div_total(self.0, mag);
            S::div_total(self.1, mag);
            S::div_total(self.2, mag);
            S::div_total(self.3, mag);
        }
        self.div_s(mag)
    }

    pub open spec fn inverted_spec(self) -> Self {
        if S::eq_val_spec(self.sqr_magnitude_spec(), S::zero_spec()) {
            self
        } else {
            self.div_s_spec(self.sqr_magnitude_spec())
        }
    }

    /// The vector divided by its squared magnitude, or the input unchanged
    /// when that square is exactly zero.
    pub fn inverted(self) -> (r: Self)
        ensures
            r == self.inverted_spec(),
    {
        let sqr_mag = self.dot(self);
        if S::eq_val(sqr_mag, S::zero()) {
            return self;
        }
        proof {
            S::div_total(self.0, sqr_mag);
            S::div_total(self.1, sqr_mag);
            S::div_total(self.2, sqr_mag);
            S::div_total(self.3, sqr_mag);
        }
        self.div_s(sqr_mag)
    }

    pub open spec fn inv_dims_spec(self) -> Self {
        Vector4(
            S::div_spec(S::one_spec(), self.0),
            S::div_spec(S::one_spec(), self.1),
            S::div_spec(S::one_spec(), self.2),
            S::div_spec(S::one_spec(), self.3),
        )
    }

    /// Inverts each component.
    pub fn inv_dims(self) -> (r: Self)
        ensures
            r == self.inv_dims_spec(),
    {
        proof {
            S::div_total(S::one_spec(), self.0);
            S::div_total(S::one_spec(), self.1);
            S::div_total(S::one_spec(), self.2);
            S::div_total(S::one_spec(), self.3);
        }
        Vector4(
            S::div(S::one(), self.0),
            S::div(S::one(), self.1),
            S::div(S::one(), self.2),
            S::div(S::one(), self.3),
        )
    }

    pub open spec fn sum_spec(s: Seq<Self>) -> Self
        decreases s.len(),
    {
        if s.len() == 0 {
            Self::zero_spec()
        } else {
            Self::sum_spec(s.drop_last()).add_spec(s.last())
        }
    }

    pub open spec fn average_spec(s: Seq<Self>) -> Self {
        Self::sum_spec(s).div_s_spec(S::of_count_spec(s.len() as usize))
    }

    /// The componentwise sum of the slice divided by its length. The
    /// division is unguarded: the caller must not pass an empty slice.
    pub fn average(slice: &[Self]) -> (r: Self)
        ensures
            r == Self::average_spec(slice@),
    {
        let mut res = Self::zero();
        let mut i: usize = 0;
        proof {
            assert(slice@.take(0int) =~= Seq::<Self>::empty());
        }
        while i < slice.len()
            invariant
                i <= slice.len(),
                res == Self::sum_spec(slice@.take(i as int)),
            decreases slice.len() - i,
        {
            proof {
                assert(slice@.take(i + 1int).drop_last() =~= slice@.take(i as int));
                assert(slice@.take(i + 1int).last() == slice@[i as int]);
            }
            res.add_assign(slice[i]);
            i = i + 1;
        }
        proof {
            assert(slice@.take(slice@.len() as int) =~= slice@);
            let n = S::of_count_spec(slice@.len() as usize);
            S::div_total(res.0, n);
            S::div_total(res.1, n);
            S::div_total(res.2, n);
            S::div_total(res.3, n);
        }
        res.div_s(S::of_count(slice.len()))
    }

    pub open spec fn dist_to_spec(self, other: Self) -> S {
        self.sub_spec(other).magnitude_spec()
    }

    /// The Euclidean distance to the other vector.
    pub fn dist_to(self, other: Self) -> (r: S)
        ensures
            r == self.dist_to_spec(other),
    {
        self.sub(other).magnitude()
    }

    pub open spec fn sqr_dist_to_spec(self, other: Self) -> S {
        self.sub_spec(other).sqr_magnitude_spec()
    }

    /// The squared Euclidean distance to the other vector.
    pub fn sqr_dist_to(self, other: Self) -> (r: S)
        ensures
            r == self.sqr_dist_to_spec(other),
    {
        self.sub(other).sqr_magnitude()
    }

    pub open spec fn min_mag_spec(self, other: S) -> Self {
        self.div_s_spec(self.magnitude_spec()).mul_s_spec(
            S::min_spec(self.magnitude_spec(), other),
        )
    }

    /// The vector with its magnitude capped at the given bound. Unguarded
    /// for the zero vector.
    pub fn min_mag(self, other: S) -> (r: Self)
        ensures
            r == self.min_mag_spec(other),
    {
        let mag = self.magnitude();
        proof {
            S::div_total(self.0, mag);
            S::div_total(self.1, mag);
            S::div_total(self.2, mag);
            S::div_total(self.3, mag);
        }
        self.div_s(mag).mul_s(S::min(mag, other))
    }

    pub open spec fn max_mag_spec(self, other: S) -> Self {
        self.div_s_spec(self.magnitude_spec()).mul_s_spec(
            S::max_spec(self.magnitude_spec(), other),
        )
    }

    /// The vector with its magnitude raised to at least the given bound.
    /// Unguarded for the zero vector.
    pub fn max_mag(self, other: S) -> (r: Self)
        ensures
            r == self.max_mag_spec(other),
    {
        let mag = self.magnitude();
        proof {
            S::div_total(self.0, mag);
            S::div_total(self.1, mag);
            S::div_total(self.2, mag);
            S::div_total(self.3, mag);
        }
        self.div_s(mag).mul_s(S::max(mag, other))
    }

    pub open spec fn clamp_mag_spec(self, min: S, max: S) -> Self {
        self.div_s_spec(self.magnitude_spec()).mul_s_spec(
            S::min_spec(S::max_spec(self.magnitude_spec(), min), max),
        )
    }

    /// The vector with its magnitude clamped between the two bounds.
    /// Unguarded for the zero vector.
    pub fn clamp_mag(self, min: S, max: S) -> (r: Self)
        ensures
            r == self.clamp_mag_spec(min, max),
    {
        let mag = self.magnitude();
        proof {
            S::div_total(self.0, mag);
            S::div_total(self.1, mag);
            S::div_total(self.2, mag);
            S::div_total(self.3, mag);
        }
        self.div_s(mag).mul_s(S::min(S::max(mag, min), max))
    }

    pub open spec fn floor_spec(self) -> Self {
        Vector4(
            S::floor_spec(self.0),
            S::floor_spec(self.1),
            S::floor_spec(self.2),
            S::floor_spec(self.3),
        )
    }

    /// Rounds each component down.
    pub fn floor(self) -> (r: Self)
        ensures
            r == self.floor_spec(),
    {
        Vector4(S::floor(self.0), S::floor(self.1), S::floor(self.2), S::floor(self.3))
    }

    pub open spec fn round_spec(self) -> Self {
        Vector4(
            S::round_spec(self.0),
            S::round_spec(self.1),
            S::round_spec(self.2),
            S::round_spec(self.3),
        )
    }

    /// Rounds each component to the nearest whole value.
    pub fn round(self) -> (r: Self)
        ensures
            r == self.round_spec(),
    {
        Vector4(S::round(self.0), S::round(self.1), S::round(self.2), S::round(self.3))
    }

    pub open spec fn ceil_spec(self) -> Self {
        Vector4(
            S::ceil_spec(self.0),
            S::ceil_spec(self.1),
            S::ceil_spec(self.2),
            S::ceil_spec(self.3),
        )
    }

    /// Rounds each component up.
    pub fn ceil(self) -> (r: Self)
        ensures
            r == self.ceil_spec(),
    {
        Vector4(S::ceil(self.0), S::ceil(self.1), S::ceil(self.2), S::ceil(self.3))
    }

    pub open spec fn neg_spec(self) -> Self {
        Vector4(
            S::neg_spec(self.0),
            S::neg_spec(self.1),
            S::neg_spec(self.2),
            S::neg_spec(self.3),
        )
    }

    /// Negates each component.
    pub fn neg(self) -> (r: Self)
        ensures
            r == self.neg_spec(),
    {
        Vector4(S::neg(self.0), S::neg(self.1), S::neg(self.2), S::neg(self.3))
    }
}

} // verus!
