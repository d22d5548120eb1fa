use vstd::prelude::*;

use crate::scalar::{Element, FloatScalar, Scalar, ScalarCast, SignedScalar};

verus! {


/// A two-component vector over an element kind `S`, stored as the ordered
/// pair (x, y) with no hidden padding, with value semantics.
#[derive(Clone, Copy, Debug)]
pub struct Vector2<S: Copy>(pub S, pub S);

pub type Vector2bool = Vector2<bool>;

pub type Vector2i32 = Vector2<i32>;

pub type Vector2u32 = Vector2<u32>;

impl<S: Element> PartialEq for Vector2<S> {
    /// Componentwise test with the element kind's own equality.
    fn eq(&self, other: &Self) -> (r: bool) {
        S::eq_val(self.0, other.0) && S::eq_val(self.1, other.1)
    }
}

impl<S: Element> vstd::std_specs::cmp::PartialEqSpecImpl for Vector2<S> {
    open spec fn obeys_eq_spec() -> bool {
        true
    }

    open spec fn eq_spec(&self, other: &Self) -> bool {
        S::eq_val_spec(self.0, other.0) && S::eq_val_spec(self.1, other.1)
    }
}

impl<S: Element> Vector2<S> {
    pub open spec fn zero_spec() -> Self {
        Vector2(S::zero_spec(), S::zero_spec())
    }

    /// The vector with every component zero.
    pub fn zero() -> (r: Self)
        ensures
            r == Self::zero_spec(),
    {
        Vector2(S::zero(), S::zero())
    }

    pub open spec fn up_of_spec(fact: S) -> Self {
        Vector2(S::zero_spec(), fact)
    }

    /// The vector along the positive y axis with the given length.
    pub fn up(fact: S) -> (r: Self)
        ensures
            r == Self::up_of_spec(fact),
    {
        Vector2(S::zero(), fact)
    }

    pub open spec fn right_of_spec(fact: S) -> Self {
        Vector2(fact, S::zero_spec())
    }

    /// The vector along the positive x axis with the given length.
    pub fn right(fact: S) -> (r: Self)
        ensures
            r == Self::right_of_spec(fact),
    {
        Vector2(fact, S::zero())
    }

    pub open spec fn one_of_spec(fact: S) -> Self {
        Vector2(fact, fact)
    }

    /// The vector with the given value in every component.
    pub fn one(fact: S) -> (r: Self)
        ensures
            r == Self::one_of_spec(fact),
    {
        Vector2(fact, fact)
    }

    pub fn x(self) -> (r: S)
        ensures
            r == self.0,
    {
        self.0
    }

    pub fn y(self) -> (r: S)
        ensures
            r == self.1,
    {
        self.1
    }

    pub fn set_x(&mut self, x: S)
        ensures
            *final(self) == (Vector2(x, old(self).1)),
    {
        self.0 = x;
    }

    pub fn set_y(&mut self, y: S)
        ensures
            *final(self) == (Vector2(old(self).0, y)),
    {
        self.1 = y;
    }

    pub open spec fn xvec_spec(self) -> Self {
        Vector2(self.0, S::zero_spec())
    }

    /// The projection onto the x axis: the y component replaced by zero.
    pub fn xvec(self) -> (r: Self)
        ensures
            r == self.xvec_spec(),
    {
        Vector2(self.0, S::zero())
    }

    pub open spec fn yvec_spec(self) -> Self {
        Vector2(S::zero_spec(), self.1)
    }

    /// The projection onto the y axis: the x component replaced by zero.
    pub fn yvec(self) -> (r: Self)
        ensures
            r == self.yvec_spec(),
    {
        Vector2(S::zero(), self.1)
    }

    pub open spec fn cast_spec<T: Copy>(self) -> Vector2<T> where S: ScalarCast<T> {
        Vector2(S::cast_spec(self.0), S::cast_spec(self.1))
    }

    /// Converts each component to the element kind `T`.
    pub fn cast<T: Copy>(self) -> (r: Vector2<T>) where S: ScalarCast<T>
        ensures
            r == self.cast_spec::<T>(),
    {
        Vector2(S::cast(self.0), S::cast(self.1))
    }
}

impl<S: SignedScalar> Vector2<S> {
    pub open spec fn down_of_spec(fact: S) -> Self {
        Vector2(S::zero_spec(), S::neg_spec(fact))
    }

    /// The vector along the negative y axis with the given length.
    pub fn down(fact: S) -> (r: Self)
        ensures
            r == Self::down_of_spec(fact),
    {
        Vector2(S::zero(), S::neg(fact))
    }

    pub open spec fn left_of_spec(fact: S) -> Self {
        Vector2(S::neg_spec(fact), S::zero_spec())
    }

    /// The vector along the negative x axis with the given length.
    pub fn left(fact: S) -> (r: Self)
        ensures
            r == Self::left_of_spec(fact),
    {
        Vector2(S::neg(fact), S::zero())
    }
}

impl<S: Scalar> Vector2<S> {
    pub open spec fn local_spec(x: S, y: S, basis: (Self, Self)) -> Self {
        Vector2(
            S::add_spec(S::mul_spec(x, basis.0.0), S::mul_spec(y, basis.1.0)),
            S::add_spec(S::mul_spec(x, basis.0.1), S::mul_spec(y, basis.1.1)),
        )
    }

    /// Creates a vector in the local space of a basis.
    pub fn local(x: S, y: S, basis: (Self, Self)) -> (r: Self)
        ensures
            r == Self::local_spec(x, y, basis),
    {
        Vector2(
            S::add(S::mul(x, basis.0.0), S::mul(y, basis.1.0)),
            S::add(S::mul(x, basis.0.1), S::mul(y, basis.1.1)),
        )
    }

    pub open spec fn dot_spec(self, other: Self) -> S {
        S::add_spec(S::mul_spec(self.0, other.0), S::mul_spec(self.1, other.1))
    }

    /// The dot product: the sum of the componentwise products.
    pub fn dot(self, other: Self) -> (r: S)
        ensures
            r == self.dot_spec(other),
    {
        S::add(S::mul(self.0, other.0), S::mul(self.1, other.1))
    }

    pub open spec fn sqr_magnitude_spec(self) -> S {
        self.dot_spec(self)
    }

    /// The squared Euclidean length: the dot product of the vector with itself.
    pub fn sqr_magnitude(self) -> (r: S)
        ensures
            r == self.sqr_magnitude_spec(),
    {
        self.dot(self)
    }

    pub open spec fn scale_spec(self, other: Self) -> Self {
        Vector2(S::mul_spec(self.0, other.0), S::mul_spec(self.1, other.1))
    }

    /// Multiplies the vectors componentwise.
    pub fn scale(self, other: Self) -> (r: Self)
        ensures
            r == self.scale_spec(other),
    {
        Vector2(S::mul(self.0, other.0), S::mul(self.1, other.1))
    }

    pub open spec fn inv_scale_spec(self, other: Self) -> Self {
        Vector2(S::div_spec(self.0, other.0), S::div_spec(self.1, other.1))
    }

    pub open spec fn inv_scale_req(self, other: Self) -> bool {
        S::div_req(self.0, other.0) && S::div_req(self.1, other.1)
    }

    /// Divides the vectors componentwise.
    pub fn inv_scale(self, other: Self) -> (r: Self)
        requires
            self.inv_scale_req(other),
        ensures
            r == self.inv_scale_spec(other),
    {
        Vector2(S::div(self.0, other.0), S::div(self.1, other.1))
    }

    pub open spec fn min_spec(self, other: Self) -> Self {
        Vector2(S::min_spec(self.0, other.0), S::min_spec(self.1, other.1))
    }

    /// The componentwise minimum.
    pub fn min(self, other: Self) -> (r: Self)
        ensures
            r == self.min_spec(other),
    {
        Vector2(S::min(self.0, other.0), S::min(self.1, other.1))
    }

    pub open spec fn max_spec(self, other: Self) -> Self {
        Vector2(S::max_spec(self.0, other.0), S::max_spec(self.1, other.1))
    }

    /// The componentwise maximum.
    pub fn max(self, other: Self) -> (r: Self)
        ensures
            r == self.max_spec(other),
    {
        Vector2(S::max(self.0, other.0), S::max(self.1, other.1))
    }

    pub open spec fn clamp_spec(self, min: Self, max: Self) -> Self {
        self.max_spec(min).min_spec(max)
    }

    /// Clamps each component between the corresponding components of the two
    /// bounds; the result is unspecified by design where a lower bound
    /// exceeds an upper bound.
    pub fn clamp(self, min: Self, max: Self) -> (r: Self)
        ensures
            r == self.clamp_spec(min, max),
    {
        self.max(min).min(max)
    }

    pub open spec fn max_axis_spec(self) -> S {
        S::max_spec(self.0, self.1)
    }

    /// The largest component.
    pub fn max_axis(self) -> (r: S)
        ensures
            r == self.max_axis_spec(),
    {
        S::max(self.0, self.1)
    }

    pub open spec fn min_axis_spec(self) -> S {
        S::min_spec(self.0, self.1)
    }

    /// The smallest component.
    pub fn min_axis(self) -> (r: S)
        ensures
            r == self.min_axis_spec(),
    {
        S::min(self.0, self.1)
    }

    pub open spec fn add_spec(self, rhs: Self) -> Self {
        Vector2(S::add_spec(self.0, rhs.0), S::add_spec(self.1, rhs.1))
    }

    /// The componentwise sum.
    pub fn add(self, rhs: Self) -> (r: Self)
        ensures
            r == self.add_spec(rhs),
    {
        Vector2(S::add(self.0, rhs.0), S::add(self.1, rhs.1))
    }

    /// Overwrites the vector with the componentwise sum.
    pub fn add_assign(&mut self, rhs: Self)
        ensures
            *final(self) == old(self).add_spec(rhs),
    {
        *self = self.add(rhs);
    }

    pub open spec fn sub_spec(self, rhs: Self) -> Self {
        Vector2(S::sub_spec(self.0, rhs.0), S::sub_spec(self.1, rhs.1))
    }

    /// The componentwise difference.
    pub fn sub(self, rhs: Self) -> (r: Self)
        ensures
            r == self.sub_spec(rhs),
    {
        Vector2(S::sub(self.0, rhs.0), S::sub(self.1, rhs.1))
    }

    /// Overwrites the vector with the componentwise difference.
    pub fn sub_assign(&mut self, rhs: Self)
        ensures
            *final(self) == old(self).sub_spec(rhs),
    {
        *self = self.sub(rhs);
    }

    pub open spec fn mul_s_spec(self, rhs: S) -> Self {
        Vector2(S::mul_spec(self.0, rhs), S::mul_spec(self.1, rhs))
    }

    /// Multiplies every component by the scalar.
    pub fn mul_s(self, rhs: S) -> (r: Self)
        ensures
            r == self.mul_s_spec(rhs),
    {
        Vector2(S::mul(self.0, rhs), S::mul(self.1, rhs))
    }

    /// Overwrites the vector with the scalar product.
    pub fn mul_assign(&mut self, rhs: S)
        ensures
            *final(self) == old(self).mul_s_spec(rhs),
    {
        *self = self.mul_s(rhs);
    }

    pub open spec fn div_s_spec(self, rhs: S) -> Self {
        Vector2(S::div_spec(self.0, rhs), S::div_spec(self.1, rhs))
    }

    pub open spec fn div_s_req(self, rhs: S) -> bool {
        S::div_req(self.0, rhs) && S::div_req(self.1, rhs)
    }

    /// Divides every component by the scalar.
    pub fn div_s(self, rhs: S) -> (r: Self)
        requires
            self.div_s_req(rhs),
        ensures
            r == self.div_s_spec(rhs),
    {
        Vector2(S::div(self.0, rhs), S::div(self.1, rhs))
    }

    /// Overwrites the vector with the scalar quotient.
    pub fn div_assign(&mut self, rhs: S)
        requires
            old(self).div_s_req(rhs),
        ensures
            *final(self) == old(self).div_s_spec(rhs),
    {
        *self = self.div_s(rhs);
    }
}

impl<S: FloatScalar> Vector2<S> {
    pub open spec fn cross_spec(self) -> Self {
        Vector2(self.1, S::neg_spec(self.0))
    }

    /// The perpendicular vector (y, -x): the planar analogue of a cross
    /// product, a quarter turn of the input.
    pub fn cross(self) -> (r: Self)
        ensures
            r == self.cross_spec(),
    {
        Vector2(self.1, S::neg(self.0))
    }

    pub open spec fn rotate_spec(self, rot: S) -> Self {
        Vector2(
            S::add_spec(
                S::mul_spec(self.0, S::cos_spec(rot)),
                S::mul_spec(self.1, S::sin_spec(rot)),
            ),
            S::sub_spec(
                S::mul_spec(self.0, S::sin_spec(rot)),
                S::mul_spec(self.1, S::cos_spec(rot)),
            ),
        )
    }

    /// Rotates the vector by the rotation provided in radians. The result is
    /// (x cos + y sin, x sin - y cos): deliberately the mirrored, screen-space
    /// convention rather than the counter-clockwise textbook matrix.
    pub fn rotate(self, rot: S) -> (r: Self)
        ensures
            r == self.rotate_spec(rot),
    {
        let c = S::cos(rot);
        let s = S::sin(rot);
        Vector2(
            S::add(S::mul(self.0, c), S::mul(self.1, s)),
            S::sub(S::mul(self.0, s), S::mul(self.1, c)),
        )
    }

    pub open spec fn rotate_cw_spec(self, rot: S) -> Self {
        Vector2(self.rotate_spec(rot).0, S::neg_spec(self.rotate_spec(rot).1))
    }

    /// Rotates the vector by the specified rotation, but in a way that
    /// matches up with visual (clockwise on screen) rotations: the y
    /// component of `rotate` negated.
    pub fn rotate_cw(self, rot: S) -> (r: Self)
        ensures
            r == self.rotate_cw_spec(rot),
    {
        let rotated = self.rotate(rot);
        Vector2(rotated.0, S::neg(rotated.1))
    }

    /// Whether every component compares equal to the kind's zero.
    pub open spec fn is_zero_spec(self) -> bool {
        S::eq_val_spec(self.0, S::zero_spec()) && S::eq_val_spec(self.1, S::zero_spec())
    }

    pub open spec fn magnitude_spec(self) -> S {
        if self.is_zero_spec() {
            S::zero_spec()
        } else {
            S::sqrt_spec(self.dot_spec(self))
        }
    }

    /// The Euclidean length; exactly zero for the vector that compares equal
    /// to the zero vector, so no square root of zero is taken.
    pub fn magnitude(self) -> (r: S)
        ensures
            r == self.magnitude_spec(),
    {
        if self == Self::zero() {
            return S::zero();
        }
        S::sqrt(self.dot(self))
    }

    pub open spec fn normalized_spec(self) -> Self {
        if S::eq_val_spec(self.magnitude_spec(), S::zero_spec()) {
            self
        } else {
            self.div_s_spec(self.magnitude_spec())
        }
    }

    /// The vector scaled to length one, or the input unchanged when its
    /// magnitude is exactly zero: a deliberate divide-by-zero guard, not a
    /// signaled failure.
    pub fn normalized(self) -> (r: Self)
        ensures
            r == self.normalized_spec(),
    {
        let mag = self.magnitude();
        if S::eq_val(mag, S::zero()) {
            return self;
        }
        proof {
            S::div_total(self.0, mag);
            S::div_total(self.1, mag);
        }
        self.div_s(mag)
    }

    pub open spec fn inverted_spec(self) -> Self {
        if S::eq_val_spec(self.sqr_magnitude_spec(), S::zero_spec()) {
            self
        } else {
            self.div_s_spec(self.sqr_magnitude_spec())
        }
    }

    /// The vector divided by its squared magnitude, or the input unchanged
    /// when that square is exactly zero.
    pub fn inverted(self) -> (r: Self)
        ensures
            r == self.inverted_spec(),
    {
        let sqr_mag = self.dot(self);
        if S::eq_val(sqr_mag, S::zero()) {
            return self;
        }
        proof {
            S::div_total(self.0, sqr_mag);
            S::div_total(self.1, sqr_mag);
        }
        self.div_s(sqr_mag)
    }

    pub open spec fn inv_dims_spec(self) -> Self {
        Vector2(S::div_spec(S::one_spec(), self.0), S::div_spec(S::one_spec(), self.1))
    }

    /// Inverts each component.
    pub fn inv_dims(self) -> (r: Self)
        ensures
            r == self.inv_dims_spec(),
    {
        proof {
            S::div_total(S::one_spec(), self.0);
            S::div_total(S::one_spec(), self.1);
        }
        Vector2(S::div(S::one(), self.0), S::div(S::one(), self.1))
    }

    pub open spec fn sum_spec(s: Seq<Self>) -> Self
        decreases s.len(),
    {
        if s.len() == 0 {
            Self::zero_spec()
        } else {
            Self::sum_spec(s.drop_last()).add_spec(s.last())
        }
    }

    pub open spec fn average_spec(s: Seq<Self>) -> Self {
        Self::sum_spec(s).div_s_spec(S::of_count_spec(s.len() as usize))
    }

    /// The componentwise sum of the slice divided by its length. The
    /// division is unguarded: the caller must not pass an empty slice.
    pub fn average(slice: &[Self]) -> (r: Self)
        ensures
            r == Self::average_spec(slice@),
    {
        let mut res = Self::zero();
        let mut i: usize = 0;
        proof {
            assert(slice@.take(0int) =~= Seq::<Self>::empty());
        }
        while i < slice.len()
            invariant
                i <= slice.len(),
                res == Self::sum_spec(slice@.take(i as int)),
            decreases slice.len() - i,
        {
            proof {
                assert(slice@.take(i + 1int).drop_last() =~= slice@.take(i as int));
                assert(slice@.take(i + 1int).last() == slice@[i as int]);
            }
            res.add_assign(slice[i]);
            i = i + 1;
        }
        proof {
            assert(slice@.take(slice@.len() as int) =~= slice@);
            let n = S::of_count_spec(slice@.len() as usize);
            S::div_total(res.0, n);
            S::div_total(res.1, n);
        }
        res.div_s(S::of_count(slice.len()))
    }

    pub open spec fn dist_to_spec(self, other: Self) -> S {
        self.sub_spec(other).magnitude_spec()
    }

    /// The Euclidean distance to the other vector.
    pub fn dist_to(self, other: Self) -> (r: S)
        ensures
            r == self.dist_to_spec(other),
    {
        self.sub(other).magnitude()
    }

    pub open spec fn sqr_dist_to_spec(self, other: Self) -> S {
        self.sub_spec(other).sqr_magnitude_spec()
    }

    /// The squared Euclidean distance to the other vector.
    pub fn sqr_dist_to(self, other: Self) -> (r: S)
        ensures
            r == self.sqr_dist_to_spec(other),
    {
        self.sub(other).sqr_magnitude()
    }

    pub open spec fn min_mag_spec(self, other: S) -> Self {
        self.div_s_spec(self.magnitude_spec()).mul_s_spec(
            S::min_spec(self.magnitude_spec(), other),
        )
    }

    /// The vector with its magnitude capped at the given bound: the
    /// direction times the smaller of the two lengths. Unguarded for the
    /// zero vector.
    pub fn min_mag(self, other: S) -> (r: Self)
        ensures
            r == self.min_mag_spec(other),
    {
        let mag = self.magnitude();
        proof {
            S::div_total(self.0, mag);
            S::div_total(self.1, mag);
        }
        self.div_s(mag).mul_s(S::min(mag, other))
    }

    pub open spec fn max_mag_spec(self, other: S) -> Self {
        self.div_s_spec(self.magnitude_spec()).mul_s_spec(
            S::max_spec(self.magnitude_spec(), other),
        )
    }

    /// The vector with its magnitude raised to at least the given bound.
    /// Unguarded for the zero vector.
    pub fn max_mag(self, other: S) -> (r: Self)
        ensures
            r == self.max_mag_spec(other),
    {
        let mag = self.magnitude();
        proof {
            S::div_total(self.0, mag);
            S::div_total(self.1, mag);
        }
        self.div_s(mag).mul_s(S::max(mag, other))
    }

    pub open spec fn clamp_mag_spec(self, min: S, max: S) -> Self {
        self.div_s_spec(self.magnitude_spec()).mul_s_spec(
            S::min_spec(S::max_spec(self.magnitude_spec(), min), max),
        )
    }

    /// The vector with its magnitude clamped between the two bounds.
    /// Unguarded for the zero vector.
    pub fn clamp_mag(self, min: S, max: S) -> (r: Self)
        ensures
            r == self.clamp_mag_spec(min, max),
    {
        let mag = self.magnitude();
        proof {
            S::div_total(self.0, mag);
            S::div_total(self.1, mag);
        }
        self.div_s(mag).mul_s(S::min(S::max(mag, min), max))
    }

    pub open spec fn floor_spec(self) -> Self {
        Vector2(S::floor_spec(self.0), S::floor_spec(self.1))
    }

    /// Rounds each component down.
    pub fn floor(self) -> (r: Self)
        ensures
            r == self.floor_spec(),
    {
        Vector2(S::floor(self.0), S::floor(self.1))
    }

    pub open spec fn round_spec(self) -> Self {
        Vector2(S::round_spec(self.0), S::round_spec(self.1))
    }

    /// Rounds each component to the nearest whole value.
    pub fn round(self) -> (r: Self)
        ensures
            r == self.round_spec(),
    {
        Vector2(S::round(self.0), S::round(self.1))
    }

    pub open spec fn ceil_spec(self) -> Self {
        Vector2(S::ceil_spec(self.0), S::ceil_spec(self.1))
    }

    /// Rounds each component up.
    pub fn ceil(self) -> (r: Self)
        ensures
            r == self.ceil_spec(),
    {
        Vector2(S::ceil(self.0), S::ceil(self.1))
    }

    pub open spec fn neg_spec(self) -> Self {
        Vector2(S::neg_spec(self.0), S::neg_spec(self.1))
    }

    /// Negates each component.
    pub fn neg(self) -> (r: Self)
        ensures
            r == self.neg_spec(),
    {
        Vector2(S::neg(self.0), S::neg(self.1))
    }
}

} // verus!
