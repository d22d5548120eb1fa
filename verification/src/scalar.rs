use vstd::prelude::*;

verus! {

use vstd::arithmetic::div_mod::{
    lemma_div_nonincreasing,
    lemma_div_pos_is_pos,
    lemma_div_is_ordered_by_denominator,
};

/// For a divisor that is neither 0 nor the overflowing pair `i32::MIN / -1`,
/// the truncating quotient of two `i32` values fits in `i32`, so
/// `i32::checked_div` returns a value.
proof fn lemma_i32_div_in_range(a: i32, b: i32)
    requires
        b != 0,
        !(a == i32::MIN && b == -1),
    ensures
        a.checked_div(b) is Some,
{
    let x = a as int;
    let d = b as int;
    if x == 0 {
    } else if x > 0 && d > 0 {
        lemma_div_nonincreasing(x, d);
        lemma_div_pos_is_pos(x, d);
    } else if x < 0 && d < 0 {
        if a == i32::MIN {
            lemma_div_is_ordered_by_denominator(x * -1, 2, d * -1);
            lemma_div_pos_is_pos(x * -1, d * -1);
        } else {
            lemma_div_nonincreasing(x * -1, d * -1);
            lemma_div_pos_is_pos(x * -1, d * -1);
        }
    } else if x < 0 {
        lemma_div_nonincreasing(x * -1, d);
        lemma_div_pos_is_pos(x * -1, d);
    } else {
        lemma_div_nonincreasing(x, d * -1);
        lemma_div_pos_is_pos(x, d * -1);
    }
}

/// The least that every element kind of the vector family offers: the two
/// distinguished values used by the axis constructors, and the kind's own
/// equality test.
///
/// Each executable operation is paired with a spec function that pins down
/// exactly what it returns for that kind; the algebra over vectors, matrices
/// and quaternions states its contracts in terms of these spec functions and
/// is verified once for every kind.
pub trait Element: Copy + Sized {
    /// The kind's zero (`false` for the mask kind).
    spec fn zero_spec() -> Self;

    /// The kind's one (`true` for the mask kind).
    spec fn one_spec() -> Self;

    /// What the kind's equality test returns.
    spec fn eq_val_spec(a: Self, b: Self) -> bool;

    fn zero() -> (r: Self)
        ensures
            r == Self::zero_spec(),
    ;

    fn one() -> (r: Self)
        ensures
            r == Self::one_spec(),
    ;

    fn eq_val(a: Self, b: Self) -> (r: bool)
        ensures
            r == Self::eq_val_spec(a, b),
    ;
}

/// An element kind with the arithmetic that the scalar tier of the vector
/// family needs: ring operations, division, and the elementwise order used
/// by `min`/`max`/`clamp`.
pub trait Scalar: Element {
    spec fn add_spec(a: Self, b: Self) -> Self;

    spec fn sub_spec(a: Self, b: Self) -> Self;

    spec fn mul_spec(a: Self, b: Self) -> Self;

    spec fn div_spec(a: Self, b: Self) -> Self;

    /// The inputs on which this kind's division is defined (does not panic).
    spec fn div_req(a: Self, b: Self) -> bool;

    spec fn min_spec(a: Self, b: Self) -> Self;

    spec fn max_spec(a: Self, b: Self) -> Self;

    fn add(a: Self, b: Self) -> (r: Self)
        ensures
            r == Self::add_spec(a, b),
    ;

    fn sub(a: Self, b: Self) -> (r: Self)
        ensures
            r == Self::sub_spec(a, b),
    ;

    fn mul(a: Self, b: Self) -> (r: Self)
        ensures
            r == Self::mul_spec(a, b),
    ;

    fn div(a: Self, b: Self) -> (r: Self)
        requires
            Self::div_req(a, b),
        ensures
            r == Self::div_spec(a, b),
    ;

    fn min(a: Self, b: Self) -> (r: Self)
        ensures
            r == Self::min_spec(a, b),
    ;

    fn max(a: Self, b: Self) -> (r: Self)
        ensures
            r == Self::max_spec(a, b),
    ;

    /// Dividing one by a value that compares unequal to zero is defined.
    /// This is what lets matrix inversion scale by the reciprocal of a
    /// determinant it has already checked.
    proof fn div_one_by_nonzero(a: Self)
        requires
            !Self::eq_val_spec(a, Self::zero_spec()),
        ensures
            Self::div_req(Self::one_spec(), a),
    ;
}

/// An element kind with a negation, as the signed axis constructors
/// (`down`, `left`, `back`, `negw`) need.
pub trait SignedScalar: Scalar {
    spec fn neg_spec(a: Self) -> Self;

    fn neg(a: Self) -> (r: Self)
        ensures
            r == Self::neg_spec(a),
    ;
}

/// A floating-point element kind. The operations beyond `SignedScalar` have
/// no closed form over the integers; their spec functions are distinct
/// per-kind names that the float tier's contracts compose. Division on such
/// a kind is total (a zero divisor yields an infinity or NaN rather than a
/// panic), which `div_total` records.
pub trait FloatScalar: SignedScalar {
    spec fn sqrt_spec(a: Self) -> Self;

    spec fn sin_spec(a: Self) -> Self;

    spec fn cos_spec(a: Self) -> Self;

    spec fn tan_spec(a: Self) -> Self;

    spec fn floor_spec(a: Self) -> Self;

    spec fn round_spec(a: Self) -> Self;

    spec fn ceil_spec(a: Self) -> Self;

    /// The kind's one half, used to halve angles.
    spec fn half_spec() -> Self;

    /// The kind's two, used by the quaternion rotation identity.
    spec fn two_spec() -> Self;

    /// The kind's value for a slice length, used by `average`.
    spec fn of_count_spec(n: usize) -> Self;

    fn sqrt(a: Self) -> (r: Self)
        ensures
            r == Self::sqrt_spec(a),
    ;

    fn sin(a: Self) -> (r: Self)
        ensures
            r == Self::sin_spec(a),
    ;

    fn cos(a: Self) -> (r: Self)
        ensures
            r == Self::cos_spec(a),
    ;

    fn tan(a: Self) -> (r: Self)
        ensures
            r == Self::tan_spec(a),
    ;

    fn floor(a: Self) -> (r: Self)
        ensures
            r == Self::floor_spec(a),
    ;

    fn round(a: Self) -> (r: Self)
        ensures
            r == Self::round_spec(a),
    ;

    fn ceil(a: Self) -> (r: Self)
        ensures
            r == Self::ceil_spec(a),
    ;

    fn half() -> (r: Self)
        ensures
            r == Self::half_spec(),
    ;

    fn two() -> (r: Self)
        ensures
            r == Self::two_spec(),
    ;

    fn of_count(n: usize) -> (r: Self)
        ensures
            r == Self::of_count_spec(n),
    ;

    /// Division on a floating-point kind never panics: a degenerate divisor
    /// follows the arithmetic's own rules instead of being intercepted.
    proof fn div_total(a: Self, b: Self)
        ensures
            Self::div_req(a, b),
    ;
}

/// A per-component numeric conversion from one element kind to another, with
/// the converting cast's semantics (an integer reinterpreted at the same
/// width, a mask widened to 0 or 1, a number tested against zero).
pub trait ScalarCast<T: Copy>: Copy {
    spec fn cast_spec(a: Self) -> T;

    fn cast(a: Self) -> (r: T)
        ensures
            r == Self::cast_spec(a),
    ;
}

impl Element for i32 {
    open spec fn zero_spec() -> Self {
        0
    }

    open spec fn one_spec() -> Self {
        1
    }

    open spec fn eq_val_spec(a: Self, b: Self) -> bool {
        a == b
    }

    fn zero() -> (r: Self) {
        0
    }

    fn one() -> (r: Self) {
        1
    }

    fn eq_val(a: Self, b: Self) -> (r: bool) {
        a == b
    }
}

impl Scalar for i32 {
    open spec fn add_spec(a: Self, b: Self) -> Self {
        vstd::wrapping::i32_specs::wrapping_add(a, b)
    }

    open spec fn sub_spec(a: Self, b: Self) -> Self {
        vstd::wrapping::i32_specs::wrapping_sub(a, b)
    }

    open spec fn mul_spec(a: Self, b: Self) -> Self {
        vstd::wrapping::i32_specs::wrapping_mul(a, b)
    }

    open spec fn div_spec(a: Self, b: Self) -> Self {
        a.checked_div(b).unwrap()
    }

    open spec fn div_req(a: Self, b: Self) -> bool {
        b != 0 && !(a == i32::MIN && b == -1)
    }

    open spec fn min_spec(a: Self, b: Self) -> Self {
        if a < b {
            a
        } else {
            b
        }
    }

    open spec fn max_spec(a: Self, b: Self) -> Self {
        if a > b {
            a
        } else {
            b
        }
    }

    fn add(a: Self, b: Self) -> (r: Self) {
        a.wrapping_add(b)
    }

    fn sub(a: Self, b: Self) -> (r: Self) {
        a.wrapping_sub(b)
    }

    fn mul(a: Self, b: Self) -> (r: Self) {
        a.wrapping_mul(b)
    }

    fn div(a: Self, b: Self) -> (r: Self) {
        let q = a.checked_div(b);
        match q {
            Some(v) => v,
            None => {
                proof {
                    lemma_i32_div_in_range(a, b);
                }
                0
            },
        }
    }

    fn min(a: Self, b: Self) -> (r: Self) {
        if a < b {
            a
        } else {
            b
        }
    }

    fn max(a: Self, b: Self) -> (r: Self) {
        if a > b {
            a
        } else {
            b
        }
    }

    proof fn div_one_by_nonzero(a: Self) {
    }
}

impl SignedScalar for i32 {
    open spec fn neg_spec(a: Self) -> Self {
        vstd::wrapping::i32_specs::wrapping_sub(0, a)
    }

    fn neg(a: Self) -> (r: Self) {
        0i32.wrapping_sub(a)
    }
}

impl Element for u32 {
    open spec fn zero_spec() -> Self {
        0
    }

    open spec fn one_spec() -> Self {
        1
    }

    open spec fn eq_val_spec(a: Self, b: Self) -> bool {
        a == b
    }

    fn zero() -> (r: Self) {
        0
    }

    fn one() -> (r: Self) {
        1
    }

    fn eq_val(a: Self, b: Self) -> (r: bool) {
        a == b
    }
}

impl Scalar for u32 {
    open spec fn add_spec(a: Self, b: Self) -> Self {
        vstd::wrapping::u32_specs::wrapping_add(a, b)
    }

    open spec fn sub_spec(a: Self, b: Self) -> Self {
        vstd::wrapping::u32_specs::wrapping_sub(a, b)
    }

    open spec fn mul_spec(a: Self, b: Self) -> Self {
        vstd::wrapping::u32_specs::wrapping_mul(a, b)
    }

    open spec fn div_spec(a: Self, b: Self) -> Self {
        (a as int / b as int) as u32
    }

    open spec fn div_req(a: Self, b: Self) -> bool {
        b != 0
    }

    open spec fn min_spec(a: Self, b: Self) -> Self {
        if a < b {
            a
        } else {
            b
        }
    }

    open spec fn max_spec(a: Self, b: Self) -> Self {
        if a > b {
            a
        } else {
            b
        }
    }

    fn add(a: Self, b: Self) -> (r: Self) {
        a.wrapping_add(b)
    }

    fn sub(a: Self, b: Self) -> (r: Self) {
        a.wrapping_sub(b)
    }

    fn mul(a: Self, b: Self) -> (r: Self) {
        a.wrapping_mul(b)
    }

    fn div(a: Self, b: Self) -> (r: Self) {
        a / b
    }

    fn min(a: Self, b: Self) -> (r: Self) {
        if a < b {
            a
        } else {
            b
        }
    }

    fn max(a: Self, b: Self) -> (r: Self) {
        if a > b {
            a
        } else {
            b
        }
    }

    proof fn div_one_by_nonzero(a: Self) {
    }
}

impl Element for bool {
    open spec fn zero_spec() -> Self {
        false
    }

    open spec fn one_spec() -> Self {
        true
    }

    open spec fn eq_val_spec(a: Self, b: Self) -> bool {
        a == b
    }

    fn zero() -> (r: Self) {
        false
    }

    fn one() -> (r: Self) {
        true
    }

    fn eq_val(a: Self, b: Self) -> (r: bool) {
        a == b
    }
}

impl ScalarCast<u32> for i32 {
    open spec fn cast_spec(a: Self) -> u32 {
        a as u32
    }

    fn cast(a: Self) -> (r: u32) {
        #[verifier::truncate] (a as u32)
    }
}

impl ScalarCast<i32> for u32 {
    open spec fn cast_spec(a: Self) -> i32 {
        a as i32
    }

    fn cast(a: Self) -> (r: i32) {
        #[verifier::truncate] (a as i32)
    }
}

impl ScalarCast<i32> for bool {
    open spec fn cast_spec(a: Self) -> i32 {
        if a {
            1
        } else {
            0
        }
    }

    fn cast(a: Self) -> (r: i32) {
        if a {
            1
        } else {
            0
        }
    }
}

impl ScalarCast<u32> for bool {
    open spec fn cast_spec(a: Self) -> u32 {
        if a {
            1
        } else {
            0
        }
    }

    fn cast(a: Self) -> (r: u32) {
        if a {
            1
        } else {
            0
        }
    }
}

impl ScalarCast<bool> for i32 {
    open spec fn cast_spec(a: Self) -> bool {
        a != 0
    }

    fn cast(a: Self) -> (r: bool) {
        a != 0
    }
}

impl ScalarCast<bool> for u32 {
    open spec fn cast_spec(a: Self) -> bool {
        a != 0
    }

    fn cast(a: Self) -> (r: bool) {
        a != 0
    }
}

} // verus!
