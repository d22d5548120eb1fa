use vstd::prelude::*;

use crate::quaternion::Quaternion;
use crate::scalar::{Element, FloatScalar, Scalar, SignedScalar};
use crate::vector3::Vector3;
use crate::vector4::Vector4;

verus! {

/// A 4 by 4 matrix over an element kind `S`: four ordered rows of four
/// elements, row-major.
#[derive(Clone, Copy, Debug)]
pub struct Matrix4x4<S: Copy> {
    pub rows: [[S; 4]; 4],
}

impl<S: Element> PartialEq for Matrix4x4<S> {
    /// Entrywise test with the element kind's own equality.
    fn eq(&self, other: &Self) -> (r: bool) {
        let mut same = true;
        let mut i: usize = 0;
        while i < 4
            invariant
                i <= 4,
                same == (forall|a: int, b: int|
                    0 <= a < i && 0 <= b < 4 ==> S::eq_val_spec(
                        self.rows[a][b],
                        other.rows[a][b],
                    )),
            decreases 4 - i,
        {
            let mut j: usize = 0;
            while j < 4
                invariant
                    i < 4,
                    j <= 4,
                    same == ((forall|a: int, b: int|
                        0 <= a < i && 0 <= b < 4 ==> S::eq_val_spec(
                            self.rows[a][b],
                            other.rows[a][b],
                        )) && (forall|b: int|
                        0 <= b < j ==> S::eq_val_spec(
                            self.rows[i as int][b],
                            other.rows[i as int][b],
                        ))),
                decreases 4 - j,
            {
                same = same && S::eq_val(self.rows[i][j], other.rows[i][j]);
                j = j + 1;
            }
            i = i + 1;
        }
        same
    }
}

impl<S: Element> vstd::std_specs::cmp::PartialEqSpecImpl for Matrix4x4<S> {
    open spec fn obeys_eq_spec() -> bool {
        true
    }

    open spec fn eq_spec(&self, other: &Self) -> bool {
        forall|a: int, b: int|
            0 <= a < 4 && 0 <= b < 4 ==> S::eq_val_spec(self.rows[a][b], other.rows[a][b])
    }
}

impl<S: Copy> Matrix4x4<S> {
    /// A matrix from its rows.
    pub fn new(rows: [[S; 4]; 4]) -> (r: Self)
        ensures
            r.rows == rows,
    {
        Matrix4x4 { rows }
    }

    /// A matrix from its four rows given as vectors.
    pub fn new_with_vec(row0: Vector4<S>, row1: Vector4<S>, row2: Vector4<S>, row3: Vector4<S>) -> (r:
        Self)
        ensures
            r.rows[0][0] == row0.0,
            r.rows[0][1] == row0.1,
            r.rows[0][2] == row0.2,
            r.rows[0][3] == row0.3,
            r.rows[1][0] == row1.0,
            r.rows[1][1] == row1.1,
            r.rows[1][2] == row1.2,
            r.rows[1][3] == row1.3,
            r.rows[2][0] == row2.0,
            r.rows[2][1] == row2.1,
            r.rows[2][2] == row2.2,
            r.rows[2][3] == row2.3,
            r.rows[3][0] == row3.0,
            r.rows[3][1] == row3.1,
            r.rows[3][2] == row3.2,
            r.rows[3][3] == row3.3,
    {
        Matrix4x4 {
            rows: [
                [row0.0, row0.1, row0.2, row0.3],
                [row1.0, row1.1, row1.2, row1.3],
                [row2.0, row2.1, row2.2, row2.3],
                [row3.0, row3.1, row3.2, row3.3],
            ],
        }
    }

    pub open spec fn row_spec(self, row: int) -> Vector4<S> {
        Vector4(self.rows[row][0], self.rows[row][1], self.rows[row][2], self.rows[row][3])
    }

    /// The selected row as a vector; the index must be in range.
    pub fn row(&self, row: usize) -> (r: Vector4<S>)
        requires
            row < 4,
        ensures
            r == self.row_spec(row as int),
    {
        Vector4(self.rows[row][0], self.rows[row][1], self.rows[row][2], self.rows[row][3])
    }

    pub open spec fn col_spec(self, col: int) -> Vector4<S> {
        Vector4(self.rows[0][col], self.rows[1][col], self.rows[2][col], self.rows[3][col])
    }

    /// The selected column as a vector; the index must be in range.
    pub fn col(&self, col: usize) -> (r: Vector4<S>)
        requires
            col < 4,
        ensures
            r == self.col_spec(col as int),
    {
        Vector4(self.rows[0][col], self.rows[1][col], self.rows[2][col], self.rows[3][col])
    }

    /// The selected entry; both indices must be in range.
    pub fn entry(&self, row: usize, col: usize) -> (r: S)
        requires
            row < 4,
            col < 4,
        ensures
            r == self.rows[row as int][col as int],
    {
        self.rows[row][col]
    }

    /// Overwrites the selected entry; both indices must be in range.
    pub fn set_entry(&mut self, row: usize, col: usize, value: S)
        requires
            row < 4,
            col < 4,
        ensures
            final(self).rows[row as int][col as int] == value,
            forall|i: int, j: int|
                0 <= i < 4 && 0 <= j < 4 && !(i == row && j == col) ==> final(self).rows[i][j]
                    == old(self).rows[i][j],
    {
        self.rows[row][col] = value;
    }

    pub open spec fn transp_spec(self) -> Self {
        Matrix4x4 {
            rows: [
                [self.rows[0][0], self.rows[1][0], self.rows[2][0], self.rows[3][0]],
                [self.rows[0][1], self.rows[1][1], self.rows[2][1], self.rows[3][1]],
                [self.rows[0][2], self.rows[1][2], self.rows[2][2], self.rows[3][2]],
                [self.rows[0][3], self.rows[1][3], self.rows[2][3], self.rows[3][3]],
            ],
        }
    }

    /// The transpose.
    pub fn transp(&self) -> (r: Self)
        ensures
            r == self.transp_spec(),
    {
        Matrix4x4 {
            rows: [
                [self.rows[0][0], self.rows[1][0], self.rows[2][0], self.rows[3][0]],
                [self.rows[0][1], self.rows[1][1], self.rows[2][1], self.rows[3][1]],
                [self.rows[0][2], self.rows[1][2], self.rows[2][2], self.rows[3][2]],
                [self.rows[0][3], self.rows[1][3], self.rows[2][3], self.rows[3][3]],
            ],
        }
    }
}

impl<S: Element> Matrix4x4<S> {
    pub open spec fn identity_spec() -> Self {
        Matrix4x4 {
            rows: [
                [S::one_spec(), S::zero_spec(), S::zero_spec(), S::zero_spec()],
                [S::zero_spec(), S::one_spec(), S::zero_spec(), S::zero_spec()],
                [S::zero_spec(), S::zero_spec(), S::one_spec(), S::zero_spec()],
                [S::zero_spec(), S::zero_spec(), S::zero_spec(), S::one_spec()],
            ],
        }
    }

    /// The identity matrix: one on the diagonal, zero elsewhere.
    pub fn identity() -> (r: Self)
        ensures
            r == Self::identity_spec(),
    {
        Matrix4x4 {
            rows: [
                [S::one(), S::zero(), S::zero(), S::zero()],
                [S::zero(), S::one(), S::zero(), S::zero()],
                [S::zero(), S::zero(), S::one(), S::zero()],
                [S::zero(), S::zero(), S::zero(), S::one()],
            ],
        }
    }
}

impl<S: Scalar> Matrix4x4<S> {
    /// The six 2 by 2 sub-determinants of the top two rows, in order
    /// (columns 01, 02, 03, 12, 13, 23).
    pub open spec fn s_terms_spec(self) -> (S, S, S, S, S, S) {
        let m = self.rows;
        (
            S::sub_spec(S::mul_spec(m[0][0], m[1][1]), S::mul_spec(m[1][0], m[0][1])),
            S::sub_spec(S::mul_spec(m[0][0], m[1][2]), S::mul_spec(m[1][0], m[0][2])),
            S::sub_spec(S::mul_spec(m[0][0], m[1][3]), S::mul_spec(m[1][0], m[0][3])),
            S::sub_spec(S::mul_spec(m[0][1], m[1][2]), S::mul_spec(m[1][1], m[0][2])),
            S::sub_spec(S::mul_spec(m[0][1], m[1][3]), S::mul_spec(m[1][1], m[0][3])),
            S::sub_spec(S::mul_spec(m[0][2], m[1][3]), S::mul_spec(m[1][2], m[0][3])),
        )
    }

    /// The six 2 by 2 sub-determinants of the bottom two rows, in order
    /// (columns 01, 02, 03, 12, 13, 23).
    pub open spec fn c_terms_spec(self) -> (S, S, S, S, S, S) {
        let m = self.rows;
        (
            S::sub_spec(S::mul_spec(m[2][0], m[3][1]), S::mul_spec(m[3][0], m[2][1])),
            S::sub_spec(S::mul_spec(m[2][0], m[3][2]), S::mul_spec(m[3][0], m[2][2])),
            S::sub_spec(S::mul_spec(m[2][0], m[3][3]), S::mul_spec(m[3][0], m[2][3])),
            S::sub_spec(S::mul_spec(m[2][1], m[3][2]), S::mul_spec(m[3][1], m[2][2])),
            S::sub_spec(S::mul_spec(m[2][1], m[3][3]), S::mul_spec(m[3][1], m[2][3])),
            S::sub_spec(S::mul_spec(m[2][2], m[3][3]), S::mul_spec(m[3][2], m[2][3])),
        )
    }

    /// The determinant by the block decomposition:
    /// s0 c5 - s1 c4 + s2 c3 + s3 c2 - s4 c1 + s5 c0.
    pub open spec fn determinant_spec(self) -> S {
        let s = self.s_terms_spec();
        let c = self.c_terms_spec();
        S::add_spec(
            S::sub_spec(
                S::add_spec(
                    S::add_spec(
                        S::sub_spec(
                            S::mul_spec(s.0, c.5),
                            S::mul_spec(s.1, c.4),
                        ),
                        S::mul_spec(s.2, c.3),
                    ),
                    S::mul_spec(s.3, c.2),
                ),
                S::mul_spec(s.4, c.1),
            ),
            S::mul_spec(s.5, c.0),
        )
    }

    /// The determinant, by the standard block decomposition into six
    /// sub-determinants of the top rows and six of the bottom rows.
    pub fn determinant(&self) -> (r: S)
        ensures
            r == self.determinant_spec(),
    {
        let m = &self.rows;
        let s0 = S::sub(S::mul(m[0][0], m[1][1]), S::mul(m[1][0], m[0][1]));
        let s1 = S::sub(S::mul(m[0][0], m[1][2]), S::mul(m[1][0], m[0][2]));
        let s2 = S::sub(S::mul(m[0][0], m[1][3]), S::mul(m[1][0], m[0][3]));
        let s3 = S::sub(S::mul(m[0][1], m[1][2]), S::mul(m[1][1], m[0][2]));
        let s4 = S::sub(S::mul(m[0][1], m[1][3]), S::mul(m[1][1], m[0][3]));
        let s5 = S::sub(S::mul(m[0][2], m[1][3]), S::mul(m[1][2], m[0][3]));
        let c5 = S::sub(S::mul(m[2][2], m[3][3]), S::mul(m[3][2], m[2][3]));
        let c4 = S::sub(S::mul(m[2][1], m[3][3]), S::mul(m[3][1], m[2][3]));
        let c3 = S::sub(S::mul(m[2][1], m[3][2]), S::mul(m[3][1], m[2][2]));
        let c2 = S::sub(S::mul(m[2][0], m[3][3]), S::mul(m[3][0], m[2][3]));
        let c1 = S::sub(S::mul(m[2][0], m[3][2]), S::mul(m[3][0], m[2][2]));
        let c0 = S::sub(S::mul(m[2][0], m[3][1]), S::mul(m[3][0], m[2][1]));
        S::add(
            S::sub(
                S::add(
                    S::add(S::sub(S::mul(s0, c5), S::mul(s1, c4)), S::mul(s2, c3)),
                    S::mul(s3, c2),
                ),
                S::mul(s4, c1),
            ),
            S::mul(s5, c0),
        )
    }

    pub open spec fn mul_mat_spec(self, rhs: Self) -> Self {
        Matrix4x4 {
            rows: [
                [
                    self.row_spec(0).dot_spec(rhs.col_spec(0)),
                    self.row_spec(0).dot_spec(rhs.col_spec(1)),
                    self.row_spec(0).dot_spec(rhs.col_spec(2)),
                    self.row_spec(0).dot_spec(rhs.col_spec(3)),
                ],
                [
                    self.row_spec(1).dot_spec(rhs.col_spec(0)),
                    self.row_spec(1).dot_spec(rhs.col_spec(1)),
                    self.row_spec(1).dot_spec(rhs.col_spec(2)),
                    self.row_spec(1).dot_spec(rhs.col_spec(3)),
                ],
                [
                    self.row_spec(2).dot_spec(rhs.col_spec(0)),
                    self.row_spec(2).dot_spec(rhs.col_spec(1)),
                    self.row_spec(2).dot_spec(rhs.col_spec(2)),
                    self.row_spec(2).dot_spec(rhs.col_spec(3)),
                ],
                [
                    self.row_spec(3).dot_spec(rhs.col_spec(0)),
                    self.row_spec(3).dot_spec(rhs.col_spec(1)),
                    self.row_spec(3).dot_spec(rhs.col_spec(2)),
                    self.row_spec(3).dot_spec(rhs.col_spec(3)),
                ],
            ],
        }
    }

    /// The matrix product: each entry is the dot product of a row of `self`
    /// with a column of `rhs`.
    pub fn mul_mat(&self, rhs: &Self) -> (r: Self)
        ensures
            r == self.mul_mat_spec(*rhs),
    {
        Matrix4x4 {
            rows: [
                [
                    self.row(0).dot(rhs.col(0)),
                    self.row(0).dot(rhs.col(1)),
                    self.row(0).dot(rhs.col(2)),
                    self.row(0).dot(rhs.col(3)),
                ],
                [
                    self.row(1).dot(rhs.col(0)),
                    self.row(1).dot(rhs.col(1)),
                    self.row(1).dot(rhs.col(2)),
                    self.row(1).dot(rhs.col(3)),
                ],
                [
                    self.row(2).dot(rhs.col(0)),
                    self.row(2).dot(rhs.col(1)),
                    self.row(2).dot(rhs.col(2)),
                    self.row(2).dot(rhs.col(3)),
                ],
                [
                    self.row(3).dot(rhs.col(0)),
                    self.row(3).dot(rhs.col(1)),
                    self.row(3).dot(rhs.col(2)),
                    self.row(3).dot(rhs.col(3)),
                ],
            ],
        }
    }

    pub open spec fn mul_vec_spec(self, rhs: Vector4<S>) -> Vector4<S> {
        Vector4(
            self.row_spec(0).dot_spec(rhs),
            self.row_spec(1).dot_spec(rhs),
            self.row_spec(2).dot_spec(rhs),
            self.row_spec(3).dot_spec(rhs),
        )
    }

    /// The matrix-vector product.
    pub fn mul_vec(&self, rhs: Vector4<S>) -> (r: Vector4<S>)
        ensures
            r == self.mul_vec_spec(rhs),
    {
        Vector4(self.row(0).dot(rhs), self.row(1).dot(rhs), self.row(2).dot(rhs), self.row(3).dot(rhs))
    }
}

impl<S: SignedScalar> Matrix4x4<S> {
    /// Whether the matrix has an inverse: its determinant compares unequal
    /// to zero, with no epsilon tolerance.
    pub open spec fn invertible_spec(self) -> bool {
        !S::eq_val_spec(self.determinant_spec(), S::zero_spec())
    }

    /// The alternating sum a x - b y + c z of an adjugate entry.
    pub open spec fn cof_pos_spec(a: S, x: S, b: S, y: S, c: S, z: S) -> S {
        S::add_spec(S::sub_spec(S::mul_spec(a, x), S::mul_spec(b, y)), S::mul_spec(c, z))
    }

    /// The alternating sum -(a x) + b y - c z of an adjugate entry.
    pub open spec fn cof_neg_spec(a: S, x: S, b: S, y: S, c: S, z: S) -> S {
        S::sub_spec(
            S::add_spec(S::mul_spec(S::neg_spec(a), x), S::mul_spec(b, y)),
            S::mul_spec(c, z),
        )
    }

    pub open spec fn inverse_entries_spec(self) -> Self {
        let inv_det = S::div_spec(S::one_spec(), self.determinant_spec());
        let m = self.rows;
        let s = self.s_terms_spec();
        let c = self.c_terms_spec();
        Matrix4x4 {
            rows: [
                [
                    S::mul_spec(Self::cof_pos_spec(m[1][1], c.5, m[1][2], c.4, m[1][3], c.3), inv_det),
                    S::mul_spec(Self::cof_neg_spec(m[0][1], c.5, m[0][2], c.4, m[0][3], c.3), inv_det),
                    S::mul_spec(Self::cof_pos_spec(m[3][1], s.5, m[3][2], s.4, m[3][3], s.3), inv_det),
                    S::mul_spec(Self::cof_neg_spec(m[2][1], s.5, m[2][2], s.4, m[2][3], s.3), inv_det),
                ],
                [
                    S::mul_spec(Self::cof_neg_spec(m[1][0], c.5, m[1][2], c.2, m[1][3], c.1), inv_det),
                    S::mul_spec(Self::cof_pos_spec(m[0][0], c.5, m[0][2], c.2, m[0][3], c.1), inv_det),
                    S::mul_spec(Self::cof_neg_spec(m[3][0], s.5, m[3][2], s.2, m[3][3], s.1), inv_det),
                    S::mul_spec(Self::cof_pos_spec(m[2][0], s.5, m[2][2], s.2, m[2][3], s.1), inv_det),
                ],
                [
                    S::mul_spec(Self::cof_pos_spec(m[1][0], c.4, m[1][1], c.2, m[1][3], c.0), inv_det),
                    S::mul_spec(Self::cof_neg_spec(m[0][0], c.4, m[0][1], c.2, m[0][3], c.0), inv_det),
                    S::mul_spec(Self::cof_pos_spec(m[3][0], s.4, m[3][1], s.2, m[3][3], s.0), inv_det),
                    S::mul_spec(Self::cof_neg_spec(m[2][0], s.4, m[2][1], s.2, m[2][3], s.0), inv_det),
                ],
                [
                    S::mul_spec(Self::cof_neg_spec(m[1][0], c.3, m[1][1], c.1, m[1][2], c.0), inv_det),
                    S::mul_spec(Self::cof_pos_spec(m[0][0], c.3, m[0][1], c.1, m[0][2], c.0), inv_det),
                    S::mul_spec(Self::cof_neg_spec(m[3][0], s.3, m[3][1], s.1, m[3][2], s.0), inv_det),
                    S::mul_spec(Self::cof_pos_spec(m[2][0], s.3, m[2][1], s.1, m[2][2], s.0), inv_det),
                ],
            ],
        }
    }

    /// Replaces the matrix with its inverse, built from the adjugate's
    /// twelve precomputed sub-determinants scaled by the reciprocal of the
    /// determinant. Fails, leaving the matrix unchanged, exactly when the
    /// determinant compares equal to zero.
    #[verifier::rlimit(30)]
    pub fn invert(&mut self) -> (r: Option<()>)
        ensures
            r is Some <==> old(self).invertible_spec(),
            r is None ==> *final(self) == *old(self),
            r is Some ==> *final(self) == old(self).inverse_entries_spec(),
    {
        let m = &self.rows;
        let s0 = S::sub(S::mul(m[0][0], m[1][1]), S::mul(m[1][0], m[0][1]));
        let s1 = S::sub(S::mul(m[0][0], m[1][2]), S::mul(m[1][0], m[0][2]));
        let s2 = S::sub(S::mul(m[0][0], m[1][3]), S::mul(m[1][0], m[0][3]));
        let s3 = S::sub(S::mul(m[0][1], m[1][2]), S::mul(m[1][1], m[0][2]));
        let s4 = S::sub(S::mul(m[0][1], m[1][3]), S::mul(m[1][1], m[0][3]));
        let s5 = S::sub(S::mul(m[0][2], m[1][3]), S::mul(m[1][2], m[0][3]));
        let c5 = S::sub(S::mul(m[2][2], m[3][3]), S::mul(m[3][2], m[2][3]));
        let c4 = S::sub(S::mul(m[2][1], m[3][3]), S::mul(m[3][1], m[2][3]));
        let c3 = S::sub(S::mul(m[2][1], m[3][2]), S::mul(m[3][1], m[2][2]));
        let c2 = S::sub(S::mul(m[2][0], m[3][3]), S::mul(m[3][0], m[2][3]));
        let c1 = S::sub(S::mul(m[2][0], m[3][2]), S::mul(m[3][0], m[2][2]));
        let c0 = S::sub(S::mul(m[2][0], m[3][1]), S::mul(m[3][0], m[2][1]));
        let det = S::add(
            S::sub(
                S::add(
                    S::add(S::sub(S::mul(s0, c5), S::mul(s1, c4)), S::mul(s2, c3)),
                    S::mul(s3, c2),
                ),
                S::mul(s4, c1),
            ),
            S::mul(s5, c0),
        );
        if S::eq_val(det, S::zero()) {
            return None;
        }
        proof {
            S::div_one_by_nonzero(det);
        }
        let inv_det = S::div(S::one(), det);
        let src = self.rows;
        self.rows = [
            [
                S::mul(cof_pos::<S>(src[1][1], c5, src[1][2], c4, src[1][3], c3), inv_det),
                S::mul(cof_neg::<S>(src[0][1], c5, src[0][2], c4, src[0][3], c3), inv_det),
                S::mul(cof_pos::<S>(src[3][1], s5, src[3][2], s4, src[3][3], s3), inv_det),
                S::mul(cof_neg::<S>(src[2][1], s5, src[2][2], s4, src[2][3], s3), inv_det),
            ],
            [
                S::mul(cof_neg::<S>(src[1][0], c5, src[1][2], c2, src[1][3], c1), inv_det),
                S::mul(cof_pos::<S>(src[0][0], c5, src[0][2], c2, src[0][3], c1), inv_det),
                S::mul(cof_neg::<S>(src[3][0], s5, src[3][2], s2, src[3][3], s1), inv_det),
                S::mul(cof_pos::<S>(src[2][0], s5, src[2][2], s2, src[2][3], s1), inv_det),
            ],
            [
                S::mul(cof_pos::<S>(src[1][0], c4, src[1][1], c2, src[1][3], c0), inv_det),
                S::mul(cof_neg::<S>(src[0][0], c4, src[0][1], c2, src[0][3], c0), inv_det),
                S::mul(cof_pos::<S>(src[3][0], s4, src[3][1], s2, src[3][3], s0), inv_det),
                S::mul(cof_neg::<S>(src[2][0], s4, src[2][1], s2, src[2][3], s0), inv_det),
            ],
            [
                S::mul(cof_neg::<S>(src[1][0], c3, src[1][1], c1, src[1][2], c0), inv_det),
                S::mul(cof_pos::<S>(src[0][0], c3, src[0][1], c1, src[0][2], c0), inv_det),
                S::mul(cof_neg::<S>(src[3][0], s3, src[3][1], s1, src[3][2], s0), inv_det),
                S::mul(cof_pos::<S>(src[2][0], s3, src[2][1], s1, src[2][2], s0), inv_det),
            ],
        ];
        Some(())
    }

    /// The inverse as a new matrix, or nothing exactly when the determinant
    /// compares equal to zero.
    pub fn inverse(&self) -> (r: Option<Self>)
        ensures
            r is Some <==> self.invertible_spec(),
            r is Some ==> r->0 == self.inverse_entries_spec(),
    {
        let mut res = *self;
        let inverted = res.invert();
        match inverted {
            Some(()) => Some(res),
            None => None,
        }
    }
}

/// The alternating sum a x - b y + c z of an adjugate entry.
fn cof_pos<S: SignedScalar>(a: S, x: S, b: S, y: S, c: S, z: S) -> (r: S)
    ensures
        r == Matrix4x4::<S>::cof_pos_spec(a, x, b, y, c, z),
{
    S::add(S::sub(S::mul(a, x), S::mul(b, y)), S::mul(c, z))
}

/// The alternating sum -(a x) + b y - c z of an adjugate entry.
fn cof_neg<S: SignedScalar>(a: S, x: S, b: S, y: S, c: S, z: S) -> (r: S)
    ensures
        r == Matrix4x4::<S>::cof_neg_spec(a, x, b, y, c, z),
{
    S::sub(S::add(S::mul(S::neg(a), x), S::mul(b, y)), S::mul(c, z))
}

impl<S: FloatScalar> Matrix4x4<S> {
    pub open spec fn tf_matrix_spec(pos: Vector3<S>, rot: Quaternion<S>, scale: Vector3<S>) -> Self {
        let right = scale.xvec_spec().rotate_spec(rot);
        let up = scale.yvec_spec().rotate_spec(rot);
        let forw = scale.zvec_spec().rotate_spec(rot);
        Matrix4x4 {
            rows: [
                [right.0, up.0, forw.0, pos.0],
                [right.1, up.1, forw.1, pos.1],
                [right.2, up.2, forw.2, pos.2],
                [S::zero_spec(), S::zero_spec(), S::zero_spec(), S::one_spec()],
            ],
        }
    }

    /// The affine transform with the quaternion-rotated, scaled basis
    /// vectors in the first three columns, the translation in the last
    /// column, and bottom row (0, 0, 0, 1).
    pub fn tf_matrix(pos: Vector3<S>, rot: Quaternion<S>, scale: Vector3<S>) -> (r: Self)
        ensures
            r == Self::tf_matrix_spec(pos, rot, scale),
    {
        let right = scale.xvec().rotate(rot);
        let up = scale.yvec().rotate(rot);
        let forw = scale.zvec().rotate(rot);
        Matrix4x4 {
            rows: [
                [right.0, up.0, forw.0, pos.0],
                [right.1, up.1, forw.1, pos.1],
                [right.2, up.2, forw.2, pos.2],
                [S::zero(), S::zero(), S::zero(), S::one()],
            ],
        }
    }

    pub open spec fn proj_matrix_spec(aspect_ratio: S, fov: S, near: S, far: S) -> Self {
        let tan = S::tan_spec(S::mul_spec(fov, S::half_spec()));
        Matrix4x4 {
            rows: [
                [
                    S::div_spec(S::one_spec(), S::mul_spec(aspect_ratio, tan)),
                    S::zero_spec(),
                    S::zero_spec(),
                    S::zero_spec(),
                ],
                [S::zero_spec(), S::div_spec(S::one_spec(), tan), S::zero_spec(), S::zero_spec()],
                [
                    S::zero_spec(),
                    S::zero_spec(),
                    S::div_spec(far, S::sub_spec(far, near)),
                    S::div_spec(S::mul_spec(S::neg_spec(far), near), S::sub_spec(far, near)),
                ],
                [S::zero_spec(), S::zero_spec(), S::one_spec(), S::zero_spec()],
            ],
        }
    }

    /// The perspective projection for the given aspect ratio, vertical field
    /// of view in radians and near and far planes. With t = tan(fov/2) the
    /// rows are [1/(a t), 0, 0, 0], [0, 1/t, 0, 0],
    /// [0, 0, far/(far-near), -far near/(far-near)], [0, 0, 1, 0]. The
    /// divisions are unguarded for degenerate planes or field of view.
    pub fn proj_matrix(aspect_ratio: S, fov: S, near: S, far: S) -> (r: Self)
        ensures
            r == Self::proj_matrix_spec(aspect_ratio, fov, near, far),
    {
        let tan = S::tan(S::mul(fov, S::half()));
        proof {
            S::div_total(S::one_spec(), S::mul_spec(aspect_ratio, tan));
            S::div_total(S::one_spec(), tan);
            S::div_total(far, S::sub_spec(far, near));
            S::div_total(S::mul_spec(S::neg_spec(far), near), S::sub_spec(far, near));
        }
        Matrix4x4 {
            rows: [
                [S::div(S::one(), S::mul(aspect_ratio, tan)), S::zero(), S::zero(), S::zero()],
                [S::zero(), S::div(S::one(), tan), S::zero(), S::zero()],
                [
                    S::zero(),
                    S::zero(),
                    S::div(far, S::sub(far, near)),
                    S::div(S::mul(S::neg(far), near), S::sub(far, near)),
                ],
                [S::zero(), S::zero(), S::one(), S::zero()],
            ],
        }
    }

    pub open spec fn proj_matrix_vk_spec(aspect_ratio: S, fov: S, near: S, far: S) -> Self {
        let tan = S::tan_spec(S::mul_spec(fov, S::half_spec()));
        Matrix4x4 {
            rows: [
                [
                    S::div_spec(S::one_spec(), S::mul_spec(aspect_ratio, tan)),
                    S::zero_spec(),
                    S::zero_spec(),
                    S::zero_spec(),
                ],
                [
                    S::zero_spec(),
                    S::div_spec(S::neg_spec(S::one_spec()), tan),
                    S::zero_spec(),
                    S::zero_spec(),
                ],
                [
                    S::zero_spec(),
                    S::zero_spec(),
                    S::div_spec(far, S::sub_spec(far, near)),
                    S::div_spec(S::mul_spec(S::neg_spec(far), near), S::sub_spec(far, near)),
                ],
                [S::zero_spec(), S::zero_spec(), S::one_spec(), S::zero_spec()],
            ],
        }
    }

    /// The perspective projection for the alternate-handed clip space:
    /// identical to `proj_matrix` except that the second row is
    /// [0, -1/t, 0, 0].
    pub fn proj_matrix_vk(aspect_ratio: S, fov: S, near: S, far: S) -> (r: Self)
        ensures
            r == Self::proj_matrix_vk_spec(aspect_ratio, fov, near, far),
    {
        let tan = S::tan(S::mul(fov, S::half()));
        proof {
            S::div_total(S::one_spec(), S::mul_spec(aspect_ratio, tan));
            S::div_total(S::neg_spec(S::one_spec()), tan);
            S::div_total(far, S::sub_spec(far, near));
            S::div_total(S::mul_spec(S::neg_spec(far), near), S::sub_spec(far, near));
        }
        Matrix4x4 {
            rows: [
                [S::div(S::one(), S::mul(aspect_ratio, tan)), S::zero(), S::zero(), S::zero()],
                [S::zero(), S::div(S::neg(S::one()), tan), S::zero(), S::zero()],
                [
                    S::zero(),
                    S::zero(),
                    S::div(far, S::sub(far, near)),
                    S::div(S::mul(S::neg(far), near), S::sub(far, near)),
                ],
                [S::zero(), S::zero(), S::one(), S::zero()],
            ],
        }
    }
}

} // verus!
