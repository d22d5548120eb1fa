use vstd::prelude::*;

use crate::scalar::{Element, FloatScalar, Scalar, SignedScalar};
use crate::vector2::Vector2;
use crate::vector3::Vector3;

verus! {

/// A 3 by 3 matrix over an element kind `S`: three ordered rows of three
/// elements, row-major.
#[derive(Clone, Copy, Debug)]
pub struct Matrix3x3<S: Copy> {
    pub rows: [[S; 3]; 3],
}

impl<S: Element> PartialEq for Matrix3x3<S> {
    /// Entrywise test with the element kind's own equality.
    fn eq(&self, other: &Self) -> (r: bool) {
        S::eq_val(self.rows[0][0], other.rows[0][0]) && S::eq_val(self.rows[0][1], other.rows[0][1])
            && S::eq_val(self.rows[0][2], other.rows[0][2]) && S::eq_val(
            self.rows[1][0],
            other.rows[1][0],
        ) && S::eq_val(self.rows[1][1], other.rows[1][1]) && S::eq_val(
            self.rows[1][2],
            other.rows[1][2],
        ) && S::eq_val(self.rows[2][0], other.rows[2][0]) && S::eq_val(
            self.rows[2][1],
            other.rows[2][1],
        ) && S::eq_val(self.rows[2][2], other.rows[2][2])
    }
}

impl<S: Element> vstd::std_specs::cmp::PartialEqSpecImpl for Matrix3x3<S> {
    open spec fn obeys_eq_spec() -> bool {
        true
    }

    open spec fn eq_spec(&self, other: &Self) -> bool {
        S::eq_val_spec(self.rows[0][0], other.rows[0][0]) && S::eq_val_spec(
            self.rows[0][1],
            other.rows[0][1],
        ) && S::eq_val_spec(self.rows[0][2], other.rows[0][2]) && S::eq_val_spec(
            self.rows[1][0],
            other.rows[1][0],
        ) && S::eq_val_spec(self.rows[1][1], other.rows[1][1]) && S::eq_val_spec(
            self.rows[1][2],
            other.rows[1][2],
        ) && S::eq_val_spec(self.rows[2][0], other.rows[2][0]) && S::eq_val_spec(
            self.rows[2][1],
            other.rows[2][1],
        ) && S::eq_val_spec(self.rows[2][2], other.rows[2][2])
    }
}

impl<S: Copy> Matrix3x3<S> {
    /// A matrix from its rows.
    pub fn new(rows: [[S; 3]; 3]) -> (r: Self)
        ensures
            r.rows == rows,
    {
        Matrix3x3 { rows }
    }

    /// A matrix from its three rows given as vectors.
    pub fn new_with_vec(row0: Vector3<S>, row1: Vector3<S>, row2: Vector3<S>) -> (r: Self)
        ensures
            r.rows[0][0] == row0.0,
            r.rows[0][1] == row0.1,
            r.rows[0][2] == row0.2,
            r.rows[1][0] == row1.0,
            r.rows[1][1] == row1.1,
            r.rows[1][2] == row1.2,
            r.rows[2][0] == row2.0,
            r.rows[2][1] == row2.1,
            r.rows[2][2] == row2.2,
    {
        Matrix3x3 {
            rows: [
                [row0.0, row0.1, row0.2],
                [row1.0, row1.1, row1.2],
                [row2.0, row2.1, row2.2],
            ],
        }
    }

    pub open spec fn row_spec(self, row: int) -> Vector3<S> {
        Vector3(self.rows[row][0], self.rows[row][1], self.rows[row][2])
    }

    /// The selected row as a vector; the index must be in range.
    pub fn row(&self, row: usize) -> (r: Vector3<S>)
        requires
            row < 3,
        ensures
            r == self.row_spec(row as int),
    {
        Vector3(self.rows[row][0], self.rows[row][1], self.rows[row][2])
    }

    pub open spec fn col_spec(self, col: int) -> Vector3<S> {
        Vector3(self.rows[0][col], self.rows[1][col], self.rows[2][col])
    }

    /// The selected column as a vector; the index must be in range.
    pub fn col(&self, col: usize) -> (r: Vector3<S>)
        requires
            col < 3,
        ensures
            r == self.col_spec(col as int),
    {
        Vector3(self.rows[0][col], self.rows[1][col], self.rows[2][col])
    }

    /// The selected entry; both indices must be in range.
    pub fn entry(&self, row: usize, col: usize) -> (r: S)
        requires
            row < 3,
            col < 3,
        ensures
            r == self.rows[row as int][col as int],
    {
        self.rows[row][col]
    }

    /// Overwrites the selected entry; both indices must be in range.
    pub fn set_entry(&mut self, row: usize, col: usize, value: S)
        requires
            row < 3,
            col < 3,
        ensures
            final(self).rows[row as int][col as int] == value,
            forall|i: int, j: int|
                0 <= i < 3 && 0 <= j < 3 && !(i == row && j == col) ==> final(self).rows[i][j]
                    == old(self).rows[i][j],
    {
        self.rows[row][col] = value;
    }

    pub open spec fn transp_spec(self) -> Self {
        Matrix3x3 {
            rows: [
                [self.rows[0][0], self.rows[1][0], self.rows[2][0]],
                [self.rows[0][1], self.rows[1][1], self.rows[2][1]],
                [self.rows[0][2], self.rows[1][2], self.rows[2][2]],
            ],
        }
    }

    /// The transpose.
    pub fn transp(&self) -> (r: Self)
        ensures
            r == self.transp_spec(),
    {
        Matrix3x3 {
            rows: [
                [self.rows[0][0], self.rows[1][0], self.rows[2][0]],
                [self.rows[0][1], self.rows[1][1], self.rows[2][1]],
                [self.rows[0][2], self.rows[1][2], self.rows[2][2]],
            ],
        }
    }
}

impl<S: Element> Matrix3x3<S> {
    pub open spec fn identity_spec() -> Self {
        Matrix3x3 {
            rows: [
                [S::one_spec(), S::zero_spec(), S::zero_spec()],
                [S::zero_spec(), S::one_spec(), S::zero_spec()],
                [S::zero_spec(), S::zero_spec(), S::one_spec()],
            ],
        }
    }

    /// The identity matrix: one on the diagonal, zero elsewhere.
    pub fn identity() -> (r: Self)
        ensures
            r == Self::identity_spec(),
    {
        Matrix3x3 {
            rows: [
                [S::one(), S::zero(), S::zero()],
                [S::zero(), S::one(), S::zero()],
                [S::zero(), S::zero(), S::one()],
            ],
        }
    }
}

impl<S: Scalar> Matrix3x3<S> {
    pub open spec fn determinant_spec(self) -> S {
        S::add_spec(
            S::sub_spec(
                S::mul_spec(
                    self.rows[0][0],
                    S::sub_spec(
                        S::mul_spec(self.rows[1][1], self.rows[2][2]),
                        S::mul_spec(self.rows[2][1], self.rows[1][2]),
                    ),
                ),
                S::mul_spec(
                    self.rows[0][1],
                    S::sub_spec(
                        S::mul_spec(self.rows[1][0], self.rows[2][2]),
                        S::mul_spec(self.rows[2][0], self.rows[1][2]),
                    ),
                ),
            ),
            S::mul_spec(
                self.rows[0][2],
                S::sub_spec(
                    S::mul_spec(self.rows[1][0], self.rows[2][1]),
                    S::mul_spec(self.rows[2][0], self.rows[1][1]),
                ),
            ),
        )
    }

    /// The determinant, by cofactor expansion along the first row.
    pub fn determinant(&self) -> (r: S)
        ensures
            r == self.determinant_spec(),
    {
        S::add(
            S::sub(
                S::mul(
                    self.rows[0][0],
                    S::sub(
                        S::mul(self.rows[1][1], self.rows[2][2]),
                        S::mul(self.rows[2][1], self.rows[1][2]),
                    ),
                ),
                S::mul(
                    self.rows[0][1],
                    S::sub(
                        S::mul(self.rows[1][0], self.rows[2][2]),
                        S::mul(self.rows[2][0], self.rows[1][2]),
                    ),
                ),
            ),
            S::mul(
                self.rows[0][2],
                S::sub(
                    S::mul(self.rows[1][0], self.rows[2][1]),
                    S::mul(self.rows[2][0], self.rows[1][1]),
                ),
            ),
        )
    }

    pub open spec fn mul_mat_spec(self, rhs: Self) -> Self {
        Matrix3x3 {
            rows: [
                [
                    self.row_spec(0).dot_spec(rhs.col_spec(0)),
                    self.row_spec(0).dot_spec(rhs.col_spec(1)),
                    self.row_spec(0).dot_spec(rhs.col_spec(2)),
                ],
                [
                    self.row_spec(1).dot_spec(rhs.col_spec(0)),
                    self.row_spec(1).dot_spec(rhs.col_spec(1)),
                    self.row_spec(1).dot_spec(rhs.col_spec(2)),
                ],
                [
                    self.row_spec(2).dot_spec(rhs.col_spec(0)),
                    self.row_spec(2).dot_spec(rhs.col_spec(1)),
                    self.row_spec(2).dot_spec(rhs.col_spec(2)),
                ],
            ],
        }
    }

    /// The matrix product: each entry is the dot product of a row of `self`
    /// with a column of `rhs`.
    pub fn mul_mat(&self, rhs: &Self) -> (r: Self)
        ensures
            r == self.mul_mat_spec(*rhs),
    {
        Matrix3x3 {
            rows: [
                [
                    self.row(0).dot(rhs.col(0)),
                    self.row(0).dot(rhs.col(1)),
                    self.row(0).dot(rhs.col(2)),
                ],
                [
                    self.row(1).dot(rhs.col(0)),
                    self.row(1).dot(rhs.col(1)),
                    self.row(1).dot(rhs.col(2)),
                ],
                [
                    self.row(2).dot(rhs.col(0)),
                    self.row(2).dot(rhs.col(1)),
                    self.row(2).dot(rhs.col(2)),
                ],
            ],
        }
    }

    pub open spec fn mul_vec_spec(self, rhs: Vector3<S>) -> Vector3<S> {
        Vector3(
            self.row_spec(0).dot_spec(rhs),
            self.row_spec(1).dot_spec(rhs),
            self.row_spec(2).dot_spec(rhs),
        )
    }

    /// The matrix-vector product.
    pub fn mul_vec(&self, rhs: Vector3<S>) -> (r: Vector3<S>)
        ensures
            r == self.mul_vec_spec(rhs),
    {
        Vector3(self.row(0).dot(rhs), self.row(1).dot(rhs), self.row(2).dot(rhs))
    }
}

impl<S: SignedScalar> Matrix3x3<S> {
    /// Whether the matrix has an inverse: its determinant compares unequal
    /// to zero, with no epsilon tolerance.
    pub open spec fn invertible_spec(self) -> bool {
        !S::eq_val_spec(self.determinant_spec(), S::zero_spec())
    }

    pub open spec fn minor_spec(a: S, b: S, c: S, d: S) -> S {
        S::sub_spec(S::mul_spec(a, b), S::mul_spec(c, d))
    }

    pub open spec fn inverse_entries_spec(self) -> Self {
        let inv_det = S::div_spec(S::one_spec(), self.determinant_spec());
        let src = self.rows;
        Matrix3x3 {
            rows: [
                [
                    S::mul_spec(Self::minor_spec(src[1][1], src[2][2], src[2][1], src[1][2]), inv_det),
                    S::mul_spec(
                        S::neg_spec(Self::minor_spec(src[0][1], src[2][2], src[2][1], src[0][2])),
                        inv_det,
                    ),
                    S::mul_spec(Self::minor_spec(src[0][1], src[1][2], src[1][1], src[0][2]), inv_det),
                ],
                [
                    S::mul_spec(
                        S::neg_spec(Self::minor_spec(src[1][0], src[2][2], src[2][0], src[1][2])),
                        inv_det,
                    ),
                    S::mul_spec(Self::minor_spec(src[0][0], src[2][2], src[2][0], src[0][2]), inv_det),
                    S::mul_spec(
                        S::neg_spec(Self::minor_spec(src[0][0], src[1][2], src[1][0], src[0][2])),
                        inv_det,
                    ),
                ],
                [
                    S::mul_spec(Self::minor_spec(src[1][0], src[2][1], src[2][0], src[1][1]), inv_det),
                    S::mul_spec(
                        S::neg_spec(Self::minor_spec(src[0][0], src[2][1], src[2][0], src[0][1])),
                        inv_det,
                    ),
                    S::mul_spec(Self::minor_spec(src[0][0], src[1][1], src[1][0], src[0][1]), inv_det),
                ],
            ],
        }
    }

    /// Replaces the matrix with its inverse, built from the adjugate's
    /// signed minors scaled by the reciprocal of the determinant. Fails,
    /// leaving the matrix unchanged, exactly when the determinant compares
    /// equal to zero.
    pub fn invert(&mut self) -> (r: Option<()>)
        ensures
            r is Some <==> old(self).invertible_spec(),
            r is None ==> *final(self) == *old(self),
            r is Some ==> *final(self) == old(self).inverse_entries_spec(),
    {
        let det = self.determinant();
        if S::eq_val(det, S::zero()) {
            return None;
        }
        proof {
            S::div_one_by_nonzero(det);
        }
        let inv_det = S::div(S::one(), det);
        let src = self.rows;
        self.rows = [
            [
                S::mul(S::sub(S::mul(src[1][1], src[2][2]), S::mul(src[2][1], src[1][2])), inv_det),
                S::mul(
                    S::neg(S::sub(S::mul(src[0][1], src[2][2]), S::mul(src[2][1], src[0][2]))),
                    inv_det,
                ),
                S::mul(S::sub(S::mul(src[0][1], src[1][2]), S::mul(src[1][1], src[0][2])), inv_det),
            ],
            [
                S::mul(
                    S::neg(S::sub(S::mul(src[1][0], src[2][2]), S::mul(src[2][0], src[1][2]))),
                    inv_det,
                ),
                S::mul(S::sub(S::mul(src[0][0], src[2][2]), S::mul(src[2][0], src[0][2])), inv_det),
                S::mul(
                    S::neg(S::sub(S::mul(src[0][0], src[1][2]), S::mul(src[1][0], src[0][2]))),
                    inv_det,
                ),
            ],
            [
                S::mul(S::sub(S::mul(src[1][0], src[2][1]), S::mul(src[2][0], src[1][1])), inv_det),
                S::mul(
                    S::neg(S::sub(S::mul(src[0][0], src[2][1]), S::mul(src[2][0], src[0][1]))),
                    inv_det,
                ),
                S::mul(S::sub(S::mul(src[0][0], src[1][1]), S::mul(src[1][0], src[0][1])), inv_det),
            ],
        ];
        Some(())
    }

    /// The inverse as a new matrix, or nothing exactly when the determinant
    /// compares equal to zero.
    pub fn inverse(&self) -> (r: Option<Self>)
        ensures
            r is Some <==> self.invertible_spec(),
            r is Some ==> r->0 == self.inverse_entries_spec(),
    {
        let mut res = *self;
        let inverted = res.invert();
        match inverted {
            Some(()) => Some(res),
            None => None,
        }
    }
}

impl<S: FloatScalar> Matrix3x3<S> {
    pub open spec fn tf_matrix_spec(pos: Vector2<S>, rot: S, scale: Vector2<S>) -> Self {
        let right = scale.xvec_spec().rotate_spec(rot);
        let up = scale.yvec_spec().rotate_spec(rot);
        Matrix3x3 {
            rows: [
                [right.0, up.0, pos.0],
                [right.1, up.1, pos.1],
                [S::zero_spec(), S::zero_spec(), S::one_spec()],
            ],
        }
    }

    /// The planar affine transform with the rotated, scaled basis vectors in
    /// the first two columns and the translation in the last column.
    pub fn tf_matrix(pos: Vector2<S>, rot: S, scale: Vector2<S>) -> (r: Self)
        ensures
            r == Self::tf_matrix_spec(pos, rot, scale),
    {
        let right = scale.xvec().rotate(rot);
        let up = scale.yvec().rotate(rot);
        Matrix3x3 {
            rows: [
                [right.0, up.0, pos.0],
                [right.1, up.1, pos.1],
                [S::zero(), S::zero(), S::one()],
            ],
        }
    }
}

} // verus!
