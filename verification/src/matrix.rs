use vstd::prelude::*;

use crate::scalar::Scalar;
use crate::vector::Vector;

verus! {

/// A 2x2 matrix with entries of type `T`.
///
/// Stored as: [[a, b], [c, d]]
#[derive(Clone, Copy, Debug, PartialEq, Eq)]
pub struct Matrix<T: Copy> {
    pub a: T,
    pub b: T,
    pub c: T,
    pub d: T,
}

impl<T: Copy> Matrix<T> {
    /// Builds the matrix from its four entries in row-major reading order.
    pub fn new(a: T, b: T, c: T, d: T) -> (m: Matrix<T>)
        ensures
            m == (Matrix { a, b, c, d }),
    {
        Matrix { a, b, c, d }
    }

    /// The matrix whose left column is `left` and right column is `right`.
    pub open spec fn from_vectors_spec(left: Vector<T>, right: Vector<T>) -> Matrix<T> {
        Matrix { a: left.x, b: right.x, c: left.y, d: right.y }
    }

    /// Builds a matrix out of its two column vectors.
    pub fn from_vectors(left: Vector<T>, right: Vector<T>) -> (m: Matrix<T>)
        ensures
            m == Matrix::from_vectors_spec(left, right),
    {
        Matrix::new(left.x, right.x, left.y, right.y)
    }

    /// The left column (a, c) of the matrix.
    pub open spec fn left_spec(self) -> Vector<T> {
        Vector { x: self.a, y: self.c }
    }

    /// Extracts the left column vector.
    pub fn left(&self) -> (v: Vector<T>)
        ensures
            v == self.left_spec(),
    {
        Vector::new(self.a, self.c)
    }

    /// The right column (b, d) of the matrix.
    pub open spec fn right_spec(self) -> Vector<T> {
        Vector { x: self.b, y: self.d }
    }

    /// Extracts the right column vector.
    pub fn right(&self) -> (v: Vector<T>)
        ensures
            v == self.right_spec(),
    {
        Vector::new(self.b, self.d)
    }

    /// The transpose: off-diagonal entries swapped.
    pub open spec fn transpose_spec(self) -> Matrix<T> {
        Matrix { a: self.a, b: self.c, c: self.b, d: self.d }
    }

    /// Transposes the matrix.
    pub fn transpose(&self) -> (m: Matrix<T>)
        ensures
            m == self.transpose_spec(),
    {
        Matrix::new(self.a, self.c, self.b, self.d)
    }
}

impl<T: Scalar> Matrix<T> {
    /// True when every product `factor * entry` is representable.
    pub open spec fn can_scale(self, factor: T) -> bool {
        &&& factor.can_mul(self.a)
        &&& factor.can_mul(self.b)
        &&& factor.can_mul(self.c)
        &&& factor.can_mul(self.d)
    }

    /// The matrix scaled entrywise, with the factor on the left.
    pub open spec fn scale_spec(self, factor: T) -> Matrix<T> {
        Matrix {
            a: factor.mul_spec(self.a),
            b: factor.mul_spec(self.b),
            c: factor.mul_spec(self.c),
            d: factor.mul_spec(self.d),
        }
    }

    /// Scales every entry by `factor`, computed as `factor * entry`.
    pub fn scale(&self, factor: T) -> (r: Matrix<T>)
        requires
            self.can_scale(factor),
        ensures
            r == self.scale_spec(factor),
    {
        Matrix::new(
            factor.mul(self.a),
            factor.mul(self.b),
            factor.mul(self.c),
            factor.mul(self.d),
        )
    }

    /// True when all four entrywise sums are representable.
    pub open spec fn can_add(self, rhs: Matrix<T>) -> bool {
        &&& self.a.can_add(rhs.a)
        &&& self.b.can_add(rhs.b)
        &&& self.c.can_add(rhs.c)
        &&& self.d.can_add(rhs.d)
    }

    /// The entrywise sum of two matrices.
    pub open spec fn add_spec(self, rhs: Matrix<T>) -> Matrix<T> {
        Matrix {
            a: self.a.add_spec(rhs.a),
            b: self.b.add_spec(rhs.b),
            c: self.c.add_spec(rhs.c),
            d: self.d.add_spec(rhs.d),
        }
    }

    /// Entrywise sum; the method behind `self + rhs`.
    pub fn add(self, rhs: Matrix<T>) -> (r: Matrix<T>)
        requires
            self.can_add(rhs),
        ensures
            r == self.add_spec(rhs),
    {
        Matrix::new(
            self.a.add(rhs.a),
            self.b.add(rhs.b),
            self.c.add(rhs.c),
            self.d.add(rhs.d),
        )
    }

    /// The matrix times a scalar, with the scalar on the left of each product.
    pub open spec fn mul_scalar_spec(self, rhs: T) -> Matrix<T> {
        Matrix {
            a: rhs.mul_spec(self.a),
            b: rhs.mul_spec(self.b),
            c: rhs.mul_spec(self.c),
            d: rhs.mul_spec(self.d),
        }
    }

    /// Scalar multiplication; the method behind `self * rhs`. Computes
    /// `rhs * entry`, the same convention as `scale`.
    pub fn mul_scalar(self, rhs: T) -> (r: Matrix<T>)
        requires
            self.can_scale(rhs),
        ensures
            r == self.mul_scalar_spec(rhs),
    {
        Matrix::new(
            rhs.mul(self.a),
            rhs.mul(self.b),
            rhs.mul(self.c),
            rhs.mul(self.d),
        )
    }

    /// True when every product and sum of the matrix–vector product is
    /// representable.
    pub open spec fn can_mul_vector(self, rhs: Vector<T>) -> bool {
        &&& self.a.can_mul(rhs.x)
        &&& self.b.can_mul(rhs.y)
        &&& self.a.mul_spec(rhs.x).can_add(self.b.mul_spec(rhs.y))
        &&& self.c.can_mul(rhs.x)
        &&& self.d.can_mul(rhs.y)
        &&& self.c.mul_spec(rhs.x).can_add(self.d.mul_spec(rhs.y))
    }

    /// The standard matrix–vector product:
    /// (a*x + b*y, c*x + d*y).
    pub open spec fn mul_vector_spec(self, rhs: Vector<T>) -> Vector<T> {
        Vector {
            x: self.a.mul_spec(rhs.x).add_spec(self.b.mul_spec(rhs.y)),
            y: self.c.mul_spec(rhs.x).add_spec(self.d.mul_spec(rhs.y)),
        }
    }

    /// Matrix–vector multiplication; the method behind `self * rhs`.
    pub fn mul_vector(self, rhs: Vector<T>) -> (r: Vector<T>)
        requires
            self.can_mul_vector(rhs),
        ensures
            r == self.mul_vector_spec(rhs),
    {
        Vector::new(
            self.a.mul(rhs.x).add(self.b.mul(rhs.y)),
            self.c.mul(rhs.x).add(self.d.mul(rhs.y)),
        )
    }

    /// True when every product and sum of the matrix–matrix product is
    /// representable.
    pub open spec fn can_mul_matrix(self, rhs: Matrix<T>) -> bool {
        &&& self.a.can_mul(rhs.a)
        &&& self.b.can_mul(rhs.c)
        &&& self.a.mul_spec(rhs.a).can_add(self.b.mul_spec(rhs.c))
        &&& self.a.can_mul(rhs.b)
        &&& self.b.can_mul(rhs.d)
        &&& self.a.mul_spec(rhs.b).can_add(self.b.mul_spec(rhs.d))
        &&& self.c.can_mul(rhs.a)
        &&& self.d.can_mul(rhs.c)
        &&& self.c.mul_spec(rhs.a).can_add(self.d.mul_spec(rhs.c))
        &&& self.c.can_mul(rhs.b)
        &&& self.d.can_mul(rhs.d)
        &&& self.c.mul_spec(rhs.b).can_add(self.d.mul_spec(rhs.d))
    }

    /// The standard 2x2 matrix product, left operand rows against right
    /// operand columns, each entry evaluated left to right.
    pub open spec fn mul_matrix_spec(self, rhs: Matrix<T>) -> Matrix<T> {
        Matrix {
            a: self.a.mul_spec(rhs.a).add_spec(self.b.mul_spec(rhs.c)),
            b: self.a.mul_spec(rhs.b).add_spec(self.b.mul_spec(rhs.d)),
            c: self.c.mul_spec(rhs.a).add_spec(self.d.mul_spec(rhs.c)),
            d: self.c.mul_spec(rhs.b).add_spec(self.d.mul_spec(rhs.d)),
        }
    }

    /// Matrix–matrix multiplication; the method behind `self * rhs`.
    pub fn mul_matrix(self, rhs: Matrix<T>) -> (r: Matrix<T>)
        requires
            self.can_mul_matrix(rhs),
        ensures
            r == self.mul_matrix_spec(rhs),
    {
        Matrix::new(
            self.a.mul(rhs.a).add(self.b.mul(rhs.c)),
            self.a.mul(rhs.b).add(self.b.mul(rhs.d)),
            self.c.mul(rhs.a).add(self.d.mul(rhs.c)),
            self.c.mul(rhs.b).add(self.d.mul(rhs.d)),
        )
    }
}

/// Law: a matrix split into its columns and rebuilt from them is unchanged —
/// `from_vectors(m.left(), m.right()) == m` for every matrix.
pub proof fn lemma_columns_round_trip<T: Copy>(m: Matrix<T>)
    ensures
        Matrix::from_vectors_spec(m.left_spec(), m.right_spec()) == m,
{
}

/// Law: building a matrix from two column vectors and splitting it again
/// hands both vectors back — `from_vectors(l, r).left() == l` and
/// `from_vectors(l, r).right() == r` for every pair of vectors.
pub proof fn lemma_from_vectors_round_trip<T: Copy>(l: Vector<T>, r: Vector<T>)
    ensures
        Matrix::from_vectors_spec(l, r).left_spec() == l,
        Matrix::from_vectors_spec(l, r).right_spec() == r,
{
}

/// Law: the transpose is an involution — `m.transpose().transpose() == m`
/// for every matrix.
pub proof fn lemma_transpose_involution<T: Copy>(m: Matrix<T>)
    ensures
        m.transpose_spec().transpose_spec() == m,
{
}

/// Law: scalar multiplication agrees with `scale` on every matrix and
/// every scalar — `m.scale(k)` and `m * k` model the same value.
pub proof fn lemma_matrix_scale_is_mul_scalar<T: Scalar>(m: Matrix<T>, k: T)
    ensures
        m.scale_spec(k) == m.mul_scalar_spec(k),
{
}

/// Law: over `i32` entries, adding a matrix to itself is scaling it by two —
/// `m + m == m.scale(2)`.
pub proof fn lemma_matrix_double_is_scale_two_i32(m: Matrix<i32>)
    ensures
        m.add_spec(m) == m.scale_spec(2),
{
}

/// Law: over `u32` entries, adding a matrix to itself is scaling it by two.
pub proof fn lemma_matrix_double_is_scale_two_u32(m: Matrix<u32>)
    ensures
        m.add_spec(m) == m.scale_spec(2),
{
}

/// Law: over `i64` entries, adding a matrix to itself is scaling it by two.
pub proof fn lemma_matrix_double_is_scale_two_i64(m: Matrix<i64>)
    ensures
        m.add_spec(m) == m.scale_spec(2),
{
}

} // verus!
