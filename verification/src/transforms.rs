use vstd::prelude::*;

use crate::matrix::Matrix;
use crate::vector::Vector;

verus! {

/// The identity transform [[1 0], [0 1]].
pub open spec fn identity_spec() -> Matrix<i32> {
    Matrix { a: 1, b: 0, c: 0, d: 1 }
}

/// Returns the identity transform.
pub fn identity() -> (m: Matrix<i32>)
    ensures
        m == identity_spec(),
{
    Matrix::new(1, 0, 0, 1)
}

/// The counterclockwise quarter-turn [[0 -1], [1 0]].
pub open spec fn rotate_90_spec() -> Matrix<i32> {
    Matrix { a: 0, b: -1i32, c: 1, d: 0 }
}

/// Returns the rotation by 90 degrees.
pub fn rotate_90() -> (m: Matrix<i32>)
    ensures
        m == rotate_90_spec(),
{
    Matrix::new(0, -1i32, 1, 0)
}

/// The half-turn [[-1 0], [0 -1]].
pub open spec fn rotate_180_spec() -> Matrix<i32> {
    Matrix { a: -1i32, b: 0, c: 0, d: -1i32 }
}

/// Returns the rotation by 180 degrees.
pub fn rotate_180() -> (m: Matrix<i32>)
    ensures
        m == rotate_180_spec(),
{
    Matrix::new(-1i32, 0, 0, -1)
}

/// The three-quarter turn [[0 1], [-1 0]].
pub open spec fn rotate_270_spec() -> Matrix<i32> {
    Matrix { a: 0, b: 1, c: -1i32, d: 0 }
}

/// Returns the rotation by 270 degrees.
pub fn rotate_270() -> (m: Matrix<i32>)
    ensures
        m == rotate_270_spec(),
{
    Matrix::new(0, 1, -1i32, 0)
}

/// The flip across the vertical axis [[-1 0], [0 1]].
pub open spec fn flip_x_spec() -> Matrix<i32> {
    Matrix { a: -1i32, b: 0, c: 0, d: 1 }
}

/// Returns the flip that negates the x component.
pub fn flip_x() -> (m: Matrix<i32>)
    ensures
        m == flip_x_spec(),
{
    Matrix::new(-1i32, 0, 0, 1)
}

/// The flip across the horizontal axis [[1 0], [0 -1]].
pub open spec fn flip_y_spec() -> Matrix<i32> {
    Matrix { a: 1, b: 0, c: 0, d: -1i32 }
}

/// Returns the flip that negates the y component.
pub fn flip_y() -> (m: Matrix<i32>)
    ensures
        m == flip_y_spec(),
{
    Matrix::new(1, 0, 0, -1)
}

/// Law: the identity transform fixes every integer vector, and applying it
/// never overflows — `IDENTITY * v == v`.
pub proof fn lemma_identity_fixes_vector(v: Vector<i32>)
    ensures
        identity_spec().can_mul_vector(v),
        identity_spec().mul_vector_spec(v) == v,
{
}

/// Law: a quarter turn followed by a three-quarter turn is the identity —
/// `ROTATE_90 * ROTATE_270 == IDENTITY`.
pub proof fn lemma_rotations_compose_to_identity()
    ensures
        rotate_90_spec().can_mul_matrix(rotate_270_spec()),
        rotate_90_spec().mul_matrix_spec(rotate_270_spec()) == identity_spec(),
{
}

/// Law: the horizontal flip is an involution — `FLIP_X * FLIP_X == IDENTITY`.
pub proof fn lemma_flip_x_involution()
    ensures
        flip_x_spec().can_mul_matrix(flip_x_spec()),
        flip_x_spec().mul_matrix_spec(flip_x_spec()) == identity_spec(),
{
}

/// Law: the vertical flip is an involution — `FLIP_Y * FLIP_Y == IDENTITY`.
pub proof fn lemma_flip_y_involution()
    ensures
        flip_y_spec().can_mul_matrix(flip_y_spec()),
        flip_y_spec().mul_matrix_spec(flip_y_spec()) == identity_spec(),
{
}

} // verus!
