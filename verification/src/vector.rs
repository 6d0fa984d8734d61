use vstd::prelude::*;

use crate::scalar::Scalar;

verus! {

/// A 2-component column vector with entries of type `T`.
///
/// Stored as: transpose([x, y])
#[derive(Clone, Copy, Debug, PartialEq, Eq)]
pub struct Vector<T: Copy> {
    pub x: T,
    pub y: T,
}

impl<T: Copy> Vector<T> {
    /// Builds the column vector (x, y).
    pub fn new(x: T, y: T) -> (v: Vector<T>)
        ensures
            v == (Vector { x, y }),
    {
        Vector { x, y }
    }
}

impl<T: Scalar> Vector<T> {
    /// True when every product `factor * component` is representable.
    pub open spec fn can_scale(self, factor: T) -> bool {
        factor.can_mul(self.x) && factor.can_mul(self.y)
    }

    /// The vector scaled componentwise, with the factor on the left.
    pub open spec fn scale_spec(self, factor: T) -> Vector<T> {
        Vector { x: factor.mul_spec(self.x), y: factor.mul_spec(self.y) }
    }

    /// Scales every component by `factor`, computed as `factor * component`.
    pub fn scale(&self, factor: T) -> (r: Vector<T>)
        requires
            self.can_scale(factor),
        ensures
            r == self.scale_spec(factor),
    {
        Vector::new(factor.mul(self.x), factor.mul(self.y))
    }

    /// True when both componentwise sums are representable.
    pub open spec fn can_add(self, rhs: Vector<T>) -> bool {
        self.x.can_add(rhs.x) && self.y.can_add(rhs.y)
    }

    /// The componentwise sum of two vectors.
    pub open spec fn add_spec(self, rhs: Vector<T>) -> Vector<T> {
        Vector { x: self.x.add_spec(rhs.x), y: self.y.add_spec(rhs.y) }
    }

    /// Componentwise sum; the method behind `self + rhs`.
    pub fn add(self, rhs: Vector<T>) -> (r: Vector<T>)
        requires
            self.can_add(rhs),
        ensures
            r == self.add_spec(rhs),
    {
        Vector::new(self.x.add(rhs.x), self.y.add(rhs.y))
    }

    /// The vector times a scalar, with the scalar on the left of each product.
    pub open spec fn mul_scalar_spec(self, rhs: T) -> Vector<T> {
        Vector { x: rhs.mul_spec(self.x), y: rhs.mul_spec(self.y) }
    }

    /// Scalar multiplication; the method behind `self * rhs`. Computes
    /// `rhs * component`, the same convention as `scale`.
    pub fn mul_scalar(self, rhs: T) -> (r: Vector<T>)
        requires
            self.can_scale(rhs),
        ensures
            r == self.mul_scalar_spec(rhs),
    {
        Vector::new(rhs.mul(self.x), rhs.mul(self.y))
    }
}

/// Law: scalar multiplication agrees with `scale` on every vector and
/// every scalar — `v.scale(k)` and `v * k` model the same value.
pub proof fn lemma_vector_scale_is_mul_scalar<T: Scalar>(v: Vector<T>, k: T)
    ensures
        v.scale_spec(k) == v.mul_scalar_spec(k),
{
}

/// Law: over `i32` entries, adding a vector to itself is scaling it by two —
/// `v + v == v.scale(2)`.
pub proof fn lemma_vector_double_is_scale_two_i32(v: Vector<i32>)
    ensures
        v.add_spec(v) == v.scale_spec(2),
{
}

/// Law: over `u32` entries, adding a vector to itself is scaling it by two.
pub proof fn lemma_vector_double_is_scale_two_u32(v: Vector<u32>)
    ensures
        v.add_spec(v) == v.scale_spec(2),
{
}

/// Law: over `i64` entries, adding a vector to itself is scaling it by two.
pub proof fn lemma_vector_double_is_scale_two_i64(v: Vector<i64>)
    ensures
        v.add_spec(v) == v.scale_spec(2),
{
}

} // verus!
