use vstd::prelude::*;

verus! {

/// A numeric element type for vectors and matrices.
///
/// The trait packages the two pieces of arithmetic the library needs —
/// addition and multiplication closed over the type — together with their
/// mathematical models. `add_spec` and `mul_spec` say what the executable
/// operations return; `can_add` and `can_mul` say on which operands the
/// executable operations are defined (for fixed-width integers: where the
/// exact result fits in the type, so that no operation overflows).
pub trait Scalar: Copy + Sized {
    /// True when `self + rhs` is representable in the type.
    spec fn can_add(self, rhs: Self) -> bool;

    /// The value of `self + rhs`.
    spec fn add_spec(self, rhs: Self) -> Self;

    /// True when `self * rhs` is representable in the type.
    spec fn can_mul(self, rhs: Self) -> bool;

    /// The value of `self * rhs`.
    spec fn mul_spec(self, rhs: Self) -> Self;

    fn add(self, rhs: Self) -> (r: Self)
        requires
            self.can_add(rhs),
        ensures
            r == self.add_spec(rhs),
    ;

    fn mul(self, rhs: Self) -> (r: Self)
        requires
            self.can_mul(rhs),
        ensures
            r == self.mul_spec(rhs),
    ;
}

impl Scalar for i32 {
    open spec fn can_add(self, rhs: i32) -> bool {
        i32::MIN <= self + rhs <= i32::MAX
    }

    open spec fn add_spec(self, rhs: i32) -> i32 {
        (self + rhs) as i32
    }

    open spec fn can_mul(self, rhs: i32) -> bool {
        i32::MIN <= self * rhs <= i32::MAX
    }

    open spec fn mul_spec(self, rhs: i32) -> i32 {
        (self * rhs) as i32
    }

    fn add(self, rhs: i32) -> i32 {
        self + rhs
    }

    fn mul(self, rhs: i32) -> i32 {
        self * rhs
    }
}

impl Scalar for u32 {
    open spec fn can_add(self, rhs: u32) -> bool {
        self + rhs <= u32::MAX
    }

    open spec fn add_spec(self, rhs: u32) -> u32 {
        (self + rhs) as u32
    }

    open spec fn can_mul(self, rhs: u32) -> bool {
        self * rhs <= u32::MAX
    }

    open spec fn mul_spec(self, rhs: u32) -> u32 {
        (self * rhs) as u32
    }

    fn add(self, rhs: u32) -> u32 {
        self + rhs
    }

    fn mul(self, rhs: u32) -> u32 {
        self * rhs
    }
}

impl Scalar for i64 {
    open spec fn can_add(self, rhs: i64) -> bool {
        i64::MIN <= self + rhs <= i64::MAX
    }

    open spec fn add_spec(self, rhs: i64) -> i64 {
        (self + rhs) as i64
    }

    open spec fn can_mul(self, rhs: i64) -> bool {
        i64::MIN <= self * rhs <= i64::MAX
    }

    open spec fn mul_spec(self, rhs: i64) -> i64 {
        (self * rhs) as i64
    }

    fn add(self, rhs: i64) -> i64 {
        self + rhs
    }

    fn mul(self, rhs: i64) -> i64 {
        self * rhs
    }
}

} // verus!
