//! Two-dimensional vectors of fixed-point scalars.

use vstd::prelude::*;
use crate::fixed;

verus! {

/// A point or a displacement in the plane; both components are fixed-point
/// scalars.
#[derive(Clone, Copy, Debug, PartialEq, Eq, Structural)]
pub struct Vector {
    pub x: i64,
    pub y: i64,
}

impl Vector {
    /// The vector with both components zero.
    pub open spec fn spec_zero() -> Vector {
        Vector { x: 0, y: 0 }
    }

    /// Componentwise saturating sum.
    pub open spec fn spec_plus(self, other: Vector) -> Vector {
        Vector { x: fixed::plus(self.x, other.x), y: fixed::plus(self.y, other.y) }
    }

    /// Componentwise saturating difference.
    pub open spec fn spec_minus(self, other: Vector) -> Vector {
        Vector { x: fixed::minus(self.x, other.x), y: fixed::minus(self.y, other.y) }
    }

    /// The opposite vector.
    pub open spec fn spec_negated(self) -> Vector {
        Vector { x: fixed::negate(self.x), y: fixed::negate(self.y) }
    }

    /// The square of the Euclidean length, in raw steps squared.
    pub open spec fn norm_squared(self) -> int {
        self.x * self.x + self.y * self.y
    }

    /// The vector multiplied by the scalar `k`.
    pub open spec fn spec_scaled(self, k: i64) -> Vector {
        Vector { x: fixed::times(self.x, k), y: fixed::times(self.y, k) }
    }

    /// The vector divided by the positive scalar `k`.
    pub open spec fn spec_divided(self, k: i64) -> Vector
        recommends
            k > 0,
    {
        Vector { x: fixed::over(self.x, k), y: fixed::over(self.y, k) }
    }

    /// The `n`-th part of the vector, for a positive whole number `n`.
    pub open spec fn spec_nth_part(self, n: i64) -> Vector
        recommends
            n > 0,
    {
        Vector { x: fixed::nth_part(self.x, n), y: fixed::nth_part(self.y, n) }
    }

    /// Euclidean length, rounded down to a raw step.
    pub open spec fn spec_length(self) -> i64 {
        fixed::hypot(self.x, self.y)
    }

    /// The vector of length one that points the same way. The zero vector has
    /// no direction: its normalization is the zero vector.
    pub open spec fn spec_normalized(self) -> Vector {
        if self.spec_length() == 0 {
            Vector::spec_zero()
        } else {
            self.spec_divided(self.spec_length())
        }
    }

    /// The vector with the components `x` and `y`.
    pub fn new(x: i64, y: i64) -> (r: Vector)
        ensures
            r == (Vector { x, y }),
    {
        Vector { x, y }
    }

    /// The vector with both components zero.
    #[verifier::when_used_as_spec(spec_zero)]
    pub fn zero() -> (r: Vector)
        ensures
            r == Vector::spec_zero(),
    {
        Vector { x: 0, y: 0 }
    }

    /// Componentwise saturating sum.
    #[verifier::when_used_as_spec(spec_plus)]
    pub fn plus(self, other: Vector) -> (r: Vector)
        ensures
            r == self.spec_plus(other),
    {
        Vector { x: fixed::plus(self.x, other.x), y: fixed::plus(self.y, other.y) }
    }

    /// Componentwise saturating difference.
    #[verifier::when_used_as_spec(spec_minus)]
    pub fn minus(self, other: Vector) -> (r: Vector)
        ensures
            r == self.spec_minus(other),
    {
        Vector { x: fixed::minus(self.x, other.x), y: fixed::minus(self.y, other.y) }
    }

    /// The opposite vector.
    #[verifier::when_used_as_spec(spec_negated)]
    pub fn negated(self) -> (r: Vector)
        ensures
            r == self.spec_negated(),
    {
        Vector { x: fixed::negate(self.x), y: fixed::negate(self.y) }
    }

    /// The vector multiplied by the scalar `k`.
    #[verifier::when_used_as_spec(spec_scaled)]
    pub fn scaled(self, k: i64) -> (r: Vector)
        ensures
            r == self.spec_scaled(k),
    {
        Vector { x: fixed::times(self.x, k), y: fixed::times(self.y, k) }
    }

    /// The vector divided by the positive scalar `k`.
    #[verifier::when_used_as_spec(spec_divided)]
    pub fn divided(self, k: i64) -> (r: Vector)
        requires
            k > 0,
        ensures
            r == self.spec_divided(k),
    {
        Vector { x: fixed::over(self.x, k), y: fixed::over(self.y, k) }
    }

    /// The `n`-th part of the vector, for a positive whole number `n`.
    #[verifier::when_used_as_spec(spec_nth_part)]
    pub fn nth_part(self, n: i64) -> (r: Vector)
        requires
            n > 0,
        ensures
            r == self.spec_nth_part(n),
    {
        Vector { x: fixed::nth_part(self.x, n), y: fixed::nth_part(self.y, n) }
    }

    /// Euclidean length, rounded down to a raw step.
    #[verifier::when_used_as_spec(spec_length)]
    pub fn length(self) -> (r: i64)
        ensures
            r == self.spec_length(),
            r >= 0,
    {
        fixed::hypot(self.x, self.y)
    }

    /// The vector of length one that points the same way, or the zero vector
    /// for the zero vector.
    #[verifier::when_used_as_spec(spec_normalized)]
    pub fn normalized(self) -> (r: Vector)
        ensures
            r == self.spec_normalized(),
    {
        let len: i64 = self.length();
        if len == 0 {
            Vector::zero()
        } else {
            self.divided(len)
        }
    }
}

} // verus!
