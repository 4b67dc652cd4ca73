//! Capability traits shared by the geometric entities.
//!
//! `Metric` gives lengths and distances, `VectorSpace` the dot product,
//! `Vector` the direction-like operations and `Point` the location-like
//! ones.  Every executable method is pinned to a specification function
//! that the implementing type defines; preconditions stand behind
//! `*_req` specification functions because forming a difference or a
//! quotient must not hit a not-a-number coordinate, which the concrete
//! types treat as a fatal construction error.

use vstd::prelude::*;
use crate::scalar::Scalar;

verus! {

/// Lengths and distances of a geometric entity.
pub trait Metric<S: Scalar>: Sized {
    /// The squared Euclidean length.
    spec fn spec_length_squared(self) -> S;

    /// The Euclidean length, the square root of the squared length.
    spec fn spec_norm(self) -> S;

    /// The length of the difference of the two operands.
    spec fn spec_distance(self, rhs: Self) -> S;

    /// The squared length of the difference of the two operands.
    spec fn spec_distance_squared(self, rhs: Self) -> S;

    /// When the difference underlying a distance can be formed.
    spec fn distance_req(self, rhs: Self) -> bool;

    fn length_squared(self) -> (r: S)
        ensures
            r == self.spec_length_squared(),
    ;

    fn norm(self) -> (r: S)
        ensures
            r == self.spec_norm(),
    ;

    fn distance(self, rhs: Self) -> (r: S)
        requires
            self.distance_req(rhs),
        ensures
            r == self.spec_distance(rhs),
    ;

    fn distance_squared(self, rhs: Self) -> (r: S)
        requires
            self.distance_req(rhs),
        ensures
            r == self.spec_distance_squared(rhs),
    ;
}

/// The inner product of a geometric entity.
pub trait VectorSpace<S: Scalar>: Sized {
    /// The dot product of the two operands.
    spec fn spec_dot(self, rhs: Self) -> S;

    fn dot(self, rhs: Self) -> (r: S)
        ensures
            r == self.spec_dot(rhs),
    ;

    fn abs_dot(self, rhs: Self) -> (r: S)
        ensures
            r == self.spec_dot(rhs).spec_abs(),
    ;
}

/// Direction-like entities: free vectors and surface normals.
pub trait Vector<S: Scalar>: VectorSpace<S> + Metric<S> {
    /// The entity with every coordinate zero.
    spec fn spec_zero() -> Self;

    /// The entity with every coordinate one.
    spec fn spec_unit() -> Self;

    /// Whether any coordinate is a not-a-number value.
    spec fn spec_has_nan(self) -> bool;

    /// The entity scaled by the reciprocal of its length.
    spec fn spec_normalize(self) -> Self;

    /// When normalization can be formed: the length is a nonzero number.
    spec fn normalize_req(self) -> bool;

    /// The entity with each coordinate divided by the length directly.
    spec fn spec_normalize_inplace(self) -> Self;

    fn zero() -> (r: Self)
        ensures
            r == Self::spec_zero(),
    ;

    fn unit() -> (r: Self)
        ensures
            r == Self::spec_unit(),
    ;

    fn has_nan(&self) -> (r: bool)
        ensures
            r == self.spec_has_nan(),
    ;

    fn normalize(v: &Self) -> (r: Self)
        requires
            v.normalize_req(),
        ensures
            r == v.spec_normalize(),
    ;

    fn normalize_inplace(&mut self)
        ensures
            *final(self) == old(self).spec_normalize_inplace(),
    ;
}

/// Location-like entities: affine points.
pub trait Point<S: Scalar>: Sized {
    /// The point at the origin.
    spec fn spec_zero() -> Self;

    /// The point with every coordinate one.
    spec fn spec_unit() -> Self;

    /// Whether any coordinate is a not-a-number value.
    spec fn spec_has_nan(self) -> bool;

    /// The length of the difference vector of the two points.
    spec fn spec_distance(p1: Self, p2: Self) -> S;

    /// The squared length of the difference vector of the two points.
    spec fn spec_distance_squared(p1: Self, p2: Self) -> S;

    /// When the difference underlying a distance can be formed.
    spec fn distance_req(p1: Self, p2: Self) -> bool;

    /// Componentwise interpolation from `p1` at `t == 0` to `p2` at `t == 1`.
    spec fn spec_lerp(t: S, p1: Self, p2: Self) -> Self;

    /// When the interpolation can be formed.
    spec fn lerp_req(t: S, p1: Self, p2: Self) -> bool;

    /// The componentwise minimum of the two points.
    spec fn spec_min(p1: Self, p2: Self) -> Self;

    /// The componentwise maximum of the two points.
    spec fn spec_max(p1: Self, p2: Self) -> Self;

    /// When componentwise comparison is meaningful: no NaN coordinate.
    spec fn minmax_req(p1: Self, p2: Self) -> bool;

    /// The point rounded down on each axis.
    spec fn spec_floor(self) -> Self;

    /// The point rounded up on each axis.
    spec fn spec_ceil(self) -> Self;

    /// The point with each coordinate replaced by its absolute value.
    spec fn spec_abs(self) -> Self;

    /// When rounding and absolute value can be formed: no NaN coordinate.
    spec fn round_req(self) -> bool;

    fn zero() -> (r: Self)
        ensures
            r == Self::spec_zero(),
    ;

    fn unit() -> (r: Self)
        ensures
            r == Self::spec_unit(),
    ;

    fn has_nan(&self) -> (r: bool)
        ensures
            r == self.spec_has_nan(),
    ;

    fn distance(p1: &Self, p2: &Self) -> (r: S)
        requires
            Self::distance_req(*p1, *p2),
        ensures
            r == Self::spec_distance(*p1, *p2),
    ;

    fn distance_squared(p1: &Self, p2: &Self) -> (r: S)
        requires
            Self::distance_req(*p1, *p2),
        ensures
            r == Self::spec_distance_squared(*p1, *p2),
    ;

    fn lerp(t: S, p1: &Self, p2: &Self) -> (r: Self)
        requires
            Self::lerp_req(t, *p1, *p2),
        ensures
            r == Self::spec_lerp(t, *p1, *p2),
    ;

    fn min(p1: &Self, p2: &Self) -> (r: Self)
        requires
            Self::minmax_req(*p1, *p2),
        ensures
            r == Self::spec_min(*p1, *p2),
    ;

    fn max(p1: &Self, p2: &Self) -> (r: Self)
        requires
            Self::minmax_req(*p1, *p2),
        ensures
            r == Self::spec_max(*p1, *p2),
    ;

    fn floor(&self) -> (r: Self)
        requires
            self.round_req(),
        ensures
            r == self.spec_floor(),
    ;

    fn ceil(&self) -> (r: Self)
        requires
            self.round_req(),
        ensures
            r == self.spec_ceil(),
    ;

    fn abs(&self) -> (r: Self)
        requires
            self.round_req(),
        ensures
            r == self.spec_abs(),
    ;
}

} // verus!
