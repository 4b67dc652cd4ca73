//! Affine points in two and three dimensions.
//!
//! A point is a location: subtracting two points yields the vector
//! between them, and a point moves by adding or subtracting a vector.
//! Constructors reject not-a-number coordinates.

use vstd::prelude::*;
use crate::scalar::{Scalar, s_min, s_max, lemma_min_le, lemma_max_ge};
use crate::traits::{Metric, Point};
use crate::util::{minf, maxf};
use crate::vector::{Vector2, Vector3};

verus! {

/// A location in the plane.
#[derive(Clone, Copy, Debug)]
pub struct Point2<S: Scalar> {
    pub x: S,
    pub y: S,
}

/// A location in space.
#[derive(Clone, Copy, Debug)]
pub struct Point3<S: Scalar> {
    pub x: S,
    pub y: S,
    pub z: S,
}

impl<S: Scalar> Point3<S> {
    /// Well-formed: no coordinate is NaN.
    pub open spec fn wf(self) -> bool {
        !self.x.spec_is_nan() && !self.y.spec_is_nan() && !self.z.spec_is_nan()
    }

    /// Componentwise sum of two points, used by midpoint computations.
    pub open spec fn spec_add(self, o: Self) -> Self {
        Point3 { x: self.x.spec_add(o.x), y: self.y.spec_add(o.y), z: self.z.spec_add(o.z) }
    }

    /// The point moved along a vector.
    pub open spec fn spec_add_vector(self, v: Vector3<S>) -> Self {
        Point3 { x: self.x.spec_add(v.x), y: self.y.spec_add(v.y), z: self.z.spec_add(v.z) }
    }

    /// The vector from `o` to `self`.
    pub open spec fn spec_sub(self, o: Self) -> Vector3<S> {
        Vector3 { x: self.x.spec_sub(o.x), y: self.y.spec_sub(o.y), z: self.z.spec_sub(o.z) }
    }

    /// The point moved against a vector.
    pub open spec fn spec_sub_vector(self, v: Vector3<S>) -> Self {
        Point3 { x: self.x.spec_sub(v.x), y: self.y.spec_sub(v.y), z: self.z.spec_sub(v.z) }
    }

    /// Componentwise negation.
    pub open spec fn spec_neg(self) -> Self {
        Point3 { x: self.x.spec_neg(), y: self.y.spec_neg(), z: self.z.spec_neg() }
    }

    /// Each coordinate scaled by `s`.
    pub open spec fn spec_mul(self, s: S) -> Self {
        Point3 { x: self.x.spec_mul(s), y: self.y.spec_mul(s), z: self.z.spec_mul(s) }
    }

    /// Division by a scalar, carried out as one reciprocal and a scale.
    pub open spec fn spec_div(self, s: S) -> Self {
        self.spec_mul(s.spec_recip())
    }

    /// The coordinate on axis `i`: 0 is x, 1 is y, 2 is z.
    pub open spec fn spec_index(self, i: int) -> S {
        if i == 0 {
            self.x
        } else if i == 1 {
            self.y
        } else {
            self.z
        }
    }

    /// The point reindexed: coordinate `i` becomes x, `j` becomes y,
    /// `k` becomes z.
    pub open spec fn spec_permute(self, i: int, j: int, k: int) -> Self {
        Point3 { x: self.spec_index(i), y: self.spec_index(j), z: self.spec_index(k) }
    }

    /// Builds a point; NaN coordinates are a fatal construction error
    /// and stand excluded.
    pub fn new(x: S, y: S, z: S) -> (r: Point3<S>)
        requires
            !x.spec_is_nan(),
            !y.spec_is_nan(),
            !z.spec_is_nan(),
        ensures
            r == (Point3 { x, y, z }),
            r.wf(),
    {
        Point3 { x, y, z }
    }

    /// Componentwise sum of two points.
    pub fn add(self, o: Self) -> (r: Self)
        requires
            self.wf(),
            o.wf(),
        ensures
            r == self.spec_add(o),
            r.wf(),
    {
        proof {
            S::axiom_closure(self.x, o.x);
            S::axiom_closure(self.y, o.y);
            S::axiom_closure(self.z, o.z);
        }
        Self::new(self.x.add(o.x), self.y.add(o.y), self.z.add(o.z))
    }

    /// The point moved along a vector.
    pub fn add_vector(self, v: Vector3<S>) -> (r: Self)
        requires
            self.wf(),
            v.wf(),
        ensures
            r == self.spec_add_vector(v),
            r.wf(),
    {
        proof {
            S::axiom_closure(self.x, v.x);
            S::axiom_closure(self.y, v.y);
            S::axiom_closure(self.z, v.z);
        }
        Self::new(self.x.add(v.x), self.y.add(v.y), self.z.add(v.z))
    }

    /// Moves the point along a vector in place.
    pub fn add_assign(&mut self, v: Vector3<S>)
        ensures
            *final(self) == old(self).spec_add_vector(v),
    {
        self.x = self.x.add(v.x);
        self.y = self.y.add(v.y);
        self.z = self.z.add(v.z);
    }

    /// The vector from `o` to `self`.
    pub fn sub(self, o: Self) -> (r: Vector3<S>)
        requires
            self.wf(),
            o.wf(),
        ensures
            r == self.spec_sub(o),
            r.wf(),
    {
        proof {
            S::axiom_closure(self.x, o.x);
            S::axiom_closure(self.y, o.y);
            S::axiom_closure(self.z, o.z);
        }
        Vector3::new(self.x.sub(o.x), self.y.sub(o.y), self.z.sub(o.z))
    }

    /// The point moved against a vector.
    pub fn sub_vector(self, v: Vector3<S>) -> (r: Self)
        requires
            self.wf(),
            v.wf(),
        ensures
            r == self.spec_sub_vector(v),
            r.wf(),
    {
        proof {
            S::axiom_closure(self.x, v.x);
            S::axiom_closure(self.y, v.y);
            S::axiom_closure(self.z, v.z);
        }
        Self::new(self.x.sub(v.x), self.y.sub(v.y), self.z.sub(v.z))
    }

    /// Componentwise negation.
    pub fn neg(self) -> (r: Self)
        requires
            self.wf(),
        ensures
            r == self.spec_neg(),
            r.wf(),
    {
        proof {
            S::axiom_closure(self.x, self.x);
            S::axiom_closure(self.y, self.y);
            S::axiom_closure(self.z, self.z);
        }
        Self::new(self.x.neg(), self.y.neg(), self.z.neg())
    }

    /// Each coordinate scaled by `s`.
    pub fn mul(self, s: S) -> (r: Self)
        requires
            self.wf(),
            !s.spec_is_nan(),
        ensures
            r == self.spec_mul(s),
            r.wf(),
    {
        proof {
            S::axiom_closure(self.x, s);
            S::axiom_closure(self.y, s);
            S::axiom_closure(self.z, s);
        }
        Self::new(self.x.mul(s), self.y.mul(s), self.z.mul(s))
    }

    /// Division by a scalar; a zero divisor is a fatal error and stands
    /// excluded.
    pub fn div(self, s: S) -> (r: Self)
        requires
            self.wf(),
            !s.spec_is_nan(),
            s != S::spec_zero(),
        ensures
            r == self.spec_div(s),
            r.wf(),
    {
        proof {
            S::axiom_recip_num(s);
        }
        let inv = s.recip();
        self.mul(inv)
    }

    /// The coordinate on axis `i`; an axis beyond 2 is a fatal error and
    /// stands excluded.
    pub fn index(self, i: usize) -> (r: S)
        requires
            i < 3,
        ensures
            r == self.spec_index(i as int),
    {
        if i == 0 {
            self.x
        } else if i == 1 {
            self.y
        } else {
            self.z
        }
    }

    /// Reindexes the axes; an axis beyond 2 is a fatal error and stands
    /// excluded.
    pub fn permute(&self, x: usize, y: usize, z: usize) -> (r: Self)
        requires
            x < 3,
            y < 3,
            z < 3,
        ensures
            r == self.spec_permute(x as int, y as int, z as int),
    {
        Point3 { x: self.index(x), y: self.index(y), z: self.index(z) }
    }

    /// A mutable borrow of the coordinate on axis `i`; an axis beyond 2
    /// is a fatal error and stands excluded.
    pub fn index_mut(&mut self, i: usize) -> (r: &mut S)
        requires
            i < 3,
        ensures
            *r == old(self).spec_index(i as int),
            final(self).spec_index(i as int) == *final(r),
            forall|j: int|
                0 <= j < 3 && j != i ==> #[trigger] final(self).spec_index(j) == old(self).spec_index(
                    j,
                ),
    {
        if i == 0 {
            &mut self.x
        } else if i == 1 {
            &mut self.y
        } else {
            &mut self.z
        }
    }
}

impl<S: Scalar> Point<S> for Point3<S> {
    open spec fn spec_zero() -> Self {
        Point3 { x: S::spec_zero(), y: S::spec_zero(), z: S::spec_zero() }
    }

    open spec fn spec_unit() -> Self {
        Point3 { x: S::spec_one(), y: S::spec_one(), z: S::spec_one() }
    }

    open spec fn spec_has_nan(self) -> bool {
        !self.wf()
    }

    open spec fn spec_distance(p1: Self, p2: Self) -> S {
        p1.spec_sub(p2).spec_norm()
    }

    open spec fn spec_distance_squared(p1: Self, p2: Self) -> S {
        p1.spec_sub(p2).spec_length_squared()
    }

    open spec fn distance_req(p1: Self, p2: Self) -> bool {
        p1.wf() && p2.wf()
    }

    open spec fn spec_lerp(t: S, p1: Self, p2: Self) -> Self {
        p1.spec_mul(S::spec_one().spec_sub(t)).spec_add(p2.spec_mul(t))
    }

    open spec fn lerp_req(t: S, p1: Self, p2: Self) -> bool {
        p1.wf() && p2.wf() && !t.spec_is_nan()
    }

    open spec fn spec_min(p1: Self, p2: Self) -> Self {
        Point3 { x: s_min(p1.x, p2.x), y: s_min(p1.y, p2.y), z: s_min(p1.z, p2.z) }
    }

    open spec fn spec_max(p1: Self, p2: Self) -> Self {
        Point3 { x: s_max(p1.x, p2.x), y: s_max(p1.y, p2.y), z: s_max(p1.z, p2.z) }
    }

    open spec fn minmax_req(p1: Self, p2: Self) -> bool {
        p1.wf() && p2.wf()
    }

    open spec fn spec_floor(self) -> Self {
        Point3 { x: self.x.spec_floor(), y: self.y.spec_floor(), z: self.z.spec_floor() }
    }

    open spec fn spec_ceil(self) -> Self {
        Point3 { x: self.x.spec_ceil(), y: self.y.spec_ceil(), z: self.z.spec_ceil() }
    }

    open spec fn spec_abs(self) -> Self {
        Point3 { x: self.x.spec_abs(), y: self.y.spec_abs(), z: self.z.spec_abs() }
    }

    open spec fn round_req(self) -> bool {
        self.wf()
    }

    fn zero() -> (r: Self) {
        Point3 { x: S::zero(), y: S::zero(), z: S::zero() }
    }

    fn unit() -> (r: Self) {
        Point3 { x: S::one(), y: S::one(), z: S::one() }
    }

    fn has_nan(&self) -> (r: bool) {
        self.x.is_nan() || self.y.is_nan() || self.z.is_nan()
    }

    fn distance(p1: &Self, p2: &Self) -> (r: S) {
        (*p1).sub(*p2).norm()
    }

    fn distance_squared(p1: &Self, p2: &Self) -> (r: S) {
        (*p1).sub(*p2).length_squared()
    }

    fn lerp(t: S, p1: &Self, p2: &Self) -> (r: Self) {
        proof {
            S::axiom_consts_not_nan();
            S::axiom_closure(S::spec_one(), t);
        }
        (*p1).mul(S::one().sub(t)).add((*p2).mul(t))
    }

    fn min(p1: &Self, p2: &Self) -> (r: Self) {
        proof {
            lemma_min_le(p1.x, p2.x);
            lemma_min_le(p1.y, p2.y);
            lemma_min_le(p1.z, p2.z);
        }
        Point3::new(minf(p1.x, p2.x), minf(p1.y, p2.y), minf(p1.z, p2.z))
    }

    fn max(p1: &Self, p2: &Self) -> (r: Self) {
        proof {
            lemma_max_ge(p1.x, p2.x);
            lemma_max_ge(p1.y, p2.y);
            lemma_max_ge(p1.z, p2.z);
        }
        Point3::new(maxf(p1.x, p2.x), maxf(p1.y, p2.y), maxf(p1.z, p2.z))
    }

    fn floor(&self) -> (r: Self) {
        proof {
            S::axiom_round_closure(self.x);
            S::axiom_round_closure(self.y);
            S::axiom_round_closure(self.z);
        }
        Point3::new(self.x.floor(), self.y.floor(), self.z.floor())
    }

    fn ceil(&self) -> (r: Self) {
        proof {
            S::axiom_round_closure(self.x);
            S::axiom_round_closure(self.y);
            S::axiom_round_closure(self.z);
        }
        Point3::new(self.x.ceil(), self.y.ceil(), self.z.ceil())
    }

    fn abs(&self) -> (r: Self) {
        proof {
            S::axiom_closure(self.x, self.x);
            S::axiom_closure(self.y, self.y);
            S::axiom_closure(self.z, self.z);
        }
        Point3::new(self.x.abs(), self.y.abs(), self.z.abs())
    }
}

impl<S: Scalar> Point2<S> {
    /// Well-formed: no coordinate is NaN.
    pub open spec fn wf(self) -> bool {
        !self.x.spec_is_nan() && !self.y.spec_is_nan()
    }

    /// Componentwise sum of two points, used by midpoint computations.
    pub open spec fn spec_add(self, o: Self) -> Self {
        Point2 { x: self.x.spec_add(o.x), y: self.y.spec_add(o.y) }
    }

    /// The point moved along a vector.
    pub open spec fn spec_add_vector(self, v: Vector2<S>) -> Self {
        Point2 { x: self.x.spec_add(v.x), y: self.y.spec_add(v.y) }
    }

    /// The vector from `o` to `self`.
    pub open spec fn spec_sub(self, o: Self) -> Vector2<S> {
        Vector2 { x: self.x.spec_sub(o.x), y: self.y.spec_sub(o.y) }
    }

    /// The point moved against a vector.
    pub open spec fn spec_sub_vector(self, v: Vector2<S>) -> Self {
        Point2 { x: self.x.spec_sub(v.x), y: self.y.spec_sub(v.y) }
    }

    /// Componentwise negation.
    pub open spec fn spec_neg(self) -> Self {
        Point2 { x: self.x.spec_neg(), y: self.y.spec_neg() }
    }

    /// Each coordinate scaled by `s`.
    pub open spec fn spec_mul(self, s: S) -> Self {
        Point2 { x: self.x.spec_mul(s), y: self.y.spec_mul(s) }
    }

    /// Division by a scalar, carried out as one reciprocal and a scale.
    pub open spec fn spec_div(self, s: S) -> Self {
        self.spec_mul(s.spec_recip())
    }

    /// The coordinate on axis `i`: 0 is x, 1 is y.
    pub open spec fn spec_index(self, i: int) -> S {
        if i == 0 {
            self.x
        } else {
            self.y
        }
    }

    /// The point reindexed: coordinate `i` becomes x, `j` becomes y.
    pub open spec fn spec_permute(self, i: int, j: int) -> Self {
        Point2 { x: self.spec_index(i), y: self.spec_index(j) }
    }

    /// Builds a point; NaN coordinates are a fatal construction error
    /// and stand excluded.
    pub fn new(x: S, y: S) -> (r: Point2<S>)
        requires
            !x.spec_is_nan(),
            !y.spec_is_nan(),
        ensures
            r == (Point2 { x, y }),
            r.wf(),
    {
        Point2 { x, y }
    }

    /// Componentwise sum of two points.
    pub fn add(self, o: Self) -> (r: Self)
        requires
            self.wf(),
            o.wf(),
        ensures
            r == self.spec_add(o),
            r.wf(),
    {
        proof {
            S::axiom_closure(self.x, o.x);
            S::axiom_closure(self.y, o.y);
        }
        Self::new(self.x.add(o.x), self.y.add(o.y))
    }

    /// The point moved along a vector.
    pub fn add_vector(self, v: Vector2<S>) -> (r: Self)
        requires
            self.wf(),
            v.wf(),
        ensures
            r == self.spec_add_vector(v),
            r.wf(),
    {
        proof {
            S::axiom_closure(self.x, v.x);
            S::axiom_closure(self.y, v.y);
        }
        Self::new(self.x.add(v.x), self.y.add(v.y))
    }

    /// Moves the point along a vector in place.
    pub fn add_assign(&mut self, v: Vector2<S>)
        ensures
            *final(self) == old(self).spec_add_vector(v),
    {
        self.x = self.x.add(v.x);
        self.y = self.y.add(v.y);
    }

    /// The vector from `o` to `self`.
    pub fn sub(self, o: Self) -> (r: Vector2<S>)
        requires
            self.wf(),
            o.wf(),
        ensures
            r == self.spec_sub(o),
            r.wf(),
    {
        proof {
            S::axiom_closure(self.x, o.x);
            S::axiom_closure(self.y, o.y);
        }
        Vector2::new(self.x.sub(o.x), self.y.sub(o.y))
    }

    /// The point moved against a vector.
    pub fn sub_vector(self, v: Vector2<S>) -> (r: Self)
        requires
            self.wf(),
            v.wf(),
        ensures
            r == self.spec_sub_vector(v),
            r.wf(),
    {
        proof {
            S::axiom_closure(self.x, v.x);
            S::axiom_closure(self.y, v.y);
        }
        Self::new(self.x.sub(v.x), self.y.sub(v.y))
    }

    /// Componentwise negation.
    pub fn neg(self) -> (r: Self)
        requires
            self.wf(),
        ensures
            r == self.spec_neg(),
            r.wf(),
    {
        proof {
            S::axiom_closure(self.x, self.x);
            S::axiom_closure(self.y, self.y);
        }
        Self::new(self.x.neg(), self.y.neg())
    }

    /// Each coordinate scaled by `s`.
    pub fn mul(self, s: S) -> (r: Self)
        requires
            self.wf(),
            !s.spec_is_nan(),
        ensures
            r == self.spec_mul(s),
            r.wf(),
    {
        proof {
            S::axiom_closure(self.x, s);
            S::axiom_closure(self.y, s);
        }
        Self::new(self.x.mul(s), self.y.mul(s))
    }

    /// Division by a scalar; a zero divisor is a fatal error and stands
    /// excluded.
    pub fn div(self, s: S) -> (r: Self)
        requires
            self.wf(),
            !s.spec_is_nan(),
            s != S::spec_zero(),
        ensures
            r == self.spec_div(s),
            r.wf(),
    {
        proof {
            S::axiom_recip_num(s);
        }
        let inv = s.recip();
        self.mul(inv)
    }

    /// The coordinate on axis `i`; an axis beyond 1 is a fatal error and
    /// stands excluded.
    pub fn index(self, i: usize) -> (r: S)
        requires
            i < 2,
        ensures
            r == self.spec_index(i as int),
    {
        if i == 0 {
            self.x
        } else {
            self.y
        }
    }

    /// Reindexes the axes; an axis beyond 1 is a fatal error and stands
    /// excluded.
    pub fn permute(&self, x: usize, y: usize) -> (r: Self)
        requires
            x < 2,
            y < 2,
        ensures
            r == self.spec_permute(x as int, y as int),
    {
        Point2 { x: self.index(x), y: self.index(y) }
    }

    /// A mutable borrow of the coordinate on axis `i`; an axis beyond 1
    /// is a fatal error and stands excluded.
    pub fn index_mut(&mut self, i: usize) -> (r: &mut S)
        requires
            i < 2,
        ensures
            *r == old(self).spec_index(i as int),
            final(self).spec_index(i as int) == *final(r),
            forall|j: int|
                0 <= j < 2 && j != i ==> #[trigger] final(self).spec_index(j) == old(self).spec_index(
                    j,
                ),
    {
        if i == 0 {
            &mut self.x
        } else {
            &mut self.y
        }
    }
}

impl<S: Scalar> Point<S> for Point2<S> {
    open spec fn spec_zero() -> Self {
        Point2 { x: S::spec_zero(), y: S::spec_zero() }
    }

    open spec fn spec_unit() -> Self {
        Point2 { x: S::spec_one(), y: S::spec_one() }
    }

    open spec fn spec_has_nan(self) -> bool {
        !self.wf()
    }

    open spec fn spec_distance(p1: Self, p2: Self) -> S {
        p1.spec_sub(p2).spec_norm()
    }

    open spec fn spec_distance_squared(p1: Self, p2: Self) -> S {
        p1.spec_sub(p2).spec_length_squared()
    }

    open spec fn distance_req(p1: Self, p2: Self) -> bool {
        p1.wf() && p2.wf()
    }

    open spec fn spec_lerp(t: S, p1: Self, p2: Self) -> Self {
        p1.spec_mul(S::spec_one().spec_sub(t)).spec_add(p2.spec_mul(t))
    }

    open spec fn lerp_req(t: S, p1: Self, p2: Self) -> bool {
        p1.wf() && p2.wf() && !t.spec_is_nan()
    }

    open spec fn spec_min(p1: Self, p2: Self) -> Self {
        Point2 { x: s_min(p1.x, p2.x), y: s_min(p1.y, p2.y) }
    }

    open spec fn spec_max(p1: Self, p2: Self) -> Self {
        Point2 { x: s_max(p1.x, p2.x), y: s_max(p1.y, p2.y) }
    }

    open spec fn minmax_req(p1: Self, p2: Self) -> bool {
        p1.wf() && p2.wf()
    }

    open spec fn spec_floor(self) -> Self {
        Point2 { x: self.x.spec_floor(), y: self.y.spec_floor() }
    }

    open spec fn spec_ceil(self) -> Self {
        Point2 { x: self.x.spec_ceil(), y: self.y.spec_ceil() }
    }

    open spec fn spec_abs(self) -> Self {
        Point2 { x: self.x.spec_abs(), y: self.y.spec_abs() }
    }

    open spec fn round_req(self) -> bool {
        self.wf()
    }

    fn zero() -> (r: Self) {
        Point2 { x: S::zero(), y: S::zero() }
    }

    fn unit() -> (r: Self) {
        Point2 { x: S::one(), y: S::one() }
    }

    fn has_nan(&self) -> (r: bool) {
        self.x.is_nan() || self.y.is_nan()
    }

    fn distance(p1: &Self, p2: &Self) -> (r: S) {
        (*p1).sub(*p2).norm()
    }

    fn distance_squared(p1: &Self, p2: &Self) -> (r: S) {
        (*p1).sub(*p2).length_squared()
    }

    fn lerp(t: S, p1: &Self, p2: &Self) -> (r: Self) {
        proof {
            S::axiom_consts_not_nan();
            S::axiom_closure(S::spec_one(), t);
        }
        (*p1).mul(S::one().sub(t)).add((*p2).mul(t))
    }

    fn min(p1: &Self, p2: &Self) -> (r: Self) {
        proof {
            lemma_min_le(p1.x, p2.x);
            lemma_min_le(p1.y, p2.y);
        }
        Point2::new(minf(p1.x, p2.x), minf(p1.y, p2.y))
    }

    fn max(p1: &Self, p2: &Self) -> (r: Self) {
        proof {
            lemma_max_ge(p1.x, p2.x);
            lemma_max_ge(p1.y, p2.y);
        }
        Point2::new(maxf(p1.x, p2.x), maxf(p1.y, p2.y))
    }

    fn floor(&self) -> (r: Self) {
        proof {
            S::axiom_round_closure(self.x);
            S::axiom_round_closure(self.y);
        }
        Point2::new(self.x.floor(), self.y.floor())
    }

    fn ceil(&self) -> (r: Self) {
        proof {
            S::axiom_round_closure(self.x);
            S::axiom_round_closure(self.y);
        }
        Point2::new(self.x.ceil(), self.y.ceil())
    }

    fn abs(&self) -> (r: Self) {
        proof {
            S::axiom_closure(self.x, self.x);
            S::axiom_closure(self.y, self.y);
        }
        Point2::new(self.x.abs(), self.y.abs())
    }
}

/// Swapping the ends of a difference negates it, and leaves the square
/// of the difference unchanged.
proof fn lemma_sub_square_symmetric<S: Scalar>(a: S, b: S)
    requires
        !a.spec_is_nan(),
        !b.spec_is_nan(),
    ensures
        b.spec_sub(a) == a.spec_sub(b).spec_neg(),
        b.spec_sub(a).spec_mul(b.spec_sub(a)) == a.spec_sub(b).spec_mul(a.spec_sub(b)),
{
    let d = a.spec_sub(b);
    S::axiom_closure(a, b);
    S::axiom_closure(b, a);
    S::axiom_neg_sub(a, b);
    S::axiom_closure(d, d);
    S::axiom_mul_neg(d, d.spec_neg());
    S::axiom_mul_comm(d, d.spec_neg());
    S::axiom_mul_neg(d, d);
    S::axiom_neg_neg(d.spec_mul(d));
}

/// Moving a point by the vector toward another point lands exactly on
/// that other point, wherever the difference is exact.
pub proof fn lemma_point3_sub_add_roundtrip<S: Scalar>(p1: Point3<S>, p2: Point3<S>)
    requires
        S::spec_sub_exact(p1.x, p2.x),
        S::spec_sub_exact(p1.y, p2.y),
        S::spec_sub_exact(p1.z, p2.z),
    ensures
        p2.spec_add_vector(p1.spec_sub(p2)) == p1,
{
    S::axiom_sub_exact(p1.x, p2.x);
    S::axiom_sub_exact(p1.y, p2.y);
    S::axiom_sub_exact(p1.z, p2.z);
    S::axiom_add_comm(p2.x, p1.x.spec_sub(p2.x));
    S::axiom_add_comm(p2.y, p1.y.spec_sub(p2.y));
    S::axiom_add_comm(p2.z, p1.z.spec_sub(p2.z));
}

/// Moving a point by the vector toward another point lands exactly on
/// that other point, wherever the difference is exact.
pub proof fn lemma_point2_sub_add_roundtrip<S: Scalar>(p1: Point2<S>, p2: Point2<S>)
    requires
        S::spec_sub_exact(p1.x, p2.x),
        S::spec_sub_exact(p1.y, p2.y),
    ensures
        p2.spec_add_vector(p1.spec_sub(p2)) == p1,
{
    S::axiom_sub_exact(p1.x, p2.x);
    S::axiom_sub_exact(p1.y, p2.y);
    S::axiom_add_comm(p2.x, p1.x.spec_sub(p2.x));
    S::axiom_add_comm(p2.y, p1.y.spec_sub(p2.y));
}

/// Distance between points does not depend on the order of its operands.
pub proof fn lemma_point3_distance_symmetric<S: Scalar>(p1: Point3<S>, p2: Point3<S>)
    requires
        p1.wf(),
        p2.wf(),
    ensures
        Point3::spec_distance(p1, p2) == Point3::spec_distance(p2, p1),
        Point3::spec_distance_squared(p1, p2) == Point3::spec_distance_squared(p2, p1),
{
    lemma_sub_square_symmetric(p1.x, p2.x);
    lemma_sub_square_symmetric(p1.y, p2.y);
    lemma_sub_square_symmetric(p1.z, p2.z);
}

/// Distance between points does not depend on the order of its operands.
pub proof fn lemma_point2_distance_symmetric<S: Scalar>(p1: Point2<S>, p2: Point2<S>)
    requires
        p1.wf(),
        p2.wf(),
    ensures
        Point2::spec_distance(p1, p2) == Point2::spec_distance(p2, p1),
        Point2::spec_distance_squared(p1, p2) == Point2::spec_distance_squared(p2, p1),
{
    lemma_sub_square_symmetric(p1.x, p2.x);
    lemma_sub_square_symmetric(p1.y, p2.y);
}

} // verus!
