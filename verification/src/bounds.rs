//! Axis-aligned bounding boxes in two and three dimensions.
//!
//! A bounds is a pair of points `(p_min, p_max)`.  A valid, non-empty
//! bounds keeps `p_min` below `p_max` on every axis; the default value
//! is the degenerate sentinel with `p_min` at the greatest scalar and
//! `p_max` at the least, the identity element of the union.  The
//! intersection of boxes that do not overlap silently yields an inverted
//! pair: callers that need a valid result test `overlaps` first.

use vstd::prelude::*;
use crate::scalar::{
    Scalar, s_le, spec_lerp, lerp, lemma_min_le, lemma_max_ge, lemma_min_comm, lemma_max_comm,
    lemma_min_assoc, lemma_max_assoc, lemma_sentinel_identity,
};
use crate::traits::Point;
use crate::point::{Point2, Point3};
use crate::vector::{Vector2, Vector3};

verus! {

/// An axis-aligned rectangle in the plane.
#[derive(Clone, Copy, Debug)]
pub struct Bounds2<S: Scalar> {
    pub p_min: Point2<S>,
    pub p_max: Point2<S>,
}

/// An axis-aligned box in space.
#[derive(Clone, Copy, Debug)]
pub struct Bounds3<S: Scalar> {
    pub p_min: Point3<S>,
    pub p_max: Point3<S>,
}

impl<S: Scalar> Bounds2<S> {
    /// Well-formed: no corner coordinate is NaN.
    pub open spec fn wf(self) -> bool {
        self.p_min.wf() && self.p_max.wf()
    }

    /// The degenerate empty sentinel, the identity of the union.
    pub open spec fn spec_empty() -> Self {
        Bounds2 {
            p_min: Point2 { x: S::spec_max_value(), y: S::spec_max_value() },
            p_max: Point2 { x: S::spec_min_value(), y: S::spec_min_value() },
        }
    }

    /// The corner selected by the low bits of `c`: bit 0 picks the x
    /// coordinate of `p_max` over `p_min`, bit 1 the y coordinate.
    pub open spec fn spec_corner(self, c: u8) -> Point2<S> {
        Point2 {
            x: if c & 1 == 1 {
                self.p_max.x
            } else {
                self.p_min.x
            },
            y: if c & 2 == 2 {
                self.p_max.y
            } else {
                self.p_min.y
            },
        }
    }

    /// The bounds grown just enough to contain the point.
    pub open spec fn spec_point_union(b: Self, p: Point2<S>) -> Self {
        Bounds2 { p_min: Point2::spec_min(b.p_min, p), p_max: Point2::spec_max(b.p_max, p) }
    }

    /// The smallest bounds containing both operands.
    pub open spec fn spec_bounds_union(b1: Self, b2: Self) -> Self {
        Bounds2 {
            p_min: Point2::spec_min(b1.p_min, b2.p_min),
            p_max: Point2::spec_max(b1.p_max, b2.p_max),
        }
    }

    /// The largest bounds contained in both operands; inverted when they
    /// do not overlap.
    pub open spec fn spec_intersect(b1: Self, b2: Self) -> Self {
        Bounds2 {
            p_min: Point2::spec_max(b1.p_min, b2.p_min),
            p_max: Point2::spec_min(b1.p_max, b2.p_max),
        }
    }

    /// Whether the two bounds share a point, both ends inclusive.
    pub open spec fn spec_overlaps(b1: Self, b2: Self) -> bool {
        s_le(b2.p_min.x, b1.p_max.x) && s_le(b1.p_min.x, b2.p_max.x) && s_le(
            b2.p_min.y,
            b1.p_max.y,
        ) && s_le(b1.p_min.y, b2.p_max.y)
    }

    /// Whether the point lies in the bounds, both ends inclusive.
    pub open spec fn spec_inside(p: Point2<S>, b: Self) -> bool {
        s_le(b.p_min.x, p.x) && s_le(p.x, b.p_max.x) && s_le(b.p_min.y, p.y) && s_le(
            p.y,
            b.p_max.y,
        )
    }

    /// Whether the point lies in the bounds, upper ends exclusive.
    pub open spec fn spec_inside_exclusive(p: Point2<S>, b: Self) -> bool {
        s_le(b.p_min.x, p.x) && p.x.spec_lt(b.p_max.x) && s_le(b.p_min.y, p.y) && p.y.spec_lt(
            b.p_max.y,
        )
    }

    /// The bounds pushed outward by `delta` on every side.
    pub open spec fn spec_expand(b: Self, delta: S) -> Self {
        Bounds2 {
            p_min: b.p_min.spec_sub_vector(Vector2 { x: delta, y: delta }),
            p_max: b.p_max.spec_add_vector(Vector2 { x: delta, y: delta }),
        }
    }

    /// The vector from the lower to the upper corner.
    pub open spec fn spec_diagonal(self) -> Vector2<S> {
        self.p_max.spec_sub(self.p_min)
    }

    /// The area of the rectangle, named after the three-dimensional
    /// operation for a uniform interface.
    pub open spec fn spec_surface_area(self) -> S {
        self.spec_diagonal().x.spec_mul(self.spec_diagonal().y)
    }

    /// The axis of the longest diagonal component, earlier axes winning
    /// ties: 0 for x, 1 for y.
    pub open spec fn spec_maximum_extent(self) -> u8 {
        if s_le(self.spec_diagonal().y, self.spec_diagonal().x) {
            0
        } else {
            1
        }
    }

    /// Componentwise interpolation between the corners at parameter `t`.
    pub open spec fn spec_lerp_point(self, t: Point2<S>) -> Point2<S> {
        Point2 {
            x: spec_lerp(t.x, self.p_min.x, self.p_max.x),
            y: spec_lerp(t.y, self.p_min.y, self.p_max.y),
        }
    }

    /// The position of `p` in the bounds, renormalized to the unit range
    /// on every axis of positive width; a degenerate axis keeps the
    /// plain offset.
    pub open spec fn spec_offset(self, p: Point2<S>) -> Vector2<S> {
        let d = p.spec_sub(self.p_min);
        Vector2 {
            x: if self.p_min.x.spec_lt(self.p_max.x) {
                d.x.spec_div(self.p_max.x.spec_sub(self.p_min.x))
            } else {
                d.x
            },
            y: if self.p_min.y.spec_lt(self.p_max.y) {
                d.y.spec_div(self.p_max.y.spec_sub(self.p_min.y))
            } else {
                d.y
            },
        }
    }

    /// The center of the bounds and the radius of the sphere around it:
    /// the distance to the upper corner when the center lies inside,
    /// zero otherwise.
    pub open spec fn spec_bounding_sphere(self) -> (Point2<S>, S) {
        let center = self.p_min.spec_add(self.p_max).spec_div(
            S::spec_one().spec_add(S::spec_one()),
        );
        (
            center,
            if Self::spec_inside(center, self) {
                Point2::spec_distance(center, self.p_max)
            } else {
                S::spec_zero()
            },
        )
    }

    /// The lower corner under index 0, the upper under index 1; any
    /// other index is a fatal error and stands excluded.
    pub fn index(&self, i: u8) -> (r: Point2<S>)
        requires
            i < 2,
        ensures
            i == 0 ==> r == self.p_min,
            i == 1 ==> r == self.p_max,
    {
        if i == 0 {
            self.p_min
        } else {
            self.p_max
        }
    }

    /// One of the four corners, selected by the low bits of `c`.
    pub fn corner(&self, c: u8) -> (r: Point2<S>)
        requires
            c < 4,
            self.wf(),
        ensures
            r == self.spec_corner(c),
    {
        let x = if c & 1 == 1 {
            self.p_max.x
        } else {
            self.p_min.x
        };
        let y = if c & 2 == 2 {
            self.p_max.y
        } else {
            self.p_min.y
        };
        Point2::new(x, y)
    }

    /// Grows the bounds just enough to contain the point.
    pub fn point_union(b: &Self, p: &Point2<S>) -> (r: Self)
        requires
            b.wf(),
            p.wf(),
        ensures
            r == Self::spec_point_union(*b, *p),
            r.wf(),
    {
        let pmin = Point::min(&b.p_min, p);
        let pmax = Point::max(&b.p_max, p);
        proof {
            lemma_min_le(b.p_min.x, p.x);
            lemma_min_le(b.p_min.y, p.y);
            lemma_max_ge(b.p_max.x, p.x);
            lemma_max_ge(b.p_max.y, p.y);
        }
        Bounds2 { p_min: pmin, p_max: pmax }
    }

    /// The smallest bounds containing both operands.
    pub fn bounds_union(b1: &Self, b2: &Self) -> (r: Self)
        requires
            b1.wf(),
            b2.wf(),
        ensures
            r == Self::spec_bounds_union(*b1, *b2),
            r.wf(),
    {
        let pmin = Point::min(&b1.p_min, &b2.p_min);
        let pmax = Point::max(&b1.p_max, &b2.p_max);
        proof {
            lemma_min_le(b1.p_min.x, b2.p_min.x);
            lemma_min_le(b1.p_min.y, b2.p_min.y);
            lemma_max_ge(b1.p_max.x, b2.p_max.x);
            lemma_max_ge(b1.p_max.y, b2.p_max.y);
        }
        Bounds2 { p_min: pmin, p_max: pmax }
    }

    /// The largest bounds contained in both operands; inverted when they
    /// do not overlap, which callers rule out by testing `overlaps`.
    pub fn intersect(b1: &Self, b2: &Self) -> (r: Self)
        requires
            b1.wf(),
            b2.wf(),
        ensures
            r == Self::spec_intersect(*b1, *b2),
            r.wf(),
    {
        let pmin = Point::max(&b1.p_min, &b2.p_min);
        let pmax = Point::min(&b1.p_max, &b2.p_max);
        proof {
            lemma_max_ge(b1.p_min.x, b2.p_min.x);
            lemma_max_ge(b1.p_min.y, b2.p_min.y);
            lemma_min_le(b1.p_max.x, b2.p_max.x);
            lemma_min_le(b1.p_max.y, b2.p_max.y);
        }
        Bounds2 { p_min: pmin, p_max: pmax }
    }

    /// Whether the two bounds share a point, both ends inclusive.
    pub fn overlaps(b1: &Self, b2: &Self) -> (r: bool)
        ensures
            r == Self::spec_overlaps(*b1, *b2),
    {
        let x = b2.p_min.x.le(b1.p_max.x) && b1.p_min.x.le(b2.p_max.x);
        let y = b2.p_min.y.le(b1.p_max.y) && b1.p_min.y.le(b2.p_max.y);
        x && y
    }

    /// Whether the point lies in the bounds, both ends inclusive.
    pub fn inside(p: &Point2<S>, b: &Self) -> (r: bool)
        ensures
            r == Self::spec_inside(*p, *b),
    {
        let x = b.p_min.x.le(p.x) && p.x.le(b.p_max.x);
        let y = b.p_min.y.le(p.y) && p.y.le(b.p_max.y);
        x && y
    }

    /// Whether the point lies in the bounds, upper ends exclusive.
    pub fn inside_exclusive(p: &Point2<S>, b: &Self) -> (r: bool)
        ensures
            r == Self::spec_inside_exclusive(*p, *b),
    {
        let x = b.p_min.x.le(p.x) && p.x.lt(b.p_max.x);
        let y = b.p_min.y.le(p.y) && p.y.lt(b.p_max.y);
        x && y
    }

    /// Pushes the bounds outward by `delta` on every side.
    pub fn expand(b: &Self, delta: S) -> (r: Self)
        requires
            b.wf(),
            !delta.spec_is_nan(),
        ensures
            r == Self::spec_expand(*b, delta),
            r.wf(),
    {
        let delta_vec = Vector2::new(delta, delta);
        let p_min = b.p_min.sub_vector(delta_vec);
        let p_max = b.p_max.add_vector(delta_vec);
        Bounds2 { p_min, p_max }
    }

    /// The vector from the lower to the upper corner.
    pub fn diagonal(&self) -> (r: Vector2<S>)
        requires
            self.wf(),
        ensures
            r == self.spec_diagonal(),
            r.wf(),
    {
        self.p_max.sub(self.p_min)
    }

    /// The area of the rectangle.
    pub fn surface_area(&self) -> (r: S)
        requires
            self.wf(),
        ensures
            r == self.spec_surface_area(),
    {
        let d = self.diagonal();
        d.x.mul(d.y)
    }

    /// A rectangle encloses no volume.
    pub fn volume(&self) -> (r: S)
        ensures
            r == S::spec_zero(),
    {
        S::zero()
    }

    /// The axis of the longest diagonal component, earlier axes winning
    /// ties.
    pub fn maximum_extent(&self) -> (r: u8)
        requires
            self.wf(),
        ensures
            r == self.spec_maximum_extent(),
    {
        let d = self.diagonal();
        if d.y.le(d.x) {
            0
        } else {
            1
        }
    }

    /// Componentwise interpolation between the corners at parameter `t`.
    pub fn lerp(&self, t: &Point2<S>) -> (r: Point2<S>)
        requires
            self.wf(),
            t.wf(),
        ensures
            r == self.spec_lerp_point(*t),
    {
        proof {
            S::axiom_consts_not_nan();
            S::axiom_closure(S::spec_one(), t.x);
            S::axiom_closure(S::spec_one().spec_sub(t.x), self.p_min.x);
            S::axiom_closure(t.x, self.p_max.x);
            S::axiom_closure(
                S::spec_one().spec_sub(t.x).spec_mul(self.p_min.x),
                t.x.spec_mul(self.p_max.x),
            );
            S::axiom_closure(S::spec_one(), t.y);
            S::axiom_closure(S::spec_one().spec_sub(t.y), self.p_min.y);
            S::axiom_closure(t.y, self.p_max.y);
            S::axiom_closure(
                S::spec_one().spec_sub(t.y).spec_mul(self.p_min.y),
                t.y.spec_mul(self.p_max.y),
            );
        }
        let x = lerp(t.x, self.p_min.x, self.p_max.x);
        let y = lerp(t.y, self.p_min.y, self.p_max.y);
        Point2::new(x, y)
    }

    /// The position of `p` in the bounds, renormalized to the unit range
    /// on every axis of positive width.
    pub fn offset(&self, p: &Point2<S>) -> (r: Vector2<S>)
        requires
            self.wf(),
            p.wf(),
        ensures
            r == self.spec_offset(*p),
    {
        let mut offset = (*p).sub(self.p_min);
        if self.p_min.x.lt(self.p_max.x) {
            offset.x = offset.x.div(self.p_max.x.sub(self.p_min.x));
        }
        if self.p_min.y.lt(self.p_max.y) {
            offset.y = offset.y.div(self.p_max.y.sub(self.p_min.y));
        }
        offset
    }

    /// The center of the bounds and the radius of the enclosing sphere.
    pub fn bounding_sphere(&self) -> (r: (Point2<S>, S))
        requires
            self.wf(),
        ensures
            r == self.spec_bounding_sphere(),
    {
        proof {
            S::axiom_consts_not_nan();
            S::axiom_closure(S::spec_one(), S::spec_one());
        }
        let two = S::one().add(S::one());
        let center = self.p_min.add(self.p_max).div(two);
        if Self::inside(&center, self) {
            (center, Point::distance(&center, &self.p_max))
        } else {
            (center, S::zero())
        }
    }
}

impl<S: Scalar> Default for Bounds2<S> {
    /// The empty sentinel bounds, so that folding unions over it
    /// converges to the bounds of the elements alone.
    fn default() -> (r: Self)
        ensures
            r == Self::spec_empty(),
    {
        Bounds2 {
            p_min: Point2 { x: S::max_value(), y: S::max_value() },
            p_max: Point2 { x: S::min_value(), y: S::min_value() },
        }
    }
}

impl<S: Scalar> From<Point2<S>> for Bounds2<S> {
    /// The zero-area bounds holding exactly one point.
    fn from(p: Point2<S>) -> (r: Self) {
        Bounds2 { p_min: p, p_max: p }
    }
}

impl<S: Scalar> vstd::std_specs::convert::FromSpecImpl<Point2<S>> for Bounds2<S> {
    open spec fn obeys_from_spec() -> bool {
        true
    }

    open spec fn from_spec(p: Point2<S>) -> Self {
        Bounds2 { p_min: p, p_max: p }
    }
}

impl<S: Scalar> From<(Point2<S>, Point2<S>)> for Bounds2<S> {
    /// The bounds with the given lower and upper corners, taken as they
    /// come.
    fn from(points: (Point2<S>, Point2<S>)) -> (r: Self) {
        Bounds2 { p_min: points.0, p_max: points.1 }
    }
}

impl<S: Scalar> vstd::std_specs::convert::FromSpecImpl<(Point2<S>, Point2<S>)> for Bounds2<S> {
    open spec fn obeys_from_spec() -> bool {
        true
    }

    open spec fn from_spec(points: (Point2<S>, Point2<S>)) -> Self {
        Bounds2 { p_min: points.0, p_max: points.1 }
    }
}

impl<S: Scalar> Bounds3<S> {
    /// Well-formed: no corner coordinate is NaN.
    pub open spec fn wf(self) -> bool {
        self.p_min.wf() && self.p_max.wf()
    }

    /// The degenerate empty sentinel, the identity of the union.
    pub open spec fn spec_empty() -> Self {
        Bounds3 {
            p_min: Point3 {
                x: S::spec_max_value(),
                y: S::spec_max_value(),
                z: S::spec_max_value(),
            },
            p_max: Point3 {
                x: S::spec_min_value(),
                y: S::spec_min_value(),
                z: S::spec_min_value(),
            },
        }
    }

    /// The corner selected by the low bits of `c`: bit 0 picks the x
    /// coordinate of `p_max` over `p_min`, bit 1 the y, bit 2 the z.
    pub open spec fn spec_corner(self, c: u8) -> Point3<S> {
        Point3 {
            x: if c & 1 == 1 {
                self.p_max.x
            } else {
                self.p_min.x
            },
            y: if c & 2 == 2 {
                self.p_max.y
            } else {
                self.p_min.y
            },
            z: if c & 4 == 4 {
                self.p_max.z
            } else {
                self.p_min.z
            },
        }
    }

    /// The bounds grown just enough to contain the point.
    pub open spec fn spec_point_union(b: Self, p: Point3<S>) -> Self {
        Bounds3 { p_min: Point3::spec_min(b.p_min, p), p_max: Point3::spec_max(b.p_max, p) }
    }

    /// The smallest bounds containing both operands.
    pub open spec fn spec_bounds_union(b1: Self, b2: Self) -> Self {
        Bounds3 {
            p_min: Point3::spec_min(b1.p_min, b2.p_min),
            p_max: Point3::spec_max(b1.p_max, b2.p_max),
        }
    }

    /// The largest bounds contained in both operands; inverted when they
    /// do not overlap.
    pub open spec fn spec_intersect(b1: Self, b2: Self) -> Self {
        Bounds3 {
            p_min: Point3::spec_max(b1.p_min, b2.p_min),
            p_max: Point3::spec_min(b1.p_max, b2.p_max),
        }
    }

    /// Whether the two bounds share a point, both ends inclusive.
    pub open spec fn spec_overlaps(b1: Self, b2: Self) -> bool {
        s_le(b2.p_min.x, b1.p_max.x) && s_le(b1.p_min.x, b2.p_max.x) && s_le(
            b2.p_min.y,
            b1.p_max.y,
        ) && s_le(b1.p_min.y, b2.p_max.y) && s_le(b2.p_min.z, b1.p_max.z) && s_le(
            b1.p_min.z,
            b2.p_max.z,
        )
    }

    /// Whether the point lies in the bounds, both ends inclusive.
    pub open spec fn spec_inside(p: Point3<S>, b: Self) -> bool {
        s_le(b.p_min.x, p.x) && s_le(p.x, b.p_max.x) && s_le(b.p_min.y, p.y) && s_le(
            p.y,
            b.p_max.y,
        ) && s_le(b.p_min.z, p.z) && s_le(p.z, b.p_max.z)
    }

    /// Whether the point lies in the bounds, upper ends exclusive.
    pub open spec fn spec_inside_exclusive(p: Point3<S>, b: Self) -> bool {
        s_le(b.p_min.x, p.x) && p.x.spec_lt(b.p_max.x) && s_le(b.p_min.y, p.y) && p.y.spec_lt(
            b.p_max.y,
        ) && s_le(b.p_min.z, p.z) && p.z.spec_lt(b.p_max.z)
    }

    /// The bounds pushed outward by `delta` on every side.
    pub open spec fn spec_expand(b: Self, delta: S) -> Self {
        Bounds3 {
            p_min: b.p_min.spec_sub_vector(Vector3 { x: delta, y: delta, z: delta }),
            p_max: b.p_max.spec_add_vector(Vector3 { x: delta, y: delta, z: delta }),
        }
    }

    /// The vector from the lower to the upper corner.
    pub open spec fn spec_diagonal(self) -> Vector3<S> {
        self.p_max.spec_sub(self.p_min)
    }

    /// Twice the sum of the three face areas.
    pub open spec fn spec_surface_area(self) -> S {
        let d = self.spec_diagonal();
        S::spec_one().spec_add(S::spec_one()).spec_mul(
            d.x.spec_mul(d.y).spec_add(d.x.spec_mul(d.z)).spec_add(d.y.spec_mul(d.z)),
        )
    }

    /// The product of the three diagonal components.
    pub open spec fn spec_volume(self) -> S {
        let d = self.spec_diagonal();
        d.x.spec_mul(d.y).spec_mul(d.z)
    }

    /// The axis of the longest diagonal component, earlier axes winning
    /// ties: 0 for x, 1 for y, 2 for z.
    pub open spec fn spec_maximum_extent(self) -> u8 {
        let d = self.spec_diagonal();
        if s_le(d.y, d.x) && s_le(d.z, d.x) {
            0
        } else if s_le(d.z, d.y) {
            1
        } else {
            2
        }
    }

    /// Componentwise interpolation between the corners at parameter `t`.
    pub open spec fn spec_lerp_point(self, t: Point3<S>) -> Point3<S> {
        Point3 {
            x: spec_lerp(t.x, self.p_min.x, self.p_max.x),
            y: spec_lerp(t.y, self.p_min.y, self.p_max.y),
            z: spec_lerp(t.z, self.p_min.z, self.p_max.z),
        }
    }

    /// The position of `p` in the bounds, renormalized to the unit range
    /// on every axis of positive width; a degenerate axis keeps the
    /// plain offset.
    pub open spec fn spec_offset(self, p: Point3<S>) -> Vector3<S> {
        let d = p.spec_sub(self.p_min);
        Vector3 {
            x: if self.p_min.x.spec_lt(self.p_max.x) {
                d.x.spec_div(self.p_max.x.spec_sub(self.p_min.x))
            } else {
                d.x
            },
            y: if self.p_min.y.spec_lt(self.p_max.y) {
                d.y.spec_div(self.p_max.y.spec_sub(self.p_min.y))
            } else {
                d.y
            },
            z: if self.p_min.z.spec_lt(self.p_max.z) {
                d.z.spec_div(self.p_max.z.spec_sub(self.p_min.z))
            } else {
                d.z
            },
        }
    }

    /// The center of the bounds and the radius of the sphere around it:
    /// the distance to the upper corner when the center lies inside,
    /// zero otherwise.
    pub open spec fn spec_bounding_sphere(self) -> (Point3<S>, S) {
        let center = self.p_min.spec_add(self.p_max).spec_div(
            S::spec_one().spec_add(S::spec_one()),
        );
        (
            center,
            if Self::spec_inside(center, self) {
                Point3::spec_distance(center, self.p_max)
            } else {
                S::spec_zero()
            },
        )
    }

    /// The lower corner under index 0, the upper under index 1; any
    /// other index is a fatal error and stands excluded.
    pub fn index(&self, i: u8) -> (r: Point3<S>)
        requires
            i < 2,
        ensures
            i == 0 ==> r == self.p_min,
            i == 1 ==> r == self.p_max,
    {
        if i == 0 {
            self.p_min
        } else {
            self.p_max
        }
    }

    /// One of the eight corners, selected by the low bits of `c`.
    pub fn corner(&self, c: u8) -> (r: Point3<S>)
        requires
            c < 8,
            self.wf(),
        ensures
            r == self.spec_corner(c),
    {
        let x = if c & 1 == 1 {
            self.p_max.x
        } else {
            self.p_min.x
        };
        let y = if c & 2 == 2 {
            self.p_max.y
        } else {
            self.p_min.y
        };
        let z = if c & 4 == 4 {
            self.p_max.z
        } else {
            self.p_min.z
        };
        Point3::new(x, y, z)
    }

    /// Grows the bounds just enough to contain the point.
    pub fn point_union(b: &Self, p: &Point3<S>) -> (r: Self)
        requires
            b.wf(),
            p.wf(),
        ensures
            r == Self::spec_point_union(*b, *p),
            r.wf(),
    {
        let pmin = Point::min(&b.p_min, p);
        let pmax = Point::max(&b.p_max, p);
        proof {
            lemma_min_le(b.p_min.x, p.x);
            lemma_min_le(b.p_min.y, p.y);
            lemma_min_le(b.p_min.z, p.z);
            lemma_max_ge(b.p_max.x, p.x);
            lemma_max_ge(b.p_max.y, p.y);
            lemma_max_ge(b.p_max.z, p.z);
        }
        Bounds3 { p_min: pmin, p_max: pmax }
    }

    /// The smallest bounds containing both operands.
    pub fn bounds_union(b1: &Self, b2: &Self) -> (r: Self)
        requires
            b1.wf(),
            b2.wf(),
        ensures
            r == Self::spec_bounds_union(*b1, *b2),
            r.wf(),
    {
        let pmin = Point::min(&b1.p_min, &b2.p_min);
        let pmax = Point::max(&b1.p_max, &b2.p_max);
        proof {
            lemma_min_le(b1.p_min.x, b2.p_min.x);
            lemma_min_le(b1.p_min.y, b2.p_min.y);
            lemma_min_le(b1.p_min.z, b2.p_min.z);
            lemma_max_ge(b1.p_max.x, b2.p_max.x);
            lemma_max_ge(b1.p_max.y, b2.p_max.y);
            lemma_max_ge(b1.p_max.z, b2.p_max.z);
        }
        Bounds3 { p_min: pmin, p_max: pmax }
    }

    /// The largest bounds contained in both operands; inverted when they
    /// do not overlap, which callers rule out by testing `overlaps`.
    pub fn intersect(b1: &Self, b2: &Self) -> (r: Self)
        requires
            b1.wf(),
            b2.wf(),
        ensures
            r == Self::spec_intersect(*b1, *b2),
            r.wf(),
    {
        let pmin = Point::max(&b1.p_min, &b2.p_min);
        let pmax = Point::min(&b1.p_max, &b2.p_max);
        proof {
            lemma_max_ge(b1.p_min.x, b2.p_min.x);
            lemma_max_ge(b1.p_min.y, b2.p_min.y);
            lemma_max_ge(b1.p_min.z, b2.p_min.z);
            lemma_min_le(b1.p_max.x, b2.p_max.x);
            lemma_min_le(b1.p_max.y, b2.p_max.y);
            lemma_min_le(b1.p_max.z, b2.p_max.z);
        }
        Bounds3 { p_min: pmin, p_max: pmax }
    }

    /// Whether the two bounds share a point, both ends inclusive.
    pub fn overlaps(b1: &Self, b2: &Self) -> (r: bool)
        ensures
            r == Self::spec_overlaps(*b1, *b2),
    {
        let x = b2.p_min.x.le(b1.p_max.x) && b1.p_min.x.le(b2.p_max.x);
        let y = b2.p_min.y.le(b1.p_max.y) && b1.p_min.y.le(b2.p_max.y);
        let z = b2.p_min.z.le(b1.p_max.z) && b1.p_min.z.le(b2.p_max.z);
        x && y && z
    }

    /// Whether the point lies in the bounds, both ends inclusive.
    pub fn inside(p: &Point3<S>, b: &Self) -> (r: bool)
        ensures
            r == Self::spec_inside(*p, *b),
    {
        let x = b.p_min.x.le(p.x) && p.x.le(b.p_max.x);
        let y = b.p_min.y.le(p.y) && p.y.le(b.p_max.y);
        let z = b.p_min.z.le(p.z) && p.z.le(b.p_max.z);
        x && y && z
    }

    /// Whether the point lies in the bounds, upper ends exclusive.
    pub fn inside_exclusive(p: &Point3<S>, b: &Self) -> (r: bool)
        ensures
            r == Self::spec_inside_exclusive(*p, *b),
    {
        let x = b.p_min.x.le(p.x) && p.x.lt(b.p_max.x);
        let y = b.p_min.y.le(p.y) && p.y.lt(b.p_max.y);
        let z = b.p_min.z.le(p.z) && p.z.lt(b.p_max.z);
        x && y && z
    }

    /// Pushes the bounds outward by `delta` on every side.
    pub fn expand(b: &Self, delta: S) -> (r: Self)
        requires
            b.wf(),
            !delta.spec_is_nan(),
        ensures
            r == Self::spec_expand(*b, delta),
            r.wf(),
    {
        let delta_vec = Vector3::new(delta, delta, delta);
        let p_min = b.p_min.sub_vector(delta_vec);
        let p_max = b.p_max.add_vector(delta_vec);
        Bounds3 { p_min, p_max }
    }

    /// The vector from the lower to the upper corner.
    pub fn diagonal(&self) -> (r: Vector3<S>)
        requires
            self.wf(),
        ensures
            r == self.spec_diagonal(),
            r.wf(),
    {
        self.p_max.sub(self.p_min)
    }

    /// Twice the sum of the three face areas.
    pub fn surface_area(&self) -> (r: S)
        requires
            self.wf(),
        ensures
            r == self.spec_surface_area(),
    {
        let d = self.diagonal();
        let two = S::one().add(S::one());
        two.mul(d.x.mul(d.y).add(d.x.mul(d.z)).add(d.y.mul(d.z)))
    }

    /// The volume of the box.
    pub fn volume(&self) -> (r: S)
        requires
            self.wf(),
        ensures
            r == self.spec_volume(),
    {
        let d = self.diagonal();
        d.x.mul(d.y).mul(d.z)
    }

    /// The axis of the longest diagonal component, earlier axes winning
    /// ties.
    pub fn maximum_extent(&self) -> (r: u8)
        requires
            self.wf(),
        ensures
            r == self.spec_maximum_extent(),
    {
        let d = self.diagonal();
        if d.y.le(d.x) && d.z.le(d.x) {
            0
        } else if d.z.le(d.y) {
            1
        } else {
            2
        }
    }

    /// Componentwise interpolation between the corners at parameter `t`.
    pub fn lerp(&self, t: &Point3<S>) -> (r: Point3<S>)
        requires
            self.wf(),
            t.wf(),
        ensures
            r == self.spec_lerp_point(*t),
    {
        proof {
            S::axiom_consts_not_nan();
            S::axiom_closure(S::spec_one(), t.x);
            S::axiom_closure(S::spec_one().spec_sub(t.x), self.p_min.x);
            S::axiom_closure(t.x, self.p_max.x);
            S::axiom_closure(
                S::spec_one().spec_sub(t.x).spec_mul(self.p_min.x),
                t.x.spec_mul(self.p_max.x),
            );
            S::axiom_closure(S::spec_one(), t.y);
            S::axiom_closure(S::spec_one().spec_sub(t.y), self.p_min.y);
            S::axiom_closure(t.y, self.p_max.y);
            S::axiom_closure(
                S::spec_one().spec_sub(t.y).spec_mul(self.p_min.y),
                t.y.spec_mul(self.p_max.y),
            );
            S::axiom_closure(S::spec_one(), t.z);
            S::axiom_closure(S::spec_one().spec_sub(t.z), self.p_min.z);
            S::axiom_closure(t.z, self.p_max.z);
            S::axiom_closure(
                S::spec_one().spec_sub(t.z).spec_mul(self.p_min.z),
                t.z.spec_mul(self.p_max.z),
            );
        }
        let x = lerp(t.x, self.p_min.x, self.p_max.x);
        let y = lerp(t.y, self.p_min.y, self.p_max.y);
        let z = lerp(t.z, self.p_min.z, self.p_max.z);
        Point3::new(x, y, z)
    }

    /// The position of `p` in the bounds, renormalized to the unit range
    /// on every axis of positive width.
    pub fn offset(&self, p: &Point3<S>) -> (r: Vector3<S>)
        requires
            self.wf(),
            p.wf(),
        ensures
            r == self.spec_offset(*p),
    {
        let mut offset = (*p).sub(self.p_min);
        if self.p_min.x.lt(self.p_max.x) {
            offset.x = offset.x.div(self.p_max.x.sub(self.p_min.x));
        }
        if self.p_min.y.lt(self.p_max.y) {
            offset.y = offset.y.div(self.p_max.y.sub(self.p_min.y));
        }
        if self.p_min.z.lt(self.p_max.z) {
            offset.z = offset.z.div(self.p_max.z.sub(self.p_min.z));
        }
        offset
    }

    /// The center of the bounds and the radius of the enclosing sphere.
    pub fn bounding_sphere(&self) -> (r: (Point3<S>, S))
        requires
            self.wf(),
        ensures
            r == self.spec_bounding_sphere(),
    {
        proof {
            S::axiom_consts_not_nan();
            S::axiom_closure(S::spec_one(), S::spec_one());
        }
        let two = S::one().add(S::one());
        let center = self.p_min.add(self.p_max).div(two);
        if Self::inside(&center, self) {
            (center, Point::distance(&center, &self.p_max))
        } else {
            (center, S::zero())
        }
    }
}

impl<S: Scalar> Default for Bounds3<S> {
    /// The empty sentinel bounds, so that folding unions over it
    /// converges to the bounds of the elements alone.
    fn default() -> (r: Self)
        ensures
            r == Self::spec_empty(),
    {
        Bounds3 {
            p_min: Point3 { x: S::max_value(), y: S::max_value(), z: S::max_value() },
            p_max: Point3 { x: S::min_value(), y: S::min_value(), z: S::min_value() },
        }
    }
}

impl<S: Scalar> From<Point3<S>> for Bounds3<S> {
    /// The zero-volume bounds holding exactly one point.
    fn from(p: Point3<S>) -> (r: Self) {
        Bounds3 { p_min: p, p_max: p }
    }
}

impl<S: Scalar> vstd::std_specs::convert::FromSpecImpl<Point3<S>> for Bounds3<S> {
    open spec fn obeys_from_spec() -> bool {
        true
    }

    open spec fn from_spec(p: Point3<S>) -> Self {
        Bounds3 { p_min: p, p_max: p }
    }
}

impl<S: Scalar> From<(Point3<S>, Point3<S>)> for Bounds3<S> {
    /// The bounds with the given lower and upper corners, taken as they
    /// come.
    fn from(points: (Point3<S>, Point3<S>)) -> (r: Self) {
        Bounds3 { p_min: points.0, p_max: points.1 }
    }
}

impl<S: Scalar> vstd::std_specs::convert::FromSpecImpl<(Point3<S>, Point3<S>)> for Bounds3<S> {
    open spec fn obeys_from_spec() -> bool {
        true
    }

    open spec fn from_spec(points: (Point3<S>, Point3<S>)) -> Self {
        Bounds3 { p_min: points.0, p_max: points.1 }
    }
}

/// A bounds grown around a point contains that point.
pub proof fn lemma_bounds2_point_union_contains<S: Scalar>(b: Bounds2<S>, p: Point2<S>)
    requires
        b.wf(),
        p.wf(),
    ensures
        Bounds2::spec_inside(p, Bounds2::spec_point_union(b, p)),
{
    lemma_min_le(b.p_min.x, p.x);
    lemma_min_le(b.p_min.y, p.y);
    lemma_max_ge(b.p_max.x, p.x);
    lemma_max_ge(b.p_max.y, p.y);
}

/// A bounds grown around a point contains that point.
pub proof fn lemma_bounds3_point_union_contains<S: Scalar>(b: Bounds3<S>, p: Point3<S>)
    requires
        b.wf(),
        p.wf(),
    ensures
        Bounds3::spec_inside(p, Bounds3::spec_point_union(b, p)),
{
    lemma_min_le(b.p_min.x, p.x);
    lemma_min_le(b.p_min.y, p.y);
    lemma_min_le(b.p_min.z, p.z);
    lemma_max_ge(b.p_max.x, p.x);
    lemma_max_ge(b.p_max.y, p.y);
    lemma_max_ge(b.p_max.z, p.z);
}

/// The union of bounds does not depend on the order of its operands.
pub proof fn lemma_bounds2_union_commutative<S: Scalar>(b1: Bounds2<S>, b2: Bounds2<S>)
    requires
        b1.wf(),
        b2.wf(),
    ensures
        Bounds2::spec_bounds_union(b1, b2) == Bounds2::spec_bounds_union(b2, b1),
{
    lemma_min_comm(b1.p_min.x, b2.p_min.x);
    lemma_min_comm(b1.p_min.y, b2.p_min.y);
    lemma_max_comm(b1.p_max.x, b2.p_max.x);
    lemma_max_comm(b1.p_max.y, b2.p_max.y);
}

/// The union of bounds does not depend on the order of its operands.
pub proof fn lemma_bounds3_union_commutative<S: Scalar>(b1: Bounds3<S>, b2: Bounds3<S>)
    requires
        b1.wf(),
        b2.wf(),
    ensures
        Bounds3::spec_bounds_union(b1, b2) == Bounds3::spec_bounds_union(b2, b1),
{
    lemma_min_comm(b1.p_min.x, b2.p_min.x);
    lemma_min_comm(b1.p_min.y, b2.p_min.y);
    lemma_min_comm(b1.p_min.z, b2.p_min.z);
    lemma_max_comm(b1.p_max.x, b2.p_max.x);
    lemma_max_comm(b1.p_max.y, b2.p_max.y);
    lemma_max_comm(b1.p_max.z, b2.p_max.z);
}

/// The union of bounds is associative.
pub proof fn lemma_bounds2_union_associative<S: Scalar>(
    b1: Bounds2<S>,
    b2: Bounds2<S>,
    b3: Bounds2<S>,
)
    requires
        b1.wf(),
        b2.wf(),
        b3.wf(),
    ensures
        Bounds2::spec_bounds_union(Bounds2::spec_bounds_union(b1, b2), b3)
            == Bounds2::spec_bounds_union(b1, Bounds2::spec_bounds_union(b2, b3)),
{
    lemma_min_assoc(b1.p_min.x, b2.p_min.x, b3.p_min.x);
    lemma_min_assoc(b1.p_min.y, b2.p_min.y, b3.p_min.y);
    lemma_max_assoc(b1.p_max.x, b2.p_max.x, b3.p_max.x);
    lemma_max_assoc(b1.p_max.y, b2.p_max.y, b3.p_max.y);
}

/// The union of bounds is associative.
pub proof fn lemma_bounds3_union_associative<S: Scalar>(
    b1: Bounds3<S>,
    b2: Bounds3<S>,
    b3: Bounds3<S>,
)
    requires
        b1.wf(),
        b2.wf(),
        b3.wf(),
    ensures
        Bounds3::spec_bounds_union(Bounds3::spec_bounds_union(b1, b2), b3)
            == Bounds3::spec_bounds_union(b1, Bounds3::spec_bounds_union(b2, b3)),
{
    lemma_min_assoc(b1.p_min.x, b2.p_min.x, b3.p_min.x);
    lemma_min_assoc(b1.p_min.y, b2.p_min.y, b3.p_min.y);
    lemma_min_assoc(b1.p_min.z, b2.p_min.z, b3.p_min.z);
    lemma_max_assoc(b1.p_max.x, b2.p_max.x, b3.p_max.x);
    lemma_max_assoc(b1.p_max.y, b2.p_max.y, b3.p_max.y);
    lemma_max_assoc(b1.p_max.z, b2.p_max.z, b3.p_max.z);
}

/// The empty sentinel is the identity element of the union.
pub proof fn lemma_bounds2_union_empty<S: Scalar>(b: Bounds2<S>)
    requires
        b.wf(),
    ensures
        Bounds2::spec_bounds_union(Bounds2::spec_empty(), b) == b,
{
    lemma_sentinel_identity(b.p_min.x);
    lemma_sentinel_identity(b.p_min.y);
    lemma_sentinel_identity(b.p_max.x);
    lemma_sentinel_identity(b.p_max.y);
}

/// The empty sentinel is the identity element of the union.
pub proof fn lemma_bounds3_union_empty<S: Scalar>(b: Bounds3<S>)
    requires
        b.wf(),
    ensures
        Bounds3::spec_bounds_union(Bounds3::spec_empty(), b) == b,
{
    lemma_sentinel_identity(b.p_min.x);
    lemma_sentinel_identity(b.p_min.y);
    lemma_sentinel_identity(b.p_min.z);
    lemma_sentinel_identity(b.p_max.x);
    lemma_sentinel_identity(b.p_max.y);
    lemma_sentinel_identity(b.p_max.z);
}

} // verus!
