//! Surface normals in two and three dimensions.
//!
//! A normal is structurally a vector but semantically distinct: under an
//! affine transform it follows the inverse-transpose rule so that it
//! stays perpendicular to transformed surfaces.  Conversion to and from
//! vectors is a plain field copy with no normalization side effect.

use vstd::prelude::*;
use crate::scalar::Scalar;
use crate::traits::{Metric, Vector, VectorSpace};
use crate::vector::{Vector2, Vector3};

verus! {

/// A surface normal in the plane.
#[derive(Clone, Copy, Debug)]
pub struct Normal2<S: Scalar> {
    pub x: S,
    pub y: S,
}

/// A surface normal in space.
#[derive(Clone, Copy, Debug)]
pub struct Normal3<S: Scalar> {
    pub x: S,
    pub y: S,
    pub z: S,
}

impl<S: Scalar> Normal3<S> {
    /// Well-formed: no coordinate is NaN.
    pub open spec fn wf(self) -> bool {
        !self.x.spec_is_nan() && !self.y.spec_is_nan() && !self.z.spec_is_nan()
    }

    /// Componentwise sum.
    pub open spec fn spec_add(self, o: Self) -> Self {
        Normal3 { x: self.x.spec_add(o.x), y: self.y.spec_add(o.y), z: self.z.spec_add(o.z) }
    }

    /// Componentwise difference.
    pub open spec fn spec_sub(self, o: Self) -> Self {
        Normal3 { x: self.x.spec_sub(o.x), y: self.y.spec_sub(o.y), z: self.z.spec_sub(o.z) }
    }

    /// Componentwise negation.
    pub open spec fn spec_neg(self) -> Self {
        Normal3 { x: self.x.spec_neg(), y: self.y.spec_neg(), z: self.z.spec_neg() }
    }

    /// Each coordinate scaled by `s`.
    pub open spec fn spec_mul(self, s: S) -> Self {
        Normal3 { x: self.x.spec_mul(s), y: self.y.spec_mul(s), z: self.z.spec_mul(s) }
    }

    /// Division by a scalar, carried out as one reciprocal and a scale.
    pub open spec fn spec_div(self, s: S) -> Self {
        self.spec_mul(s.spec_recip())
    }

    /// Each coordinate divided by `s` directly.
    pub open spec fn spec_div_direct(self, s: S) -> Self {
        Normal3 { x: self.x.spec_div(s), y: self.y.spec_div(s), z: self.z.spec_div(s) }
    }

    /// The cross product by the determinant formula with axis order x, y, z.
    pub open spec fn spec_cross(self, o: Self) -> Self {
        Normal3 {
            x: self.y.spec_mul(o.z).spec_sub(self.z.spec_mul(o.y)),
            y: self.z.spec_mul(o.x).spec_sub(self.x.spec_mul(o.z)),
            z: self.x.spec_mul(o.y).spec_sub(self.y.spec_mul(o.x)),
        }
    }

    /// The coordinate on axis `i`: 0 is x, 1 is y, 2 is z.
    pub open spec fn spec_index(self, i: int) -> S {
        if i == 0 {
            self.x
        } else if i == 1 {
            self.y
        } else {
            self.z
        }
    }

    /// The denominator the deterministic coordinate frame divides by.
    pub open spec fn spec_coord_denom(self) -> S {
        if self.y.spec_abs().spec_lt(self.x.spec_abs()) {
            self.x.spec_mul(self.x).spec_add(self.z.spec_mul(self.z)).spec_sqrt()
        } else {
            self.y.spec_mul(self.y).spec_add(self.z.spec_mul(self.z)).spec_sqrt()
        }
    }

    /// When the coordinate frame can be formed: the chosen denominator is
    /// a nonzero number.
    pub open spec fn coordinate_system_req(self) -> bool {
        self.wf() && !self.spec_coord_denom().spec_is_nan() && self.spec_coord_denom()
            != S::spec_zero()
    }

    /// The two normals of the deterministic frame around `self`.
    pub open spec fn spec_coordinate_system(self) -> (Normal3<S>, Normal3<S>) {
        let v2 = if self.y.spec_abs().spec_lt(self.x.spec_abs()) {
            (Normal3 { x: self.z.spec_neg(), y: S::spec_zero(), z: self.x }).spec_div(
                self.spec_coord_denom(),
            )
        } else {
            (Normal3 { x: S::spec_zero(), y: self.z, z: self.y.spec_neg() }).spec_div(
                self.spec_coord_denom(),
            )
        };
        (v2, self.spec_cross(v2))
    }

    /// Builds a normal; NaN coordinates are a fatal construction error
    /// and stand excluded.
    pub fn new(x: S, y: S, z: S) -> (r: Normal3<S>)
        requires
            !x.spec_is_nan(),
            !y.spec_is_nan(),
            !z.spec_is_nan(),
        ensures
            r == (Normal3 { x, y, z }),
            r.wf(),
    {
        Normal3 { x, y, z }
    }

    /// Componentwise sum.
    pub fn add(self, o: Self) -> (r: Self)
        requires
            self.wf(),
            o.wf(),
        ensures
            r == self.spec_add(o),
            r.wf(),
    {
        proof {
            S::axiom_closure(self.x, o.x);
            S::axiom_closure(self.y, o.y);
            S::axiom_closure(self.z, o.z);
        }
        Self::new(self.x.add(o.x), self.y.add(o.y), self.z.add(o.z))
    }

    /// Componentwise sum in place.
    pub fn add_assign(&mut self, o: Self)
        ensures
            *final(self) == old(self).spec_add(o),
    {
        self.x = self.x.add(o.x);
        self.y = self.y.add(o.y);
        self.z = self.z.add(o.z);
    }

    /// Componentwise difference.
    pub fn sub(self, o: Self) -> (r: Self)
        requires
            self.wf(),
            o.wf(),
        ensures
            r == self.spec_sub(o),
            r.wf(),
    {
        proof {
            S::axiom_closure(self.x, o.x);
            S::axiom_closure(self.y, o.y);
            S::axiom_closure(self.z, o.z);
        }
        Self::new(self.x.sub(o.x), self.y.sub(o.y), self.z.sub(o.z))
    }

    /// Componentwise negation.
    pub fn neg(self) -> (r: Self)
        requires
            self.wf(),
        ensures
            r == self.spec_neg(),
            r.wf(),
    {
        proof {
            S::axiom_closure(self.x, self.x);
            S::axiom_closure(self.y, self.y);
            S::axiom_closure(self.z, self.z);
        }
        Self::new(self.x.neg(), self.y.neg(), self.z.neg())
    }

    /// Each coordinate scaled by `s`.
    pub fn mul(self, s: S) -> (r: Self)
        requires
            self.wf(),
            !s.spec_is_nan(),
        ensures
            r == self.spec_mul(s),
            r.wf(),
    {
        proof {
            S::axiom_closure(self.x, s);
            S::axiom_closure(self.y, s);
            S::axiom_closure(self.z, s);
        }
        Self::new(self.x.mul(s), self.y.mul(s), self.z.mul(s))
    }

    /// Division by a scalar; a zero divisor is a fatal error and stands
    /// excluded.
    pub fn div(self, s: S) -> (r: Self)
        requires
            self.wf(),
            !s.spec_is_nan(),
            s != S::spec_zero(),
        ensures
            r == self.spec_div(s),
            r.wf(),
    {
        proof {
            S::axiom_recip_num(s);
        }
        let inv = s.recip();
        self.mul(inv)
    }

    /// Each coordinate divided by `s` directly, in place.
    pub fn div_assign(&mut self, s: S)
        ensures
            *final(self) == old(self).spec_div_direct(s),
    {
        self.x = self.x.div(s);
        self.y = self.y.div(s);
        self.z = self.z.div(s);
    }

    /// The coordinate on axis `i`; an axis beyond 2 is a fatal error and
    /// stands excluded.
    pub fn index(self, i: usize) -> (r: S)
        requires
            i < 3,
        ensures
            r == self.spec_index(i as int),
    {
        if i == 0 {
            self.x
        } else if i == 1 {
            self.y
        } else {
            self.z
        }
    }

    /// The cross product of the two normals.
    pub fn cross(self, rhs: &Self) -> (r: Self)
        requires
            self.wf(),
            rhs.wf(),
        ensures
            r == self.spec_cross(*rhs),
            r.wf(),
    {
        proof {
            S::axiom_closure(self.y, rhs.z);
            S::axiom_closure(self.z, rhs.y);
            S::axiom_closure(self.y.spec_mul(rhs.z), self.z.spec_mul(rhs.y));
            S::axiom_closure(self.z, rhs.x);
            S::axiom_closure(self.x, rhs.z);
            S::axiom_closure(self.z.spec_mul(rhs.x), self.x.spec_mul(rhs.z));
            S::axiom_closure(self.x, rhs.y);
            S::axiom_closure(self.y, rhs.x);
            S::axiom_closure(self.x.spec_mul(rhs.y), self.y.spec_mul(rhs.x));
        }
        let x = self.y.mul(rhs.z).sub(self.z.mul(rhs.y));
        let y = self.z.mul(rhs.x).sub(self.x.mul(rhs.z));
        let z = self.x.mul(rhs.y).sub(self.y.mul(rhs.x));
        Normal3::new(x, y, z)
    }

    /// Builds two normals orthogonal to a unit `self` and to each other,
    /// branching on the larger-magnitude axis to keep the denominator
    /// away from zero.
    pub fn coordinate_system(&self) -> (r: (Normal3<S>, Normal3<S>))
        requires
            self.coordinate_system_req(),
        ensures
            r == self.spec_coordinate_system(),
    {
        let denom_on_x = self.y.abs().lt(self.x.abs());
        let v2 = if denom_on_x {
            let denom = self.x.mul(self.x).add(self.z.mul(self.z)).sqrt();
            proof {
                S::axiom_closure(self.z, self.z);
                S::axiom_consts_not_nan();
            }
            Normal3::new(self.z.neg(), S::zero(), self.x).div(denom)
        } else {
            let denom = self.y.mul(self.y).add(self.z.mul(self.z)).sqrt();
            proof {
                S::axiom_closure(self.y, self.y);
                S::axiom_consts_not_nan();
            }
            Normal3::new(S::zero(), self.z, self.y.neg()).div(denom)
        };
        let v3 = self.cross(&v2);
        (v2, v3)
    }

    /// A mutable borrow of the coordinate on axis `i`; an axis beyond 2
    /// is a fatal error and stands excluded.
    pub fn index_mut(&mut self, i: usize) -> (r: &mut S)
        requires
            i < 3,
        ensures
            *r == old(self).spec_index(i as int),
            final(self).spec_index(i as int) == *final(r),
            forall|j: int|
                0 <= j < 3 && j != i ==> #[trigger] final(self).spec_index(j) == old(self).spec_index(
                    j,
                ),
    {
        if i == 0 {
            &mut self.x
        } else if i == 1 {
            &mut self.y
        } else {
            &mut self.z
        }
    }
}

impl<S: Scalar> Metric<S> for Normal3<S> {
    open spec fn spec_length_squared(self) -> S {
        self.x.spec_mul(self.x).spec_add(self.y.spec_mul(self.y)).spec_add(
            self.z.spec_mul(self.z),
        )
    }

    open spec fn spec_norm(self) -> S {
        self.spec_length_squared().spec_sqrt()
    }

    open spec fn spec_distance(self, rhs: Self) -> S {
        self.spec_sub(rhs).spec_norm()
    }

    open spec fn spec_distance_squared(self, rhs: Self) -> S {
        self.spec_sub(rhs).spec_length_squared()
    }

    open spec fn distance_req(self, rhs: Self) -> bool {
        self.wf() && rhs.wf()
    }

    fn length_squared(self) -> (r: S) {
        self.x.mul(self.x).add(self.y.mul(self.y)).add(self.z.mul(self.z))
    }

    fn norm(self) -> (r: S) {
        self.length_squared().sqrt()
    }

    fn distance(self, rhs: Self) -> (r: S) {
        self.sub(rhs).norm()
    }

    fn distance_squared(self, rhs: Self) -> (r: S) {
        self.sub(rhs).length_squared()
    }
}

impl<S: Scalar> VectorSpace<S> for Normal3<S> {
    open spec fn spec_dot(self, rhs: Self) -> S {
        self.x.spec_mul(rhs.x).spec_add(self.y.spec_mul(rhs.y)).spec_add(
            self.z.spec_mul(rhs.z),
        )
    }

    fn dot(self, rhs: Self) -> (r: S) {
        self.x.mul(rhs.x).add(self.y.mul(rhs.y)).add(self.z.mul(rhs.z))
    }

    fn abs_dot(self, rhs: Self) -> (r: S) {
        self.dot(rhs).abs()
    }
}

impl<S: Scalar> Vector<S> for Normal3<S> {
    open spec fn spec_zero() -> Self {
        Normal3 { x: S::spec_zero(), y: S::spec_zero(), z: S::spec_zero() }
    }

    open spec fn spec_unit() -> Self {
        Normal3 { x: S::spec_one(), y: S::spec_one(), z: S::spec_one() }
    }

    open spec fn spec_has_nan(self) -> bool {
        !self.wf()
    }

    open spec fn spec_normalize(self) -> Self {
        self.spec_div(self.spec_norm())
    }

    open spec fn normalize_req(self) -> bool {
        self.wf() && !self.spec_norm().spec_is_nan() && self.spec_norm() != S::spec_zero()
    }

    open spec fn spec_normalize_inplace(self) -> Self {
        self.spec_div_direct(self.spec_norm())
    }

    fn zero() -> (r: Self) {
        Normal3 { x: S::zero(), y: S::zero(), z: S::zero() }
    }

    fn unit() -> (r: Self) {
        Normal3 { x: S::one(), y: S::one(), z: S::one() }
    }

    fn has_nan(&self) -> (r: bool) {
        self.x.is_nan() || self.y.is_nan() || self.z.is_nan()
    }

    fn normalize(v: &Self) -> (r: Self) {
        let n = (*v).norm();
        (*v).div(n)
    }

    fn normalize_inplace(&mut self) {
        let n = (*self).norm();
        self.div_assign(n);
    }
}

impl<S: Scalar> Normal2<S> {
    /// Well-formed: no coordinate is NaN.
    pub open spec fn wf(self) -> bool {
        !self.x.spec_is_nan() && !self.y.spec_is_nan()
    }

    /// Componentwise sum.
    pub open spec fn spec_add(self, o: Self) -> Self {
        Normal2 { x: self.x.spec_add(o.x), y: self.y.spec_add(o.y) }
    }

    /// Componentwise difference.
    pub open spec fn spec_sub(self, o: Self) -> Self {
        Normal2 { x: self.x.spec_sub(o.x), y: self.y.spec_sub(o.y) }
    }

    /// Componentwise negation.
    pub open spec fn spec_neg(self) -> Self {
        Normal2 { x: self.x.spec_neg(), y: self.y.spec_neg() }
    }

    /// Each coordinate scaled by `s`.
    pub open spec fn spec_mul(self, s: S) -> Self {
        Normal2 { x: self.x.spec_mul(s), y: self.y.spec_mul(s) }
    }

    /// Division by a scalar, carried out as one reciprocal and a scale.
    pub open spec fn spec_div(self, s: S) -> Self {
        self.spec_mul(s.spec_recip())
    }

    /// Each coordinate divided by `s` directly.
    pub open spec fn spec_div_direct(self, s: S) -> Self {
        Normal2 { x: self.x.spec_div(s), y: self.y.spec_div(s) }
    }

    /// The coordinate on axis `i`: 0 is x, 1 is y.
    pub open spec fn spec_index(self, i: int) -> S {
        if i == 0 {
            self.x
        } else {
            self.y
        }
    }

    /// Builds a normal; NaN coordinates are a fatal construction error
    /// and stand excluded.
    pub fn new(x: S, y: S) -> (r: Normal2<S>)
        requires
            !x.spec_is_nan(),
            !y.spec_is_nan(),
        ensures
            r == (Normal2 { x, y }),
            r.wf(),
    {
        Normal2 { x, y }
    }

    /// Componentwise sum.
    pub fn add(self, o: Self) -> (r: Self)
        requires
            self.wf(),
            o.wf(),
        ensures
            r == self.spec_add(o),
            r.wf(),
    {
        proof {
            S::axiom_closure(self.x, o.x);
            S::axiom_closure(self.y, o.y);
        }
        Self::new(self.x.add(o.x), self.y.add(o.y))
    }

    /// Componentwise sum in place.
    pub fn add_assign(&mut self, o: Self)
        ensures
            *final(self) == old(self).spec_add(o),
    {
        self.x = self.x.add(o.x);
        self.y = self.y.add(o.y);
    }

    /// Componentwise difference.
    pub fn sub(self, o: Self) -> (r: Self)
        requires
            self.wf(),
            o.wf(),
        ensures
            r == self.spec_sub(o),
            r.wf(),
    {
        proof {
            S::axiom_closure(self.x, o.x);
            S::axiom_closure(self.y, o.y);
        }
        Self::new(self.x.sub(o.x), self.y.sub(o.y))
    }

    /// Componentwise negation.
    pub fn neg(self) -> (r: Self)
        requires
            self.wf(),
        ensures
            r == self.spec_neg(),
            r.wf(),
    {
        proof {
            S::axiom_closure(self.x, self.x);
            S::axiom_closure(self.y, self.y);
        }
        Self::new(self.x.neg(), self.y.neg())
    }

    /// Each coordinate scaled by `s`.
    pub fn mul(self, s: S) -> (r: Self)
        requires
            self.wf(),
            !s.spec_is_nan(),
        ensures
            r == self.spec_mul(s),
            r.wf(),
    {
        proof {
            S::axiom_closure(self.x, s);
            S::axiom_closure(self.y, s);
        }
        Self::new(self.x.mul(s), self.y.mul(s))
    }

    /// Division by a scalar; a zero divisor is a fatal error and stands
    /// excluded.
    pub fn div(self, s: S) -> (r: Self)
        requires
            self.wf(),
            !s.spec_is_nan(),
            s != S::spec_zero(),
        ensures
            r == self.spec_div(s),
            r.wf(),
    {
        proof {
            S::axiom_recip_num(s);
        }
        let inv = s.recip();
        self.mul(inv)
    }

    /// Each coordinate divided by `s` directly, in place.
    pub fn div_assign(&mut self, s: S)
        ensures
            *final(self) == old(self).spec_div_direct(s),
    {
        self.x = self.x.div(s);
        self.y = self.y.div(s);
    }

    /// The coordinate on axis `i`; an axis beyond 1 is a fatal error and
    /// stands excluded.
    pub fn index(self, i: usize) -> (r: S)
        requires
            i < 2,
        ensures
            r == self.spec_index(i as int),
    {
        if i == 0 {
            self.x
        } else {
            self.y
        }
    }

    /// A mutable borrow of the coordinate on axis `i`; an axis beyond 1
    /// is a fatal error and stands excluded.
    pub fn index_mut(&mut self, i: usize) -> (r: &mut S)
        requires
            i < 2,
        ensures
            *r == old(self).spec_index(i as int),
            final(self).spec_index(i as int) == *final(r),
            forall|j: int|
                0 <= j < 2 && j != i ==> #[trigger] final(self).spec_index(j) == old(self).spec_index(
                    j,
                ),
    {
        if i == 0 {
            &mut self.x
        } else {
            &mut self.y
        }
    }
}

impl<S: Scalar> Metric<S> for Normal2<S> {
    open spec fn spec_length_squared(self) -> S {
        self.x.spec_mul(self.x).spec_add(self.y.spec_mul(self.y))
    }

    open spec fn spec_norm(self) -> S {
        self.spec_length_squared().spec_sqrt()
    }

    open spec fn spec_distance(self, rhs: Self) -> S {
        self.spec_sub(rhs).spec_norm()
    }

    open spec fn spec_distance_squared(self, rhs: Self) -> S {
        self.spec_sub(rhs).spec_length_squared()
    }

    open spec fn distance_req(self, rhs: Self) -> bool {
        self.wf() && rhs.wf()
    }

    fn length_squared(self) -> (r: S) {
        self.x.mul(self.x).add(self.y.mul(self.y))
    }

    fn norm(self) -> (r: S) {
        self.length_squared().sqrt()
    }

    fn distance(self, rhs: Self) -> (r: S) {
        self.sub(rhs).norm()
    }

    fn distance_squared(self, rhs: Self) -> (r: S) {
        self.sub(rhs).length_squared()
    }
}

impl<S: Scalar> VectorSpace<S> for Normal2<S> {
    open spec fn spec_dot(self, rhs: Self) -> S {
        self.x.spec_mul(rhs.x).spec_add(self.y.spec_mul(rhs.y))
    }

    fn dot(self, rhs: Self) -> (r: S) {
        self.x.mul(rhs.x).add(self.y.mul(rhs.y))
    }

    fn abs_dot(self, rhs: Self) -> (r: S) {
        self.dot(rhs).abs()
    }
}

impl<S: Scalar> Vector<S> for Normal2<S> {
    open spec fn spec_zero() -> Self {
        Normal2 { x: S::spec_zero(), y: S::spec_zero() }
    }

    open spec fn spec_unit() -> Self {
        Normal2 { x: S::spec_one(), y: S::spec_one() }
    }

    open spec fn spec_has_nan(self) -> bool {
        !self.wf()
    }

    open spec fn spec_normalize(self) -> Self {
        self.spec_div(self.spec_norm())
    }

    open spec fn normalize_req(self) -> bool {
        self.wf() && !self.spec_norm().spec_is_nan() && self.spec_norm() != S::spec_zero()
    }

    open spec fn spec_normalize_inplace(self) -> Self {
        self.spec_div_direct(self.spec_norm())
    }

    fn zero() -> (r: Self) {
        Normal2 { x: S::zero(), y: S::zero() }
    }

    fn unit() -> (r: Self) {
        Normal2 { x: S::one(), y: S::one() }
    }

    fn has_nan(&self) -> (r: bool) {
        self.x.is_nan() || self.y.is_nan()
    }

    fn normalize(v: &Self) -> (r: Self) {
        let n = (*v).norm();
        (*v).div(n)
    }

    fn normalize_inplace(&mut self) {
        let n = (*self).norm();
        self.div_assign(n);
    }
}

impl<S: Scalar> From<Vector3<S>> for Normal3<S> {
    /// The field-copy conversion out of a free vector.
    fn from(v: Vector3<S>) -> (r: Self) {
        Normal3 { x: v.x, y: v.y, z: v.z }
    }
}

impl<S: Scalar> vstd::std_specs::convert::FromSpecImpl<Vector3<S>> for Normal3<S> {
    open spec fn obeys_from_spec() -> bool {
        true
    }

    open spec fn from_spec(v: Vector3<S>) -> Self {
        Normal3 { x: v.x, y: v.y, z: v.z }
    }
}

impl<S: Scalar> From<Vector2<S>> for Normal2<S> {
    /// The field-copy conversion out of a free vector.
    fn from(v: Vector2<S>) -> (r: Self) {
        Normal2 { x: v.x, y: v.y }
    }
}

impl<S: Scalar> vstd::std_specs::convert::FromSpecImpl<Vector2<S>> for Normal2<S> {
    open spec fn obeys_from_spec() -> bool {
        true
    }

    open spec fn from_spec(v: Vector2<S>) -> Self {
        Normal2 { x: v.x, y: v.y }
    }
}

/// The cross product of normals is anti-commutative: swapping the
/// operands negates every component of the result.
pub proof fn lemma_normal_cross_anticommutative<S: Scalar>(n1: Normal3<S>, n2: Normal3<S>)
    requires
        n1.wf(),
        n2.wf(),
    ensures
        n1.spec_cross(n2) == n2.spec_cross(n1).spec_neg(),
{
    S::axiom_closure(n2.y, n1.z);
    S::axiom_closure(n2.z, n1.y);
    S::axiom_neg_sub(n2.y.spec_mul(n1.z), n2.z.spec_mul(n1.y));
    S::axiom_mul_comm(n2.y, n1.z);
    S::axiom_mul_comm(n2.z, n1.y);
    S::axiom_closure(n2.z, n1.x);
    S::axiom_closure(n2.x, n1.z);
    S::axiom_neg_sub(n2.z.spec_mul(n1.x), n2.x.spec_mul(n1.z));
    S::axiom_mul_comm(n2.z, n1.x);
    S::axiom_mul_comm(n2.x, n1.z);
    S::axiom_closure(n2.x, n1.y);
    S::axiom_closure(n2.y, n1.x);
    S::axiom_neg_sub(n2.x.spec_mul(n1.y), n2.y.spec_mul(n1.x));
    S::axiom_mul_comm(n2.x, n1.y);
    S::axiom_mul_comm(n2.y, n1.x);
}

} // verus!
