//! Rays and ray differentials.
//!
//! A ray is a parametric line: an origin, a direction, a mutable
//! parametric bound that renderers shrink as they find closer hits, a
//! time, and an optional shared handle to the participating medium the
//! ray travels through.  The medium is an opaque handle this module
//! never reads or writes.  A ray differential carries two auxiliary
//! rays beside the base ray to estimate a texture-filtering footprint.

use vstd::prelude::*;
use std::rc::Rc;
use crate::scalar::Scalar;
use crate::traits::{Point, Vector};
use crate::point::Point3;
use crate::vector::Vector3;

verus! {

/// The participating medium a ray travels through: an opaque handle,
/// shared among the rays that cross it and never dereferenced here.
#[derive(Clone, Debug)]
pub struct Medium {}

/// A parametric line through a scene.
#[derive(Clone, Debug)]
pub struct Ray<S: Scalar> {
    pub o: Point3<S>,
    pub d: Vector3<S>,
    pub t_max: S,
    pub time: S,
    pub medium: Option<Rc<Medium>>,
}

impl<S: Scalar> Ray<S> {
    /// The point reached after travelling `t` along the direction.
    pub open spec fn spec_point(self, t: S) -> Point3<S> {
        self.o.spec_add_vector(self.d.spec_mul(t))
    }

    /// When the point at a parameter can be formed: origin, direction
    /// and parameter are free of NaN.
    pub open spec fn point_req(self, t: S) -> bool {
        self.o.wf() && self.d.wf() && !t.spec_is_nan()
    }

    /// Builds a ray from its parts.
    pub fn new(o: &Point3<S>, d: &Vector3<S>, t_max: S, time: S, medium: Option<Rc<Medium>>) -> (r:
        Ray<S>)
        ensures
            r.o == *o,
            r.d == *d,
            r.t_max == t_max,
            r.time == time,
    {
        Ray { o: *o, d: *d, t_max, time, medium }
    }

    /// The point reached after travelling `t` along the direction.
    pub fn point(&self, t: S) -> (r: Point3<S>)
        requires
            self.point_req(t),
        ensures
            r == self.spec_point(t),
    {
        proof {
            S::axiom_closure(self.d.x, t);
            S::axiom_closure(self.d.y, t);
            S::axiom_closure(self.d.z, t);
        }
        self.o.add_vector(self.d.mul(t))
    }

    /// Shrinks or resets the parametric bound; renderers lower it as
    /// they find closer intersections.
    pub fn set_t_max(&mut self, t: S)
        ensures
            final(self).t_max == t,
            final(self).o == old(self).o,
            final(self).d == old(self).d,
            final(self).time == old(self).time,
            final(self).medium == old(self).medium,
    {
        self.t_max = t;
    }
}

impl<S: Scalar> Default for Ray<S> {
    /// The ray at the origin with no direction, no bound, no time and
    /// no medium.
    fn default() -> (r: Self)
        ensures
            r.o == Point3::<S>::spec_zero(),
            r.d == Vector3::<S>::spec_zero(),
            r.t_max == S::spec_zero(),
            r.time == S::spec_zero(),
            r.medium is None,
    {
        Ray {
            o: Point::zero(),
            d: Vector::zero(),
            t_max: S::zero(),
            time: S::zero(),
            medium: None,
        }
    }
}

/// A ray together with two auxiliary rays offset by one pixel sample,
/// used downstream to estimate a texture-filtering footprint.
#[derive(Clone, Debug)]
pub struct RayDifferential<S: Scalar> {
    pub ray: Ray<S>,
    pub has_differential: bool,
    pub rx_origin: Point3<S>,
    pub ry_origin: Point3<S>,
    pub rx_dir: Vector3<S>,
    pub ry_dir: Vector3<S>,
}

impl<S: Scalar> RayDifferential<S> {
    /// When the differentials can be rescaled: every member is free of
    /// NaN, as is the scale.
    pub open spec fn scale_req(self, s: S) -> bool {
        self.ray.o.wf() && self.ray.d.wf() && self.rx_origin.wf() && self.ry_origin.wf()
            && self.rx_dir.wf() && self.ry_dir.wf() && !s.spec_is_nan()
    }

    /// Builds a differential around a base ray, with the auxiliary data
    /// zeroed and marked invalid.
    pub fn new(ray: Ray<S>) -> (r: RayDifferential<S>)
        ensures
            r.ray == ray,
            !r.has_differential,
            r.rx_origin == Point3::<S>::spec_zero(),
            r.ry_origin == Point3::<S>::spec_zero(),
            r.rx_dir == Vector3::<S>::spec_zero(),
            r.ry_dir == Vector3::<S>::spec_zero(),
    {
        RayDifferential {
            ray,
            has_differential: false,
            rx_origin: Point::zero(),
            ry_origin: Point::zero(),
            rx_dir: Vector::zero(),
            ry_dir: Vector::zero(),
        }
    }

    /// Re-centers each auxiliary origin and direction at scale `s` from
    /// the base ray, shrinking or growing the footprint without moving
    /// the base ray.
    pub fn scale_differentials(&mut self, s: S)
        requires
            old(self).scale_req(s),
        ensures
            final(self).rx_origin == old(self).ray.o.spec_add_vector(
                old(self).rx_origin.spec_sub(old(self).ray.o).spec_mul(s),
            ),
            final(self).ry_origin == old(self).ray.o.spec_add_vector(
                old(self).ry_origin.spec_sub(old(self).ray.o).spec_mul(s),
            ),
            final(self).rx_dir == old(self).ray.d.spec_add(
                old(self).rx_dir.spec_sub(old(self).ray.d).spec_mul(s),
            ),
            final(self).ry_dir == old(self).ray.d.spec_add(
                old(self).ry_dir.spec_sub(old(self).ray.d).spec_mul(s),
            ),
            final(self).ray == old(self).ray,
            final(self).has_differential == old(self).has_differential,
    {
        let o = self.ray.o;
        let d = self.ray.d;
        self.rx_origin = o.add_vector(self.rx_origin.sub(o).mul(s));
        self.ry_origin = o.add_vector(self.ry_origin.sub(o).mul(s));
        self.rx_dir = d.add(self.rx_dir.sub(d).mul(s));
        self.ry_dir = d.add(self.ry_dir.sub(d).mul(s));
    }
}

impl<S: Scalar> Default for RayDifferential<S> {
    /// The differential around the default ray, marked invalid.
    fn default() -> (r: Self)
        ensures
            r.ray.o == Point3::<S>::spec_zero(),
            r.ray.d == Vector3::<S>::spec_zero(),
            r.ray.t_max == S::spec_zero(),
            r.ray.time == S::spec_zero(),
            r.ray.medium is None,
            !r.has_differential,
            r.rx_origin == Point3::<S>::spec_zero(),
            r.ry_origin == Point3::<S>::spec_zero(),
            r.rx_dir == Vector3::<S>::spec_zero(),
            r.ry_dir == Vector3::<S>::spec_zero(),
    {
        RayDifferential {
            ray: Ray::default(),
            has_differential: false,
            rx_origin: Point::zero(),
            ry_origin: Point::zero(),
            rx_dir: Vector::zero(),
            ry_dir: Vector::zero(),
        }
    }
}

} // verus!
