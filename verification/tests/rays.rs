use std::rc::Rc;

use raygeom::fixed::Fixed;
use raygeom::point::Point3;
use raygeom::ray::{Medium, Ray, RayDifferential};
use raygeom::vector::Vector3;

fn fi(i: i64) -> Fixed {
    Fixed::from_int(i)
}

#[test]
fn ray_point_advances_along_the_direction() {
    let o = Point3::new(fi(1), fi(0), fi(0));
    let d = Vector3::new(fi(0), fi(2), fi(0));
    let r = Ray::new(&o, &d, fi(100), fi(0), None);
    let p = r.point(Fixed::from_micros(1_500_000));
    assert_eq!(p.x, fi(1));
    assert_eq!(p.y, fi(3));
    assert_eq!(p.z, fi(0));
    let start = r.point(fi(0));
    assert_eq!(start.x, fi(1));
    assert_eq!(start.y, fi(0));
}

#[test]
fn ray_carries_its_parts() {
    let o = Point3::new(fi(1), fi(2), fi(3));
    let d = Vector3::new(fi(4), fi(5), fi(6));
    let medium = Rc::new(Medium {});
    let mut r = Ray::new(&o, &d, fi(9), fi(7), Some(medium));
    assert_eq!(r.t_max, fi(9));
    assert_eq!(r.time, fi(7));
    assert!(r.medium.is_some());
    r.set_t_max(fi(4));
    assert_eq!(r.t_max, fi(4));
    assert_eq!(r.o.x, fi(1));
}

#[test]
fn default_ray_rests_at_the_origin() {
    let r: Ray<Fixed> = Ray::default();
    assert_eq!(r.o.x, fi(0));
    assert_eq!(r.d.z, fi(0));
    assert_eq!(r.t_max, fi(0));
    assert_eq!(r.time, fi(0));
    assert!(r.medium.is_none());
}

#[test]
fn differential_wraps_a_base_ray() {
    let o = Point3::new(fi(1), fi(1), fi(1));
    let d = Vector3::new(fi(0), fi(0), fi(1));
    let rd = RayDifferential::new(Ray::new(&o, &d, fi(10), fi(0), None));
    assert!(!rd.has_differential);
    assert_eq!(rd.ray.o.x, fi(1));
    assert_eq!(rd.rx_origin.x, fi(0));
    let dflt: RayDifferential<Fixed> = RayDifferential::default();
    assert!(!dflt.has_differential);
    assert_eq!(dflt.ray.t_max, fi(0));
}

#[test]
fn scale_differentials_recenters_the_footprint() {
    let o = Point3::new(fi(1), fi(1), fi(1));
    let d = Vector3::new(fi(0), fi(0), fi(1));
    let mut rd = RayDifferential::new(Ray::new(&o, &d, fi(10), fi(0), None));
    rd.rx_origin = Point3::new(fi(3), fi(1), fi(1));
    rd.ry_origin = Point3::new(fi(1), fi(5), fi(1));
    rd.rx_dir = Vector3::new(fi(2), fi(0), fi(1));
    rd.ry_dir = Vector3::new(fi(0), fi(2), fi(1));
    rd.scale_differentials(Fixed::from_micros(500_000));
    // Each auxiliary origin moves halfway back toward the base ray.
    assert_eq!(rd.rx_origin.x, fi(2));
    assert_eq!(rd.ry_origin.y, fi(3));
    assert_eq!(rd.rx_dir.x, fi(1));
    assert_eq!(rd.ry_dir.y, fi(1));
    // The base ray does not move.
    assert_eq!(rd.ray.o.x, fi(1));
    assert_eq!(rd.ray.d.z, fi(1));
}
