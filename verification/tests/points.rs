use raygeom::fixed::Fixed;
use raygeom::point::{Point2, Point3};
use raygeom::traits::Point;
use raygeom::vector::Vector3;

fn fi(i: i64) -> Fixed {
    Fixed::from_int(i)
}

#[test]
fn point_minus_point_gives_the_vector_between() {
    let p1 = Point3::new(fi(5), fi(7), fi(-2));
    let p2 = Point3::new(fi(1), fi(2), fi(3));
    let v = p1.sub(p2);
    assert_eq!(v.x, fi(4));
    assert_eq!(v.y, fi(5));
    assert_eq!(v.z, fi(-5));
}

#[test]
fn sub_then_add_round_trips() {
    let p1 = Point3::new(fi(5), Fixed::from_micros(7_250_000), fi(-2));
    let p2 = Point3::new(fi(1), fi(2), fi(3));
    let back = p2.add_vector(p1.sub(p2));
    assert_eq!(back.x, p1.x);
    assert_eq!(back.y, p1.y);
    assert_eq!(back.z, p1.z);
    let q1 = Point2::new(fi(-3), fi(9));
    let q2 = Point2::new(fi(4), fi(4));
    let back2 = q2.add_vector(q1.sub(q2));
    assert_eq!(back2.x, q1.x);
    assert_eq!(back2.y, q1.y);
}

#[test]
fn distance_is_symmetric() {
    let p1 = Point3::new(fi(1), fi(2), fi(3));
    let p2 = Point3::new(fi(-4), fi(0), fi(7));
    assert_eq!(Point::distance(&p1, &p2), Point::distance(&p2, &p1));
    assert_eq!(Point::distance_squared(&p1, &p2), Point::distance_squared(&p2, &p1));
}

#[test]
fn distance_of_a_known_pair() {
    let p1 = Point3::new(fi(1), fi(1), fi(0));
    let p2 = Point3::new(fi(4), fi(5), fi(0));
    assert_eq!(Point::distance(&p1, &p2), fi(5));
    assert_eq!(Point::distance_squared(&p1, &p2), fi(25));
    let q1 = Point2::new(fi(0), fi(0));
    let q2 = Point2::new(fi(6), fi(8));
    assert_eq!(Point::distance(&q1, &q2), fi(10));
}

#[test]
fn lerp_moves_between_the_points() {
    let p1 = Point3::new(fi(0), fi(10), fi(-10));
    let p2 = Point3::new(fi(10), fi(20), fi(10));
    let mid = Point::lerp(Fixed::from_micros(500_000), &p1, &p2);
    assert_eq!(mid.x, fi(5));
    assert_eq!(mid.y, fi(15));
    assert_eq!(mid.z, fi(0));
    let start = Point::lerp(fi(0), &p1, &p2);
    assert_eq!(start.x, p1.x);
    let end = Point::lerp(fi(1), &p1, &p2);
    assert_eq!(end.y, p2.y);
}

#[test]
fn componentwise_min_and_max() {
    let p1 = Point3::new(fi(1), fi(9), fi(-3));
    let p2 = Point3::new(fi(2), fi(4), fi(-5));
    let lo = Point::min(&p1, &p2);
    let hi = Point::max(&p1, &p2);
    assert_eq!(lo.x, fi(1));
    assert_eq!(lo.y, fi(4));
    assert_eq!(lo.z, fi(-5));
    assert_eq!(hi.x, fi(2));
    assert_eq!(hi.y, fi(9));
    assert_eq!(hi.z, fi(-3));
}

#[test]
fn floor_ceil_abs_componentwise() {
    let p = Point2::new(Fixed::from_micros(2_300_000), Fixed::from_micros(-1_200_000));
    let f = p.floor();
    assert_eq!(f.x, fi(2));
    assert_eq!(f.y, fi(-2));
    let c = p.ceil();
    assert_eq!(c.x, fi(3));
    assert_eq!(c.y, fi(-1));
    let a = p.abs();
    assert_eq!(a.x, Fixed::from_micros(2_300_000));
    assert_eq!(a.y, Fixed::from_micros(1_200_000));
}

#[test]
fn permute_reorders_the_axes() {
    let p = Point3::new(fi(1), fi(2), fi(3));
    let q = p.permute(2, 0, 1);
    assert_eq!(q.x, fi(3));
    assert_eq!(q.y, fi(1));
    assert_eq!(q.z, fi(2));
    let r = Point2::new(fi(4), fi(5)).permute(1, 0);
    assert_eq!(r.x, fi(5));
    assert_eq!(r.y, fi(4));
}

#[test]
fn point_scalar_operations() {
    let p = Point3::new(fi(2), fi(-4), fi(6));
    assert_eq!(p.mul(fi(3)).y, fi(-12));
    assert_eq!(p.div(fi(2)).z, fi(3));
    assert_eq!(p.neg().x, fi(-2));
    assert_eq!(p.index(1), fi(-4));
    let moved = p.sub_vector(Vector3::new(fi(1), fi(1), fi(1)));
    assert_eq!(moved.x, fi(1));
    let mut acc = p;
    acc.add_assign(Vector3::new(fi(1), fi(2), fi(3)));
    assert_eq!(acc.z, fi(9));
    let summed = p.add(Point3::new(fi(1), fi(1), fi(1)));
    assert_eq!(summed.y, fi(-3));
}

#[test]
fn point_index_mut_writes_one_axis() {
    let mut p = Point3::new(fi(1), fi(2), fi(3));
    *p.index_mut(2) = fi(7);
    assert_eq!(p.x, fi(1));
    assert_eq!(p.y, fi(2));
    assert_eq!(p.z, fi(7));
    let mut q = Point2::new(fi(4), fi(5));
    *q.index_mut(1) = fi(6);
    assert_eq!(q.y, fi(6));
}

#[test]
fn zero_unit_and_nan_detection_for_points() {
    let z: Point3<Fixed> = Point::zero();
    assert_eq!(z.y, fi(0));
    let u: Point2<Fixed> = Point::unit();
    assert_eq!(u.x, fi(1));
    assert!(!z.has_nan());
    let bad = Point2 { x: Fixed::nan(), y: fi(0) };
    assert!(bad.has_nan());
}
