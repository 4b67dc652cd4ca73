use raygeom::bounds::{Bounds2, Bounds3};
use raygeom::fixed::Fixed;
use raygeom::point::{Point2, Point3};

fn fi(i: i64) -> Fixed {
    Fixed::from_int(i)
}

fn b3(x0: i64, y0: i64, z0: i64, x1: i64, y1: i64, z1: i64) -> Bounds3<Fixed> {
    Bounds3::from((Point3::new(fi(x0), fi(y0), fi(z0)), Point3::new(fi(x1), fi(y1), fi(z1))))
}

fn b2(x0: i64, y0: i64, x1: i64, y1: i64) -> Bounds2<Fixed> {
    Bounds2::from((Point2::new(fi(x0), fi(y0)), Point2::new(fi(x1), fi(y1))))
}

#[test]
fn default_union_of_two_points() {
    let b: Bounds2<Fixed> = Bounds2::default();
    let b = Bounds2::point_union(&b, &Point2::new(fi(5), fi(5)));
    let b = Bounds2::point_union(&b, &Point2::new(fi(-3), fi(2)));
    assert_eq!(b.p_min.x, fi(-3));
    assert_eq!(b.p_min.y, fi(2));
    assert_eq!(b.p_max.x, fi(5));
    assert_eq!(b.p_max.y, fi(5));
}

#[test]
fn point_union_contains_the_point() {
    let b = b3(0, 0, 0, 1, 1, 1);
    let p = Point3::new(fi(7), fi(-2), fi(3));
    let grown = Bounds3::point_union(&b, &p);
    assert!(Bounds3::inside(&p, &grown));
    let b2d = b2(0, 0, 1, 1);
    let q = Point2::new(fi(-9), fi(4));
    let grown2 = Bounds2::point_union(&b2d, &q);
    assert!(Bounds2::inside(&q, &grown2));
}

#[test]
fn union_is_commutative_and_associative() {
    let a = b3(0, 0, 0, 2, 2, 2);
    let b = b3(-1, 3, 1, 1, 5, 4);
    let c = b3(-4, -4, -4, -3, -3, -3);
    let ab = Bounds3::bounds_union(&a, &b);
    let ba = Bounds3::bounds_union(&b, &a);
    assert_eq!(ab.p_min.x, ba.p_min.x);
    assert_eq!(ab.p_max.y, ba.p_max.y);
    let ab_c = Bounds3::bounds_union(&Bounds3::bounds_union(&a, &b), &c);
    let a_bc = Bounds3::bounds_union(&a, &Bounds3::bounds_union(&b, &c));
    assert_eq!(ab_c.p_min.x, a_bc.p_min.x);
    assert_eq!(ab_c.p_min.y, a_bc.p_min.y);
    assert_eq!(ab_c.p_min.z, a_bc.p_min.z);
    assert_eq!(ab_c.p_max.x, a_bc.p_max.x);
    assert_eq!(ab_c.p_max.y, a_bc.p_max.y);
    assert_eq!(ab_c.p_max.z, a_bc.p_max.z);
}

#[test]
fn empty_bounds_is_the_union_identity() {
    let e: Bounds3<Fixed> = Bounds3::default();
    let b = b3(-2, 0, 1, 3, 4, 5);
    let u = Bounds3::bounds_union(&e, &b);
    assert_eq!(u.p_min.x, b.p_min.x);
    assert_eq!(u.p_min.y, b.p_min.y);
    assert_eq!(u.p_min.z, b.p_min.z);
    assert_eq!(u.p_max.x, b.p_max.x);
    assert_eq!(u.p_max.y, b.p_max.y);
    assert_eq!(u.p_max.z, b.p_max.z);
    let e2: Bounds2<Fixed> = Bounds2::default();
    let c = b2(7, -1, 9, 0);
    let u2 = Bounds2::bounds_union(&e2, &c);
    assert_eq!(u2.p_min.x, c.p_min.x);
    assert_eq!(u2.p_max.y, c.p_max.y);
}

#[test]
fn corners_follow_the_bit_pattern() {
    let b = b3(0, 0, 0, 1, 2, 3);
    let c0 = b.corner(0);
    assert_eq!(c0.x, fi(0));
    assert_eq!(c0.y, fi(0));
    assert_eq!(c0.z, fi(0));
    let c5 = b.corner(5);
    assert_eq!(c5.x, fi(1));
    assert_eq!(c5.y, fi(0));
    assert_eq!(c5.z, fi(3));
    let c7 = b.corner(7);
    assert_eq!(c7.x, fi(1));
    assert_eq!(c7.y, fi(2));
    assert_eq!(c7.z, fi(3));
    let r = b2(0, 0, 4, 5);
    let c3 = r.corner(3);
    assert_eq!(c3.x, fi(4));
    assert_eq!(c3.y, fi(5));
}

#[test]
fn overlap_and_intersection() {
    let a = b3(0, 0, 0, 4, 4, 4);
    let b = b3(2, 2, 2, 6, 6, 6);
    assert!(Bounds3::overlaps(&a, &b));
    let i = Bounds3::intersect(&a, &b);
    assert_eq!(i.p_min.x, fi(2));
    assert_eq!(i.p_max.x, fi(4));
    let far = b3(10, 10, 10, 11, 11, 11);
    assert!(!Bounds3::overlaps(&a, &far));
    // Disjoint boxes intersect to an inverted pair, left for the caller
    // to detect with an overlap test.
    let inv = Bounds3::intersect(&a, &far);
    assert_eq!(inv.p_min.x, fi(10));
    assert_eq!(inv.p_max.x, fi(4));
}

#[test]
fn containment_inclusive_and_exclusive() {
    let b = b2(0, 0, 2, 2);
    let edge = Point2::new(fi(2), fi(1));
    assert!(Bounds2::inside(&edge, &b));
    assert!(!Bounds2::inside_exclusive(&edge, &b));
    let interior = Point2::new(fi(1), fi(1));
    assert!(Bounds2::inside_exclusive(&interior, &b));
    let outside = Point2::new(fi(3), fi(1));
    assert!(!Bounds2::inside(&outside, &b));
}

#[test]
fn expand_pushes_every_side() {
    let b = b3(0, 0, 0, 1, 1, 1);
    let e = Bounds3::expand(&b, fi(2));
    assert_eq!(e.p_min.x, fi(-2));
    assert_eq!(e.p_max.z, fi(3));
}

#[test]
fn diagonal_surface_area_and_volume() {
    let b = b3(0, 0, 0, 1, 2, 3);
    let d = b.diagonal();
    assert_eq!(d.x, fi(1));
    assert_eq!(d.y, fi(2));
    assert_eq!(d.z, fi(3));
    // 2 * (1*2 + 1*3 + 2*3) = 22
    assert_eq!(b.surface_area(), fi(22));
    assert_eq!(b.volume(), fi(6));
    let r = b2(0, 0, 3, 4);
    assert_eq!(r.surface_area(), fi(12));
    assert_eq!(r.volume(), fi(0));
}

#[test]
fn maximum_extent_breaks_ties_toward_earlier_axes() {
    assert_eq!(b3(0, 0, 0, 3, 2, 1).maximum_extent(), 0);
    assert_eq!(b3(0, 0, 0, 1, 3, 2).maximum_extent(), 1);
    assert_eq!(b3(0, 0, 0, 1, 2, 3).maximum_extent(), 2);
    assert_eq!(b3(0, 0, 0, 2, 2, 2).maximum_extent(), 0);
    assert_eq!(b3(0, 0, 0, 1, 2, 2).maximum_extent(), 1);
    assert_eq!(b2(0, 0, 2, 2).maximum_extent(), 0);
    assert_eq!(b2(0, 0, 1, 2).maximum_extent(), 1);
}

#[test]
fn lerp_interpolates_each_axis() {
    let b = b3(0, 0, 0, 10, 20, 30);
    let t = Point3::new(
        Fixed::from_micros(500_000),
        Fixed::from_micros(100_000),
        Fixed::from_micros(0),
    );
    let p = b.lerp(&t);
    assert_eq!(p.x, fi(5));
    assert_eq!(p.y, fi(2));
    assert_eq!(p.z, fi(0));
}

#[test]
fn offset_renormalizes_wide_axes_and_keeps_degenerate_ones() {
    let b = b3(0, 0, 5, 4, 2, 5);
    let p = Point3::new(fi(1), fi(1), fi(5));
    let o = b.offset(&p);
    assert_eq!(o.x, Fixed::from_micros(250_000));
    assert_eq!(o.y, Fixed::from_micros(500_000));
    // The z axis has zero width: the plain offset is kept, undivided.
    assert_eq!(o.z, fi(0));
}

#[test]
fn bounding_sphere_center_and_radius() {
    let b = b3(0, 0, 0, 2, 2, 2);
    let (center, radius) = b.bounding_sphere();
    assert_eq!(center.x, fi(1));
    assert_eq!(center.y, fi(1));
    assert_eq!(center.z, fi(1));
    // Distance from the center to the upper corner: sqrt(3).
    assert_eq!(radius, Fixed::from_micros(1_732_050));
    // An inverted bounds leaves its center outside: the radius is zero.
    let inv = b3(2, 2, 2, 0, 0, 0);
    let (_, r0) = inv.bounding_sphere();
    assert_eq!(r0, fi(0));
}

#[test]
fn index_returns_the_two_corners() {
    let b = b2(1, 2, 3, 4);
    assert_eq!(b.index(0).x, fi(1));
    assert_eq!(b.index(1).y, fi(4));
    let c = b3(1, 2, 3, 4, 5, 6);
    assert_eq!(c.index(0).z, fi(3));
    assert_eq!(c.index(1).x, fi(4));
}

#[test]
fn bounds_from_a_single_point() {
    let p = Point3::new(fi(1), fi(2), fi(3));
    let b = Bounds3::from(p);
    assert_eq!(b.p_min.x, fi(1));
    assert_eq!(b.p_max.z, fi(3));
    assert!(Bounds3::inside(&p, &b));
    let q = Point2::new(fi(4), fi(5));
    let r = Bounds2::from(q);
    assert_eq!(r.p_min.y, fi(5));
}
