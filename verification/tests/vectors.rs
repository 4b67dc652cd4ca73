use raygeom::fixed::Fixed;
use raygeom::normal::{Normal2, Normal3};
use raygeom::scalar::Scalar;
use raygeom::traits::{Metric, Vector, VectorSpace};
use raygeom::vector::{Vector2, Vector3};

fn fx(micros: i64) -> Fixed {
    Fixed::from_micros(micros)
}

fn close(a: Fixed, b: Fixed, tol_micros: i64) -> bool {
    !a.is_nan() && !b.is_nan() && (a.to_micros() - b.to_micros()).abs() <= tol_micros
}

#[test]
fn dot_and_abs_dot() {
    let v1 = Vector3::new(Fixed::from_int(1), Fixed::from_int(-2), Fixed::from_int(3));
    let v2 = Vector3::new(Fixed::from_int(4), Fixed::from_int(5), Fixed::from_int(-1));
    // 4 - 10 - 3 = -9
    assert_eq!(v1.dot(v2), Fixed::from_int(-9));
    assert_eq!(v1.abs_dot(v2), Fixed::from_int(9));
    let w1 = Vector2::new(Fixed::from_int(3), Fixed::from_int(4));
    let w2 = Vector2::new(Fixed::from_int(-4), Fixed::from_int(3));
    assert_eq!(w1.dot(w2), Fixed::from_int(0));
}

#[test]
fn norm_of_a_pythagorean_triple() {
    let v = Vector3::new(Fixed::from_int(3), Fixed::from_int(4), Fixed::from_int(0));
    assert_eq!(v.length_squared(), Fixed::from_int(25));
    assert_eq!(v.norm(), Fixed::from_int(5));
    let w = Vector2::new(Fixed::from_int(3), Fixed::from_int(4));
    assert_eq!(w.norm(), Fixed::from_int(5));
}

#[test]
fn normalize_gives_unit_length() {
    let v = Vector3::new(Fixed::from_int(3), Fixed::from_int(4), Fixed::from_int(0));
    let u = Vector::normalize(&v);
    assert_eq!(u.x, fx(600_000));
    assert_eq!(u.y, fx(800_000));
    assert!(close(u.norm(), Fixed::from_int(1), 10));
    // An axis-unaligned vector normalizes to unit length within rounding.
    let w = Vector3::new(Fixed::from_int(1), Fixed::from_int(1), Fixed::from_int(1));
    let uw = Vector::normalize(&w);
    assert!(close(uw.norm(), Fixed::from_int(1), 10));
    let mut inplace = Vector3::new(Fixed::from_int(0), Fixed::from_int(-2), Fixed::from_int(0));
    inplace.normalize_inplace();
    assert_eq!(inplace.y, Fixed::from_int(-1));
}

#[test]
fn cross_follows_the_determinant_formula() {
    let x_axis = Vector3::new(Fixed::from_int(1), Fixed::from_int(0), Fixed::from_int(0));
    let y_axis = Vector3::new(Fixed::from_int(0), Fixed::from_int(1), Fixed::from_int(0));
    let c = x_axis.cross(&y_axis);
    assert_eq!(c.x, Fixed::from_int(0));
    assert_eq!(c.y, Fixed::from_int(0));
    assert_eq!(c.z, Fixed::from_int(1));
}

#[test]
fn cross_is_anticommutative() {
    let v1 = Vector3::new(fx(1_500_000), Fixed::from_int(-2), Fixed::from_int(3));
    let v2 = Vector3::new(Fixed::from_int(4), fx(250_000), Fixed::from_int(-1));
    let a = v1.cross(&v2);
    let b = v2.cross(&v1).neg();
    assert_eq!(a.x, b.x);
    assert_eq!(a.y, b.y);
    assert_eq!(a.z, b.z);
}

#[test]
fn cross_is_orthogonal_to_its_inputs() {
    let v1 = Vector3::new(fx(1_500_000), Fixed::from_int(-2), Fixed::from_int(3));
    let v2 = Vector3::new(Fixed::from_int(4), fx(250_000), Fixed::from_int(-1));
    let c = v1.cross(&v2);
    assert!(close(v1.dot(c), Fixed::from_int(0), 1_000));
    assert!(close(v2.dot(c), Fixed::from_int(0), 1_000));
}

#[test]
fn vector_arithmetic_componentwise() {
    let v1 = Vector3::new(Fixed::from_int(1), Fixed::from_int(2), Fixed::from_int(3));
    let v2 = Vector3::new(Fixed::from_int(10), Fixed::from_int(20), Fixed::from_int(30));
    let sum = v1.add(v2);
    assert_eq!(sum.z, Fixed::from_int(33));
    let diff = v2.sub(v1);
    assert_eq!(diff.x, Fixed::from_int(9));
    let scaled = v1.mul(Fixed::from_int(4));
    assert_eq!(scaled.y, Fixed::from_int(8));
    let halved = v1.div(Fixed::from_int(2));
    assert_eq!(halved.z, fx(1_500_000));
    let mut acc = v1;
    acc.add_assign(v2);
    assert_eq!(acc.x, Fixed::from_int(11));
    let mut shrunk = v2;
    shrunk.div_assign(Fixed::from_int(10));
    assert_eq!(shrunk.y, Fixed::from_int(2));
    assert_eq!(v1.index(0), Fixed::from_int(1));
    assert_eq!(v1.index(2), Fixed::from_int(3));
}

#[test]
fn index_mut_writes_one_axis() {
    let mut v = Vector3::new(Fixed::from_int(1), Fixed::from_int(2), Fixed::from_int(3));
    *v.index_mut(1) = Fixed::from_int(9);
    assert_eq!(v.x, Fixed::from_int(1));
    assert_eq!(v.y, Fixed::from_int(9));
    assert_eq!(v.z, Fixed::from_int(3));
    let mut w = Vector2::new(Fixed::from_int(4), Fixed::from_int(5));
    *w.index_mut(0) = Fixed::from_int(0);
    assert_eq!(w.x, Fixed::from_int(0));
    assert_eq!(w.y, Fixed::from_int(5));
}

#[test]
fn vector_distance_and_its_square() {
    let v1 = Vector3::new(Fixed::from_int(1), Fixed::from_int(1), Fixed::from_int(0));
    let v2 = Vector3::new(Fixed::from_int(4), Fixed::from_int(5), Fixed::from_int(0));
    assert_eq!(v1.distance(v2), Fixed::from_int(5));
    assert_eq!(v1.distance_squared(v2), Fixed::from_int(25));
}

#[test]
fn coordinate_system_is_orthogonal() {
    let v = Vector::normalize(
        &Vector3::new(Fixed::from_int(2), Fixed::from_int(1), Fixed::from_int(0)),
    );
    let (v2, v3) = v.coordinate_system();
    assert!(close(v.dot(v2), Fixed::from_int(0), 1_000));
    assert!(close(v.dot(v3), Fixed::from_int(0), 1_000));
    assert!(close(v2.dot(v3), Fixed::from_int(0), 1_000));
    assert!(close(v2.norm(), Fixed::from_int(1), 1_000));
}

#[test]
fn zero_unit_and_nan_detection() {
    let z: Vector3<Fixed> = Vector::zero();
    assert_eq!(z.x, Fixed::from_int(0));
    let u: Vector2<Fixed> = Vector::unit();
    assert_eq!(u.y, Fixed::from_int(1));
    assert!(!z.has_nan());
    let bad = Vector3 { x: Fixed::from_int(1), y: Fixed::nan(), z: Fixed::from_int(0) };
    assert!(bad.has_nan());
}

#[test]
fn normal_vector_conversion_copies_fields() {
    let v = Vector3::new(Fixed::from_int(1), Fixed::from_int(2), Fixed::from_int(3));
    let n = Normal3::from(v);
    assert_eq!(n.x, Fixed::from_int(1));
    assert_eq!(n.z, Fixed::from_int(3));
    let back = Vector3::from(n);
    assert_eq!(back.y, Fixed::from_int(2));
    let w = Vector2::new(Fixed::from_int(7), Fixed::from_int(8));
    let n2 = Normal2::from(w);
    assert_eq!(Vector2::from(n2).x, Fixed::from_int(7));
}

#[test]
fn normal_cross_is_anticommutative() {
    let n1 = Normal3::new(Fixed::from_int(2), Fixed::from_int(0), Fixed::from_int(-1));
    let n2 = Normal3::new(Fixed::from_int(1), Fixed::from_int(3), Fixed::from_int(1));
    let a = n1.cross(&n2);
    let b = n2.cross(&n1).neg();
    assert_eq!(a.x, b.x);
    assert_eq!(a.y, b.y);
    assert_eq!(a.z, b.z);
}

#[test]
fn normal_normalize_gives_unit_length() {
    let n = Normal3::new(Fixed::from_int(0), Fixed::from_int(0), Fixed::from_int(4));
    let u = Vector::normalize(&n);
    assert_eq!(u.z, Fixed::from_int(1));
    assert!(close(u.norm(), Fixed::from_int(1), 10));
}
