use raygeom::fixed::{Fixed, MAX_RAW, MIN_RAW};
use raygeom::scalar::{lerp, radians, Scalar};

fn close(a: Fixed, b: Fixed, tol_micros: i64) -> bool {
    !a.is_nan() && !b.is_nan() && (a.to_micros() - b.to_micros()).abs() <= tol_micros
}

#[test]
fn addition_and_subtraction_are_exact() {
    let a = Fixed::from_micros(1_250_000);
    let b = Fixed::from_micros(-750_000);
    assert_eq!(a.add(b), Fixed::from_micros(500_000));
    assert_eq!(a.sub(b), Fixed::from_int(2));
    assert_eq!(b.neg(), Fixed::from_micros(750_000));
    assert_eq!(b.abs(), Fixed::from_micros(750_000));
}

#[test]
fn multiplication_truncates_at_the_sixth_digit() {
    assert_eq!(Fixed::from_int(2).mul(Fixed::from_int(3)), Fixed::from_int(6));
    // 0.5 * 0.000003 = 0.0000015, truncated toward zero to 0.000001.
    let half = Fixed::from_micros(500_000);
    let tiny = Fixed::from_micros(3);
    assert_eq!(half.mul(tiny), Fixed::from_micros(1));
    assert_eq!(half.mul(tiny.neg()), Fixed::from_micros(-1));
}

#[test]
fn division_and_reciprocal() {
    assert_eq!(Fixed::from_int(1).div(Fixed::from_int(2)), Fixed::from_micros(500_000));
    assert_eq!(Fixed::from_int(-9).div(Fixed::from_int(4)), Fixed::from_micros(-2_250_000));
    assert_eq!(Fixed::from_int(4).recip(), Fixed::from_micros(250_000));
    // Division by exactly zero has no numeric value.
    assert!(Fixed::from_int(1).div(Fixed::from_int(0)).is_nan());
    assert!(Fixed::from_int(0).recip().is_nan());
}

#[test]
fn square_root_rounds_down() {
    assert_eq!(Fixed::from_int(9).sqrt(), Fixed::from_int(3));
    assert_eq!(Fixed::from_int(2).sqrt(), Fixed::from_micros(1_414_213));
    assert!(Fixed::from_int(-1).sqrt().is_nan());
}

#[test]
fn floor_and_ceil_round_to_whole_numbers() {
    let x = Fixed::from_micros(2_700_000);
    assert_eq!(x.floor(), Fixed::from_int(2));
    assert_eq!(x.ceil(), Fixed::from_int(3));
    let y = Fixed::from_micros(-2_700_000);
    assert_eq!(y.floor(), Fixed::from_int(-3));
    assert_eq!(y.ceil(), Fixed::from_int(-2));
    let whole = Fixed::from_int(5);
    assert_eq!(whole.floor(), whole);
    assert_eq!(whole.ceil(), whole);
}

#[test]
fn nan_propagates_through_arithmetic() {
    let n = Fixed::nan();
    let x = Fixed::from_int(3);
    assert!(n.is_nan());
    assert!(n.add(x).is_nan());
    assert!(x.sub(n).is_nan());
    assert!(n.mul(x).is_nan());
    assert!(x.div(n).is_nan());
    assert!(n.neg().is_nan());
    assert!(n.sqrt().is_nan());
    assert!(!n.lt(x));
    assert!(!x.lt(n));
    assert!(!n.le(n));
}

#[test]
fn saturation_at_the_sentinels() {
    let top = Fixed::max_value();
    assert_eq!(top.add(Fixed::from_int(1)), top);
    assert_eq!(top.neg(), Fixed::min_value());
    assert_eq!(Fixed::min_value().sub(Fixed::from_int(1)), Fixed::min_value());
    assert_eq!(Fixed::max_value().to_micros(), MAX_RAW);
    assert_eq!(Fixed::min_value().to_micros(), MIN_RAW);
}

#[test]
fn lerp_interpolates_linearly() {
    let a = Fixed::from_int(10);
    let b = Fixed::from_int(20);
    assert_eq!(lerp(Fixed::from_int(0), a, b), a);
    assert_eq!(lerp(Fixed::from_int(1), a, b), b);
    assert_eq!(lerp(Fixed::from_micros(500_000), a, b), Fixed::from_int(15));
}

#[test]
fn degree_conversion_and_trigonometry() {
    let right_angle = radians(Fixed::from_int(90));
    assert!(close(right_angle, Fixed::from_micros(1_570_796), 2));
    assert!(close(Fixed::from_int(90).to_radians().sin(), Fixed::from_int(1), 1_000));
    assert!(close(Fixed::from_int(90).to_radians().cos(), Fixed::from_int(0), 1_000));
    assert!(close(Fixed::from_int(0).sin(), Fixed::from_int(0), 1));
    assert!(close(Fixed::from_int(0).cos(), Fixed::from_int(1), 1_000));
    // A value beyond one turn is reduced into range first.
    let turn_plus = Fixed::from_micros(6_283_185 + 1_570_796);
    assert!(close(turn_plus.sin(), Fixed::from_int(1), 1_000));
}

#[test]
fn comparisons_follow_the_raw_order() {
    let a = Fixed::from_micros(-5);
    let b = Fixed::from_micros(5);
    assert!(a.lt(b));
    assert!(!b.lt(a));
    assert!(a.le(a));
    assert!(a.eq_val(a));
    assert!(!a.eq_val(b));
    assert!(Fixed::zero().lt(Fixed::one()));
}
