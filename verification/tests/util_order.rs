use raygeom::fixed::Fixed;
use raygeom::util::{maxf, minf};

#[test]
fn mintest() {
    let result = minf(Fixed::from_micros(13_300_000), Fixed::from_micros(13_400_000));
    assert_eq!(result, Fixed::from_micros(13_300_000));

    let result = minf(Fixed::from_int(25), Fixed::from_micros(300_000));
    assert_eq!(result, Fixed::from_micros(300_000));
}

#[test]
fn maxtest() {
    let result = maxf(Fixed::from_micros(13_300_000), Fixed::from_micros(13_400_000));
    assert_eq!(result, Fixed::from_micros(13_400_000));

    let result = maxf(Fixed::from_int(25), Fixed::from_micros(300_000));
    assert_eq!(result, Fixed::from_int(25));
}

#[test]
fn min_max_on_a_tie() {
    let a = Fixed::from_int(25);
    let b = Fixed::from_int(25);
    assert_eq!(minf(a, b), a);
    assert_eq!(maxf(a, b), a);
}

#[test]
fn min_max_with_negatives() {
    let a = Fixed::from_int(-7);
    let b = Fixed::from_micros(-6_999_999);
    assert_eq!(minf(a, b), a);
    assert_eq!(maxf(a, b), b);
}
