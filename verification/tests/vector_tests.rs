use boids::fixed::{Fixed, QUARTER_TURN};
use boids::vector::Vec2;

fn v(x: f64, y: f64) -> Vec2 {
    Vec2::new(Fixed::from_raw((x * 1e6).round() as i64), Fixed::from_raw((y * 1e6).round() as i64))
}

fn f(x: f64) -> Fixed {
    Fixed::from_raw((x * 1e6).round() as i64)
}

#[test]
fn new_and_zero() {
    let a = Vec2::new(f(1.5), f(-2.0));
    assert_eq!(a.x, f(1.5));
    assert_eq!(a.y, f(-2.0));
    assert_eq!(Vec2::zero(), v(0.0, 0.0));
    assert!(Vec2::zero().is_zero());
    assert!(!a.is_zero());
}

#[test]
fn from_angle_points_along_the_axes() {
    assert_eq!(Vec2::from_angle(Fixed::zero(), f(2.0)), v(2.0, 0.0));
    assert_eq!(Vec2::from_angle(Fixed::from_raw(QUARTER_TURN), f(2.0)), v(0.0, 2.0));
    assert_eq!(Vec2::from_angle(Fixed::from_raw(2 * QUARTER_TURN), f(3.0)), v(-3.0, 0.0));
    assert_eq!(Vec2::from_angle(Fixed::from_raw(3 * QUARTER_TURN), f(1.0)), v(0.0, -1.0));
}

#[test]
fn from_angle_keeps_about_the_length() {
    let mut a: i64 = 0;
    while a < 6_283_184 {
        let m = Vec2::from_angle(Fixed::from_raw(a), f(2.0)).mag().raw;
        assert!((m - 2_000_000).abs() < 10_000, "angle {} length {}", a, m);
        a += 31_415;
    }
}

#[test]
fn adds_and_subtracts_by_coordinate() {
    assert_eq!(v(1.0, 2.0).add(v(3.0, -5.0)), v(4.0, -3.0));
    assert_eq!(v(1.0, 2.0).sub(v(3.0, -5.0)), v(-2.0, 7.0));
}

#[test]
fn scales_and_divides() {
    assert_eq!(v(1.5, -2.0).mult(f(2.0)), v(3.0, -4.0));
    assert_eq!(v(3.0, -4.0).div(f(2.0)), v(1.5, -2.0));
    assert_eq!(v(9.0, -3.0).div_count(3), v(3.0, -1.0));
}

#[test]
fn division_by_zero_gives_the_zero_vector() {
    assert_eq!(v(3.0, -4.0).div(Fixed::zero()), Vec2::zero());
}

#[test]
fn lengths_and_distances() {
    assert_eq!(v(3.0, 4.0).mag_sq(), f(25.0));
    assert_eq!(v(3.0, 4.0).mag(), f(5.0));
    assert_eq!(v(1.0, 1.0).dist_sq(v(4.0, 5.0)), f(25.0));
    assert_eq!(v(1.0, 1.0).dist(v(4.0, 5.0)), f(5.0));
    assert_eq!(v(-1.0, -1.0).dist(v(-4.0, -5.0)), f(5.0));
}

#[test]
fn normalize_gives_length_one() {
    assert_eq!(v(3.0, 4.0).normalize(), v(0.6, 0.8));
    assert_eq!(v(0.0, -7.0).normalize(), v(0.0, -1.0));
}

#[test]
fn normalize_keeps_the_zero_vector() {
    assert_eq!(Vec2::zero().normalize(), Vec2::zero());
}

#[test]
fn limit_shortens_only_long_vectors() {
    assert_eq!(v(3.0, 4.0).limit(f(10.0)), v(3.0, 4.0));
    assert_eq!(v(3.0, 4.0).limit(f(5.0)), v(3.0, 4.0));
    assert_eq!(v(3.0, 4.0).limit(f(2.5)), v(1.5, 2.0));
    assert_eq!(v(3.0, 4.0).limit(Fixed::zero()), Vec2::zero());
    assert_eq!(Vec2::zero().limit(f(1.0)), Vec2::zero());
}

#[test]
fn in_place_forms_agree_with_the_others() {
    let mut a = v(1.0, 2.0);
    a.add_mut(v(3.0, -5.0));
    assert_eq!(a, v(4.0, -3.0));
    a.mult_mut(f(0.5));
    assert_eq!(a, v(2.0, -1.5));
    let mut b = v(3.0, 4.0);
    b.limit_mut(f(2.5));
    assert_eq!(b, v(3.0, 4.0).limit(f(2.5)));
    let mut c = v(3.0, 4.0);
    c.limit_mut(f(7.0));
    assert_eq!(c, v(3.0, 4.0));
    c.set(f(9.0), f(8.0));
    assert_eq!(c, v(9.0, 8.0));
    c.reset();
    assert_eq!(c, Vec2::zero());
}

#[test]
fn tiny_vectors_keep_their_direction() {
    let tiny = Vec2::new(Fixed::from_raw(3), Fixed::from_raw(-4));
    assert_eq!(tiny.mag().raw, 5);
    assert_eq!(tiny.normalize(), v(0.6, -0.8));
    assert_eq!(Vec2::new(Fixed::from_raw(1), Fixed::zero()).normalize(), v(1.0, 0.0));
    assert_eq!(tiny.limit(Fixed::from_raw(1)), Vec2::new(Fixed::zero(), Fixed::zero()));
    assert_eq!(tiny.limit(Fixed::from_raw(5)), tiny);
    assert_eq!(tiny.limit(f(0.000004)), Vec2::new(Fixed::from_raw(2), Fixed::from_raw(-3)));
}

#[test]
fn huge_vectors_do_not_overflow() {
    let top = Fixed::from_raw(i64::MAX);
    let bottom = Fixed::from_raw(i64::MIN);
    let huge = Vec2::new(top, bottom);
    assert_eq!(huge.mag().raw, i64::MAX);
    assert_eq!(huge.mag_sq().raw, i64::MAX);
    let n = huge.normalize();
    assert_eq!(n, v(1.0, -1.0));
    let l = huge.limit(f(2.0));
    assert_eq!(l, v(2.0, -2.0));
    assert_eq!(huge.add(huge), Vec2::new(top, Fixed::from_raw(-i64::MAX)));
    assert_eq!(huge.dist(Vec2::new(bottom, top)).raw, i64::MAX);
}
