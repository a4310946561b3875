use boids::fixed::{Fixed, FULL_TURN, HALF_TURN, QUARTER_TURN, RAW_MAX, SCALE};

fn fx(v: f64) -> Fixed {
    Fixed::from_raw((v * 1e6).round() as i64)
}

#[test]
fn from_int_scales_by_a_million() {
    assert_eq!(Fixed::from_int(3).raw, 3_000_000);
    assert_eq!(Fixed::from_int(-7).raw, -7_000_000);
    assert_eq!(Fixed::from_int(0), Fixed::zero());
    assert_eq!(Fixed::from_int(1), Fixed::one());
    assert_eq!(SCALE, 1_000_000);
}

#[test]
fn from_int_saturates() {
    assert_eq!(Fixed::from_int(i64::MAX).raw, RAW_MAX);
    assert_eq!(Fixed::from_int(i64::MIN).raw, -RAW_MAX);
    assert_eq!(Fixed::from_int(9_223_372_036_854).raw, 9_223_372_036_854_000_000);
    assert_eq!(Fixed::from_int(9_223_372_036_855).raw, RAW_MAX);
}

#[test]
fn add_and_sub_are_exact_in_range() {
    assert_eq!(fx(1.5).add(fx(2.25)), fx(3.75));
    assert_eq!(fx(1.5).sub(fx(2.25)), fx(-0.75));
    assert_eq!(fx(-1.5).add(fx(1.5)), Fixed::zero());
}

#[test]
fn add_and_sub_saturate() {
    let top = Fixed::from_raw(RAW_MAX);
    let bottom = Fixed::from_raw(-RAW_MAX);
    assert_eq!(top.add(Fixed::one()).raw, RAW_MAX);
    assert_eq!(bottom.sub(Fixed::one()).raw, -RAW_MAX);
    assert_eq!(bottom.add(bottom).raw, -RAW_MAX);
    assert_eq!(Fixed::from_raw(i64::MIN).add(Fixed::zero()).raw, -RAW_MAX);
    assert_eq!(Fixed::from_raw(i64::MIN).sub(Fixed::from_raw(i64::MIN)).raw, 0);
}

#[test]
fn neg_is_symmetric_and_saturates() {
    assert_eq!(fx(2.5).neg(), fx(-2.5));
    assert_eq!(fx(-2.5).neg(), fx(2.5));
    assert_eq!(Fixed::from_raw(i64::MIN).neg().raw, RAW_MAX);
}

#[test]
fn mul_rounds_toward_zero() {
    assert_eq!(fx(1.5).mul(fx(2.0)), fx(3.0));
    assert_eq!(fx(0.85).mul(fx(0.7)), fx(0.595));
    assert_eq!(Fixed::from_raw(1).mul(Fixed::from_raw(999_999)).raw, 0);
    assert_eq!(Fixed::from_raw(-1).mul(Fixed::from_raw(999_999)).raw, 0);
    assert_eq!(Fixed::from_raw(3).mul(Fixed::from_raw(500_000)).raw, 1);
    assert_eq!(Fixed::from_raw(-3).mul(Fixed::from_raw(500_000)).raw, -1);
    assert_eq!(fx(-1.5).mul(fx(-2.0)), fx(3.0));
    assert_eq!(fx(-1.5).mul(fx(2.0)), fx(-3.0));
}

#[test]
fn mul_saturates() {
    let big = Fixed::from_raw(RAW_MAX);
    assert_eq!(big.mul(big).raw, RAW_MAX);
    assert_eq!(big.mul(big.neg()).raw, -RAW_MAX);
    assert_eq!(Fixed::from_raw(i64::MIN).mul(Fixed::from_raw(i64::MIN)).raw, RAW_MAX);
    assert_eq!(big.mul(Fixed::zero()).raw, 0);
}

#[test]
fn div_rounds_toward_zero() {
    assert_eq!(fx(3.0).div(fx(2.0)), fx(1.5));
    assert_eq!(fx(1.0).div(fx(3.0)).raw, 333_333);
    assert_eq!(fx(-1.0).div(fx(3.0)).raw, -333_333);
    assert_eq!(fx(1.0).div(fx(-3.0)).raw, -333_333);
    assert_eq!(fx(-1.0).div(fx(-3.0)).raw, 333_333);
    assert_eq!(fx(1.0).div(fx(625.001)).raw, 1_599);
}

#[test]
fn div_by_zero_goes_to_the_end_of_the_range() {
    assert_eq!(fx(1.0).div(Fixed::zero()).raw, RAW_MAX);
    assert_eq!(fx(-1.0).div(Fixed::zero()).raw, -RAW_MAX);
    assert_eq!(Fixed::zero().div(Fixed::zero()).raw, 0);
}

#[test]
fn div_saturates() {
    assert_eq!(Fixed::from_raw(RAW_MAX).div(Fixed::from_raw(1)).raw, RAW_MAX);
    assert_eq!(Fixed::from_raw(-RAW_MAX).div(Fixed::from_raw(1)).raw, -RAW_MAX);
}

#[test]
fn div_count_takes_the_mean() {
    assert_eq!(fx(9.0).div_count(3), fx(3.0));
    assert_eq!(fx(-10.0).div_count(4), fx(-2.5));
    assert_eq!(Fixed::from_raw(7).div_count(2).raw, 3);
    assert_eq!(Fixed::from_raw(-7).div_count(2).raw, -3);
    assert_eq!(fx(5.0).div_count(0).raw, RAW_MAX);
    assert_eq!(fx(-5.0).div_count(0).raw, -RAW_MAX);
    assert_eq!(Fixed::zero().div_count(0).raw, 0);
}

#[test]
fn sqrt_rounds_down() {
    assert_eq!(fx(4.0).sqrt(), fx(2.0));
    assert_eq!(fx(144.0).sqrt(), fx(12.0));
    assert_eq!(fx(2.0).sqrt().raw, 1_414_213);
    assert_eq!(Fixed::from_raw(1).sqrt().raw, 1_000);
    assert_eq!(Fixed::zero().sqrt().raw, 0);
    assert_eq!(fx(-4.0).sqrt().raw, 0);
}

#[test]
fn sqrt_of_the_largest_number() {
    let r = Fixed::from_raw(RAW_MAX).sqrt().raw as i128;
    let n = RAW_MAX as i128 * 1_000_000;
    assert!(r * r <= n);
    assert!((r + 1) * (r + 1) > n);
}

#[test]
fn sine_at_the_quarter_turns() {
    assert_eq!(Fixed::zero().sin().raw, 0);
    assert_eq!(Fixed::from_raw(QUARTER_TURN).sin().raw, 1_000_000);
    assert_eq!(Fixed::from_raw(HALF_TURN).sin().raw, 0);
    assert_eq!(Fixed::from_raw(HALF_TURN + QUARTER_TURN).sin().raw, -1_000_000);
    assert_eq!(Fixed::from_raw(FULL_TURN).sin().raw, 0);
    assert_eq!(Fixed::from_raw(-QUARTER_TURN).sin().raw, -1_000_000);
}

#[test]
fn sine_follows_the_rational_formula() {
    assert_eq!(Fixed::from_raw(523_599).sin().raw, 500_000);
    assert_eq!(Fixed::from_raw(785_398).sin().raw, 705_882);
    assert_eq!(Fixed::from_raw(1_000_000).sin().raw, 840_218);
}

#[test]
fn sine_is_close_to_the_true_sine() {
    let mut a: i64 = -20_000_000;
    while a < 20_000_000 {
        let got = Fixed::from_raw(a).sin().raw as f64 / 1e6;
        let want = (a as f64 / 1e6 * std::f64::consts::PI / 3.141592).sin();
        assert!((got - want).abs() < 0.002, "angle {}", a);
        assert!(got.abs() <= 1.0);
        a += 7_919;
    }
}

#[test]
fn sine_has_the_period_of_a_full_turn() {
    let mut a: i64 = -1_000_000;
    while a < 7_000_000 {
        assert_eq!(Fixed::from_raw(a).sin(), Fixed::from_raw(a + FULL_TURN).sin());
        assert_eq!(Fixed::from_raw(a).sin(), Fixed::from_raw(a - 3 * FULL_TURN).sin());
        a += 100_003;
    }
}

#[test]
fn cosine_is_the_sine_a_quarter_turn_on() {
    assert_eq!(Fixed::zero().cos().raw, 1_000_000);
    assert_eq!(Fixed::from_raw(QUARTER_TURN).cos().raw, 0);
    assert_eq!(Fixed::from_raw(HALF_TURN).cos().raw, -1_000_000);
    assert_eq!(Fixed::from_raw(1_000_000).cos().raw, 540_001);
    let mut a: i64 = -9_000_000;
    while a < 9_000_000 {
        assert_eq!(Fixed::from_raw(a).cos(), Fixed::from_raw(a + QUARTER_TURN).sin());
        a += 100_003;
    }
}

#[test]
fn trigonometry_takes_the_extremes() {
    let top = Fixed::from_raw(i64::MAX);
    let bottom = Fixed::from_raw(i64::MIN);
    assert!(top.sin().raw.abs() <= 1_000_000);
    assert!(bottom.sin().raw.abs() <= 1_000_000);
    assert!(top.cos().raw.abs() <= 1_000_000);
    assert!(bottom.cos().raw.abs() <= 1_000_000);
}

#[test]
fn min_and_max_pick_one_of_the_two() {
    assert_eq!(fx(1.0).min(fx(2.0)), fx(1.0));
    assert_eq!(fx(1.0).max(fx(2.0)), fx(2.0));
    assert_eq!(fx(-1.0).min(fx(-2.0)), fx(-2.0));
    assert_eq!(fx(-1.0).max(fx(-2.0)), fx(-1.0));
}

#[test]
fn fract_keeps_the_sign() {
    assert_eq!(fx(2.75).fract(), fx(0.75));
    assert_eq!(fx(-2.75).fract(), fx(-0.75));
    assert_eq!(fx(3.0).fract(), Fixed::zero());
    assert_eq!(Fixed::from_raw(i64::MIN).fract().raw, -775_808);
}

#[test]
fn trunc_u32_saturates_like_a_cast() {
    assert_eq!(fx(3.99).trunc_u32(), 3);
    assert_eq!(fx(-3.99).trunc_u32(), 0);
    assert_eq!(fx(0.0).trunc_u32(), 0);
    assert_eq!(fx(4_294_967_295.5).trunc_u32(), u32::MAX);
    assert_eq!(fx(5_000_000_000.0).trunc_u32(), u32::MAX);
}

#[test]
fn hypot_is_the_exact_length_rounded_down() {
    assert_eq!(Fixed::hypot(fx(3.0), fx(4.0)), fx(5.0));
    assert_eq!(Fixed::hypot(fx(-3.0), fx(4.0)), fx(5.0));
    assert_eq!(Fixed::hypot(fx(1.0), fx(1.0)).raw, 1_414_213);
    assert_eq!(Fixed::hypot(Fixed::from_raw(1), Fixed::zero()).raw, 1);
    assert_eq!(Fixed::hypot(Fixed::from_raw(3), Fixed::from_raw(-4)).raw, 5);
    assert_eq!(Fixed::hypot(Fixed::from_raw(1), Fixed::from_raw(1)).raw, 1);
    assert_eq!(Fixed::hypot(Fixed::zero(), Fixed::zero()).raw, 0);
}

#[test]
fn hypot_saturates() {
    let top = Fixed::from_raw(RAW_MAX);
    assert_eq!(Fixed::hypot(top, Fixed::zero()).raw, RAW_MAX);
    assert_eq!(Fixed::hypot(top, top).raw, RAW_MAX);
    assert_eq!(Fixed::hypot(Fixed::from_raw(i64::MIN), Fixed::from_raw(i64::MIN)).raw, RAW_MAX);
    assert_eq!(Fixed::hypot(Fixed::from_raw(i64::MIN), Fixed::zero()).raw, RAW_MAX);
    let half = Fixed::from_raw(RAW_MAX / 2);
    let r = Fixed::hypot(half, half).raw as i128;
    let n = 2 * (half.raw as i128) * (half.raw as i128);
    assert!(r * r <= n && n < (r + 1) * (r + 1));
}

#[test]
fn hypot_exceeds_compares_exactly() {
    assert!(!Fixed::hypot_exceeds(fx(3.0), fx(4.0), fx(5.0)));
    assert!(Fixed::hypot_exceeds(fx(3.0), fx(4.000001), fx(5.0)));
    assert!(Fixed::hypot_exceeds(fx(3.0), fx(4.0), fx(4.999999)));
    assert!(!Fixed::hypot_exceeds(fx(3.0), fx(4.0), fx(-5.0)));
    assert!(Fixed::hypot_exceeds(fx(3.0), fx(4.0), fx(-4.0)));
    assert!(Fixed::hypot_exceeds(Fixed::from_raw(1), Fixed::zero(), Fixed::zero()));
    assert!(!Fixed::hypot_exceeds(Fixed::zero(), Fixed::zero(), Fixed::zero()));
    let top = Fixed::from_raw(i64::MIN);
    assert!(Fixed::hypot_exceeds(top, top, top));
    assert!(!Fixed::hypot_exceeds(top, Fixed::zero(), top));
}
