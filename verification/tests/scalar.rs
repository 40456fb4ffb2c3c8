//! Scalar arithmetic, the random source, and the angle helpers.

use raytracing_series::fx::{Fx, RAW_MAX, SCALE};
use raytracing_series::utilities::{deg_to_rad, tan, Rng};

fn to_f64(x: Fx) -> f64 {
    x.raw as f64 / SCALE as f64
}

#[test]
fn from_int_and_back() {
    assert_eq!(Fx::from_int(3).raw, 3 * SCALE);
    assert_eq!(Fx::from_int(-7).raw, -7 * SCALE);
    assert_eq!(Fx::zero().raw, 0);
    assert_eq!(Fx::one().raw, SCALE);
}

#[test]
fn add_sub_mul_div_exact() {
    let a = Fx::from_int(6);
    let b = Fx::from_int(4);
    assert_eq!(a.add(b).raw, 10 * SCALE);
    assert_eq!(a.sub(b).raw, 2 * SCALE);
    assert_eq!(a.mul(b).raw, 24 * SCALE);
    assert_eq!(a.div(b).raw, SCALE + SCALE / 2);
}

#[test]
fn mul_rounds_toward_zero() {
    // 1.5 * -1.5 = -2.25 exactly representable; -1/3 of a step truncates up
    let x = Fx::from_raw(3 * SCALE / 2);
    let y = Fx::from_raw(-3 * SCALE / 2);
    assert_eq!(x.mul(y).raw, -(9 * SCALE / 4));
    let tiny = Fx::from_raw(-1);
    let third = Fx::from_raw(SCALE / 3);
    assert_eq!(tiny.mul(third).raw, 0);
}

#[test]
fn saturation_is_symmetric() {
    let big = Fx::from_raw(RAW_MAX);
    assert_eq!(big.add(big).raw, RAW_MAX);
    assert_eq!(big.neg().raw, -RAW_MAX);
    assert_eq!(big.neg().sub(big).raw, -RAW_MAX);
    assert_eq!(Fx::from_raw(i64::MIN).neg().raw, RAW_MAX);
}

#[test]
fn sqrt_of_perfect_squares() {
    assert_eq!(Fx::from_int(4).sqrt().raw, 2 * SCALE);
    assert_eq!(Fx::from_int(9).sqrt().raw, 3 * SCALE);
    assert_eq!(Fx::one().sqrt().raw, SCALE);
    assert_eq!(Fx::zero().sqrt().raw, 0);
    assert_eq!(Fx::from_int(-5).sqrt().raw, 0);
}

#[test]
fn sqrt_close_to_real_root() {
    for raw in [1i64, 5, 123, 40000, 65536 * 2, 65536 * 1000, 987654321] {
        let x = Fx::from_raw(raw);
        let approx = to_f64(x.sqrt());
        let exact = to_f64(x).sqrt();
        assert!((approx - exact).abs() < 2.0 / SCALE as f64 * (exact + 1.0));
    }
}

#[test]
fn min_abs_neg() {
    let a = Fx::from_int(-3);
    let b = Fx::from_int(2);
    assert_eq!(a.min(b).raw, a.raw);
    assert_eq!(a.abs().raw, 3 * SCALE);
    assert_eq!(b.neg().raw, -2 * SCALE);
}

#[test]
fn deg_to_rad_matches_float() {
    for deg in [0i64, 20, 45, 90, 120] {
        let got = to_f64(deg_to_rad(Fx::from_int(deg)));
        let want = (deg as f64).to_radians();
        assert!((got - want).abs() < 1e-3, "{deg}: {got} vs {want}");
    }
}

#[test]
fn tan_matches_float_for_moderate_angles() {
    for deg in [10i64, 20, 45, 60] {
        let theta = deg_to_rad(Fx::from_int(deg));
        let got = to_f64(tan(theta));
        let want = (deg as f64).to_radians().tan();
        assert!((got - want).abs() < 0.01, "{deg}: {got} vs {want}");
    }
}

#[test]
fn rng_is_deterministic_and_in_range() {
    let mut a = Rng::new(42);
    let mut b = Rng::new(42);
    for _ in 0..100 {
        let x = a.rand();
        let y = b.rand();
        assert_eq!(x.raw, y.raw);
        assert!(0 <= x.raw && x.raw < SCALE);
    }
    let mut c = Rng::new(43);
    let mut differs = false;
    let mut a2 = Rng::new(42);
    for _ in 0..10 {
        if c.rand().raw != a2.rand().raw {
            differs = true;
        }
    }
    assert!(differs);
}

#[test]
fn rand_range_stays_in_range() {
    let mut rng = Rng::new(7);
    let min = Fx::from_int(-1);
    let max = Fx::from_int(1);
    for _ in 0..200 {
        let v = rng.rand_range(min, max);
        assert!(min.raw <= v.raw && v.raw < max.raw);
    }
}
