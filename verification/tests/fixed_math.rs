//! Exact expectations for the fixed-point scalar, the trigonometry built
//! on it, pixel encoding, and the multiple-importance weight.

use rusty_rays::color::color_to_pixel;
use rusty_rays::common::{FX_PI, FX_PI_2, FX_TAU};
use rusty_rays::fixed::{
    fx_add, fx_div, fx_from_int, fx_mul, fx_neg, fx_sqrt, fx_sub, FX_MAX, FX_ONE,
};
use rusty_rays::integrator::power_heuristic;
use rusty_rays::trig::cos_sin;
use rusty_rays::vector::vec3;

/// The scalar closest to `num / den`.
fn fxr(num: i64, den: i64) -> i64 {
    fx_div(fx_from_int(num), fx_from_int(den))
}

#[test]
fn scalar_arithmetic_exact() {
    assert_eq!(fx_add(2 * FX_ONE, 3 * FX_ONE), 5 * FX_ONE);
    assert_eq!(fx_sub(2 * FX_ONE, 3 * FX_ONE), -FX_ONE);
    assert_eq!(fx_mul(2 * FX_ONE, 3 * FX_ONE), 6 * FX_ONE);
    assert_eq!(fx_div(6 * FX_ONE, 3 * FX_ONE), 2 * FX_ONE);
    assert_eq!(fx_sqrt(4 * FX_ONE), 2 * FX_ONE);
    assert_eq!(fx_sqrt(9 * FX_ONE), 3 * FX_ONE);
    assert_eq!(fx_neg(FX_ONE), -FX_ONE);
    assert_eq!(fxr(1, 2), FX_ONE / 2);
}

#[test]
fn scalar_saturation_and_zero_division() {
    assert_eq!(fx_add(FX_MAX, FX_MAX), FX_MAX);
    assert_eq!(fx_sub(-FX_MAX, FX_MAX), -FX_MAX);
    assert_eq!(fx_mul(FX_MAX, FX_MAX), FX_MAX);
    assert_eq!(fx_div(FX_ONE, 0), FX_MAX);
    assert_eq!(fx_div(-FX_ONE, 0), -FX_MAX);
    assert_eq!(fx_div(0, 0), 0);
    assert_eq!(fx_sqrt(-FX_ONE), 0);
}

#[test]
fn trig_cardinal_angles() {
    let (c0, s0) = cos_sin(0);
    assert_eq!((c0, s0), (FX_ONE, 0));
    let (c1, s1) = cos_sin(FX_PI_2);
    assert_eq!((c1, s1), (0, FX_ONE));
    let (c2, s2) = cos_sin(FX_PI);
    assert!(c2 <= -FX_ONE + 4 && s2.abs() < 16);
    let (c3, s3) = cos_sin(FX_TAU);
    assert!((c3 - FX_ONE).abs() < 16 && s3.abs() < 16);
    // a quarter turn less than zero lands on the same values as three
    // quarter turns
    let (cn, sn) = cos_sin(-FX_PI_2);
    assert!(cn.abs() < 16 && (sn + FX_ONE).abs() < 16);
}

#[test]
fn trig_pair_stays_in_unit_circle() {
    let mut theta: i64 = -8 * FX_ONE;
    while theta < 8 * FX_ONE {
        let (c, s) = cos_sin(theta);
        let cc = (c as i128) * (c as i128);
        let ss = (s as i128) * (s as i128);
        let one2 = (FX_ONE as i128) * (FX_ONE as i128);
        assert!(cc + ss <= one2, "pair escapes the circle at {}", theta);
        theta += 4321;
    }
}

#[test]
fn pixel_encoding_of_sky_color() {
    let sky = vec3(fxr(7, 10), fxr(4, 5), FX_ONE);
    let px = color_to_pixel(sky);
    assert_eq!(px, [213, 228, 254, 255]);
    let blackpx = color_to_pixel(vec3(0, 0, 0));
    assert_eq!(blackpx, [0, 0, 0, 255]);
}

#[test]
fn power_heuristic_in_unit_interval_and_complementary() {
    let cases = [
        (FX_ONE, FX_ONE / 3),
        (FX_ONE / 2, FX_ONE),
        (FX_ONE, 0),
        (20860, FX_ONE),
        (3 * FX_ONE, 5 * FX_ONE),
    ];
    let mut i = 0;
    while i < cases.len() {
        let (a, b) = cases[i];
        let w1 = power_heuristic(1, a, 1, b);
        let w2 = power_heuristic(1, b, 1, a);
        assert!(0 <= w1 && w1 <= FX_ONE);
        assert!(0 <= w2 && w2 <= FX_ONE);
        let sum = w1 + w2;
        assert!(
            FX_ONE - 1 <= sum && sum <= FX_ONE,
            "weights {} + {} do not account for the estimate",
            w1,
            w2
        );
        i += 1;
    }
    // equal densities split the weight evenly
    assert_eq!(power_heuristic(1, FX_ONE, 1, FX_ONE), FX_ONE / 2);
}
