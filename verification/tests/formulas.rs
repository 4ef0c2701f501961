//! Exact expected values for the shared numeric helpers and small pieces
//! of the light-transport math.

use rusty_rays::common::{deg2rad, gamma, lerp, linear_system, quadratic, rad2deg, FX_PI};
use rusty_rays::distributions::Distribution2D;
use rusty_rays::fixed::{fx_div, fx_from_int, FX_ONE};
use rusty_rays::interaction::SurfaceInteraction;
use rusty_rays::light::{Light, PointLight};
use rusty_rays::media::phase_hg;
use rusty_rays::onb::ONB;
use rusty_rays::ray::Ray;
use rusty_rays::transform::Transform;
use rusty_rays::vector::{point2, point3, spherical_phi, spherical_theta, vec3};

/// The scalar closest to `num / den`.
fn fxr(num: i64, den: i64) -> i64 {
    fx_div(fx_from_int(num), fx_from_int(den))
}

#[test]
fn lerp_interpolates_exactly() {
    assert_eq!(lerp(0, 3 * FX_ONE, 7 * FX_ONE), 3 * FX_ONE);
    assert_eq!(lerp(FX_ONE, 3 * FX_ONE, 7 * FX_ONE), 7 * FX_ONE);
    assert_eq!(lerp(FX_ONE / 2, 3 * FX_ONE, 7 * FX_ONE), 5 * FX_ONE);
}

#[test]
fn quadratic_finds_ordered_roots() {
    // t^2 - 3 t + 2 has roots 1 and 2
    let (t0, t1) = quadratic(FX_ONE, -3 * FX_ONE, 2 * FX_ONE).expect("real roots");
    assert_eq!((t0, t1), (FX_ONE, 2 * FX_ONE));
    // t^2 + 1 has none
    assert!(quadratic(FX_ONE, 0, FX_ONE).is_none());
}

#[test]
fn linear_system_solves_two_by_two() {
    // x = 2, y = -1 solves [1 1; 1 -1] [x y] = [1, 3]
    let (x0, x1) = linear_system(
        [[FX_ONE, FX_ONE], [FX_ONE, -FX_ONE]],
        [FX_ONE, 3 * FX_ONE],
    );
    assert_eq!(x0, Some(2 * FX_ONE));
    assert_eq!(x1, Some(-FX_ONE));
    // a singular matrix yields nothing
    let (s0, s1) = linear_system([[FX_ONE, FX_ONE], [FX_ONE, FX_ONE]], [FX_ONE, 0]);
    assert_eq!((s0, s1), (None, None));
}

#[test]
fn angle_conversions_round_trip() {
    let half_turn = deg2rad(180 * FX_ONE);
    assert!((half_turn - FX_PI).abs() < 200);
    let back = rad2deg(half_turn);
    assert!((back - 180 * FX_ONE).abs() < 300);
    // the robustness dilation vanishes at this resolution
    assert_eq!(gamma(3 * FX_ONE), 0);
}

#[test]
fn spherical_coordinates_of_axes() {
    // straight up has no polar angle; the equator has a quarter turn
    assert!(spherical_theta(&vec3(0, 0, FX_ONE)) < 600);
    let eq = spherical_theta(&vec3(FX_ONE, 0, 0));
    assert!((eq - rusty_rays::common::FX_PI_2).abs() < 600);
    // along +y the azimuth is a quarter turn
    let phi = spherical_phi(&vec3(0, FX_ONE, 0));
    assert!((phi - rusty_rays::common::FX_PI_2).abs() < 600);
    // along -y it wraps into the upper range
    let phi_neg = spherical_phi(&vec3(0, -FX_ONE, 0));
    assert!(phi_neg > rusty_rays::common::FX_PI);
}

#[test]
fn onb_from_axis_reproduces_local_coordinates() {
    let onb = ONB::new_from_w(&vec3(0, 0, 2 * FX_ONE));
    let w = onb.w();
    assert!((w.z - FX_ONE).abs() <= 1 && w.x == 0 && w.y == 0);
    // the basis is near-orthonormal: pairwise projections vanish
    assert!(onb.u().dot(onb.v()).abs() < 16);
    assert!(onb.u().dot(onb.w()).abs() < 16);
    let local = onb.local(&vec3(FX_ONE, 0, 0));
    assert!((local.magnitude_squared() - FX_ONE).abs() < 600);
}

#[test]
fn phase_function_is_isotropic_at_zero_anisotropy() {
    // g = 0 reduces to the constant 1 / (4 pi) for any angle
    let iso = fx_div(FX_ONE, 2 * rusty_rays::common::FX_TAU);
    assert!((phase_hg(FX_ONE, 0) - iso).abs() <= 2);
    assert!((phase_hg(-FX_ONE, 0) - iso).abs() <= 2);
    assert!((phase_hg(0, 0) - iso).abs() <= 2);
}

#[test]
fn trivial_environment_distribution_has_unit_density() {
    let table = vec![vec![FX_ONE]];
    let d = Distribution2D::new(&table);
    let (p, pdf) = d.sample_continuous(&point2(fxr(1, 3), fxr(2, 3))).expect("always samples");
    assert_eq!(pdf, FX_ONE);
    assert!(0 <= p.x && p.x <= FX_ONE);
    assert!(0 <= p.y && p.y <= FX_ONE);
    assert_eq!(d.pdf(point2(fxr(1, 2), fxr(1, 2))), FX_ONE);
}

#[test]
fn point_light_radiance_falls_with_distance() {
    let light = Light::Point(PointLight::new(
        Transform::new_translate(vec3(0, 2 * FX_ONE, 0)),
        vec3(FX_ONE, FX_ONE, FX_ONE),
        FX_ONE,
    ));
    let inter = SurfaceInteraction::new_general(point3(0, 0, 0), 0);
    let li = light.sample_li(&inter, point2(0, 0)).expect("delta lights always answer");
    // distance two: radiance 1/4, direction straight up, density one
    assert_eq!(li.pdf, FX_ONE);
    assert_eq!(li.col, vec3(FX_ONE / 4, FX_ONE / 4, FX_ONE / 4));
    assert!((li.wi.y - FX_ONE).abs() <= 1 && li.wi.x == 0 && li.wi.z == 0);
    // a delta light has no continuous density
    assert_eq!(light.pdf_li(&inter, &li.wi), 0);
    // an escaping ray receives nothing from it
    let ray = Ray::new_non_differential(point3(0, 0, 0), vec3(0, 0, FX_ONE), 0, 1, 0);
    assert_eq!(light.le(&ray), vec3(0, 0, 0));
}
