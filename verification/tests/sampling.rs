//! The samplers' geometric guarantees and the Lambertian lobe's energy.

use rusty_rays::distributions::Distribution1D;
use rusty_rays::fixed::{fx_div, fx_from_int, fx_mul, FX_ONE};
use rusty_rays::material::{Bxdf, LambertianReflection};
use rusty_rays::interaction::SurfaceInteraction;
use rusty_rays::vector::{point2, vec3};

/// The scalar closest to `num / den`.
fn fxr(num: i64, den: i64) -> i64 {
    fx_div(fx_from_int(num), fx_from_int(den))
}

#[test]
fn concentric_disk_points_stay_in_unit_disk() {
    let mut ix: i64 = 0;
    while ix <= 16 {
        let mut iy: i64 = 0;
        while iy <= 16 {
            let u = point2(fxr(ix, 16), fxr(iy, 16));
            let d = Distribution1D::concentric_sample_disk(&u);
            let r2 = (d.x as i128) * (d.x as i128) + (d.y as i128) * (d.y as i128);
            let one2 = (FX_ONE as i128) * (FX_ONE as i128);
            assert!(r2 <= one2, "({}, {}) maps outside the disk", ix, iy);
            iy += 1;
        }
        ix += 1;
    }
}

#[test]
fn concentric_disk_covers_quadrants() {
    // corners of the square land in all four quadrants
    let pp = Distribution1D::concentric_sample_disk(&point2(FX_ONE, fxr(3, 4)));
    assert!(pp.x > 0);
    let np = Distribution1D::concentric_sample_disk(&point2(0, fxr(1, 4)));
    assert!(np.x < 0);
    let center = Distribution1D::concentric_sample_disk(&point2(FX_ONE / 2, FX_ONE / 2));
    assert_eq!((center.x, center.y), (0, 0));
}

#[test]
fn cosine_hemisphere_sample_is_above_surface() {
    let mut ix: i64 = 0;
    while ix <= 12 {
        let mut iy: i64 = 0;
        while iy <= 12 {
            let u = point2(fxr(ix, 12), fxr(iy, 12));
            let w = Distribution1D::cosine_sample_hemisphere(&u);
            assert!(w.z >= 0, "sample dips below the surface at ({}, {})", ix, iy);
            assert!(w.z <= FX_ONE);
            iy += 1;
        }
        ix += 1;
    }
}

#[test]
fn lambertian_pdf_matches_cosine_over_pi() {
    let lobe = Bxdf::Lambertian(LambertianReflection::new(vec3(FX_ONE, FX_ONE, FX_ONE)));
    let wo = vec3(0, 0, FX_ONE);
    let mut iz: i64 = 1;
    while iz <= 8 {
        let wi = vec3(0, 0, fxr(iz, 8));
        let pdf = lobe.pdf(&wo, &wi);
        assert_eq!(pdf, Distribution1D::cosine_hemisphere_pdf(fxr(iz, 8)));
        iz += 1;
    }
    // opposite hemispheres carry no density
    assert_eq!(lobe.pdf(&wo, &vec3(0, 0, -FX_ONE)), 0);
}

#[test]
fn lambertian_hemisphere_energy_integrates_to_albedo() {
    // Monte Carlo over a deterministic sample grid: with cosine-weighted
    // sampling each estimate is f * cos / pdf = albedo, so the mean must
    // come out at the albedo within the scalar's truncation error.
    let albedo = fxr(3, 4);
    let lobe = Bxdf::Lambertian(LambertianReflection::new(vec3(albedo, albedo, albedo)));
    let wo = vec3(0, 0, FX_ONE);
    let n: i64 = 8;
    let mut total: i64 = 0;
    let mut count: i64 = 0;
    let mut ix: i64 = 0;
    while ix < n {
        let mut iy: i64 = 0;
        while iy < n {
            let u = point2(fxr(2 * ix + 1, 2 * n), fxr(2 * iy + 1, 2 * n));
            if let Some((f, pdf, wi, _ty)) = lobe.sample_f(&wo, &u) {
                if pdf > 0 {
                    let contrib = fx_div(fx_mul(f.x, wi.z), pdf);
                    total += contrib;
                    count += 1;
                }
            }
            iy += 1;
        }
        ix += 1;
    }
    assert!(count > 0);
    let mean = total / count;
    let err = (mean - albedo).abs();
    assert!(err * 20 <= albedo, "hemisphere energy {} strays from {}", mean, albedo);
}

#[test]
fn distribution_cdf_and_sampling() {
    let f = [FX_ONE, FX_ONE, 2 * FX_ONE];
    let d = Distribution1D::new(&f, 3);
    assert_eq!(d.count(), 3);
    assert_eq!(d.cdf[0], 0);
    assert_eq!(d.cdf[3], FX_ONE);
    // the integral of (1 + 1 + 2) / 3 cells, up to per-cell truncation
    assert!((d.func_int - fxr(4, 3)).abs() <= 2);
    // a draw just under one lands in the heavy last cell
    let (_, _, off) = d.sample_continuous(FX_ONE - 1).unwrap();
    assert_eq!(off, 2);
    let (_, _, off0) = d.sample_continuous(0).unwrap();
    assert_eq!(off0, 0);
    // the discrete density of the heavy cell is twice the light cell's
    let p_light = d.discrete_pdf(0);
    let p_heavy = d.discrete_pdf(2);
    assert!((p_heavy - 2 * p_light).abs() <= 2);
}

#[test]
fn uniform_sphere_and_hemisphere_samples_lie_on_unit_sphere() {
    let mut ix: i64 = 0;
    while ix <= 8 {
        let mut iy: i64 = 0;
        while iy <= 8 {
            let u = point2(fxr(ix, 8), fxr(iy, 8));
            let s = Distribution1D::uniform_sample_sphere(&u);
            let m2 = s.magnitude_squared();
            assert!((m2 - FX_ONE).abs() < 800, "off the sphere: {}", m2);
            let h = Distribution1D::uniform_sample_hemisphere(&u);
            assert!(h.z >= 0);
            iy += 1;
        }
        ix += 1;
    }
}

#[test]
fn bsdf_without_matching_lobe_samples_nothing() {
    let inter = SurfaceInteraction::new_with_normal(
        vec3(0, 0, 0),
        vec3(0, 0, FX_ONE),
        point2(0, 0),
        vec3(0, 0, FX_ONE),
        0,
        None,
    );
    // the installed BSDF has no lobes yet, so no lobe matches any flags
    let bsdf = inter.bsdf.as_ref().unwrap();
    let r = bsdf.sample_f(
        &vec3(0, 0, FX_ONE),
        &point2(FX_ONE / 2, FX_ONE / 2),
        rusty_rays::material::BXDF_ALL,
    );
    assert!(r.is_none());
}
