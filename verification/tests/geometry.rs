//! Bounding-box algebra, the disk mapping's measure, and the shading
//! frame's round trip.

use rusty_rays::aabb::AABB3;
use rusty_rays::distributions::Distribution1D;
use rusty_rays::fixed::{fx_div, fx_from_int, FX_ONE};
use rusty_rays::interaction::SurfaceInteraction;
use rusty_rays::material::{Material, Matte};
use rusty_rays::media::MediumInterface;
use rusty_rays::primitive::Primitive;
use rusty_rays::scene::Scene;
use rusty_rays::shape::Shape;
use rusty_rays::sphere::Sphere;
use rusty_rays::texture::{ColorTexture, ConstantValue, ScalarTexture, SolidColor};
use rusty_rays::transform::Transform;
use rusty_rays::vector::{point2, point3, vec3, Vec3};

/// The scalar closest to `num / den`.
fn fxr(num: i64, den: i64) -> i64 {
    fx_div(fx_from_int(num), fx_from_int(den))
}

#[test]
fn aabb_union_contains_the_point() {
    let b = AABB3::new(point3(0, 0, 0), point3(FX_ONE, FX_ONE, FX_ONE));
    let p = point3(3 * FX_ONE, -2 * FX_ONE, FX_ONE / 2);
    let grown = b.union(p);
    assert!(grown.inside(p));
    // everything previously inside stays inside
    assert!(grown.inside(point3(0, 0, 0)));
    assert!(grown.inside(point3(FX_ONE, FX_ONE, FX_ONE)));
    // boundary counts as inside
    assert!(b.inside(point3(FX_ONE, 0, 0)));
    assert!(!b.inside(point3(FX_ONE + 1, 0, 0)));
}

#[test]
fn aabb_combine_covers_both_boxes() {
    let a = AABB3::new(point3(0, 0, 0), point3(FX_ONE, FX_ONE, FX_ONE));
    let b = AABB3::new(
        point3(2 * FX_ONE, 0, 0),
        point3(3 * FX_ONE, FX_ONE, FX_ONE),
    );
    let c = a.combine(b);
    // a point inside either input is inside the hull
    assert!(c.inside(point3(FX_ONE / 2, FX_ONE / 2, FX_ONE / 2)));
    assert!(c.inside(point3(5 * FX_ONE / 2, FX_ONE / 2, FX_ONE / 2)));
    // the hull of separated boxes also covers the gap between them: the
    // converse of membership holds only modulo that hull
    assert!(c.inside(point3(3 * FX_ONE / 2, FX_ONE / 2, FX_ONE / 2)));
    // the intersection is exactly the common region
    let overlap = AABB3::new(point3(FX_ONE / 2, 0, 0), point3(2 * FX_ONE, FX_ONE, FX_ONE));
    let inter = a.intersect(overlap);
    assert!(inter.inside(point3(3 * FX_ONE / 4, FX_ONE / 2, FX_ONE / 2)));
    assert!(!inter.inside(point3(FX_ONE / 4, FX_ONE / 2, FX_ONE / 2)));
}

#[test]
fn aabb_slab_test_hits_and_misses() {
    let b = AABB3::new(
        point3(-FX_ONE, -FX_ONE, -FX_ONE),
        point3(FX_ONE, FX_ONE, FX_ONE),
    );
    let hit_ray = rusty_rays::ray::Ray::new_non_differential(
        point3(0, 0, -5 * FX_ONE),
        vec3(0, 0, FX_ONE),
        0,
        rusty_rays::fixed::FX_MAX,
        0,
    );
    let (t0, t1) = b.intersect_p(hit_ray);
    assert_eq!(t0, Some(4 * FX_ONE));
    assert_eq!(t1, Some(6 * FX_ONE));
    let miss_ray = rusty_rays::ray::Ray::new_non_differential(
        point3(0, 5 * FX_ONE, -5 * FX_ONE),
        vec3(0, 0, FX_ONE),
        0,
        rusty_rays::fixed::FX_MAX,
        0,
    );
    let (m0, m1) = b.intersect_p(miss_ray);
    assert_eq!((m0, m1), (None, None));
}

#[test]
fn concentric_disk_preserves_measure() {
    // map a uniform grid of the square; the quadrant counts and the
    // inner-disk share must come out even, as a measure-preserving map
    let n: i64 = 20;
    let mut quads = [0i64; 4];
    let mut inner: i64 = 0;
    let mut total: i64 = 0;
    let half2 = ((FX_ONE / 2) as i128) * ((FX_ONE / 2) as i128);
    let mut ix: i64 = 0;
    while ix < n {
        let mut iy: i64 = 0;
        while iy < n {
            let u = point2(fxr(2 * ix + 1, 2 * n), fxr(2 * iy + 1, 2 * n));
            let d = Distribution1D::concentric_sample_disk(&u);
            let q = match (d.x >= 0, d.y >= 0) {
                (true, true) => 0,
                (false, true) => 1,
                (false, false) => 2,
                (true, false) => 3,
            };
            quads[q] += 1;
            let r2 = (d.x as i128) * (d.x as i128) + (d.y as i128) * (d.y as i128);
            if r2 <= half2 {
                inner += 1;
            }
            total += 1;
            iy += 1;
        }
        ix += 1;
    }
    let expected = total / 4;
    for q in quads.iter() {
        assert!(
            (q - expected).abs() * 4 <= expected,
            "quadrant counts skewed: {:?}",
            quads
        );
    }
    // the disk of half radius holds a quarter of the area
    assert!((inner - expected).abs() * 4 <= expected, "inner share {} of {}", inner, total);
}

#[test]
fn shading_frame_world_local_round_trip() {
    // a slanted parametric patch; its frame is orthonormal up to the
    // scalar's resolution, so the round trip restores directions closely
    let inter = SurfaceInteraction::new(
        point3(0, 0, 0),
        vec3(0, 0, FX_ONE),
        point2(0, 0),
        vec3(FX_ONE, FX_ONE / 2, 0),
        vec3(0, FX_ONE, FX_ONE / 3),
        0,
        None,
        None,
    );
    let bsdf = inter.bsdf.as_ref().unwrap();
    let samples = [
        vec3(FX_ONE, 0, 0),
        vec3(0, -FX_ONE, 0),
        vec3(fxr(1, 2), fxr(1, 3), fxr(-1, 4)),
    ];
    for v in samples.iter() {
        let back = bsdf.local_to_world(&bsdf.world_to_local(v));
        let diff = back.sub(*v).magnitude_squared();
        assert!(diff < 7, "round trip strays: {:?} -> {:?}", v, back);
    }
}

#[test]
fn world_bounds_hug_the_primitives() {
    let sphere = Primitive::new(
        Shape::Sphere(Sphere::new(
            false,
            2 * FX_ONE,
            Transform::new_translate(vec3(3 * FX_ONE, 0, 0)),
            MediumInterface::new_empty(),
        )),
        Material::Matte(Matte {
            kd: ColorTexture::Solid(SolidColor { color: vec3(FX_ONE, FX_ONE, FX_ONE) }),
            sigma: Some(ScalarTexture::Constant(ConstantValue { val: 0 })),
            bump_map: None,
        }),
        None,
    );
    let scene = Scene { objs: vec![sphere], lights: vec![] };
    let b = scene.world_bounds();
    // the hull is the translated cube of half-side two, not the unbounded box
    assert!((b.p_min.x - FX_ONE).abs() <= 2);
    assert!((b.p_max.x - 5 * FX_ONE).abs() <= 2);
    assert!((b.p_min.y + 2 * FX_ONE).abs() <= 2);
    assert!((b.p_max.y - 2 * FX_ONE).abs() <= 2);
    // its bounding sphere is finite and centered on the primitive
    let (center, radius) = b.bounding_sphere();
    assert!((center.x - 3 * FX_ONE).abs() <= 2 && center.y.abs() <= 2);
    assert!(radius < 4 * FX_ONE && radius > 2 * FX_ONE);
}
