//! End-to-end scenarios: ray-sphere hit math, occlusion, the point-light
//! estimator, Russian roulette, the empty-sky image and the single-sphere
//! image.

use rusty_rays::camera::SimpleCamera;
use rusty_rays::color::color3;
use rusty_rays::common::FX_PI;
use rusty_rays::fixed::{fx_div, fx_from_int, FX_MAX, FX_ONE};
use rusty_rays::integrator::{estimate_direct, russian_roulette, DirectLightingIntegrator, LightStrategy};
use rusty_rays::interaction::SurfaceInteraction;
use rusty_rays::light::{Light, PointLight, ConstantInfiniteLight};
use rusty_rays::material::{Material, Matte, Bxdf, LambertianReflection};
use rusty_rays::media::MediumInterface;
use rusty_rays::primitive::Primitive;
use rusty_rays::ray::Ray;
use rusty_rays::rng::RngGen;
use rusty_rays::scene::Scene;
use rusty_rays::shape::Shape;
use rusty_rays::sphere::Sphere;
use rusty_rays::texture::{ColorTexture, ConstantValue, ScalarTexture, SolidColor};
use rusty_rays::transform::Transform;
use rusty_rays::vector::{point2, point3, vec3};
use rusty_rays::world::World;

/// The scalar closest to `num / den`.
fn fxr(num: i64, den: i64) -> i64 {
    fx_div(fx_from_int(num), fx_from_int(den))
}

fn matte(r: i64, g: i64, b: i64) -> Material {
    Material::Matte(Matte {
        kd: ColorTexture::Solid(SolidColor { color: color3(r, g, b) }),
        sigma: Some(ScalarTexture::Constant(ConstantValue { val: 0 })),
        bump_map: None,
    })
}

#[test]
fn ray_sphere_hit_math() {
    let sphere = Sphere::new(false, FX_ONE, Transform::new_identity(), MediumInterface::new_empty());
    let mut ray = Ray::new_non_differential(
        point3(0, 0, -5 * FX_ONE),
        vec3(0, 0, FX_ONE),
        0,
        FX_MAX,
        0,
    );
    let hit = sphere.intersect(&mut ray, false).expect("the ray passes through the sphere");
    assert_eq!(ray.t_max, 4 * FX_ONE);
    // hit point (0, 0, -1), up to the degenerate-azimuth nudge on x
    assert!(hit.p.x.abs() <= 1);
    assert_eq!((hit.p.y, hit.p.z), (0, -FX_ONE));
    // outgoing direction faces the ray back
    assert_eq!(hit.wo, Some(vec3(0, 0, -FX_ONE)));
    // the outward normal points back along the axis
    let n = hit.n.unwrap();
    assert!(n.x.abs() <= 1 && n.y == 0 && (n.z + FX_ONE).abs() <= 1);
}

#[test]
fn closer_hit_shrinks_window_and_wins() {
    // two spheres on the axis; the scene must report the nearer one, and
    // the ray's window must end at its hit
    let near = Primitive::new(
        Shape::Sphere(Sphere::new(
            false,
            FX_ONE,
            Transform::new_translate(vec3(0, 0, -2 * FX_ONE)),
            MediumInterface::new_empty(),
        )),
        matte(FX_ONE, 0, 0),
        None,
    );
    let far = Primitive::new(
        Shape::Sphere(Sphere::new(
            false,
            FX_ONE,
            Transform::new_translate(vec3(0, 0, 4 * FX_ONE)),
            MediumInterface::new_empty(),
        )),
        matte(0, FX_ONE, 0),
        None,
    );
    let scene = Scene { objs: vec![far, near], lights: vec![] };
    let mut ray = Ray::new_non_differential(
        point3(0, 0, -6 * FX_ONE),
        vec3(0, 0, FX_ONE),
        0,
        FX_MAX,
        0,
    );
    let hit = scene.intersect(&mut ray).expect("the axis ray hits both spheres");
    assert_eq!(ray.t_max, 3 * FX_ONE);
    assert_eq!(hit.primitive, Some(1));
    assert!((hit.p.z + 3 * FX_ONE).abs() <= 1);
}

#[test]
fn occlusion_across_unit_sphere() {
    let sphere = Primitive::new(
        Shape::Sphere(Sphere::new(
            false,
            FX_ONE,
            Transform::new_identity(),
            MediumInterface::new_empty(),
        )),
        matte(FX_ONE, FX_ONE, FX_ONE),
        None,
    );
    let scene = Scene { objs: vec![sphere], lights: vec![] };
    let from = SurfaceInteraction::new_general(point3(-2 * FX_ONE, 0, 0), 0);
    let to = SurfaceInteraction::new_general(point3(2 * FX_ONE, 0, 0), 0);
    let segment = from.spawn_ray_to(&to);
    assert!(scene.intersect_p(&segment));
    let vis = rusty_rays::light::VisibilityTester { p0: from, p1: to };
    assert!(!vis.unoccluded(&scene));

    // a segment beside the sphere is free
    let a = SurfaceInteraction::new_general(point3(-2 * FX_ONE, 2 * FX_ONE, 0), 0);
    let b = SurfaceInteraction::new_general(point3(2 * FX_ONE, 2 * FX_ONE, 0), 0);
    assert!(!scene.intersect_p(&a.spawn_ray_to(&b)));
}

#[test]
fn point_light_direct_contribution() {
    // matte surface with unit albedo at the origin, normal up, light one
    // unit above: the estimate is (1/pi) * cos(0) * MIS weight
    let mut inter = SurfaceInteraction::new_with_normal(
        point3(0, 0, 0),
        vec3(0, FX_ONE, 0),
        point2(0, 0),
        vec3(0, FX_ONE, 0),
        0,
        None,
    );
    inter.add_bxdf(Bxdf::Lambertian(LambertianReflection::new(color3(
        FX_ONE, FX_ONE, FX_ONE,
    ))));
    let light = Light::Point(PointLight::new(
        Transform::new_translate(vec3(0, FX_ONE, 0)),
        color3(FX_ONE, FX_ONE, FX_ONE),
        FX_ONE,
    ));
    let scene = Scene { objs: vec![], lights: vec![] };
    let rng = RngGen::new();
    let r = estimate_direct(&inter, point2(FX_ONE / 2, FX_ONE / 2), &light, point2(0, 0), &scene, &rng);
    // expected: f = 1/pi, li = 1/1^2, cos(0) = 1, and the delta light
    // takes the full weight, so the estimate is exactly 1/pi per channel
    let f = fx_div(FX_ONE, FX_PI);
    assert_eq!((r.x, r.y, r.z), (f, f, f));
}

#[test]
fn russian_roulette_rescale_preserves_expectation() {
    let beta = color3(FX_ONE / 2, FX_ONE / 2, FX_ONE / 2);
    // q = max(0.05, 1 - 0.5) = 0.5: draws below stop the path
    let (stopped, _) = russian_roulette(beta, FX_ONE / 4);
    assert!(stopped);
    // a surviving path rescales to exactly one
    let (stopped2, rescaled) = russian_roulette(beta, FX_ONE / 2);
    assert!(!stopped2);
    assert_eq!((rescaled.x, rescaled.y, rescaled.z), (FX_ONE, FX_ONE, FX_ONE));
    // the floor holds for bright paths
    let bright = color3(FX_ONE, FX_ONE, FX_ONE);
    let (stopped3, _) = russian_roulette(bright, rusty_rays::integrator::FX_RR_MIN);
    assert!(!stopped3);
}

fn sky_world(objs: Vec<Primitive>) -> World {
    let sky = color3(fxr(7, 10), fxr(4, 5), FX_ONE);
    let scene = Scene {
        objs,
        lights: vec![Light::ConstantInfinite(ConstantInfiniteLight::new(
            Transform::new_identity(),
            sky,
            FX_ONE,
        ))],
    };
    let cam = SimpleCamera::new(
        point3(10 * FX_ONE, 10 * FX_ONE, 10 * FX_ONE),
        point3(0, 0, 0),
        40 * FX_ONE,
        64,
        40,
    );
    let mut world = World::new(scene, cam, 8, 16);
    world.preprocess();
    world
}

#[test]
fn empty_scene_renders_the_sky() {
    let world = sky_world(vec![]);
    let px = world.render_pixel(0, 0);
    assert_eq!(px, [213, 228, 254, 255]);
    let center = world.render_pixel(32, 20);
    assert_eq!(center, [213, 228, 254, 255]);
}

#[test]
fn matte_sphere_under_the_sky() {
    let sphere = Primitive::new(
        Shape::Sphere(Sphere::new(
            false,
            3 * FX_ONE,
            Transform::new_identity(),
            MediumInterface::new_empty(),
        )),
        matte(FX_ONE, fxr(1, 10), fxr(1, 10)),
        None,
    );
    let world = sky_world(vec![sphere]);
    // the center pixel sees the red sphere: red at least green and blue
    let center = world.render_pixel(32, 20);
    assert!(center[0] >= center[1] && center[0] >= center[2], "center {:?}", center);
    // a corner pixel misses the silhouette and sees the plain sky
    let corner = world.render_pixel(0, 0);
    assert_eq!(corner, [213, 228, 254, 255]);
}

#[test]
fn direct_lighting_integrator_sees_the_lit_sphere() {
    let sphere = Primitive::new(
        Shape::Sphere(Sphere::new(
            false,
            FX_ONE,
            Transform::new_identity(),
            MediumInterface::new_empty(),
        )),
        matte(FX_ONE, FX_ONE, FX_ONE),
        None,
    );
    let mut scene = Scene {
        objs: vec![sphere],
        lights: vec![Light::Point(PointLight::new(
            Transform::new_translate(vec3(0, 0, 5 * FX_ONE)),
            color3(4 * FX_ONE, 4 * FX_ONE, 4 * FX_ONE),
            FX_ONE,
        ))],
    };
    scene.preprocess();
    let rng = RngGen::new();
    let integrator = DirectLightingIntegrator::new(LightStrategy::UniformSampleOne, 4);
    // a ray toward the sphere's lit side picks up light
    let mut ray = Ray::new_non_differential(
        point3(0, 0, 4 * FX_ONE),
        vec3(0, 0, -FX_ONE),
        0,
        FX_MAX,
        0,
    );
    let lit = integrator.li(&mut ray, &scene, 0, &rng);
    assert!(lit.x > 0 && lit.y > 0 && lit.z > 0, "lit side is dark: {:?}", lit);
    // a ray that misses everything is black
    let mut miss = Ray::new_non_differential(
        point3(0, 5 * FX_ONE, 4 * FX_ONE),
        vec3(0, 0, FX_ONE),
        0,
        FX_MAX,
        0,
    );
    let dark = integrator.li(&mut miss, &scene, 0, &rng);
    assert_eq!((dark.x, dark.y, dark.z), (0, 0, 0));
}
