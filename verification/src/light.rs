//! Lights: the delta point light and the constant environment, with
//! sampling, densities, emitted power, and visibility testing.

use vstd::prelude::*;

use crate::aabb::AABB3;
use crate::color::{black, color3, Color3};
use crate::common::{FX_PI, FX_TAU};
use crate::distributions::{Distribution2D};
use crate::fixed::{
    s_add, s_div, s_mul, s_sqrt, s_sub, Fx, fx_div, fx_mul,
    FX_ONE,
};
use crate::interaction::{SurfaceInteraction, FX_RAY_EPSILON, FX_SEGMENT_END};
use crate::ray::Ray;
use crate::scene::Scene;
use crate::matrix::{s_tpoint, s_tvec};
use crate::transform::Transform;
use crate::trig::{cos_sin, s_cos_sin, sin_fx};
use crate::vector::{point2, point3, s_dot, spherical_phi, spherical_theta, vec3, Point2, Point3, Vec3};

verus! {

/// The shadow segment between two interaction points: unnormalized
/// direction, clipped just inside both endpoints.
pub open spec fn s_segment(p0: Vec3, p1: Vec3, time: Fx) -> Ray {
    Ray {
        origin: p0,
        direction: Vec3 {
            x: s_sub(p1.x as int, p0.x as int) as i64,
            y: s_sub(p1.y as int, p0.y as int) as i64,
            z: s_sub(p1.z as int, p0.z as int) as i64,
        },
        t_min: FX_RAY_EPSILON,
        t_max: FX_SEGMENT_END,
        time: 0,
        has_differentials: false,
        rx_origin: None,
        ry_origin: None,
        rx_direction: None,
        ry_direction: None,
    }
}

/// A deferred visibility test between two points.
pub struct VisibilityTester {
    pub p0: SurfaceInteraction,
    pub p1: SurfaceInteraction,
}

impl VisibilityTester {
    /// Whether the segment between the two points is free of occluders:
    /// no primitive's boolean test hits it.
    pub fn unoccluded(&self, scene: &Scene) -> (r: bool)
        ensures
            r == !(exists|i: int|
                0 <= i < scene.objs@.len() && crate::primitive::s_prim_occludes(
                    #[trigger] scene.objs@[i],
                    s_segment(self.p0.p, self.p1.p, self.p0.time),
                )),
    {
        !scene.intersect_p(&self.p0.spawn_ray_to(&self.p1))
    }

    /// Transmittance along the segment; translucency is out of scope, so
    /// this is black.
    pub fn transmittance(&self, _scene: &Scene) -> (r: Color3)
        ensures
            r == (Vec3 { x: 0, y: 0, z: 0 }),
    {
        black()
    }
}

/// What a light sample carries: radiance, the visibility test, the
/// direction toward the light, and the sample's density.
pub struct LiResult {
    pub col: Color3,
    pub vis: VisibilityTester,
    pub wi: Vec3,
    pub pdf: Fx,
}

/// A delta point light.
pub struct PointLight {
    pub light_to_world: Transform,
    pub position: Point3,
    pub intensity: Color3,
    pub brightness: Fx,
}

impl PointLight {
    /// A point light at the transform's image of the origin.
    pub fn new(light_to_world: Transform, intensity: Color3, brightness: Fx) -> (r: Self)
        ensures
            r.light_to_world == light_to_world,
            r.intensity == intensity,
            r.brightness == brightness,
            ({
                let t = s_tpoint(light_to_world.fwd(), 0, 0, 0);
                r.position.x as int == t.0 && r.position.y as int == t.1 && r.position.z as int
                    == t.2
            }),
    {
        Self {
            light_to_world,
            intensity,
            position: light_to_world.fpt(point3(0, 0, 0)),
            brightness,
        }
    }
}

/// The radiance a point light contributes toward a receiving point:
/// intensity times brightness over the squared distance.
pub open spec fn s_point_li(l: PointLight, p: Vec3) -> Vec3 {
    let d = p.sub_spec(l.position);
    let d2 = s_dot(d, d);
    Vec3 {
        x: s_div(s_mul(l.intensity.x as int, l.brightness as int), d2) as i64,
        y: s_div(s_mul(l.intensity.y as int, l.brightness as int), d2) as i64,
        z: s_div(s_mul(l.intensity.z as int, l.brightness as int), d2) as i64,
    }
}

/// The unit direction from a receiving point toward the light.
pub open spec fn s_point_wi(l: PointLight, p: Vec3) -> Vec3 {
    let d = l.position.sub_spec(p);
    let m = s_sqrt(s_dot(d, d));
    Vec3 {
        x: s_div(d.x as int, m) as i64,
        y: s_div(d.y as int, m) as i64,
        z: s_div(d.z as int, m) as i64,
    }
}

/// The constant environment light. Its bounding sphere is set lazily from
/// the scene bounds during preprocessing.
pub struct ConstantInfiniteLight {
    pub light_to_world: Transform,
    pub intensity: Color3,
    pub world_center: Option<Point3>,
    pub world_radius: Option<Fx>,
    pub distr: Distribution2D,
    pub brightness: Fx,
}

impl ConstantInfiniteLight {
    /// Structural coherence of the environment distribution.
    pub open spec fn distr_ok(self) -> bool {
        &&& self.distr.wf()
        &&& forall|v: int|
            0 <= v < self.distr.p_conditional_v@.len() ==> (
            #[trigger] self.distr.p_conditional_v@[v]).func@.len()
                == self.distr.p_conditional_v@[0].func@.len()
    }

    /// An environment light with a trivial one-cell distribution; the
    /// bounding sphere is unset until preprocessing.
    pub fn new(light_to_world: Transform, intensity: Color3, brightness: Fx) -> (r: Self)
        ensures
            r.light_to_world == light_to_world,
            r.intensity == intensity,
            r.brightness == brightness,
            r.world_center.is_none(),
            r.world_radius.is_none(),
            r.distr_ok(),
    {
        let mut row: Vec<Fx> = Vec::new();
        row.push(FX_ONE);
        let mut table: Vec<Vec<Fx>> = Vec::new();
        table.push(row);
        let distr = Distribution2D::new(&table);
        Self {
            light_to_world,
            intensity,
            world_center: None,
            world_radius: None,
            distr,
            brightness,
        }
    }
}

/// What the environment light's sampler produces for the pair `u`: the
/// world direction (the spherical point of the sampled map coordinates,
/// taken through the light's transform), its density
/// `map_pdf / (2 pi^2 sin theta)`, and the far endpoint of the
/// visibility segment.
#[verifier::opaque]
pub open spec fn s_env_sample(l: ConstantInfiniteLight, ux: int, uy: int, p: Vec3) -> (
    Vec3,
    int,
    Vec3,
) {
    let t = l.distr.spec_sample(ux, uy);
    let theta = s_mul(t.1, FX_PI as int);
    let phi = s_mul(t.0, FX_TAU as int);
    let ct = s_cos_sin(theta as i64 as int);
    let cp = s_cos_sin(phi as i64 as int);
    let local = Vec3 {
        x: s_mul(ct.1, cp.0) as i64,
        y: s_mul(ct.1, cp.1) as i64,
        z: ct.0 as i64,
    };
    let tv = s_tvec(l.light_to_world.fwd(), local.x as int, local.y as int, local.z as int);
    let wi = Vec3 { x: tv.0 as i64, y: tv.1 as i64, z: tv.2 as i64 };
    let pdf = if ct.1 == 0 {
        0
    } else {
        s_div(t.2, s_mul(s_mul(s_mul(2 * FX_ONE as int, FX_PI as int), FX_PI as int), ct.1))
    };
    let scale2r = s_mul(2 * FX_ONE as int, l.world_radius.unwrap() as int);
    let endpoint = Vec3 {
        x: s_add(p.x as int, s_mul(wi.x as int, scale2r)) as i64,
        y: s_add(p.y as int, s_mul(wi.y as int, scale2r)) as i64,
        z: s_add(p.z as int, s_mul(wi.z as int, scale2r)) as i64,
    };
    (wi, pdf, endpoint)
}

/// The environment's radiance for an escaping ray: intensity scaled by
/// brightness, independent of direction.
pub open spec fn s_env_le(l: ConstantInfiniteLight) -> Vec3 {
    Vec3 {
        x: s_mul(l.intensity.x as int, l.brightness as int) as i64,
        y: s_mul(l.intensity.y as int, l.brightness as int) as i64,
        z: s_mul(l.intensity.z as int, l.brightness as int) as i64,
    }
}

/// The radiance a ray that escapes the scene receives from a light.
pub open spec fn s_light_le(l: Light) -> Vec3 {
    match l {
        Light::Point(_) => Vec3 { x: 0, y: 0, z: 0 },
        Light::ConstantInfinite(c) => s_env_le(c),
    }
}

/// The density the environment light's distribution attaches to a world
/// direction: the map density at the direction's spherical coordinates,
/// divided by `2 pi^2 sin theta` inside the lookup point (zero at the
/// poles).
#[verifier::opaque]
pub open spec fn s_env_pdf_li(l: ConstantInfiniteLight, w: Vec3) -> int {
    let tv = s_tvec(l.light_to_world.inv(), w.x as int, w.y as int, w.z as int);
    let wi = Vec3 { x: tv.0 as i64, y: tv.1 as i64, z: tv.2 as i64 };
    let theta = crate::trig::s_acos(
        crate::fixed::max_int(
            -(FX_ONE as int),
            crate::fixed::min_int(wi.z as int, FX_ONE as int),
        ),
    );
    let phi0 = crate::trig::s_atan2(wi.y as int, wi.x as int);
    let phi = if phi0 < 0 {
        s_add(phi0, FX_TAU as int)
    } else {
        phi0
    };
    let sin_theta = s_cos_sin(theta as i64 as int).1;
    if sin_theta == 0 {
        0
    } else {
        let denom = s_mul(s_mul(s_mul(2 * FX_ONE as int, FX_PI as int), FX_PI as int), sin_theta);
        s_div(
            l.distr.spec_pdf(s_div(phi, FX_TAU as int), s_div(theta, FX_PI as int)),
            denom,
        )
    }
}

/// A light after the scene bounds were handed to it: a point light is
/// untouched; the environment light stores the bounds' bounding sphere
/// and keeps every other field.
pub open spec fn s_light_with_bounds(l: Light, b: AABB3) -> Light {
    match l {
        Light::Point(_) => l,
        Light::ConstantInfinite(c) => Light::ConstantInfinite(
            ConstantInfiniteLight {
                world_center: Some(crate::aabb::s_bsphere_center(b)),
                world_radius: Some(crate::aabb::s_bsphere_radius(b) as i64),
                ..c
            },
        ),
    }
}

/// A light source.
pub enum Light {
    Point(PointLight),
    ConstantInfinite(ConstantInfiniteLight),
}

impl Light {
    /// Whether the light is ready to sample: an environment light needs
    /// its bounding sphere and a coherent distribution.
    pub open spec fn ready(self) -> bool {
        match self {
            Light::Point(_) => true,
            Light::ConstantInfinite(l) => l.world_radius.is_some() && l.distr_ok(),
        }
    }

    /// Whether the light's distribution table is coherent; what readiness
    /// requires beyond the bounding sphere. A point light carries none.
    pub open spec fn distr_coherent(self) -> bool {
        match self {
            Light::Point(_) => true,
            Light::ConstantInfinite(l) => l.distr_ok(),
        }
    }

    /// Whether the light is a delta distribution: a point light can be
    /// reached only by sampling it directly.
    pub open spec fn spec_is_delta(self) -> bool {
        match self {
            Light::Point(_) => true,
            Light::ConstantInfinite(_) => false,
        }
    }

    pub fn is_delta(&self) -> (r: bool)
        ensures
            r == self.spec_is_delta(),
    {
        match self {
            Light::Point(_) => true,
            Light::ConstantInfinite(_) => false,
        }
    }

    /// How many samples the direct-lighting strategy takes of this light.
    pub fn num_samples(&self) -> (r: usize)
        ensures
            r == 1,
    {
        1
    }

    /// The light-to-world transform.
    pub fn light_to_world(&self) -> (r: Transform)
        ensures
            ({
                match *self {
                    Light::Point(l) => r == l.light_to_world,
                    Light::ConstantInfinite(l) => r == l.light_to_world,
                }
            }),
    {
        match self {
            Light::Point(l) => l.light_to_world,
            Light::ConstantInfinite(l) => l.light_to_world,
        }
    }

    /// Stores the scene's bounding sphere on lights that need it; a point
    /// light ignores it.
    pub fn maybe_set_bounds(&mut self, world_bounds: &AABB3)
        requires
            old(self).distr_coherent(),
        ensures
            final(self).ready(),
            *final(self) == s_light_with_bounds(*old(self), *world_bounds),
    {
        match self {
            Light::Point(_) => {},
            Light::ConstantInfinite(l) => {
                let sphere = world_bounds.bounding_sphere();
                l.world_center = Some(sphere.0);
                l.world_radius = Some(sphere.1);
            },
        }
    }

    /// The radiance the light sends toward the interaction point for the
    /// sample `u`, with the direction, density and visibility segment.
    /// The point light is a delta source: density one, radiance falling
    /// with the squared distance. The environment light samples its
    /// distribution and may return nothing when the map density vanishes.
    pub fn sample_li(&self, inter: &SurfaceInteraction, u: Point2) -> (r: Option<LiResult>)
        requires
            self.ready(),
        ensures
            ({
                match *self {
                    Light::Point(l) => r.is_some() && ({
                        let out = r.unwrap();
                        &&& out.wi == s_point_wi(l, inter.p)
                        &&& out.pdf == FX_ONE
                        &&& out.col == s_point_li(l, inter.p)
                        &&& out.vis.p0.p == inter.p
                        &&& out.vis.p0.time == inter.time
                        &&& out.vis.p1.p == l.position
                        &&& out.vis.p1.time == inter.time
                    }),
                    Light::ConstantInfinite(_) => true,
                }
            }),
            ({
                match *self {
                    Light::Point(_) => true,
                    Light::ConstantInfinite(l) => {
                        let t = l.distr.spec_sample(u.x as int, u.y as int);
                        let es = s_env_sample(l, u.x as int, u.y as int, inter.p);
                        &&& (r.is_some() <==> t.2 != 0)
                        &&& r.is_some() ==> ({
                            let out = r.unwrap();
                            &&& out.col == s_env_le(l)
                            &&& out.wi == es.0
                            &&& out.pdf as int == es.1
                            &&& out.vis.p0.p == inter.p
                            &&& out.vis.p0.time == inter.time
                            &&& out.vis.p1.p == es.2
                            &&& out.vis.p1.time == inter.time
                        })
                    },
                }
            }),
    {
        proof {
            reveal(s_env_sample);
        }
        match self {
            Light::Point(l) => {
                let wi = l.position.sub(inter.p).normalize();
                let pdf = FX_ONE;
                let vis = VisibilityTester {
                    p0: SurfaceInteraction::new_general(inter.p, inter.time),
                    p1: SurfaceInteraction::new_general(l.position, inter.time),
                };
                let d2 = crate::vector::distance_squared3d(&inter.p, &l.position);
                let col = l.intensity.scale(l.brightness).div_scalar(d2);
                Some(LiResult { col, vis, wi, pdf })
            },
            Light::ConstantInfinite(l) => {
                let radius = match l.world_radius {
                    Some(rad) => rad,
                    None => 0,
                };
                let sampled = l.distr.sample_continuous(&u);
                match sampled {
                    Some((uv, map_pdf)) => {
                        if map_pdf == 0 {
                            return None;
                        }
                        let theta = fx_mul(uv.y, FX_PI);
                        let phi = fx_mul(uv.x, FX_TAU);
                        let (cos_theta, sin_theta) = cos_sin(theta);
                        let (cos_phi, sin_phi) = cos_sin(phi);
                        let wi = l.light_to_world.fvec(
                            &vec3(
                                fx_mul(sin_theta, cos_phi),
                                fx_mul(sin_theta, sin_phi),
                                cos_theta,
                            ),
                        );
                        let pdf = if sin_theta == 0 {
                            0
                        } else {
                            fx_div(
                                map_pdf,
                                fx_mul(fx_mul(fx_mul(2 * FX_ONE, FX_PI), FX_PI), sin_theta),
                            )
                        };
                        let endpoint = inter.p.add(wi.scale(fx_mul(2 * FX_ONE, radius)));
                        let vis = VisibilityTester {
                            p0: SurfaceInteraction::new_general(inter.p, inter.time),
                            p1: SurfaceInteraction::new_general(endpoint, inter.time),
                        };
                        Some(
                            LiResult {
                                col: l.intensity.scale(l.brightness),
                                wi,
                                pdf,
                                vis,
                            },
                        )
                    },
                    None => None,
                }
            },
        }
    }

    /// The density of the light's distribution toward `w`: zero for a
    /// delta source; the environment consults its map at the direction's
    /// spherical coordinates.
    pub fn pdf_li(&self, _inter: &SurfaceInteraction, w: &Vec3) -> (r: Fx)
        requires
            self.ready(),
        ensures
            ({
                match *self {
                    Light::Point(_) => r == 0,
                    Light::ConstantInfinite(l) => r as int == s_env_pdf_li(l, *w),
                }
            }),
    {
        proof {
            reveal(s_env_pdf_li);
        }
        match self {
            Light::Point(_) => 0,
            Light::ConstantInfinite(l) => {
                let wi = l.light_to_world.ivec(w);
                let theta = spherical_theta(&wi);
                let phi = spherical_phi(&wi);
                let sin_theta = sin_fx(theta);
                if sin_theta == 0 {
                    0
                } else {
                    let denom = fx_mul(fx_mul(fx_mul(2 * FX_ONE, FX_PI), FX_PI), sin_theta);
                    let q = point2(fx_div(phi, FX_TAU), fx_div(theta, FX_PI));
                    fx_div(l.distr.pdf(q), denom)
                }
            },
        }
    }

    /// The light's total emitted power.
    pub fn power(&self) -> (r: Color3)
        requires
            self.ready(),
        ensures
            ({
                match *self {
                    Light::Point(l) => {
                        &&& r.x as int == s_mul(2 * FX_TAU as int, l.intensity.x as int)
                        &&& r.y as int == s_mul(2 * FX_TAU as int, l.intensity.y as int)
                        &&& r.z as int == s_mul(2 * FX_TAU as int, l.intensity.z as int)
                    },
                    Light::ConstantInfinite(l) => ({
                        let pir2 = s_mul(
                            FX_PI as int,
                            s_mul(l.world_radius.unwrap() as int, l.world_radius.unwrap() as int),
                        );
                        &&& r.x as int == s_mul(
                            s_mul(l.intensity.x as int, pir2),
                            l.brightness as int,
                        )
                        &&& r.y as int == s_mul(
                            s_mul(l.intensity.y as int, pir2),
                            l.brightness as int,
                        )
                        &&& r.z as int == s_mul(
                            s_mul(l.intensity.z as int, pir2),
                            l.brightness as int,
                        )
                    }),
                }
            }),
    {
        match self {
            Light::Point(l) => l.intensity.scale(2 * FX_TAU),
            Light::ConstantInfinite(l) => {
                let radius = match l.world_radius {
                    Some(rad) => rad,
                    None => 0,
                };
                let pir2 = fx_mul(FX_PI, fx_mul(radius, radius));
                color3(
                    fx_mul(fx_mul(l.intensity.x, pir2), l.brightness),
                    fx_mul(fx_mul(l.intensity.y, pir2), l.brightness),
                    fx_mul(fx_mul(l.intensity.z, pir2), l.brightness),
                )
            },
        }
    }

    /// The light's brightness factor.
    pub fn brightness(&self) -> (r: Fx)
        ensures
            ({
                match *self {
                    Light::Point(l) => r == l.brightness,
                    Light::ConstantInfinite(l) => r == l.brightness,
                }
            }),
    {
        match self {
            Light::Point(l) => l.brightness,
            Light::ConstantInfinite(l) => l.brightness,
        }
    }

    /// The radiance carried by a ray that escapes the scene: black for a
    /// point light, the constant environment value otherwise.
    pub fn le(&self, _ray: &Ray) -> (r: Color3)
        ensures
            r == s_light_le(*self),
    {
        match self {
            Light::Point(_) => black(),
            Light::ConstantInfinite(l) => l.intensity.scale(l.brightness),
        }
    }
}

} // verus!
