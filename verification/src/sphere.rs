//! The sphere shape: object-space intersection by the stable quadratic,
//! parametric surface derivatives, and uniform area sampling.

use vstd::prelude::*;

use crate::aabb::AABB3;
use crate::common::{quadratic, s_discrim, s_quad_r0, s_quad_r1, FX_PI, FX_TAU};
use crate::fixed::{
    max_int, min_int, s_add, s_div, s_mul, s_neg, s_sqrt, s_sub, Fx, fx_clamp, fx_div, fx_mul,
    fx_neg, fx_sqrt, fx_add, fx_sub, FX_ONE,
};
use crate::interaction::{SurfaceInteraction};
use crate::media::MediumInterface;
use crate::ray::Ray;
use crate::distributions::Distribution1D;
use crate::shape::ShapeData;
use crate::transform::Transform;
use crate::trig::{acos_fx, atan2_fx, s_acos, s_atan2, s_cos_sin, sin_fx};
use crate::vector::{normal3, point2, point3, s_dot, vec3, Point2, Vec3};

verus! {

/// The sub-resolution nudge applied to a hit with `x = y = 0`, scaled by
/// the radius, so the azimuth below is never degenerate.
pub const FX_POLE_NUDGE: i64 = 1;

/// A sphere centered at its object-space origin.
pub struct Sphere {
    pub shape_data: ShapeData,
    pub radius: Fx,
    pub medium_interface: MediumInterface,
}

/// The object-space bounding box of a sphere: the cube of half-side
/// `radius` (meaningful for a positive radius).
pub open spec fn s_sphere_bound(rad: Fx) -> AABB3 {
    let lo = Vec3 {
        x: s_neg(rad as int) as i64,
        y: s_neg(rad as int) as i64,
        z: s_neg(rad as int) as i64,
    };
    let hi = Vec3 { x: rad, y: rad, z: rad };
    AABB3 { p_min: crate::aabb::s_pmin(lo, hi), p_max: crate::aabb::s_pmax(lo, hi) }
}

/// The quadratic coefficients of a ray against a sphere of radius `rad`:
/// `|d|^2 t^2 + 2 (d . o) t + |o|^2 - rad^2`.
pub open spec fn s_sphere_a(r: Ray) -> int {
    s_dot(r.direction, r.direction)
}

pub open spec fn s_sphere_b(r: Ray) -> int {
    s_mul(2 * FX_ONE as int, s_dot(r.direction, r.origin))
}

pub open spec fn s_sphere_c(r: Ray, rad: int) -> int {
    s_sub(s_dot(r.origin, r.origin), s_mul(rad, rad))
}

/// Whether a candidate `t` lies in the ray's traversal window.
pub open spec fn s_in_window(r: Ray, t: int) -> bool {
    r.t_min as int <= t <= r.t_max as int
}

/// Whether the ray hits the sphere: the discriminant is nonnegative and
/// one of the two ordered roots lies in the window (the nearer is
/// preferred).
pub open spec fn s_sphere_hits(r: Ray, rad: int) -> bool {
    let a = s_sphere_a(r);
    let b = s_sphere_b(r);
    let c = s_sphere_c(r, rad);
    &&& s_discrim(a, b, c) >= 0
    &&& (s_in_window(r, min_int(s_quad_r0(a, b, c), s_quad_r1(a, b, c))) || s_in_window(
        r,
        max_int(s_quad_r0(a, b, c), s_quad_r1(a, b, c)),
    ))
}

/// The selected hit parameter: the nearer root when it is in the window,
/// else the farther.
pub open spec fn s_sphere_t(r: Ray, rad: int) -> int {
    let a = s_sphere_a(r);
    let b = s_sphere_b(r);
    let c = s_sphere_c(r, rad);
    let t0 = min_int(s_quad_r0(a, b, c), s_quad_r1(a, b, c));
    let t1 = max_int(s_quad_r0(a, b, c), s_quad_r1(a, b, c));
    if s_in_window(r, t0) {
        t0
    } else {
        t1
    }
}

/// The hit point: the ray evaluated at the hit parameter, with the pole
/// nudge on `x` when both `x` and `y` vanish.
pub open spec fn s_sphere_p(r: Ray, rad: int) -> Vec3 {
    let t = s_sphere_t(r, rad);
    let x = s_add(r.origin.x as int, s_mul(r.direction.x as int, t));
    let y = s_add(r.origin.y as int, s_mul(r.direction.y as int, t));
    let z = s_add(r.origin.z as int, s_mul(r.direction.z as int, t));
    if x == 0 && y == 0 {
        Vec3 { x: s_mul(FX_POLE_NUDGE as int, rad) as i64, y: y as i64, z: z as i64 }
    } else {
        Vec3 { x: x as i64, y: y as i64, z: z as i64 }
    }
}

/// The polar angle of the hit: `acos` of the clamped `z / rad`.
pub open spec fn s_sphere_theta(p: Vec3, rad: int) -> int {
    s_acos(max_int(-(FX_ONE as int), min_int(s_div(p.z as int, rad), FX_ONE as int)))
}

/// The surface parameters of the hit: azimuth wrapped into one turn, polar
/// angle over pi.
pub open spec fn s_sphere_uv(p: Vec3, rad: int) -> (int, int) {
    let phi_frac = s_div(s_atan2(p.x as int, p.y as int), FX_TAU as int);
    let u = if phi_frac < 0 {
        s_add(phi_frac, FX_ONE as int)
    } else {
        phi_frac
    };
    let v = s_div(s_sphere_theta(p, rad), FX_PI as int);
    (u, v)
}

/// The azimuthal derivative direction: `(-2 pi y, 2 pi x, 0)`.
pub open spec fn s_sphere_dpdu(p: Vec3) -> Vec3 {
    Vec3 {
        x: s_neg(s_mul(FX_TAU as int, p.y as int)) as i64,
        y: s_mul(FX_TAU as int, p.x as int) as i64,
        z: 0,
    }
}

/// The outward unit normal of the hit: the hit point normalized, negated
/// when the sphere's orientation is reversed.
pub open spec fn s_sphere_n(p: Vec3, reverse: bool) -> Vec3 {
    let m = s_sqrt(s_dot(p, p));
    let n = Vec3 {
        x: s_div(p.x as int, m) as i64,
        y: s_div(p.y as int, m) as i64,
        z: s_div(p.z as int, m) as i64,
    };
    if reverse {
        Vec3 { x: s_neg(n.x as int) as i64, y: s_neg(n.y as int) as i64, z: s_neg(n.z as int) as i64 }
    } else {
        n
    }
}

/// The polar derivative direction:
/// `pi * (z cos phi, z sin phi, -rad sin theta)`.
pub open spec fn s_sphere_dpdv(p: Vec3, rad: int) -> Vec3 {
    let inv_z = s_div(FX_ONE as int, s_sqrt(s_add(s_mul(p.x as int, p.x as int), s_mul(p.y as int, p.y as int))));
    let cos_phi = s_mul(p.x as int, inv_z);
    let sin_phi = s_mul(p.y as int, inv_z);
    let sin_theta = s_cos_sin(s_sphere_theta(p, rad) as i64 as int).1;
    Vec3 {
        x: s_mul(s_mul(p.z as int, cos_phi), FX_PI as int) as i64,
        y: s_mul(s_mul(p.z as int, sin_phi), FX_PI as int) as i64,
        z: s_mul(s_neg(s_mul(rad, sin_theta)), FX_PI as int) as i64,
    }
}

/// Widening the traversal window preserves a sphere hit: the quadratic
/// depends only on the origin and direction, and a root inside the narrow
/// window is inside the wide one.
pub proof fn lemma_sphere_hits_widen(r1: Ray, r2: Ray, rad: int)
    requires
        r1.origin == r2.origin,
        r1.direction == r2.direction,
        r1.t_min == r2.t_min,
        r1.t_max <= r2.t_max,
        s_sphere_hits(r1, rad),
    ensures
        s_sphere_hits(r2, rad),
{
}

/// The uniform surface sample of a sphere: a uniform direction scaled to
/// the radius, renormalized onto the exact surface and carried to world
/// space, with the transformed unit normal (negated for a reversed
/// orientation).
pub open spec fn s_sphere_sample(sp: Sphere, u: Point2) -> (Vec3, Vec3) {
    let dir = crate::distributions::s_uniform_sphere(u);
    let p0 = Vec3 {
        x: s_mul(dir.x as int, sp.radius as int) as i64,
        y: s_mul(dir.y as int, sp.radius as int) as i64,
        z: s_mul(dir.z as int, sp.radius as int) as i64,
    };
    let tn = crate::matrix::s_tvec(
        sp.shape_data.object_to_world.spec_inverse().spec_transpose().ints(),
        p0.x as int,
        p0.y as int,
        p0.z as int,
    );
    let nv = Vec3 { x: tn.0 as i64, y: tn.1 as i64, z: tn.2 as i64 };
    let nm = s_sqrt(s_dot(nv, nv));
    let n0 = Vec3 {
        x: s_div(nv.x as int, nm) as i64,
        y: s_div(nv.y as int, nm) as i64,
        z: s_div(nv.z as int, nm) as i64,
    };
    let n = if sp.shape_data.reverse_orientation {
        Vec3 {
            x: s_neg(n0.x as int) as i64,
            y: s_neg(n0.y as int) as i64,
            z: s_neg(n0.z as int) as i64,
        }
    } else {
        n0
    };
    let zero3 = (Vec3 { x: 0, y: 0, z: 0 });
    let d0 = s_sqrt(s_dot(p0.sub_spec(zero3), p0.sub_spec(zero3)));
    let k = s_div(sp.radius as int, d0);
    let p1 = Vec3 {
        x: s_mul(p0.x as int, k) as i64,
        y: s_mul(p0.y as int, k) as i64,
        z: s_mul(p0.z as int, k) as i64,
    };
    let tp = crate::matrix::s_tpoint(
        sp.shape_data.object_to_world.fwd(),
        p1.x as int,
        p1.y as int,
        p1.z as int,
    );
    (Vec3 { x: tp.0 as i64, y: tp.1 as i64, z: tp.2 as i64 }, n)
}

impl Sphere {
    pub fn new(
        reverse_orientation: bool,
        radius: Fx,
        object_to_world: Transform,
        medium_interface: MediumInterface,
    ) -> (r: Self)
        ensures
            r.radius == radius,
            r.shape_data.reverse_orientation == reverse_orientation,
            !r.shape_data.transform_swaps_handedness,
            r.shape_data.object_to_world == object_to_world,
    {
        Self {
            shape_data: ShapeData {
                reverse_orientation,
                transform_swaps_handedness: false,
                object_to_world,
            },
            radius,
            medium_interface,
        }
    }

    /// The object-space bounding box: the cube of half-side `radius`.
    pub fn object_bound(&self) -> (r: AABB3)
        ensures
            r == s_sphere_bound(self.radius),
    {
        let nr = fx_neg(self.radius);
        AABB3::new(point3(nr, nr, nr), point3(self.radius, self.radius, self.radius))
    }

    /// The object-space intersection: solves the stable quadratic, takes
    /// the nearest root in the window, shrinks `t_max` to it, and builds
    /// the parametric interaction. On a miss the ray is untouched.
    pub fn intersect(&self, ray: &mut Ray, _test_alpha_texture: bool) -> (r: Option<
        SurfaceInteraction,
    >)
        ensures
            r.is_some() <==> s_sphere_hits(*old(ray), self.radius as int),
            !r.is_some() ==> *final(ray) == *old(ray),
            r.is_some() ==> ({
                &&& final(ray).t_max as int == s_sphere_t(*old(ray), self.radius as int)
                &&& old(ray).t_min as int <= final(ray).t_max as int <= old(ray).t_max as int
                &&& crate::ray::s_same_ray_except_t_max(*final(ray), *old(ray))
            }),
            r.is_some() ==> ({
                let p = s_sphere_p(*old(ray), self.radius as int);
                let uv = s_sphere_uv(p, self.radius as int);
                let out = r.unwrap();
                &&& out.p == p
                &&& out.wo.is_some()
                &&& out.wo.unwrap().x as int == s_neg(old(ray).direction.x as int)
                &&& out.wo.unwrap().y as int == s_neg(old(ray).direction.y as int)
                &&& out.wo.unwrap().z as int == s_neg(old(ray).direction.z as int)
                &&& out.uv == Some(s_uv_pair(uv.0, uv.1))
                &&& out.dpdu == Some(s_sphere_dpdu(p))
                &&& out.dpdv == Some(s_sphere_dpdv(p, self.radius as int))
                &&& out.time == old(ray).time
                &&& out.n == Some(s_sphere_n(p, self.shape_data.reverse_orientation))
                &&& out.shading.is_some()
                &&& out.shading.unwrap().n == s_sphere_n(p, self.shape_data.reverse_orientation)
                &&& out.shading.unwrap().dpdu == s_sphere_dpdu(p)
                &&& out.shading.unwrap().dpdv == s_sphere_dpdv(p, self.radius as int)
                &&& out.bsdf.is_some()
                &&& out.bsdf.unwrap().bxdfs@.len() == 0
                &&& out.bsdf.unwrap().ns == s_sphere_n(p, self.shape_data.reverse_orientation)
                &&& out.bsdf.unwrap().ng == s_sphere_n(p, self.shape_data.reverse_orientation)
                &&& out.primitive.is_none()
            }),
    {
        let time = ray.time;
        let a = ray.direction.magnitude_squared();
        let b = fx_mul(2 * FX_ONE, ray.direction.dot(ray.origin));
        let c = fx_sub(ray.origin.dot(ray.origin), fx_mul(self.radius, self.radius));
        let (t0, t1) = match quadratic(a, b, c) {
            None => {
                return None;
            },
            Some(ts) => ts,
        };
        let mut t_shape_hit = t0;
        if t_shape_hit < ray.t_min || t_shape_hit > ray.t_max {
            t_shape_hit = t1;
            if t_shape_hit < ray.t_min || t_shape_hit > ray.t_max {
                return None;
            }
        }
        ray.t_max = t_shape_hit;
        let mut p = ray.at(t_shape_hit);
        if p.x == 0 && p.y == 0 {
            p.x = fx_mul(FX_POLE_NUDGE, self.radius);
        }
        let theta = acos_fx(fx_clamp(fx_div(p.z, self.radius), -FX_ONE, FX_ONE));
        let inv_z = fx_div(FX_ONE, fx_sqrt(fx_add(fx_mul(p.x, p.x), fx_mul(p.y, p.y))));
        let cos_phi = fx_mul(p.x, inv_z);
        let sin_phi = fx_mul(p.y, inv_z);
        let phi_frac = fx_div(atan2_fx(p.x, p.y), FX_TAU);
        let u = if phi_frac < 0 {
            fx_add(phi_frac, FX_ONE)
        } else {
            phi_frac
        };
        let v = fx_div(theta, FX_PI);
        let dpdu = vec3(fx_neg(fx_mul(FX_TAU, p.y)), fx_mul(FX_TAU, p.x), 0);
        let dpdv = vec3(
            fx_mul(fx_mul(p.z, cos_phi), FX_PI),
            fx_mul(fx_mul(p.z, sin_phi), FX_PI),
            fx_mul(fx_neg(fx_mul(self.radius, sin_fx(theta))), FX_PI),
        );
        let mut out = SurfaceInteraction::new(
            p,
            ray.direction.neg(),
            point2(u, v),
            dpdu,
            dpdv,
            time,
            None,
            None,
        );
        let mut nrm = p.normalize();
        if self.shape_data.reverse_orientation {
            nrm = nrm.neg();
        }
        out.n = Some(nrm);
        out.shading = Some(crate::interaction::Shading { n: nrm, dpdu, dpdv });
        out.create_bsdf();
        Some(out)
    }

    /// The surface area: `4 pi r^2`.
    pub fn area(&self) -> (r: Fx)
        ensures
            r as int == s_mul(
                s_mul(s_mul(4 * FX_ONE as int, self.radius as int), self.radius as int),
                FX_PI as int,
            ),
    {
        fx_mul(fx_mul(fx_mul(4 * FX_ONE, self.radius), self.radius), FX_PI)
    }

    /// The boolean form of the intersection test; the ray is untouched.
    pub fn intersect_p(&self, ray: &Ray, _test_alpha_texture: bool) -> (r: bool)
        ensures
            r == s_sphere_hits(*ray, self.radius as int),
    {
        let a = ray.direction.magnitude_squared();
        let b = fx_mul(2 * FX_ONE, ray.direction.dot(ray.origin));
        let c = fx_sub(ray.origin.magnitude_squared(), fx_mul(self.radius, self.radius));
        let (t0, t1) = match quadratic(a, b, c) {
            None => {
                return false;
            },
            Some(ts) => ts,
        };
        let mut t_shape_hit = t0;
        if t_shape_hit < ray.t_min || t_shape_hit > ray.t_max {
            t_shape_hit = t1;
            if t_shape_hit < ray.t_min || t_shape_hit > ray.t_max {
                return false;
            }
        }
        true
    }

    /// A uniform point of the sphere's surface, with its world-space
    /// normal, as a bare interaction.
    pub fn sample_u(&self, u: &Point2) -> (r: SurfaceInteraction)
        ensures
            ({
                let t = s_sphere_sample(*self, *u);
                &&& r.p == t.0
                &&& r.n == Some(t.1)
                &&& r.bsdf.is_none()
                &&& r.primitive.is_none()
                &&& r.time == 0
            }),
    {
        let dir = Distribution1D::uniform_sample_sphere(u);
        let mut p_obj = dir.scale(self.radius);
        let mut n = self
            .shape_data
            .object_to_world
            .fnorm(&normal3(p_obj.x, p_obj.y, p_obj.z))
            .normalize();
        if self.shape_data.reverse_orientation {
            n = n.neg();
        }
        let d0 = crate::vector::distance3d(&p_obj, &point3(0, 0, 0));
        p_obj = p_obj.scale(fx_div(self.radius, d0));
        p_obj = self.shape_data.object_to_world.fpt(p_obj);
        let mut out = SurfaceInteraction::new_general(p_obj, 0);
        out.n = Some(n);
        out
    }
}

/// A `Vec2` from two spec integers; a helper for stating `uv` pairs.
pub open spec fn s_uv_pair(x: int, y: int) -> crate::vector::Vec2 {
    crate::vector::Vec2 { x: x as i64, y: y as i64 }
}

} // verus!
