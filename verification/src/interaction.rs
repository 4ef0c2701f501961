//! A surface interaction: the record of a ray-surface hit and the local
//! shading data, including the lazily filled BSDF.

use vstd::prelude::*;

use crate::fixed::{s_div, s_sqrt, s_sub, Fx, FX_MAX};
use crate::material::Bsdf;
use crate::ray::Ray;
use crate::rng::RngGen;
use crate::transform::s_cross;
use crate::vector::{s_dot, vec3, Normal3, Point2, Point3, Vec3};

verus! {

/// The distance below which a spawned ray refuses hits, so a surface does
/// not shadow itself: the scalar nearest to one ten-thousandth.
pub const FX_RAY_EPSILON: i64 = 7;

/// The fraction of a connecting segment that a visibility ray traverses:
/// just below one, mirroring the self-shadowing guard at the far end.
pub const FX_SEGMENT_END: i64 = 65529;

/// The shading frame attached to a hit: a possibly smoothed normal and the
/// two surface derivative directions.
#[derive(Clone, Copy)]
pub struct Shading {
    pub n: Normal3,
    pub dpdu: Vec3,
    pub dpdv: Vec3,
}

/// A ray-surface hit. `primitive` is a non-owning handle: the index of the
/// hit primitive in the scene's table.
pub struct SurfaceInteraction {
    pub p: Point3,
    pub time: Fx,
    pub wo: Option<Vec3>,
    pub n: Option<Normal3>,
    pub uv: Option<Point2>,
    pub dpdu: Option<Vec3>,
    pub dpdv: Option<Vec3>,
    pub shading: Option<Shading>,
    pub primitive: Option<usize>,
    pub bsdf: Option<Bsdf>,
}

/// The interaction type used throughout the tracer.
pub type Interaction = SurfaceInteraction;

/// The normalized cross product of the two derivative directions: the
/// geometric normal a parametric hit implies.
pub open spec fn s_normal_of(dpdu: Vec3, dpdv: Vec3) -> Vec3 {
    let c = s_cross(dpdu, dpdv);
    let m = s_sqrt(s_dot(c, c));
    Vec3 {
        x: s_div(c.x as int, m) as i64,
        y: s_div(c.y as int, m) as i64,
        z: s_div(c.z as int, m) as i64,
    }
}

impl SurfaceInteraction {
    /// A parametric hit: the normal comes from the derivative cross
    /// product, the shading frame starts as the geometric one, and an
    /// empty BSDF is installed over that frame.
    pub fn new(
        p: Point3,
        wo: Vec3,
        uv: Point2,
        dpdu: Vec3,
        dpdv: Vec3,
        time: Fx,
        primitive: Option<usize>,
        bsdf: Option<Bsdf>,
    ) -> (r: Self)
        ensures
            r.p == p,
            r.time == time,
            r.wo == Some(wo),
            r.uv == Some(uv),
            r.dpdu == Some(dpdu),
            r.dpdv == Some(dpdv),
            r.n == Some(s_normal_of(dpdu, dpdv)),
            r.shading.is_some(),
            r.shading.unwrap().n == s_normal_of(dpdu, dpdv),
            r.shading.unwrap().dpdu == dpdu,
            r.shading.unwrap().dpdv == dpdv,
            r.primitive == primitive,
            r.bsdf.is_some(),
            r.bsdf.unwrap().bxdfs@.len() == 0,
            r.bsdf.unwrap().ns == s_normal_of(dpdu, dpdv),
            r.bsdf.unwrap().ng == s_normal_of(dpdu, dpdv),
    {
        let n = dpdu.cross(dpdv).normalize();
        let mut out = Self {
            p,
            uv: Some(uv),
            wo: Some(wo),
            n: Some(n),
            dpdu: Some(dpdu),
            dpdv: Some(dpdv),
            time,
            shading: Some(Shading { n, dpdu, dpdv }),
            primitive,
            bsdf,
        };
        out.create_bsdf();
        out
    }

    /// Installs a fresh, lobe-less BSDF over the current shading frame.
    pub fn create_bsdf(&mut self)
        requires
            old(self).shading.is_some(),
            old(self).n.is_some(),
        ensures
            final(self).p == old(self).p,
            final(self).time == old(self).time,
            final(self).wo == old(self).wo,
            final(self).n == old(self).n,
            final(self).uv == old(self).uv,
            final(self).dpdu == old(self).dpdu,
            final(self).dpdv == old(self).dpdv,
            final(self).shading == old(self).shading,
            final(self).primitive == old(self).primitive,
            final(self).bsdf.is_some(),
            final(self).bsdf.unwrap().bxdfs@.len() == 0,
            final(self).bsdf.unwrap().ns == old(self).shading.unwrap().n,
            final(self).bsdf.unwrap().ng == old(self).n.unwrap(),
            final(self).bsdf.unwrap().ss == crate::material::s_frame_s(old(self).shading.unwrap()),
            final(self).bsdf.unwrap().ts == crate::material::s_frame_t(old(self).shading.unwrap()),
    {
        let b = Bsdf::new(self);
        self.bsdf = Some(b);
    }

    /// A hit known only by its normal (no derivative directions): the
    /// shading frame degenerates to the normal alone.
    pub fn new_with_normal(
        p: Point3,
        wo: Vec3,
        uv: Point2,
        n: Normal3,
        time: Fx,
        primitive: Option<usize>,
    ) -> (r: Self)
        ensures
            r.p == p,
            r.time == time,
            r.wo == Some(wo),
            r.uv == Some(uv),
            r.n == Some(n),
            r.dpdu.is_none(),
            r.dpdv.is_none(),
            r.shading.is_some(),
            r.shading.unwrap().n == n,
            r.shading.unwrap().dpdu == (Vec3 { x: 0, y: 0, z: 0 }),
            r.shading.unwrap().dpdv == (Vec3 { x: 0, y: 0, z: 0 }),
            r.primitive == primitive,
            r.bsdf.is_some(),
            r.bsdf.unwrap().bxdfs@.len() == 0,
            r.bsdf.unwrap().ns == n,
            r.bsdf.unwrap().ng == n,
    {
        let mut out = Self {
            p,
            uv: Some(uv),
            wo: Some(wo),
            n: Some(n),
            dpdu: None,
            dpdv: None,
            time,
            primitive,
            shading: Some(Shading { n, dpdu: vec3(0, 0, 0), dpdv: vec3(0, 0, 0) }),
            bsdf: None,
        };
        out.create_bsdf();
        out
    }

    /// A bare point interaction, used for light endpoints.
    pub fn new_general(p: Point3, time: Fx) -> (r: Self)
        ensures
            r.p == p,
            r.time == time,
            r.wo.is_none(),
            r.uv.is_none(),
            r.n.is_none(),
            r.dpdu.is_none(),
            r.dpdv.is_none(),
            r.shading.is_none(),
            r.primitive.is_none(),
            r.bsdf.is_none(),
    {
        Self {
            p,
            time,
            wo: None,
            uv: None,
            n: None,
            dpdu: None,
            dpdv: None,
            shading: None,
            primitive: None,
            bsdf: None,
        }
    }

    /// Appends a lobe to the hit's BSDF, if one is installed.
    pub fn add_bxdf(&mut self, bxdf: crate::material::Bxdf)
        ensures
            old(self).bsdf.is_some() ==> ({
                &&& final(self).bsdf.is_some()
                &&& final(self).bsdf.unwrap().bxdfs@ == old(self).bsdf.unwrap().bxdfs@.push(bxdf)
                &&& final(self).bsdf.unwrap().ss == old(self).bsdf.unwrap().ss
                &&& final(self).bsdf.unwrap().ts == old(self).bsdf.unwrap().ts
                &&& final(self).bsdf.unwrap().ns == old(self).bsdf.unwrap().ns
                &&& final(self).bsdf.unwrap().ng == old(self).bsdf.unwrap().ng
            }),
            old(self).bsdf.is_none() ==> final(self).bsdf.is_none(),
            final(self).p == old(self).p && final(self).time == old(self).time,
            final(self).wo == old(self).wo && final(self).n == old(self).n,
            final(self).uv == old(self).uv && final(self).dpdu == old(self).dpdu,
            final(self).dpdv == old(self).dpdv && final(self).shading == old(self).shading,
            final(self).primitive == old(self).primitive,
    {
        match &mut self.bsdf {
            Some(b) => b.add(bxdf),
            None => {},
        }
    }

    /// Re-anchors a ray at the hit point. The hit primitive's scattering
    /// hook is a stub, so nothing else changes.
    pub fn scatter(&mut self, ray: &mut Ray, _rng: &RngGen)
        ensures
            *final(self) == *old(self),
            final(ray).origin == old(self).p,
            final(ray).direction == old(ray).direction,
            final(ray).t_min == old(ray).t_min,
            final(ray).t_max == old(ray).t_max,
            final(ray).time == old(ray).time,
            final(ray).has_differentials == old(ray).has_differentials,
            final(ray).rx_origin == old(ray).rx_origin,
            final(ray).ry_origin == old(ray).ry_origin,
            final(ray).rx_direction == old(ray).rx_direction,
            final(ray).ry_direction == old(ray).ry_direction,
    {
        ray.origin = self.p;
    }

    /// A shadow segment toward a point: direction is the unnormalized
    /// difference, clipped just inside both endpoints.
    pub fn spawn_ray_to_point(&self, p: &Point3) -> (r: Ray)
        ensures
            r.origin == self.p,
            r.direction.x as int == s_sub(p.x as int, self.p.x as int),
            r.direction.y as int == s_sub(p.y as int, self.p.y as int),
            r.direction.z as int == s_sub(p.z as int, self.p.z as int),
            r.t_min == FX_RAY_EPSILON,
            r.t_max == FX_SEGMENT_END,
            r.time == 0,
            !r.has_differentials,
    {
        Ray::new_non_differential(self.p, p.sub(self.p), FX_RAY_EPSILON, FX_SEGMENT_END, 0)
    }

    /// A shadow segment toward another interaction's point.
    pub fn spawn_ray_to(&self, other: &SurfaceInteraction) -> (r: Ray)
        ensures
            r.origin == self.p,
            r.direction.x as int == s_sub(other.p.x as int, self.p.x as int),
            r.direction.y as int == s_sub(other.p.y as int, self.p.y as int),
            r.direction.z as int == s_sub(other.p.z as int, self.p.z as int),
            r.t_min == FX_RAY_EPSILON,
            r.t_max == FX_SEGMENT_END,
    {
        self.spawn_ray_to_point(&other.p)
    }

    /// An outgoing ray from the hit along `direction`, open-ended, starting
    /// just off the surface.
    pub fn spawn_ray(&self, direction: Vec3) -> (r: Ray)
        ensures
            r.origin == self.p,
            r.direction == direction,
            r.t_min == FX_RAY_EPSILON,
            r.t_max == FX_MAX,
            r.time == self.time,
            !r.has_differentials,
    {
        Ray::new_non_differential(self.p, direction, FX_RAY_EPSILON, FX_MAX, self.time)
    }
}

} // verus!
