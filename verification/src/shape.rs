//! The closed set of shapes, each with object-space intersection, area and
//! sampling, plus the data every shape carries.

use vstd::prelude::*;

use crate::aabb::AABB3;
use crate::fixed::{s_div, s_mul, Fx, fx_div, FX_ONE};
use crate::interaction::SurfaceInteraction;
use crate::mesh::{Mesh, Triangle};
use crate::ray::Ray;
use crate::sphere::Sphere;
use crate::transform::Transform;
use crate::vector::{Point2, Vec3};

verus! {

/// What every shape carries: orientation flags and the object-to-world
/// transform.
#[derive(Clone, Copy)]
pub struct ShapeData {
    pub reverse_orientation: bool,
    pub transform_swaps_handedness: bool,
    pub object_to_world: Transform,
}

/// A geometric shape in object space.
pub enum Shape {
    Sphere(Sphere),
    Triangle(Triangle),
    Mesh(Mesh),
}

impl Shape {
    /// The shape's common data.
    pub fn shape_data(&self) -> (r: &ShapeData)
        ensures
            r == self.spec_shape_data(),
    {
        match self {
            Shape::Sphere(s) => &s.shape_data,
            Shape::Triangle(t) => &t.shape_data,
            Shape::Mesh(m) => &m.shape_data,
        }
    }

    /// The shape's common data, at the spec level.
    pub open spec fn spec_shape_data(self) -> ShapeData {
        match self {
            Shape::Sphere(s) => s.shape_data,
            Shape::Triangle(t) => t.shape_data,
            Shape::Mesh(m) => m.shape_data,
        }
    }

    /// Structural coherence where a variant needs it.
    pub open spec fn wf(self) -> bool {
        match self {
            Shape::Sphere(_) => true,
            Shape::Triangle(_) => true,
            Shape::Mesh(m) => m.wf(),
        }
    }

    /// The shape's object-space bounding box, at the spec level.
    pub open spec fn spec_object_bound(self) -> AABB3 {
        match self {
            Shape::Sphere(s) => crate::sphere::s_sphere_bound(s.radius),
            Shape::Triangle(t) => crate::mesh::s_tri_bound(t),
            Shape::Mesh(m) => if m.triangles@.len() == 0 {
                crate::aabb::s_default_box()
            } else {
                crate::mesh::s_mesh_bound(m.triangles@, m.triangles@.len() as int)
            },
        }
    }

    /// The object-space bounding box.
    pub fn object_bound(&self) -> (r: AABB3)
        ensures
            r == self.spec_object_bound(),
    {
        match self {
            Shape::Sphere(s) => s.object_bound(),
            Shape::Triangle(t) => t.object_bound(),
            Shape::Mesh(m) => m.object_bound(),
        }
    }

    /// Whether the closest-hit test reports a hit for this shape and ray.
    pub open spec fn spec_hits(self, r: Ray) -> bool {
        match self {
            Shape::Sphere(s) => crate::sphere::s_sphere_hits(r, s.radius as int),
            Shape::Triangle(t) => crate::mesh::s_tri_hits(t, r),
            Shape::Mesh(m) => exists|k: int|
                0 <= k < m.triangles@.len() && crate::mesh::s_tri_hits(
                    #[trigger] m.triangles@[k],
                    r,
                ),
        }
    }

    /// The hit parameter the closest-hit test leaves in `t_max`: the
    /// selected quadratic root, the triangle's parameter, or the end of a
    /// mesh's running-window scan.
    pub open spec fn spec_hit_t(self, r: Ray) -> int {
        match self {
            Shape::Sphere(s) => crate::sphere::s_sphere_t(r, s.radius as int),
            Shape::Triangle(t) => crate::mesh::s_tri_t(t, r),
            Shape::Mesh(m) => crate::mesh::s_mesh_scan_t(m.triangles@, r, m.triangles@.len() as int),
        }
    }

    /// The object-space intersection: a hit is returned exactly when the
    /// shape's hit predicate holds of the incoming ray, `t_max` shrinks to
    /// the hit parameter (and never grows), and on a miss the ray is
    /// untouched. The interaction of a hit always carries a normal, a
    /// shading frame, an outgoing direction and an installed (possibly
    /// lobe-less) BSDF.
    pub fn intersect(&self, ray: &mut Ray, test_alpha_texture: bool) -> (r: Option<
        SurfaceInteraction,
    >)
        requires
            self.wf(),
        ensures
            r.is_some() <==> self.spec_hits(*old(ray)),
            !r.is_some() ==> *final(ray) == *old(ray),
            r.is_some() ==> ({
                &&& final(ray).t_max as int == self.spec_hit_t(*old(ray))
                &&& old(ray).t_min as int <= final(ray).t_max as int <= old(ray).t_max as int
                &&& crate::ray::s_same_ray_except_t_max(*final(ray), *old(ray))
            }),
            r.is_some() ==> ({
                let out = r.unwrap();
                &&& out.wo.is_some()
                &&& out.n.is_some()
                &&& out.shading.is_some()
                &&& out.bsdf.is_some()
                &&& out.bsdf.unwrap().bxdfs@.len() == 0
                &&& out.primitive.is_none()
            }),
    {
        match self {
            Shape::Sphere(s) => s.intersect(ray, test_alpha_texture),
            Shape::Triangle(t) => t.intersect(ray, test_alpha_texture),
            Shape::Mesh(m) => m.intersect(ray, test_alpha_texture),
        }
    }

    /// Widening the traversal window preserves a hit.
    pub proof fn lemma_hits_widen(self, r1: Ray, r2: Ray)
        requires
            r1.origin == r2.origin,
            r1.direction == r2.direction,
            r1.t_min == r2.t_min,
            r1.t_max <= r2.t_max,
            self.spec_hits(r1),
        ensures
            self.spec_hits(r2),
    {
        match self {
            Shape::Sphere(s) => crate::sphere::lemma_sphere_hits_widen(r1, r2, s.radius as int),
            Shape::Triangle(t) => crate::mesh::lemma_tri_hits_widen(t, r1, r2),
            Shape::Mesh(m) => {
                let k = choose|k: int|
                    0 <= k < m.triangles@.len() && crate::mesh::s_tri_hits(
                        #[trigger] m.triangles@[k],
                        r1,
                    );
                crate::mesh::lemma_tri_hits_widen(m.triangles@[k], r1, r2);
            },
        }
    }

    /// Whether the boolean test reports a hit for this shape and ray.
    pub open spec fn spec_hits_p(self, r: Ray) -> bool {
        match self {
            Shape::Sphere(s) => crate::sphere::s_sphere_hits(r, s.radius as int),
            Shape::Triangle(t) => crate::mesh::s_tri_hits_p(t, r),
            Shape::Mesh(m) => exists|k: int|
                0 <= k < m.triangles@.len() && crate::mesh::s_tri_hits_p(
                    #[trigger] m.triangles@[k],
                    r,
                ),
        }
    }

    /// The boolean intersection test; the ray is untouched.
    pub fn intersect_p(&self, ray: &Ray, test_alpha_texture: bool) -> (r: bool)
        ensures
            r == self.spec_hits_p(*ray),
    {
        match self {
            Shape::Sphere(s) => s.intersect_p(ray, test_alpha_texture),
            Shape::Triangle(t) => t.intersect_p(ray, test_alpha_texture),
            Shape::Mesh(m) => m.intersect_p(ray, test_alpha_texture),
        }
    }

    /// The shape's reported surface area, at the spec level.
    pub open spec fn spec_area(self) -> int {
        match self {
            Shape::Sphere(sp) => s_mul(
                s_mul(s_mul(4 * FX_ONE as int, sp.radius as int), sp.radius as int),
                crate::common::FX_PI as int,
            ),
            Shape::Triangle(t) => crate::mesh::s_tri_area(t),
            Shape::Mesh(m) => crate::mesh::s_mesh_area(m.triangles@, m.triangles@.len() as int),
        }
    }

    /// The surface area.
    pub fn area(&self) -> (r: Fx)
        ensures
            r as int == self.spec_area(),
    {
        match self {
            Shape::Sphere(s) => s.area(),
            Shape::Triangle(t) => t.area(),
            Shape::Mesh(m) => m.area(),
        }
    }

    /// The constant density of uniform area sampling: one over the area.
    pub fn pdf(&self, _inter: &SurfaceInteraction) -> (r: Fx)
        ensures
            r as int == s_div(FX_ONE as int, self.spec_area()),
    {
        fx_div(FX_ONE, self.area())
    }

    /// The solid-angle density of sampling toward `wi` from `inter`:
    /// distance squared over the projected area. When the shape is not hit
    /// along the spawned segment the density is exactly zero.
    pub fn pdf_wi(&self, inter: &SurfaceInteraction, wi: &Vec3) -> (r: Fx)
        requires
            self.wf(),
        ensures
            !self.spec_hits(
                crate::light::s_segment(inter.p, *wi, inter.time),
            ) ==> r == 0,
    {
        let mut ray = inter.spawn_ray_to_point(wi);
        match self.intersect(&mut ray, false) {
            Some(isect_light) => {
                let d2 = crate::vector::distance_squared3d(&inter.p, &isect_light.p);
                let n = match isect_light.n {
                    Some(n) => n,
                    None => crate::vector::vec3(0, 0, 0),
                };
                let denom = crate::fixed::fx_mul(
                    crate::fixed::fx_abs(n.dot(wi.neg())),
                    self.area(),
                );
                fx_div(d2, denom)
            },
            None => 0,
        }
    }

    /// Whether the shape has surface to sample: a mesh needs at least one
    /// triangle.
    pub open spec fn can_sample(self) -> bool {
        match self {
            Shape::Sphere(_) => true,
            Shape::Triangle(_) => true,
            Shape::Mesh(m) => m.triangles@.len() >= 1,
        }
    }

    /// The shape's uniform surface sample: point and normal, at the spec
    /// level.
    pub open spec fn spec_sample(self, u: Point2) -> (Vec3, Vec3) {
        match self {
            Shape::Sphere(sp) => crate::sphere::s_sphere_sample(sp, u),
            Shape::Triangle(t) => crate::mesh::s_tri_sample(t, u),
            Shape::Mesh(m) => {
                let n = m.triangles@.len() as int;
                let idx = crate::fixed::max_int(
                    0,
                    crate::fixed::min_int(crate::fixed::tdiv(u.x as int * n, FX_ONE as int), n - 1),
                );
                crate::mesh::s_tri_sample(m.triangles@[idx], u)
            },
        }
    }

    /// A uniform surface sample.
    pub fn sample_u(&self, u: &Point2) -> (r: SurfaceInteraction)
        requires
            self.wf(),
            self.can_sample(),
        ensures
            r.p == self.spec_sample(*u).0,
            r.n == Some(self.spec_sample(*u).1),
            r.bsdf.is_none(),
            r.primitive.is_none(),
            r.time == 0,
    {
        match self {
            Shape::Sphere(s) => s.sample_u(u),
            Shape::Triangle(t) => t.sample_u(u),
            Shape::Mesh(m) => m.sample_u(u),
        }
    }

    /// A surface sample for an interaction; uniform area sampling.
    pub fn sample_inter(&self, _inter: &SurfaceInteraction, u: &Point2) -> (r: SurfaceInteraction)
        requires
            self.wf(),
            self.can_sample(),
        ensures
            r.p == self.spec_sample(*u).0,
            r.n == Some(self.spec_sample(*u).1),
            r.bsdf.is_none(),
    {
        self.sample_u(u)
    }
}

} // verus!
