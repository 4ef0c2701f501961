//! A primitive binds a shape to a material (and possibly an area light),
//! lifting object-space hits to world space.

use vstd::prelude::*;

use crate::aabb::AABB3;
use crate::fixed::Fx;
use crate::interaction::SurfaceInteraction;
use crate::light::Light;
use crate::material::Material;
use crate::ray::Ray;
use crate::rng::RngGen;
use crate::shape::{Shape, ShapeData};
use crate::transform::s_ray_via;
use crate::vector::Point2;

verus! {

/// A shape with its material and an optional area light.
pub struct Primitive {
    pub shape: Shape,
    pub material: Material,
    pub light: Option<Light>,
}

/// Whether a primitive's boolean test reports occlusion: its shape is hit
/// by the ray taken into object space.
pub open spec fn s_prim_occludes(p: Primitive, r: Ray) -> bool {
    p.shape.spec_hits_p(s_ray_via(p.shape.spec_shape_data().object_to_world.inv(), r))
}

/// Whether the closest-hit query reports a hit: its shape's hit predicate
/// holds of the ray taken into object space. Opaque: callers reason about
/// it as a predicate; `Primitive::intersect` decides it.
#[verifier::opaque]
pub open spec fn s_prim_hits(p: Primitive, r: Ray) -> bool {
    p.shape.spec_hits(s_ray_via(p.shape.spec_shape_data().object_to_world.inv(), r))
}

/// The hit parameter the closest-hit query leaves in `t_max`: the shape's
/// parameter of the object-space ray (parameters agree in both spaces).
/// Opaque, like the hit predicate.
#[verifier::opaque]
pub open spec fn s_prim_hit_t(p: Primitive, r: Ray) -> int {
    p.shape.spec_hit_t(s_ray_via(p.shape.spec_shape_data().object_to_world.inv(), r))
}

/// The primitive's world-space bounding box: the hull of the shape's box
/// corners under its object-to-world transform. Opaque: callers reason
/// about it as a value; `Primitive::object_bound` establishes it.
#[verifier::opaque]
pub open spec fn s_prim_bound(p: Primitive) -> crate::aabb::AABB3 {
    crate::transform::s_aabb_via(
        p.shape.spec_shape_data().object_to_world.fwd(),
        p.shape.spec_object_bound(),
    )
}

/// Widening the traversal window preserves a hit: the object-space ray
/// keeps the window unchanged.
pub proof fn lemma_prim_hits_widen(p: Primitive, r1: Ray, r2: Ray)
    requires
        r1.origin == r2.origin,
        r1.direction == r2.direction,
        r1.t_min == r2.t_min,
        r1.t_max <= r2.t_max,
        s_prim_hits(p, r1),
    ensures
        s_prim_hits(p, r2),
{
    reveal(s_prim_hits);
    let inv = p.shape.spec_shape_data().object_to_world.inv();
    p.shape.lemma_hits_widen(s_ray_via(inv, r1), s_ray_via(inv, r2));
}

impl Primitive {
    pub fn new(shape: Shape, material: Material, light: Option<Light>) -> (r: Self)
        ensures
            r.shape == shape,
            r.material == material,
            r.light == light,
    {
        Self { shape, material, light }
    }

    /// The scattering hook invoked on a hit; a stub.
    pub fn scatter(&self, inter: &mut SurfaceInteraction, _rng: &RngGen)
        ensures
            *final(inter) == *old(inter),
    {
    }

    /// The closest-hit query: a hit is returned exactly when the shape's
    /// hit predicate holds of the ray taken into object space, and the
    /// world ray's window shrinks to the shape's hit parameter (parameters
    /// agree in both spaces). The material then populates the BSDF and the
    /// interaction is lifted to world space. On a miss the ray is
    /// untouched.
    pub fn intersect(&self, ray: &mut Ray, test_alpha_texture: bool) -> (r: Option<
        SurfaceInteraction,
    >)
        requires
            self.shape.wf(),
        ensures
            r.is_some() <==> s_prim_hits(*self, *old(ray)),
            !r.is_some() ==> *final(ray) == *old(ray),
            r.is_some() ==> ({
                &&& final(ray).t_max as int == s_prim_hit_t(*self, *old(ray))
                &&& old(ray).t_min as int <= final(ray).t_max as int <= old(ray).t_max as int
                &&& crate::ray::s_same_ray_except_t_max(*final(ray), *old(ray))
            }),
            r.is_some() ==> ({
                let out = r.unwrap();
                &&& out.wo.is_some()
                &&& out.n.is_some()
                &&& out.shading.is_some()
                &&& out.bsdf.is_some()
                &&& out.primitive.is_none()
                &&& match self.material {
                    Material::Matte(m) => if crate::material::s_matte_adds_lobe(m) {
                        out.bsdf.unwrap().bxdfs@ == seq![
                            crate::material::Bxdf::Lambertian(
                                crate::material::LambertianReflection { r: m.kd.spec_eval() },
                            ),
                        ]
                    } else {
                        out.bsdf.unwrap().bxdfs@.len() == 0
                    },
                }
            }),
    {
        proof {
            reveal(s_prim_hits);
            reveal(s_prim_hit_t);
        }
        let mut transformed_ray = self.shape.shape_data().object_to_world.iray(ray);
        match self.shape.intersect(&mut transformed_ray, test_alpha_texture) {
            Some(mut inter) => {
                ray.t_max = transformed_ray.t_max;
                self.material.calculate_bsdf(&mut inter);
                proof {
                    match &self.material {
                        Material::Matte(m) => {
                            if crate::material::s_matte_adds_lobe(*m) {
                                assert(inter.bsdf.unwrap().bxdfs@ =~= seq![
                                    crate::material::Bxdf::Lambertian(
                                        crate::material::LambertianReflection {
                                            r: m.kd.spec_eval(),
                                        },
                                    ),
                                ]);
                            }
                        },
                    }
                }
                Some(
                    self.shape.shape_data().object_to_world.forward_surface_interaction_transform(
                        inter,
                    ),
                )
            },
            None => None,
        }
    }

    /// The boolean occlusion query, in the shape's object space.
    pub fn intersect_p(&self, ray: &Ray, test_alpha_texture: bool) -> (r: bool)
        ensures
            r == s_prim_occludes(*self, *ray),
    {
        let transformed_ray = self.shape.shape_data().object_to_world.iray(ray);
        self.shape.intersect_p(&transformed_ray, test_alpha_texture)
    }

    /// The shape's common data.
    pub fn shape_data(&self) -> (r: &ShapeData)
        ensures
            r == self.shape.spec_shape_data(),
    {
        self.shape.shape_data()
    }

    /// The world-space bounding box: the shape's box lifted by its
    /// transform.
    pub fn object_bound(&self) -> (r: AABB3)
        ensures
            r == s_prim_bound(*self),
    {
        proof {
            reveal(s_prim_bound);
        }
        let b = self.shape.object_bound();
        self.shape.shape_data().object_to_world.faabb(&b)
    }

    /// The shape's surface area.
    pub fn area(&self) -> (r: Fx)
        ensures
            r as int == self.shape.spec_area(),
    {
        self.shape.area()
    }

    /// A uniform surface sample of the shape.
    pub fn sample_u(&self, u: &Point2) -> (r: SurfaceInteraction)
        requires
            self.shape.wf(),
            self.shape.can_sample(),
        ensures
            r.p == self.shape.spec_sample(*u).0,
            r.n == Some(self.shape.spec_sample(*u).1),
            r.bsdf.is_none(),
    {
        self.shape.sample_u(u)
    }

    /// A surface sample for an interaction.
    pub fn sample_inter(&self, inter: &SurfaceInteraction, u: &Point2) -> (r: SurfaceInteraction)
        requires
            self.shape.wf(),
            self.shape.can_sample(),
        ensures
            r.p == self.shape.spec_sample(*u).0,
            r.n == Some(self.shape.spec_sample(*u).1),
            r.bsdf.is_none(),
    {
        self.shape.sample_inter(inter, u)
    }
}

} // verus!
