//! The scene: primitives and lights, with linear closest-hit and
//! occlusion queries and the preprocessing pass that hands world bounds to
//! the lights.

use vstd::prelude::*;

use crate::aabb::AABB3;
use crate::interaction::SurfaceInteraction;
use crate::light::Light;
use crate::primitive::{lemma_prim_hits_widen, s_prim_hit_t, s_prim_hits, s_prim_occludes, Primitive};
use crate::ray::Ray;

verus! {

/// The closest-hit scan over the first `i` primitives: the running
/// traversal end and the index of the surviving (nearest so far) hit, or
/// -1 while none was found. Each primitive is tested against the window
/// the previous hits left.
pub open spec fn s_scene_scan(objs: Seq<Primitive>, r: Ray, i: int) -> (int, int)
    decreases i,
{
    if i <= 0 {
        (r.t_max as int, -1)
    } else {
        let prev = s_scene_scan(objs, r, i - 1);
        let rr = Ray { t_max: prev.0 as i64, ..r };
        if s_prim_hits(objs[i - 1], rr) {
            (s_prim_hit_t(objs[i - 1], rr), i - 1)
        } else {
            prev
        }
    }
}

/// The hull of the first `i` primitives' world-space boxes, seeded from
/// the first (meaningful for `i >= 1`).
pub open spec fn s_scene_bounds(objs: Seq<Primitive>, i: int) -> crate::aabb::AABB3
    decreases i,
{
    if i <= 1 {
        crate::primitive::s_prim_bound(objs[0])
    } else {
        crate::aabb::s_box_combine(
            s_scene_bounds(objs, i - 1),
            crate::primitive::s_prim_bound(objs[i - 1]),
        )
    }
}

/// Whether no primitive's hit predicate holds of the ray: the query
/// below then reports a miss.
pub open spec fn s_scene_misses(s: Scene, r: Ray) -> bool {
    forall|i: int| 0 <= i < s.objs@.len() ==> !s_prim_hits(#[trigger] s.objs@[i], r)
}

/// The scene's object graph.
pub struct Scene {
    pub objs: Vec<Primitive>,
    pub lights: Vec<Light>,
}

impl Scene {
    /// The world bounds the scene reports: the hull of its primitives'
    /// boxes, or the unbounded box when it has none.
    pub open spec fn spec_world_bounds(self) -> crate::aabb::AABB3 {
        if self.objs@.len() == 0 {
            crate::aabb::s_default_box()
        } else {
            s_scene_bounds(self.objs@, self.objs@.len() as int)
        }
    }

    /// Structural coherence: every shape is indexable and every light has
    /// had its bounds installed (after `preprocess`).
    pub open spec fn shapes_wf(self) -> bool {
        forall|i: int| 0 <= i < self.objs@.len() ==> (#[trigger] self.objs@[i]).shape.wf()
    }

    /// All lights ready to sample.
    pub open spec fn lights_ready(self) -> bool {
        forall|i: int| 0 <= i < self.lights@.len() ==> (#[trigger] self.lights@[i]).ready()
    }

    /// Appends a primitive.
    pub fn add(&mut self, obj: Primitive)
        ensures
            final(self).objs@ == old(self).objs@.push(obj),
            final(self).lights@ == old(self).lights@,
    {
        self.objs.push(obj);
    }

    /// Hands the world bounds to every light; afterwards every light is
    /// ready, holds exactly its old fields with the bounding sphere
    /// installed, and everything else is untouched.
    pub fn preprocess(&mut self)
        requires
            forall|i: int|
                0 <= i < old(self).lights@.len() ==> (#[trigger] old(self).lights@[i]).distr_coherent(),
        ensures
            final(self).objs@ == old(self).objs@,
            final(self).lights@.len() == old(self).lights@.len(),
            final(self).lights_ready(),
            forall|i: int|
                0 <= i < old(self).lights@.len() ==> #[trigger] final(self).lights@[i]
                    == crate::light::s_light_with_bounds(
                    old(self).lights@[i],
                    old(self).spec_world_bounds(),
                ),
    {
        let bounds = self.world_bounds();
        let n = self.lights.len();
        let mut i: usize = 0;
        while i < n
            invariant
                i <= n,
                n == self.lights@.len(),
                n == old(self).lights@.len(),
                self.objs@ == old(self).objs@,
                bounds == old(self).spec_world_bounds(),
                forall|k: int| 0 <= k < i ==> (#[trigger] self.lights@[k]).ready(),
                forall|k: int|
                    0 <= k < i ==> #[trigger] self.lights@[k] == crate::light::s_light_with_bounds(
                        old(self).lights@[k],
                        old(self).spec_world_bounds(),
                    ),
                forall|k: int| i <= k < n ==> #[trigger] self.lights@[k] == old(self).lights@[k],
                forall|k: int|
                    0 <= k < n ==> (#[trigger] old(self).lights@[k]).distr_coherent(),
            decreases n - i,
        {
            proof {
                assert(self.lights@[i as int] == old(self).lights@[i as int]);
                assert(old(self).lights@[i as int].distr_coherent());
            }
            let light = &mut self.lights[i];
            light.maybe_set_bounds(&bounds);
            i = i + 1;
        }
    }

    /// The linear closest-hit query: a hit is returned exactly when some
    /// primitive's hit predicate holds of the incoming ray; the window
    /// shrinks to the running scan's end, which is the nearest hit's
    /// parameter; and the survivor is the primitive the scan leaves,
    /// tagged with its index. On a miss the ray is untouched.
    #[verifier::rlimit(100)]
    pub fn intersect(&self, ray: &mut Ray) -> (r: Option<SurfaceInteraction>)
        requires
            self.shapes_wf(),
        ensures
            r.is_some() <==> exists|k: int|
                0 <= k < self.objs@.len() && s_prim_hits(#[trigger] self.objs@[k], *old(ray)),
            !r.is_some() ==> *final(ray) == *old(ray),
            r.is_some() ==> ({
                &&& final(ray).t_max as int == s_scene_scan(
                    self.objs@,
                    *old(ray),
                    self.objs@.len() as int,
                ).0
                &&& old(ray).t_min as int <= final(ray).t_max as int <= old(ray).t_max as int
                &&& crate::ray::s_same_ray_except_t_max(*final(ray), *old(ray))
            }),
            r.is_some() ==> ({
                let out = r.unwrap();
                &&& out.wo.is_some()
                &&& out.n.is_some()
                &&& out.shading.is_some()
                &&& out.bsdf.is_some()
                &&& out.bsdf.unwrap().bxdfs@.len() <= 1
                &&& out.primitive.is_some()
                &&& out.primitive.unwrap() < self.objs@.len()
                &&& out.primitive.unwrap() as int == s_scene_scan(
                    self.objs@,
                    *old(ray),
                    self.objs@.len() as int,
                ).1
            }),
            self.objs@.len() == 0 ==> r.is_none(),
    {
        let mut result: Option<SurfaceInteraction> = None;
        let mut i: usize = 0;
        while i < self.objs.len()
            invariant
                self.shapes_wf(),
                i <= self.objs@.len(),
                !result.is_some() ==> *ray == *old(ray),
                !result.is_some() ==> forall|k: int|
                    0 <= k < i ==> !s_prim_hits(#[trigger] self.objs@[k], *old(ray)),
                result.is_some() ==> exists|k: int|
                    0 <= k < i && s_prim_hits(#[trigger] self.objs@[k], *old(ray)),
                ray.t_max as int == s_scene_scan(self.objs@, *old(ray), i as int).0,
                ray.t_max as int <= old(ray).t_max as int,
                result.is_some() ==> old(ray).t_min as int <= ray.t_max as int,
                crate::ray::s_same_ray_except_t_max(*ray, *old(ray)),
                result.is_some() ==> ({
                    let out = result.unwrap();
                    &&& out.wo.is_some()
                    &&& out.n.is_some()
                    &&& out.shading.is_some()
                    &&& out.bsdf.is_some()
                    &&& out.bsdf.unwrap().bxdfs@.len() <= 1
                    &&& out.primitive.is_some()
                    &&& out.primitive.unwrap() as int == s_scene_scan(
                        self.objs@,
                        *old(ray),
                        i as int,
                    ).1
                    &&& 0 <= s_scene_scan(self.objs@, *old(ray), i as int).1 < i
                }),
                !result.is_some() ==> s_scene_scan(self.objs@, *old(ray), i as int).1 == -1,
            decreases self.objs@.len() - i,
        {
            proof {
                assert(*ray == (Ray { t_max: ray.t_max, ..*old(ray) }));
            }
            let ghost cur = *ray;
            match self.objs[i].intersect(ray, false) {
                Some(mut inter) => {
                    proof {
                        lemma_prim_hits_widen(self.objs@[i as int], cur, *old(ray));
                    }
                    inter.primitive = Some(i);
                    result = Some(inter);
                },
                None => {},
            }
            i = i + 1;
        }
        result
    }

    /// The any-hit occlusion query: whether some primitive's boolean test
    /// hits the ray.
    pub fn intersect_p(&self, ray: &Ray) -> (r: bool)
        ensures
            r == exists|i: int|
                0 <= i < self.objs@.len() && s_prim_occludes(#[trigger] self.objs@[i], *ray),
    {
        let mut i: usize = 0;
        while i < self.objs.len()
            invariant
                i <= self.objs@.len(),
                forall|k: int| 0 <= k < i ==> !s_prim_occludes(#[trigger] self.objs@[k], *ray),
            decreases self.objs@.len() - i,
        {
            if self.objs[i].intersect_p(ray, false) {
                return true;
            }
            i = i + 1;
        }
        false
    }

    /// The hull of all primitives' world-space boxes, seeded from the
    /// first primitive; an empty scene has no finite extent and yields the
    /// unbounded box.
    #[verifier::rlimit(100)]
    pub fn world_bounds(&self) -> (r: AABB3)
        ensures
            r == self.spec_world_bounds(),
    {
        if self.objs.len() == 0 {
            return AABB3::default();
        }
        let mut bounds = self.objs[0].object_bound();
        let mut i: usize = 1;
        while i < self.objs.len()
            invariant
                1 <= i <= self.objs@.len(),
                bounds == s_scene_bounds(self.objs@, i as int),
            decreases self.objs@.len() - i,
        {
            bounds = bounds.combine(self.objs[i].object_bound());
            i = i + 1;
        }
        bounds
    }
}

} // verus!
