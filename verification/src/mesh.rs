//! Triangles and triangle meshes: the parametric (Moller-Trumbore style)
//! intersection test, areas, and uniform sampling. A mesh scans its
//! triangles linearly, shrinking the ray's window as hits are found.

use vstd::prelude::*;

use crate::aabb::AABB3;
use crate::distributions::Distribution1D;
use crate::fixed::{
    abs_int, fit, s_add, s_div, s_mul, s_neg, s_sqrt, s_sub, Fx, fx_abs, fx_add,
    fx_div, fx_mul, fx_sub, FX_ONE,
};
use crate::interaction::{Shading, SurfaceInteraction};
use crate::ray::Ray;
use crate::shape::ShapeData;
use crate::transform::{s_cross, Transform};
use crate::vector::{point2, s_dot, vec3, Normal3, Point2, Point3, Vec3};

verus! {

/// One triangle, carrying its own vertex positions and per-vertex normals.
pub struct Triangle {
    pub shape_data: ShapeData,
    pub pa: Point3,
    pub pb: Point3,
    pub pc: Point3,
    pub na: Normal3,
    pub nb: Normal3,
    pub nc: Normal3,
}

/// The first edge of the parametric test: `pb - pa`.
pub open spec fn s_tri_e0(t: Triangle) -> Vec3 {
    t.pb.sub_spec(t.pa)
}

/// The second edge: `pc - pa`.
pub open spec fn s_tri_e1(t: Triangle) -> Vec3 {
    t.pc.sub_spec(t.pa)
}

/// The determinant `(d x e1) . e0`; zero means a degenerate configuration.
pub open spec fn s_tri_div_dot(t: Triangle, r: Ray) -> int {
    s_dot(s_cross(r.direction, s_tri_e1(t)), s_tri_e0(t))
}

/// The reciprocal determinant.
pub open spec fn s_tri_div(t: Triangle, r: Ray) -> int {
    s_div(FX_ONE as int, s_tri_div_dot(t, r))
}

/// The barycentric weight of vertex `b`.
pub open spec fn s_tri_b1(t: Triangle, r: Ray) -> int {
    let d0 = r.origin.sub_spec(t.pa);
    s_mul(s_dot(d0, s_cross(r.direction, s_tri_e1(t))), s_tri_div(t, r))
}

/// The barycentric weight of vertex `c`.
pub open spec fn s_tri_b2(t: Triangle, r: Ray) -> int {
    let d0 = r.origin.sub_spec(t.pa);
    s_mul(s_dot(r.direction, s_cross(d0, s_tri_e0(t))), s_tri_div(t, r))
}

/// The hit parameter along the ray.
pub open spec fn s_tri_t(t: Triangle, r: Ray) -> int {
    let d0 = r.origin.sub_spec(t.pa);
    s_mul(s_dot(s_tri_e1(t), s_cross(d0, s_tri_e0(t))), s_tri_div(t, r))
}

/// Whether the ray hits the triangle: nondegenerate, barycentrics in
/// range, and the parameter inside the traversal window.
pub open spec fn s_tri_hits(t: Triangle, r: Ray) -> bool {
    &&& s_tri_div_dot(t, r) != 0
    &&& 0 <= s_tri_b1(t, r) <= FX_ONE as int
    &&& s_tri_b2(t, r) >= 0
    &&& s_add(s_tri_b1(t, r), s_tri_b2(t, r)) <= FX_ONE as int
    &&& r.t_min as int <= s_tri_t(t, r) <= r.t_max as int
}

/// The boolean-test hit predicate: like `s_tri_hits`, but with a zero
/// near bound.
pub open spec fn s_tri_hits_p(t: Triangle, r: Ray) -> bool {
    &&& s_tri_div_dot(t, r) != 0
    &&& 0 <= s_tri_b1(t, r) <= FX_ONE as int
    &&& s_tri_b2(t, r) >= 0
    &&& s_add(s_tri_b1(t, r), s_tri_b2(t, r)) <= FX_ONE as int
    &&& 0 <= s_tri_t(t, r) <= r.t_max as int
}

/// The object-space bounding box of a triangle: the hull of its corners.
pub open spec fn s_tri_bound(t: Triangle) -> AABB3 {
    AABB3 {
        p_min: crate::aabb::s_pmin(crate::aabb::s_pmin(t.pa, t.pb), t.pc),
        p_max: crate::aabb::s_pmax(crate::aabb::s_pmax(t.pa, t.pb), t.pc),
    }
}

/// The hull of the first `i` triangles' boxes, seeded from the first
/// triangle (meaningful for `i >= 1`).
pub open spec fn s_mesh_bound(tris: Seq<Triangle>, i: int) -> AABB3
    decreases i,
{
    if i <= 1 {
        s_tri_bound(tris[0])
    } else {
        crate::aabb::s_box_combine(s_mesh_bound(tris, i - 1), s_tri_bound(tris[i - 1]))
    }
}

/// Widening the traversal window preserves a triangle hit: only the
/// parameter bound reads the window.
pub proof fn lemma_tri_hits_widen(t: Triangle, r1: Ray, r2: Ray)
    requires
        r1.origin == r2.origin,
        r1.direction == r2.direction,
        r1.t_min == r2.t_min,
        r1.t_max <= r2.t_max,
        s_tri_hits(t, r1),
    ensures
        s_tri_hits(t, r2),
{
}

/// The closest-hit window after scanning the first `i` triangles: each
/// triangle hit against the running window shrinks it to the hit
/// parameter.
pub open spec fn s_mesh_scan_t(tris: Seq<Triangle>, r: Ray, i: int) -> int
    decreases i,
{
    if i <= 0 {
        r.t_max as int
    } else {
        let prev = s_mesh_scan_t(tris, r, i - 1);
        let rr = Ray { t_max: prev as i64, ..r };
        if s_tri_hits(tris[i - 1], rr) {
            s_tri_t(tris[i - 1], rr)
        } else {
            prev
        }
    }
}

/// The triangle's reported area: the magnitude of the projected shoelace
/// sum over two.
pub open spec fn s_tri_area(t: Triangle) -> int {
    let s1 = s_sub(t.pa.y as int, t.pb.y as int);
    let s2 = s_sub(t.pc.y as int, t.pa.y as int);
    let s3 = s_sub(t.pb.y as int, t.pc.y as int);
    let total = s_add(
        s_add(s_mul(t.pa.x as int, s3), s_mul(t.pb.x as int, s2)),
        s_mul(t.pc.x as int, s1),
    );
    fit(abs_int(s_div(total, 2 * FX_ONE as int)))
}

/// The summed areas of the first `i` triangles.
pub open spec fn s_mesh_area(tris: Seq<Triangle>, i: int) -> int
    decreases i,
{
    if i <= 0 {
        0
    } else {
        s_add(s_mesh_area(tris, i - 1), s_tri_area(tris[i - 1]))
    }
}

/// The uniform surface sample of a triangle: the barycentric combination
/// of the corners and the matching normalized normal (negated for a
/// reversed orientation).
pub open spec fn s_tri_sample(t: Triangle, u: crate::vector::Point2) -> (Vec3, Vec3) {
    let b = crate::distributions::s_uniform_triangle(u);
    let b2 = s_sub(s_sub(FX_ONE as int, b.x as int), b.y as int);
    let p = Vec3 {
        x: s_add(
            s_add(s_mul(t.pa.x as int, b.x as int), s_mul(t.pb.x as int, b.y as int)),
            s_mul(t.pc.x as int, b2),
        ) as i64,
        y: s_add(
            s_add(s_mul(t.pa.y as int, b.x as int), s_mul(t.pb.y as int, b.y as int)),
            s_mul(t.pc.y as int, b2),
        ) as i64,
        z: s_add(
            s_add(s_mul(t.pa.z as int, b.x as int), s_mul(t.pb.z as int, b.y as int)),
            s_mul(t.pc.z as int, b2),
        ) as i64,
    };
    let nv = Vec3 {
        x: s_add(
            s_add(s_mul(t.na.x as int, b.x as int), s_mul(t.nb.x as int, b.y as int)),
            s_mul(t.nc.x as int, b2),
        ) as i64,
        y: s_add(
            s_add(s_mul(t.na.y as int, b.x as int), s_mul(t.nb.y as int, b.y as int)),
            s_mul(t.nc.y as int, b2),
        ) as i64,
        z: s_add(
            s_add(s_mul(t.na.z as int, b.x as int), s_mul(t.nb.z as int, b.y as int)),
            s_mul(t.nc.z as int, b2),
        ) as i64,
    };
    let m = s_sqrt(s_dot(nv, nv));
    let n0 = Vec3 {
        x: s_div(nv.x as int, m) as i64,
        y: s_div(nv.y as int, m) as i64,
        z: s_div(nv.z as int, m) as i64,
    };
    let n = if t.shape_data.reverse_orientation {
        Vec3 {
            x: s_neg(n0.x as int) as i64,
            y: s_neg(n0.y as int) as i64,
            z: s_neg(n0.z as int) as i64,
        }
    } else {
        n0
    };
    (p, n)
}

/// The interpolated, normalized shading normal of a hit.
pub open spec fn s_tri_n(t: Triangle, r: Ray) -> Vec3 {
    let b1 = s_tri_b1(t, r);
    let b2 = s_tri_b2(t, r);
    let b0 = s_sub(s_sub(FX_ONE as int, b1), b2);
    let nv = Vec3 {
        x: s_add(
            s_add(s_mul(t.na.x as int, b0), s_mul(t.nb.x as int, b1)),
            s_mul(t.nc.x as int, b2),
        ) as i64,
        y: s_add(
            s_add(s_mul(t.na.y as int, b0), s_mul(t.nb.y as int, b1)),
            s_mul(t.nc.y as int, b2),
        ) as i64,
        z: s_add(
            s_add(s_mul(t.na.z as int, b0), s_mul(t.nb.z as int, b1)),
            s_mul(t.nc.z as int, b2),
        ) as i64,
    };
    let m = s_sqrt(s_dot(nv, nv));
    Vec3 {
        x: s_div(nv.x as int, m) as i64,
        y: s_div(nv.y as int, m) as i64,
        z: s_div(nv.z as int, m) as i64,
    }
}

impl Triangle {
    /// The shape data and the three corners.
    pub fn shape_data(&self) -> (r: &ShapeData)
        ensures
            r == self.shape_data,
    {
        &self.shape_data
    }

    /// The box of the three corners.
    pub fn object_bound(&self) -> (r: AABB3)
        ensures
            r == s_tri_bound(*self),
            crate::aabb::s_inside(r, self.pa),
            crate::aabb::s_inside(r, self.pb),
            crate::aabb::s_inside(r, self.pc),
    {
        AABB3::new(self.pa, self.pb).union(self.pc)
    }

    /// The magnitude of the projected shoelace sum:
    /// `|pa.x (pb - pc).y + pb.x (pc - pa).y + pc.x (pa - pb).y| / 2`.
    pub fn area(&self) -> (r: Fx)
        ensures
            r as int == s_tri_area(*self),
    {
        let s1 = fx_sub(self.pa.y, self.pb.y);
        let s2 = fx_sub(self.pc.y, self.pa.y);
        let s3 = fx_sub(self.pb.y, self.pc.y);
        let total = fx_add(
            fx_add(fx_mul(self.pa.x, s3), fx_mul(self.pb.x, s2)),
            fx_mul(self.pc.x, s1),
        );
        fx_abs(fx_div(total, 2 * FX_ONE))
    }

    /// The parametric intersection. On a hit, `t_max` shrinks to the hit
    /// parameter; on a miss the ray is untouched.
    pub fn intersect(&self, ray: &mut Ray, _test_alpha_texture: bool) -> (r: Option<
        SurfaceInteraction,
    >)
        ensures
            r.is_some() <==> s_tri_hits(*self, *old(ray)),
            !r.is_some() ==> *final(ray) == *old(ray),
            r.is_some() ==> ({
                &&& final(ray).t_max as int == s_tri_t(*self, *old(ray))
                &&& old(ray).t_min as int <= final(ray).t_max as int <= old(ray).t_max as int
                &&& crate::ray::s_same_ray_except_t_max(*final(ray), *old(ray))
            }),
            r.is_some() ==> ({
                let tt = s_tri_t(*self, *old(ray));
                let out = r.unwrap();
                &&& out.p.x as int == s_add(
                    old(ray).origin.x as int,
                    s_mul(old(ray).direction.x as int, tt),
                )
                &&& out.p.y as int == s_add(
                    old(ray).origin.y as int,
                    s_mul(old(ray).direction.y as int, tt),
                )
                &&& out.p.z as int == s_add(
                    old(ray).origin.z as int,
                    s_mul(old(ray).direction.z as int, tt),
                )
                &&& out.n == Some(s_tri_n(*self, *old(ray)))
                &&& out.wo.is_some()
                &&& out.wo.unwrap().x as int == s_neg(old(ray).direction.x as int)
                &&& out.wo.unwrap().y as int == s_neg(old(ray).direction.y as int)
                &&& out.wo.unwrap().z as int == s_neg(old(ray).direction.z as int)
                &&& out.uv == Some(crate::vector::Vec2 { x: 0, y: 0 })
                &&& out.time == old(ray).time
                &&& out.shading.is_some()
                &&& out.shading.unwrap().n == s_tri_n(*self, *old(ray))
                &&& out.bsdf.is_some()
                &&& out.bsdf.unwrap().bxdfs@.len() == 0
                &&& out.primitive.is_none()
            }),
    {
        let e0 = self.pb.sub(self.pa);
        let e1 = self.pc.sub(self.pa);
        let s0 = ray.direction.cross(e1);
        let div_dot = s0.dot(e0);
        if div_dot == 0 {
            return None;
        }
        let div = fx_div(FX_ONE, div_dot);
        let d0 = ray.origin.sub(self.pa);
        let b1 = fx_mul(d0.dot(s0), div);
        if b1 < 0 || b1 > FX_ONE {
            return None;
        }
        let s1 = d0.cross(e0);
        let b2 = fx_mul(ray.direction.dot(s1), div);
        if b2 < 0 || fx_add(b1, b2) > FX_ONE {
            return None;
        }
        let t = fx_mul(e1.dot(s1), div);
        if t < ray.t_min || t > ray.t_max {
            return None;
        }
        let b0 = fx_sub(fx_sub(FX_ONE, b1), b2);
        ray.t_max = t;
        let p = ray.at(t);
        let n = self.na.scale(b0).add(self.nb.scale(b1)).add(self.nc.scale(b2)).normalize();
        Some(
            SurfaceInteraction::new_with_normal(
                p,
                ray.direction.neg(),
                point2(0, 0),
                n,
                ray.time,
                None,
            ),
        )
    }

    /// The boolean test; its near bound is zero, as in the closest-hit
    /// test's unrestricted origin-side check.
    pub fn intersect_p(&self, ray: &Ray, _test_alpha_texture: bool) -> (r: bool)
        ensures
            r == s_tri_hits_p(*self, *ray),
    {
        let e0 = self.pb.sub(self.pa);
        let e1 = self.pc.sub(self.pa);
        let s0 = ray.direction.cross(e1);
        let div_dot = s0.dot(e0);
        if div_dot == 0 {
            return false;
        }
        let div = fx_div(FX_ONE, div_dot);
        let d0 = ray.origin.sub(self.pa);
        let b1 = fx_mul(d0.dot(s0), div);
        if b1 < 0 || b1 > FX_ONE {
            return false;
        }
        let s1 = d0.cross(e0);
        let b2 = fx_mul(ray.direction.dot(s1), div);
        if b2 < 0 || fx_add(b1, b2) > FX_ONE {
            return false;
        }
        let t = fx_mul(e1.dot(s1), div);
        if t < 0 || t > ray.t_max {
            return false;
        }
        true
    }

    /// A uniform sample of the triangle, with the interpolated normal.
    pub fn sample_u(&self, u: &Point2) -> (r: SurfaceInteraction)
        ensures
            ({
                let t = s_tri_sample(*self, *u);
                &&& r.p == t.0
                &&& r.n == Some(t.1)
                &&& r.shading.is_some()
                &&& r.shading.unwrap().n == t.1
                &&& r.bsdf.is_none()
                &&& r.primitive.is_none()
                &&& r.time == 0
            }),
    {
        let b = Distribution1D::uniform_sample_triangle(u);
        let b2 = fx_sub(fx_sub(FX_ONE, b.x), b.y);
        let p = self.pa.scale(b.x).add(self.pb.scale(b.y)).add(self.pc.scale(b2));
        let mut n = self.na.scale(b.x).add(self.nb.scale(b.y)).add(self.nc.scale(b2)).normalize();
        if self.shape_data.reverse_orientation {
            n = n.neg();
        }
        let mut out = SurfaceInteraction::new_general(p, 0);
        out.n = Some(n);
        out.shading = Some(Shading { n, dpdu: vec3(0, 0, 0), dpdv: vec3(0, 0, 0) });
        out
    }
}

/// A container of triangles scanned linearly.
pub struct Mesh {
    pub shape_data: ShapeData,
    pub triangles: Vec<Triangle>,
}

impl Mesh {
    /// Indexability of the triangle table.
    pub open spec fn wf(self) -> bool {
        self.triangles@.len() < 0x8000_0000
    }

    /// Builds a mesh from shared vertex and normal tables and a flat index
    /// list, three indices per triangle; each triangle materializes its
    /// corner data.
    pub fn new(
        reverse_orientation: bool,
        positions: &Vec<Point3>,
        normals: &Vec<Normal3>,
        indices: &Vec<u32>,
        object_to_world: Transform,
        _medium_interface: crate::media::MediumInterface,
    ) -> (r: Self)
        requires
            indices@.len() % 3 == 0,
            indices@.len() < 0x8000_0000,
            normals@.len() == positions@.len(),
            forall|i: int| 0 <= i < indices@.len() ==> (#[trigger] indices@[i]) < positions@.len(),
        ensures
            r.wf(),
            r.triangles@.len() == indices@.len() / 3,
            r.shape_data.reverse_orientation == reverse_orientation,
            r.shape_data.object_to_world == object_to_world,
            forall|k: int|
                0 <= k < r.triangles@.len() ==> ({
                    let t = #[trigger] r.triangles@[k];
                    &&& t.pa == positions@[indices@[3 * k] as int]
                    &&& t.pb == positions@[indices@[3 * k + 1] as int]
                    &&& t.pc == positions@[indices@[3 * k + 2] as int]
                    &&& t.na == normals@[indices@[3 * k] as int]
                    &&& t.nb == normals@[indices@[3 * k + 1] as int]
                    &&& t.nc == normals@[indices@[3 * k + 2] as int]
                }),
    {
        let shape_data = ShapeData {
            reverse_orientation,
            transform_swaps_handedness: false,
            object_to_world,
        };
        let mut triangles: Vec<Triangle> = Vec::new();
        let n = indices.len() / 3;
        let mut k: usize = 0;
        while k < n
            invariant
                k <= n,
                n == indices@.len() / 3,
                indices@.len() % 3 == 0,
                indices@.len() < 0x8000_0000,
                normals@.len() == positions@.len(),
                forall|i: int| 0 <= i < indices@.len() ==> (#[trigger] indices@[i]) < positions@.len(),
                shape_data.reverse_orientation == reverse_orientation,
                shape_data.object_to_world == object_to_world,
                triangles@.len() == k,
                forall|j: int|
                    0 <= j < k ==> ({
                        let t = #[trigger] triangles@[j];
                        &&& t.pa == positions@[indices@[3 * j] as int]
                        &&& t.pb == positions@[indices@[3 * j + 1] as int]
                        &&& t.pc == positions@[indices@[3 * j + 2] as int]
                        &&& t.na == normals@[indices@[3 * j] as int]
                        &&& t.nb == normals@[indices@[3 * j + 1] as int]
                        &&& t.nc == normals@[indices@[3 * j + 2] as int]
                        &&& t.shape_data.reverse_orientation == reverse_orientation
                        &&& t.shape_data.object_to_world == object_to_world
                    }),
            decreases n - k,
        {
            let ia = indices[3 * k] as usize;
            let ib = indices[3 * k + 1] as usize;
            let ic = indices[3 * k + 2] as usize;
            triangles.push(
                Triangle {
                    shape_data: ShapeData {
                        reverse_orientation,
                        transform_swaps_handedness: false,
                        object_to_world,
                    },
                    pa: positions[ia],
                    pb: positions[ib],
                    pc: positions[ic],
                    na: normals[ia],
                    nb: normals[ib],
                    nc: normals[ic],
                },
            );
            k = k + 1;
        }
        Self { shape_data, triangles }
    }

    /// The hull of the triangles' boxes, seeded from the first triangle;
    /// an empty mesh has no finite extent and yields the unbounded box.
    pub fn object_bound(&self) -> (r: AABB3)
        ensures
            self.triangles@.len() == 0 ==> r == crate::aabb::s_default_box(),
            self.triangles@.len() > 0 ==> r == s_mesh_bound(
                self.triangles@,
                self.triangles@.len() as int,
            ),
    {
        if self.triangles.len() == 0 {
            return AABB3::default();
        }
        let mut bounds = self.triangles[0].object_bound();
        let mut i: usize = 1;
        while i < self.triangles.len()
            invariant
                1 <= i <= self.triangles@.len(),
                bounds == s_mesh_bound(self.triangles@, i as int),
            decreases self.triangles@.len() - i,
        {
            bounds = bounds.combine(self.triangles[i].object_bound());
            i = i + 1;
        }
        bounds
    }

    /// A linear closest-hit scan over the triangles: some triangle hit in
    /// the original window yields a hit, and the final `t_max` is the
    /// running-window scan's end, i.e. the nearest hit's parameter.
    #[verifier::rlimit(100)]
    pub fn intersect(&self, ray: &mut Ray, test_alpha_texture: bool) -> (r: Option<
        SurfaceInteraction,
    >)
        ensures
            r.is_some() <==> exists|k: int|
                0 <= k < self.triangles@.len() && s_tri_hits(
                    #[trigger] self.triangles@[k],
                    *old(ray),
                ),
            !r.is_some() ==> *final(ray) == *old(ray),
            r.is_some() ==> ({
                &&& final(ray).t_max as int == s_mesh_scan_t(
                    self.triangles@,
                    *old(ray),
                    self.triangles@.len() as int,
                )
                &&& old(ray).t_min as int <= final(ray).t_max as int <= old(ray).t_max as int
                &&& crate::ray::s_same_ray_except_t_max(*final(ray), *old(ray))
            }),
            r.is_some() ==> ({
                let out = r.unwrap();
                &&& out.wo.is_some()
                &&& out.n.is_some()
                &&& out.shading.is_some()
                &&& out.bsdf.is_some()
                &&& out.bsdf.unwrap().bxdfs@.len() == 0
                &&& out.primitive.is_none()
            }),
    {
        let mut result: Option<SurfaceInteraction> = None;
        let mut i: usize = 0;
        while i < self.triangles.len()
            invariant
                i <= self.triangles@.len(),
                !result.is_some() ==> *ray == *old(ray),
                !result.is_some() ==> forall|k: int|
                    0 <= k < i ==> !s_tri_hits(#[trigger] self.triangles@[k], *old(ray)),
                result.is_some() ==> exists|k: int|
                    0 <= k < i && s_tri_hits(#[trigger] self.triangles@[k], *old(ray)),
                ray.t_max as int == s_mesh_scan_t(self.triangles@, *old(ray), i as int),
                ray.t_max as int <= old(ray).t_max as int,
                result.is_some() ==> old(ray).t_min as int <= ray.t_max as int,
                crate::ray::s_same_ray_except_t_max(*ray, *old(ray)),
                result.is_some() ==> ({
                    let out = result.unwrap();
                    &&& out.wo.is_some()
                    &&& out.n.is_some()
                    &&& out.shading.is_some()
                    &&& out.bsdf.is_some()
                    &&& out.bsdf.unwrap().bxdfs@.len() == 0
                    &&& out.primitive.is_none()
                }),
            decreases self.triangles@.len() - i,
        {
            proof {
                assert(*ray == (Ray { t_max: ray.t_max, ..*old(ray) }));
            }
            let ghost cur = *ray;
            match self.triangles[i].intersect(ray, test_alpha_texture) {
                Some(inter) => {
                    proof {
                        lemma_tri_hits_widen(self.triangles@[i as int], cur, *old(ray));
                    }
                    result = Some(inter);
                },
                None => {},
            }
            i = i + 1;
        }
        result
    }

    /// The summed triangle areas.
    pub fn area(&self) -> (r: Fx)
        ensures
            r as int == s_mesh_area(self.triangles@, self.triangles@.len() as int),
    {
        let mut total: Fx = 0;
        let mut i: usize = 0;
        while i < self.triangles.len()
            invariant
                i <= self.triangles@.len(),
                total as int == s_mesh_area(self.triangles@, i as int),
            decreases self.triangles@.len() - i,
        {
            total = fx_add(total, self.triangles[i].area());
            i = i + 1;
        }
        total
    }

    /// Whether any triangle occludes the ray.
    pub fn intersect_p(&self, ray: &Ray, test_alpha_texture: bool) -> (r: bool)
        ensures
            r == exists|k: int|
                0 <= k < self.triangles@.len() && s_tri_hits_p(#[trigger] self.triangles@[k], *ray),
    {
        let mut i: usize = 0;
        while i < self.triangles.len()
            invariant
                i <= self.triangles@.len(),
                forall|k: int| 0 <= k < i ==> !s_tri_hits_p(#[trigger] self.triangles@[k], *ray),
            decreases self.triangles@.len() - i,
        {
            if self.triangles[i].intersect_p(ray, test_alpha_texture) {
                return true;
            }
            i = i + 1;
        }
        false
    }

    /// A uniform sample: the first coordinate picks the triangle, both
    /// coordinates then place the point within it.
    pub fn sample_u(&self, u: &Point2) -> (r: SurfaceInteraction)
        requires
            self.wf(),
            self.triangles@.len() >= 1,
        ensures
            ({
                let n = self.triangles@.len() as int;
                let idx = crate::fixed::max_int(
                    0,
                    crate::fixed::min_int(crate::fixed::tdiv(u.x as int * n, FX_ONE as int), n - 1),
                );
                let t = s_tri_sample(self.triangles@[idx], *u);
                &&& r.p == t.0
                &&& r.n == Some(t.1)
                &&& r.bsdf.is_none()
                &&& r.primitive.is_none()
                &&& r.time == 0
            }),
    {
        let idx = crate::distributions::clamp_cell(u.x, self.triangles.len());
        self.triangles[idx].sample_u(u)
    }
}

} // verus!
