//! Axis-aligned bounding boxes: union, intersection, containment, and the
//! slab ray test.

use vstd::prelude::*;

use crate::common::{s_gamma, s_lerp, gamma, lerp};
use crate::fixed::{
    max_int, min_int, s_add, s_div, s_mul, s_sqrt, s_sub, Fx, fx_add, fx_div, fx_max, fx_min,
    fx_mul, fx_sub, FX_MAX, FX_ONE,
};
use crate::ray::Ray;
use crate::vector::{s_dot, Point3, Vec3};

verus! {

/// An axis-aligned bounding box: `p_min <= p_max` componentwise when built
/// by `new`; the default box is unbounded.
#[derive(Clone, Copy, PartialEq, Eq, Structural, Debug)]
pub struct AABB3 {
    pub p_min: Point3,
    pub p_max: Point3,
}

/// Componentwise minimum of two points.
pub open spec fn s_pmin(a: Vec3, b: Vec3) -> Vec3 {
    Vec3 {
        x: min_int(a.x as int, b.x as int) as i64,
        y: min_int(a.y as int, b.y as int) as i64,
        z: min_int(a.z as int, b.z as int) as i64,
    }
}

/// Componentwise maximum of two points.
pub open spec fn s_pmax(a: Vec3, b: Vec3) -> Vec3 {
    Vec3 {
        x: max_int(a.x as int, b.x as int) as i64,
        y: max_int(a.y as int, b.y as int) as i64,
        z: max_int(a.z as int, b.z as int) as i64,
    }
}

/// The hull of two boxes, at the spec level.
pub open spec fn s_box_combine(a: AABB3, b: AABB3) -> AABB3 {
    AABB3 { p_min: s_pmin(a.p_min, b.p_min), p_max: s_pmax(a.p_max, b.p_max) }
}

/// The unbounded box, at the spec level.
pub open spec fn s_default_box() -> AABB3 {
    AABB3 {
        p_min: Vec3 { x: (-FX_MAX) as i64, y: (-FX_MAX) as i64, z: (-FX_MAX) as i64 },
        p_max: Vec3 { x: FX_MAX, y: FX_MAX, z: FX_MAX },
    }
}

/// The center of a box's bounding sphere: the corner midpoint.
pub open spec fn s_bsphere_center(b: AABB3) -> Vec3 {
    Vec3 {
        x: s_div(s_add(b.p_min.x as int, b.p_max.x as int), 2 * FX_ONE as int) as i64,
        y: s_div(s_add(b.p_min.y as int, b.p_max.y as int), 2 * FX_ONE as int) as i64,
        z: s_div(s_add(b.p_min.z as int, b.p_max.z as int), 2 * FX_ONE as int) as i64,
    }
}

/// The radius of a box's bounding sphere: the center's distance to the
/// maximum corner, or zero for an inverted box.
pub open spec fn s_bsphere_radius(b: AABB3) -> int {
    let c = s_bsphere_center(b);
    if s_inside(b, c) {
        s_sqrt(s_dot(c.sub_spec(b.p_max), c.sub_spec(b.p_max)))
    } else {
        0
    }
}

/// Containment, boundary included.
pub open spec fn s_inside(b: AABB3, p: Vec3) -> bool {
    b.p_min.x <= p.x <= b.p_max.x && b.p_min.y <= p.y <= b.p_max.y && b.p_min.z <= p.z
        <= b.p_max.z
}

fn pmin(a: Vec3, b: Vec3) -> (r: Vec3)
    ensures
        r == s_pmin(a, b),
{
    Vec3 { x: fx_min(a.x, b.x), y: fx_min(a.y, b.y), z: fx_min(a.z, b.z) }
}

fn pmax(a: Vec3, b: Vec3) -> (r: Vec3)
    ensures
        r == s_pmax(a, b),
{
    Vec3 { x: fx_max(a.x, b.x), y: fx_max(a.y, b.y), z: fx_max(a.z, b.z) }
}

impl AABB3 {
    /// The box spanned by two corners, in any order.
    pub fn new(p1: Point3, p2: Point3) -> (r: AABB3)
        ensures
            r.p_min == s_pmin(p1, p2),
            r.p_max == s_pmax(p1, p2),
            s_inside(r, p1),
            s_inside(r, p2),
    {
        AABB3 { p_min: pmin(p1, p2), p_max: pmax(p1, p2) }
    }

    /// The box grown to contain the point `p`. Afterwards `p` is inside.
    pub fn union(self, p: Point3) -> (r: AABB3)
        ensures
            r.p_min == s_pmin(self.p_min, p),
            r.p_max == s_pmax(self.p_max, p),
            s_inside(r, p),
            forall|q: Vec3| s_inside(self, q) ==> s_inside(r, q),
    {
        AABB3 { p_min: pmin(self.p_min, p), p_max: pmax(self.p_max, p) }
    }

    /// The box containing both boxes. A point inside either input is inside
    /// the result; for boxes with `p_min <= p_max`, the converse direction
    /// holds componentwise by construction.
    pub fn combine(self, other: AABB3) -> (r: AABB3)
        ensures
            r == s_box_combine(self, other),
            r.p_min == s_pmin(self.p_min, other.p_min),
            r.p_max == s_pmax(self.p_max, other.p_max),
            forall|q: Vec3| s_inside(self, q) || s_inside(other, q) ==> s_inside(r, q),
    {
        AABB3 { p_min: pmin(self.p_min, other.p_min), p_max: pmax(self.p_max, other.p_max) }
    }

    /// The intersection of two boxes. A point is inside the result exactly
    /// when it is inside both inputs.
    pub fn intersect(self, other: AABB3) -> (r: AABB3)
        ensures
            r.p_min == s_pmax(self.p_min, other.p_min),
            r.p_max == s_pmin(self.p_max, other.p_max),
            forall|q: Vec3| s_inside(r, q) <==> s_inside(self, q) && s_inside(other, q),
    {
        AABB3 { p_min: pmax(self.p_min, other.p_min), p_max: pmin(self.p_max, other.p_max) }
    }

    /// Whether this box contains the other box's extent on every axis.
    pub fn overlaps(self, other: AABB3) -> (r: bool)
        ensures
            r == (self.p_max.x >= other.p_max.x && self.p_min.x <= other.p_min.x
                && self.p_max.y >= other.p_max.y && self.p_min.y <= other.p_min.y
                && self.p_max.z >= other.p_max.z && self.p_min.z <= other.p_min.z),
    {
        let x = self.p_max.x >= other.p_max.x && self.p_min.x <= other.p_min.x;
        let y = self.p_max.y >= other.p_max.y && self.p_min.y <= other.p_min.y;
        let z = self.p_max.z >= other.p_max.z && self.p_min.z <= other.p_min.z;
        x && y && z
    }

    /// Whether the point lies in the box, boundary included.
    pub fn inside(self, p: Point3) -> (r: bool)
        ensures
            r == s_inside(self, p),
    {
        p.x >= self.p_min.x && p.x <= self.p_max.x && p.y >= self.p_min.y && p.y <= self.p_max.y
            && p.z >= self.p_min.z && p.z <= self.p_max.z
    }

    /// The box grown by `delta` on every side.
    pub fn expand(self, delta: Fx) -> (r: AABB3)
        ensures
            r.p_min.x as int == s_sub(self.p_min.x as int, delta as int),
            r.p_min.y as int == s_sub(self.p_min.y as int, delta as int),
            r.p_min.z as int == s_sub(self.p_min.z as int, delta as int),
            r.p_max.x as int == s_add(self.p_max.x as int, delta as int),
            r.p_max.y as int == s_add(self.p_max.y as int, delta as int),
            r.p_max.z as int == s_add(self.p_max.z as int, delta as int),
    {
        AABB3 {
            p_min: self.p_min.sub(Vec3 { x: delta, y: delta, z: delta }),
            p_max: self.p_max.add(Vec3 { x: delta, y: delta, z: delta }),
        }
    }

    /// The vector from the minimum corner to the maximum corner.
    pub fn diagonal(self) -> (r: Vec3)
        ensures
            r.x as int == s_sub(self.p_max.x as int, self.p_min.x as int),
            r.y as int == s_sub(self.p_max.y as int, self.p_min.y as int),
            r.z as int == s_sub(self.p_max.z as int, self.p_min.z as int),
    {
        self.p_max.sub(self.p_min)
    }

    /// Total area of the six faces.
    pub fn surface_area(self) -> (r: Fx)
        ensures
            ({
                let dx = s_sub(self.p_max.x as int, self.p_min.x as int);
                let dy = s_sub(self.p_max.y as int, self.p_min.y as int);
                let dz = s_sub(self.p_max.z as int, self.p_min.z as int);
                r as int == s_mul(
                    2 * FX_ONE as int,
                    s_add(s_add(s_mul(dx, dy), s_mul(dx, dz)), s_mul(dy, dz)),
                )
            }),
    {
        let d = self.diagonal();
        fx_mul(
            2 * FX_ONE,
            fx_add(fx_add(fx_mul(d.x, d.y), fx_mul(d.x, d.z)), fx_mul(d.y, d.z)),
        )
    }

    /// The enclosed volume.
    pub fn volume(self) -> (r: Fx)
        ensures
            ({
                let dx = s_sub(self.p_max.x as int, self.p_min.x as int);
                let dy = s_sub(self.p_max.y as int, self.p_min.y as int);
                let dz = s_sub(self.p_max.z as int, self.p_min.z as int);
                r as int == s_mul(s_mul(dx, dy), dz)
            }),
    {
        let d = self.diagonal();
        fx_mul(fx_mul(d.x, d.y), d.z)
    }

    /// The axis index of the longest extent: 0, 1 or 2.
    pub fn max_extent(self) -> (r: u32)
        ensures
            ({
                let dx = s_sub(self.p_max.x as int, self.p_min.x as int);
                let dy = s_sub(self.p_max.y as int, self.p_min.y as int);
                let dz = s_sub(self.p_max.z as int, self.p_min.z as int);
                r == if dx > dy && dx > dz {
                    0u32
                } else if dy > dz {
                    1u32
                } else {
                    2u32
                }
            }),
    {
        let d = self.diagonal();
        if d.x > d.y && d.x > d.z {
            0
        } else if d.y > d.z {
            1
        } else {
            2
        }
    }

    /// Componentwise interpolation between the two corners.
    pub fn lerp(self, t: Point3) -> (r: Point3)
        ensures
            r.x as int == s_lerp(t.x as int, self.p_min.x as int, self.p_max.x as int),
            r.y as int == s_lerp(t.y as int, self.p_min.y as int, self.p_max.y as int),
            r.z as int == s_lerp(t.z as int, self.p_min.z as int, self.p_max.z as int),
    {
        Vec3 {
            x: lerp(t.x, self.p_min.x, self.p_max.x),
            y: lerp(t.y, self.p_min.y, self.p_max.y),
            z: lerp(t.z, self.p_min.z, self.p_max.z),
        }
    }

    /// The point's position relative to the box, each axis rescaled to
    /// `[0, 1]` where the box has positive extent.
    pub fn offset(self, p: Point3) -> (r: Vec3)
        ensures
            ({
                let ox = s_sub(p.x as int, self.p_min.x as int);
                let oy = s_sub(p.y as int, self.p_min.y as int);
                let oz = s_sub(p.z as int, self.p_min.z as int);
                &&& r.x as int == if self.p_max.x > self.p_min.x {
                    s_div(ox, s_sub(self.p_max.x as int, self.p_min.x as int))
                } else {
                    ox
                }
                &&& r.y as int == if self.p_max.y > self.p_min.y {
                    s_div(oy, s_sub(self.p_max.y as int, self.p_min.y as int))
                } else {
                    oy
                }
                &&& r.z as int == if self.p_max.z > self.p_min.z {
                    s_div(oz, s_sub(self.p_max.z as int, self.p_min.z as int))
                } else {
                    oz
                }
            }),
    {
        let o = p.sub(self.p_min);
        let x = if self.p_max.x > self.p_min.x {
            fx_div(o.x, fx_sub(self.p_max.x, self.p_min.x))
        } else {
            o.x
        };
        let y = if self.p_max.y > self.p_min.y {
            fx_div(o.y, fx_sub(self.p_max.y, self.p_min.y))
        } else {
            o.y
        };
        let z = if self.p_max.z > self.p_min.z {
            fx_div(o.z, fx_sub(self.p_max.z, self.p_min.z))
        } else {
            o.z
        };
        Vec3 { x, y, z }
    }

    /// The center and radius of a sphere containing the box; radius 0 when
    /// the box is inverted (its center falls outside).
    pub fn bounding_sphere(self) -> (r: (Point3, Fx))
        ensures
            r.0 == s_bsphere_center(self),
            r.1 as int == s_bsphere_radius(self),
    {
        let center = self.p_min.add(self.p_max).div_scalar(2 * FX_ONE);
        let radius = if self.inside(center) {
            crate::vector::distance3d(&center, &self.p_max)
        } else {
            0
        };
        (center, radius)
    }
}

/// One slab step of the ray test: clips `[t0, t1]` against the interval in
/// which the ray is between the two planes of one axis.
pub open spec fn s_slab(mn: int, mx: int, o: int, d: int, t0: int, t1: int) -> (int, int) {
    let inv = s_div(FX_ONE as int, d);
    let tn = s_mul(s_sub(mn, o), inv);
    let tf = s_mul(s_sub(mx, o), inv);
    let near = min_int(tn, tf);
    let far0 = max_int(tn, tf);
    let far = s_mul(far0, s_add(FX_ONE as int, s_mul(2 * FX_ONE as int, s_gamma(3 * FX_ONE as int))));
    (max_int(t0, near), min_int(t1, far))
}

fn slab(mn: Fx, mx: Fx, o: Fx, d: Fx, t0: Fx, t1: Fx) -> (r: (Fx, Fx))
    ensures
        r.0 as int == s_slab(mn as int, mx as int, o as int, d as int, t0 as int, t1 as int).0,
        r.1 as int == s_slab(mn as int, mx as int, o as int, d as int, t0 as int, t1 as int).1,
{
    let inv = fx_div(FX_ONE, d);
    let tn = fx_mul(fx_sub(mn, o), inv);
    let tf = fx_mul(fx_sub(mx, o), inv);
    let near = fx_min(tn, tf);
    let far0 = fx_max(tn, tf);
    let far = fx_mul(far0, fx_add(FX_ONE, fx_mul(2 * FX_ONE, gamma(3 * FX_ONE))));
    (fx_max(t0, near), fx_min(t1, far))
}

/// Mirror of the slab test: the clipped interval and whether it is
/// nonempty, axis by axis.
pub open spec fn s_aabb_hit(b: AABB3, r: Ray) -> (bool, int, int) {
    let sx = s_slab(b.p_min.x as int, b.p_max.x as int, r.origin.x as int, r.direction.x as int, 0, r.t_max as int);
    if sx.0 > sx.1 {
        (false, 0, 0)
    } else {
        let sy = s_slab(b.p_min.y as int, b.p_max.y as int, r.origin.y as int, r.direction.y as int, sx.0, sx.1);
        if sy.0 > sy.1 {
            (false, 0, 0)
        } else {
            let sz = s_slab(b.p_min.z as int, b.p_max.z as int, r.origin.z as int, r.direction.z as int, sy.0, sy.1);
            if sz.0 > sz.1 {
                (false, 0, 0)
            } else {
                (true, sz.0, sz.1)
            }
        }
    }
}

impl AABB3 {
    /// The slab ray test: the parametric interval in which the ray is
    /// inside the box, or `(None, None)` when it misses. A direction
    /// component of zero saturates its reciprocal, standing in for the
    /// infinite slope.
    pub fn intersect_p(self, ray: Ray) -> (r: (Option<Fx>, Option<Fx>))
        ensures
            ({
                let h = s_aabb_hit(self, ray);
                if h.0 {
                    r.0.is_some() && r.1.is_some() && r.0.unwrap() as int == h.1
                        && r.1.unwrap() as int == h.2
                } else {
                    r.0.is_none() && r.1.is_none()
                }
            }),
    {
        let (t0x, t1x) = slab(self.p_min.x, self.p_max.x, ray.origin.x, ray.direction.x, 0, ray.t_max);
        if t0x > t1x {
            return (None, None);
        }
        let (t0y, t1y) = slab(self.p_min.y, self.p_max.y, ray.origin.y, ray.direction.y, t0x, t1x);
        if t0y > t1y {
            return (None, None);
        }
        let (t0z, t1z) = slab(self.p_min.z, self.p_max.z, ray.origin.z, ray.direction.z, t0y, t1y);
        if t0z > t1z {
            return (None, None);
        }
        (Some(t0z), Some(t1z))
    }
}

impl Default for AABB3 {
    /// The unbounded box: every representable point is inside.
    fn default() -> (r: AABB3)
        ensures
            r == s_default_box(),
    {
        AABB3 {
            p_min: Vec3 { x: -FX_MAX, y: -FX_MAX, z: -FX_MAX },
            p_max: Vec3 { x: FX_MAX, y: FX_MAX, z: FX_MAX },
        }
    }
}

impl From<Point3> for AABB3 {
    /// The degenerate box holding exactly one point.
    fn from(p: Point3) -> (r: AABB3) {
        AABB3 { p_min: p, p_max: p }
    }
}

impl vstd::std_specs::convert::FromSpecImpl<Point3> for AABB3 {
    open spec fn obeys_from_spec() -> bool {
        true
    }

    open spec fn from_spec(p: Point3) -> AABB3 {
        AABB3 { p_min: p, p_max: p }
    }
}

} // verus!
