//! Three- and two-component vectors over the fixed-point scalar.
//!
//! `Point3` and `Normal3` share `Vec3`'s storage; the semantic distinction
//! (points translate, normals transform by the inverse transpose) lives in
//! `Transform`, which offers a separate operation for each kind.

use vstd::prelude::*;

use crate::fixed::{
    fit, s_add, s_div, s_mul, s_neg, s_sqrt, s_sub, tdiv, Fx, fx_add, fx_cap, fx_div,
    fx_mul, fx_neg, fx_sqrt, fx_sub, FX_SCALE,
};
use crate::trig::{s_acos, s_atan2, acos_fx, atan2_fx};
use crate::common::{FX_TAU};

verus! {

/// A 3-vector of fixed-point scalars.
#[derive(Clone, Copy, PartialEq, Eq, Structural, Debug)]
pub struct Vec3 {
    pub x: Fx,
    pub y: Fx,
    pub z: Fx,
}

/// A position in space; shares `Vec3`'s representation.
pub type Point3 = Vec3;

/// A surface normal; shares `Vec3`'s representation.
pub type Normal3 = Vec3;

/// A 2-vector of fixed-point scalars.
#[derive(Clone, Copy, PartialEq, Eq, Structural, Debug)]
pub struct Vec2 {
    pub x: Fx,
    pub y: Fx,
}

/// A 2D sample point; shares `Vec2`'s representation.
pub type Point2 = Vec2;

pub fn vec3(x: Fx, y: Fx, z: Fx) -> (r: Vec3)
    ensures
        r == (Vec3 { x, y, z }),
{
    Vec3 { x, y, z }
}

pub fn point3(x: Fx, y: Fx, z: Fx) -> (r: Point3)
    ensures
        r == (Vec3 { x, y, z }),
{
    Vec3 { x, y, z }
}

pub fn normal3(x: Fx, y: Fx, z: Fx) -> (r: Normal3)
    ensures
        r == (Vec3 { x, y, z }),
{
    Vec3 { x, y, z }
}

pub fn point2(x: Fx, y: Fx) -> (r: Point2)
    ensures
        r == (Vec2 { x, y }),
{
    Vec2 { x, y }
}

pub fn vec2(x: Fx, y: Fx) -> (r: Vec2)
    ensures
        r == (Vec2 { x, y }),
{
    Vec2 { x, y }
}

/// Mirror of the dot product: components are capped into the saturation
/// range, the sum of products is formed exactly, then scaled and fitted.
pub open spec fn s_dot(a: Vec3, b: Vec3) -> int {
    fit(
        tdiv(
            fit(a.x as int) * fit(b.x as int) + fit(a.y as int) * fit(b.y as int) + fit(a.z as int)
                * fit(b.z as int),
            FX_SCALE as int,
        ),
    )
}

impl Vec3 {
    /// Componentwise sum.
    pub fn add(self, o: Vec3) -> (r: Vec3)
        ensures
            r.x as int == s_add(self.x as int, o.x as int),
            r.y as int == s_add(self.y as int, o.y as int),
            r.z as int == s_add(self.z as int, o.z as int),
    {
        Vec3 { x: fx_add(self.x, o.x), y: fx_add(self.y, o.y), z: fx_add(self.z, o.z) }
    }

    /// Componentwise difference.
    pub fn sub(self, o: Vec3) -> (r: Vec3)
        ensures
            r.x as int == s_sub(self.x as int, o.x as int),
            r.y as int == s_sub(self.y as int, o.y as int),
            r.z as int == s_sub(self.z as int, o.z as int),
    {
        Vec3 { x: fx_sub(self.x, o.x), y: fx_sub(self.y, o.y), z: fx_sub(self.z, o.z) }
    }

    /// Componentwise negation.
    pub fn neg(self) -> (r: Vec3)
        ensures
            r.x as int == s_neg(self.x as int),
            r.y as int == s_neg(self.y as int),
            r.z as int == s_neg(self.z as int),
    {
        Vec3 { x: fx_neg(self.x), y: fx_neg(self.y), z: fx_neg(self.z) }
    }

    /// Scale by a scalar.
    pub fn scale(self, k: Fx) -> (r: Vec3)
        ensures
            r.x as int == s_mul(self.x as int, k as int),
            r.y as int == s_mul(self.y as int, k as int),
            r.z as int == s_mul(self.z as int, k as int),
    {
        Vec3 { x: fx_mul(self.x, k), y: fx_mul(self.y, k), z: fx_mul(self.z, k) }
    }

    /// Componentwise product; this is how colors attenuate.
    pub fn component_mul(self, o: Vec3) -> (r: Vec3)
        ensures
            r.x as int == s_mul(self.x as int, o.x as int),
            r.y as int == s_mul(self.y as int, o.y as int),
            r.z as int == s_mul(self.z as int, o.z as int),
    {
        Vec3 { x: fx_mul(self.x, o.x), y: fx_mul(self.y, o.y), z: fx_mul(self.z, o.z) }
    }

    /// Componentwise quotient by a scalar.
    pub fn div_scalar(self, k: Fx) -> (r: Vec3)
        ensures
            r.x as int == s_div(self.x as int, k as int),
            r.y as int == s_div(self.y as int, k as int),
            r.z as int == s_div(self.z as int, k as int),
    {
        Vec3 { x: fx_div(self.x, k), y: fx_div(self.y, k), z: fx_div(self.z, k) }
    }

    /// Dot product.
    pub fn dot(self, o: Vec3) -> (r: Fx)
        ensures
            r as int == s_dot(self, o),
    {
        let ax: i128 = fx_cap(self.x) as i128;
        let ay: i128 = fx_cap(self.y) as i128;
        let az: i128 = fx_cap(self.z) as i128;
        let bx: i128 = fx_cap(o.x) as i128;
        let by: i128 = fx_cap(o.y) as i128;
        let bz: i128 = fx_cap(o.z) as i128;
        proof {
            crate::fixed::lemma_mul_abs_bound(ax as int, bx as int, 0x4000_0000_0000_0000, 0x4000_0000_0000_0000);
            crate::fixed::lemma_mul_abs_bound(ay as int, by as int, 0x4000_0000_0000_0000, 0x4000_0000_0000_0000);
            crate::fixed::lemma_mul_abs_bound(az as int, bz as int, 0x4000_0000_0000_0000, 0x4000_0000_0000_0000);
        }
        let p: i128 = ax * bx + ay * by + az * bz;
        crate::fixed::sat_tdiv(p, FX_SCALE as u128)
    }

    /// Cross product, each component a fitted difference of scaled products.
    pub fn cross(self, o: Vec3) -> (r: Vec3)
        ensures
            r.x as int == s_sub(s_mul(self.y as int, o.z as int), s_mul(self.z as int, o.y as int)),
            r.y as int == s_sub(s_mul(self.z as int, o.x as int), s_mul(self.x as int, o.z as int)),
            r.z as int == s_sub(s_mul(self.x as int, o.y as int), s_mul(self.y as int, o.x as int)),
    {
        Vec3 {
            x: fx_sub(fx_mul(self.y, o.z), fx_mul(self.z, o.y)),
            y: fx_sub(fx_mul(self.z, o.x), fx_mul(self.x, o.z)),
            z: fx_sub(fx_mul(self.x, o.y), fx_mul(self.y, o.x)),
        }
    }

    /// Squared length: the dot product with itself.
    pub fn magnitude_squared(self) -> (r: Fx)
        ensures
            r as int == s_dot(self, self),
    {
        self.dot(self)
    }

    /// Length: square root of the squared length.
    pub fn magnitude(self) -> (r: Fx)
        ensures
            r as int == s_sqrt(s_dot(self, self)),
    {
        fx_sqrt(self.magnitude_squared())
    }

    /// Unit vector in this direction; the zero vector stays zero.
    pub fn normalize(self) -> (r: Vec3)
        ensures
            ({
                let m = s_sqrt(s_dot(self, self));
                r.x as int == s_div(self.x as int, m) && r.y as int == s_div(self.y as int, m)
                    && r.z as int == s_div(self.z as int, m)
            }),
    {
        let m = self.magnitude();
        Vec3 { x: fx_div(self.x, m), y: fx_div(self.y, m), z: fx_div(self.z, m) }
    }
}

impl Vec2 {
    /// Componentwise sum.
    pub fn add(self, o: Vec2) -> (r: Vec2)
        ensures
            r.x as int == s_add(self.x as int, o.x as int),
            r.y as int == s_add(self.y as int, o.y as int),
    {
        Vec2 { x: fx_add(self.x, o.x), y: fx_add(self.y, o.y) }
    }

    /// Componentwise difference.
    pub fn sub(self, o: Vec2) -> (r: Vec2)
        ensures
            r.x as int == s_sub(self.x as int, o.x as int),
            r.y as int == s_sub(self.y as int, o.y as int),
    {
        Vec2 { x: fx_sub(self.x, o.x), y: fx_sub(self.y, o.y) }
    }

    /// Scale by a scalar.
    pub fn scale(self, k: Fx) -> (r: Vec2)
        ensures
            r.x as int == s_mul(self.x as int, k as int),
            r.y as int == s_mul(self.y as int, k as int),
    {
        Vec2 { x: fx_mul(self.x, k), y: fx_mul(self.y, k) }
    }
}

/// Distance between two points.
pub fn distance3d(a: &Point3, b: &Point3) -> (r: Fx)
    ensures
        r as int == s_sqrt(s_dot(a.sub_spec(*b), a.sub_spec(*b))),
{
    a.sub(*b).magnitude()
}

/// Squared distance between two points.
pub fn distance_squared3d(a: &Point3, b: &Point3) -> (r: Fx)
    ensures
        r as int == s_dot(a.sub_spec(*b), a.sub_spec(*b)),
{
    a.sub(*b).magnitude_squared()
}

impl Vec3 {
    /// Spec-level componentwise difference, for stating distances.
    pub open spec fn sub_spec(self, o: Vec3) -> Vec3 {
        Vec3 {
            x: s_sub(self.x as int, o.x as int) as i64,
            y: s_sub(self.y as int, o.y as int) as i64,
            z: s_sub(self.z as int, o.z as int) as i64,
        }
    }
}

/// Polar angle of a direction: `acos` of the clamped `z` component.
pub fn spherical_theta(v: &Vec3) -> (r: Fx)
    ensures
        r as int == s_acos(
            crate::fixed::max_int(
                -(crate::fixed::FX_ONE as int),
                crate::fixed::min_int(v.z as int, crate::fixed::FX_ONE as int),
            ),
        ),
{
    let c = crate::fixed::fx_clamp(v.z, -crate::fixed::FX_ONE, crate::fixed::FX_ONE);
    acos_fx(c)
}

/// Azimuthal angle of a direction, wrapped into `[0, 2*pi)`.
pub fn spherical_phi(v: &Vec3) -> (r: Fx)
    ensures
        ({
            let p = s_atan2(v.y as int, v.x as int);
            r as int == if p < 0 {
                s_add(p, FX_TAU as int)
            } else {
                p
            }
        }),
{
    let p = atan2_fx(v.y, v.x);
    if p < 0 {
        fx_add(p, FX_TAU)
    } else {
        p
    }
}

} // verus!
