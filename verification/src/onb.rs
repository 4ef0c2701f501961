//! An orthonormal basis built from a single direction.

use vstd::prelude::*;

use crate::fixed::{s_add, s_div, s_mul, s_sqrt};
use crate::vector::{s_dot, vec3, Vec3};

verus! {

/// Three basis vectors; `w` is the defining axis.
pub struct ONB {
    pub axis: [Vec3; 3],
}

impl ONB {
    pub fn u(&self) -> (r: Vec3)
        ensures
            r == self.axis[0],
    {
        self.axis[0]
    }

    pub fn v(&self) -> (r: Vec3)
        ensures
            r == self.axis[1],
    {
        self.axis[1]
    }

    pub fn w(&self) -> (r: Vec3)
        ensures
            r == self.axis[2],
    {
        self.axis[2]
    }

    /// A local coordinate triple expressed in this basis:
    /// `a.x * u + a.y * v + a.z * w`.
    pub fn local(&self, a: &Vec3) -> (r: Vec3)
        ensures
            r.x as int == s_add(
                s_add(
                    s_mul(self.axis[0].x as int, a.x as int),
                    s_mul(self.axis[1].x as int, a.y as int),
                ),
                s_mul(self.axis[2].x as int, a.z as int),
            ),
            r.y as int == s_add(
                s_add(
                    s_mul(self.axis[0].y as int, a.x as int),
                    s_mul(self.axis[1].y as int, a.y as int),
                ),
                s_mul(self.axis[2].y as int, a.z as int),
            ),
            r.z as int == s_add(
                s_add(
                    s_mul(self.axis[0].z as int, a.x as int),
                    s_mul(self.axis[1].z as int, a.y as int),
                ),
                s_mul(self.axis[2].z as int, a.z as int),
            ),
    {
        let ux = self.axis[0].scale(a.x);
        let vy = self.axis[1].scale(a.y);
        let wz = self.axis[2].scale(a.z);
        ux.add(vy).add(wz)
    }

    /// A basis whose `w` axis is the normalized input; the other two axes
    /// are crossed in from whichever fixed helper axis is less parallel.
    pub fn new_from_w(n: &Vec3) -> (r: ONB)
        ensures
            ({
                let m = s_sqrt(s_dot(*n, *n));
                let w = Vec3 {
                    x: s_div(n.x as int, m) as i64,
                    y: s_div(n.y as int, m) as i64,
                    z: s_div(n.z as int, m) as i64,
                };
                let a = if crate::fixed::abs_int(w.x as int) > 58982 {
                    Vec3 { x: 0, y: crate::fixed::FX_ONE, z: 0 }
                } else {
                    Vec3 { x: crate::fixed::FX_ONE, y: 0, z: 0 }
                };
                r.axis[2] == w && r.axis[1] == ({
                    let c = crate::transform::s_cross(w, a);
                    let mc = s_sqrt(s_dot(c, c));
                    Vec3 {
                        x: s_div(c.x as int, mc) as i64,
                        y: s_div(c.y as int, mc) as i64,
                        z: s_div(c.z as int, mc) as i64,
                    }
                }) && r.axis[0] == crate::transform::s_cross(w, r.axis[1])
            }),
    {
        let w = n.normalize();
        let wx_abs = crate::fixed::fx_abs(w.x);
        let a = if wx_abs > 58982 {
            vec3(0, crate::fixed::FX_ONE, 0)
        } else {
            vec3(crate::fixed::FX_ONE, 0, 0)
        };
        let v = w.cross(a).normalize();
        let u = w.cross(v);
        ONB { axis: [u, v, w] }
    }
}

} // verus!
