//! A simulated ray of light: origin, direction, and the traversal window
//! `[t_min, t_max]`. `t_max` shrinks to the closest hit found so far.

use vstd::prelude::*;

use crate::fixed::{s_add, s_mul, s_sub, Fx, FX_MAX};
use crate::vector::{Point3, Vec3};

verus! {

/// A ray with an optional differential pair for filter footprints.
#[derive(Clone, Copy)]
pub struct Ray {
    pub origin: Point3,
    pub direction: Vec3,
    pub t_min: Fx,
    pub t_max: Fx,
    pub time: Fx,
    pub has_differentials: bool,
    pub rx_origin: Option<Point3>,
    pub ry_origin: Option<Point3>,
    pub rx_direction: Option<Vec3>,
    pub ry_direction: Option<Vec3>,
}

/// Whether two rays agree on every field but the traversal end `t_max`:
/// what an intersection query preserves while it shrinks the window.
pub open spec fn s_same_ray_except_t_max(a: Ray, b: Ray) -> bool {
    &&& a.origin == b.origin
    &&& a.direction == b.direction
    &&& a.t_min == b.t_min
    &&& a.time == b.time
    &&& a.has_differentials == b.has_differentials
    &&& a.rx_origin == b.rx_origin
    &&& a.ry_origin == b.ry_origin
    &&& a.rx_direction == b.rx_direction
    &&& a.ry_direction == b.ry_direction
}

impl Default for Ray {
    /// A ray at the origin along the zero direction, open to the farthest
    /// representable distance.
    fn default() -> (r: Ray)
        ensures
            r.origin == (Vec3 { x: 0, y: 0, z: 0 }),
            r.direction == (Vec3 { x: 0, y: 0, z: 0 }),
            r.t_min == 0,
            r.t_max == FX_MAX,
            r.time == 0,
            !r.has_differentials,
            r.rx_origin.is_none() && r.ry_origin.is_none(),
            r.rx_direction.is_none() && r.ry_direction.is_none(),
    {
        Ray {
            origin: Vec3 { x: 0, y: 0, z: 0 },
            direction: Vec3 { x: 0, y: 0, z: 0 },
            t_min: 0,
            t_max: FX_MAX,
            time: 0,
            has_differentials: false,
            rx_origin: None,
            ry_origin: None,
            rx_direction: None,
            ry_direction: None,
        }
    }
}

impl Ray {
    /// A ray without differentials.
    pub fn new_non_differential(origin: Point3, direction: Vec3, t_min: Fx, t_max: Fx, time: Fx) -> (r: Ray)
        ensures
            r.origin == origin,
            r.direction == direction,
            r.t_min == t_min,
            r.t_max == t_max,
            r.time == time,
            !r.has_differentials,
            r.rx_origin.is_none() && r.ry_origin.is_none(),
            r.rx_direction.is_none() && r.ry_direction.is_none(),
    {
        Ray {
            origin,
            direction,
            t_min,
            t_max,
            time,
            has_differentials: false,
            rx_origin: None,
            ry_origin: None,
            rx_direction: None,
            ry_direction: None,
        }
    }

    /// The location a distance `t` along the ray: `origin + direction * t`.
    pub fn at(&self, t: Fx) -> (r: Point3)
        ensures
            r.x as int == s_add(self.origin.x as int, s_mul(self.direction.x as int, t as int)),
            r.y as int == s_add(self.origin.y as int, s_mul(self.direction.y as int, t as int)),
            r.z as int == s_add(self.origin.z as int, s_mul(self.direction.z as int, t as int)),
    {
        self.origin.add(self.direction.scale(t))
    }

    /// Moves the differentials toward the main ray by the factor `s`;
    /// `None` when the ray carries none.
    pub fn scale_differentials(self, s: Fx) -> (r: Option<Ray>)
        ensures
            r.is_some() <==> self.has_differentials,
            self.has_differentials && self.rx_origin.is_some() && self.ry_origin.is_some()
                && self.rx_direction.is_some() && self.ry_direction.is_some() ==> ({
                let out = r.unwrap();
                &&& out.origin == self.origin
                &&& out.direction == self.direction
                &&& out.rx_origin.is_some()
                &&& out.rx_origin.unwrap().x as int == s_add(
                    self.origin.x as int,
                    s_mul(s_sub(self.rx_origin.unwrap().x as int, self.origin.x as int), s as int),
                )
            }),
    {
        if !self.has_differentials {
            return None;
        }
        let rx_o = match self.rx_origin {
            Some(p) => p,
            None => self.origin,
        };
        let ry_o = match self.ry_origin {
            Some(p) => p,
            None => self.origin,
        };
        let rx_d = match self.rx_direction {
            Some(d) => d,
            None => self.direction,
        };
        let ry_d = match self.ry_direction {
            Some(d) => d,
            None => self.direction,
        };
        Some(
            Ray {
                rx_origin: Some(self.origin.add(rx_o.sub(self.origin).scale(s))),
                ry_origin: Some(self.origin.add(ry_o.sub(self.origin).scale(s))),
                rx_direction: Some(self.direction.add(rx_d.sub(self.direction).scale(s))),
                ry_direction: Some(self.direction.add(ry_d.sub(self.direction).scale(s))),
                ..self
            },
        )
    }
}

} // verus!
