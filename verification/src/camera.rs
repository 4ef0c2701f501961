//! A simple lookat camera: pixel coordinates to world-space rays.

use vstd::prelude::*;

use crate::common::{deg2rad, s_deg2rad};
use crate::fixed::{
    s_add, s_div, s_mul, s_sqrt, s_sub, Fx, fx_add, fx_div, fx_from_int, fx_mul, fx_neg,
    fx_sub, FX_HALF, FX_MAX, FX_ONE,
};
use crate::interaction::FX_RAY_EPSILON;
use crate::ray::Ray;
use crate::transform::{s_lookat_fwd, s_lookat_inv, s_ray_via, Transform};
use crate::trig::{s_tan, tan_fx};
use crate::vector::{point3, s_dot, vec3, Point2, Point3, Vec3};

verus! {

/// A pinhole camera defined by a lookat transform, a vertical field of
/// view in degrees, and the image size in pixels.
pub struct SimpleCamera {
    pub fov: Fx,
    pub lookat: Transform,
    pub width: usize,
    pub height: usize,
}

/// The half-angle spread of the camera: `tan(deg2rad(fov / 2))`.
pub open spec fn s_cam_angle(fov: int) -> int {
    s_tan(s_deg2rad(s_div(fov, 2 * FX_ONE as int)) as i64 as int)
}

/// The camera-space screen coordinates of a pixel sample: the pixel is
/// centered, mapped into `[-1, 1]`, and spread by the view angle (the
/// horizontal axis also by the aspect ratio).
pub open spec fn s_cam_xx(fov: int, w: int, h: int, px: int) -> int {
    let angle = s_cam_angle(fov);
    let aspect = s_div(fit(w * FX_ONE), fit(h * FX_ONE));
    s_mul(
        s_mul(
            s_sub(
                s_mul(2 * FX_ONE as int, s_mul(s_add(px, FX_HALF as int), s_div(FX_ONE as int, fit(w * FX_ONE)))),
                FX_ONE as int,
            ),
            angle,
        ),
        aspect,
    )
}

pub open spec fn s_cam_yy(fov: int, w: int, h: int, py: int) -> int {
    let angle = s_cam_angle(fov);
    s_mul(
        s_sub(
            FX_ONE as int,
            s_mul(2 * FX_ONE as int, s_mul(s_add(py, FX_HALF as int), s_div(FX_ONE as int, fit(h * FX_ONE)))),
        ),
        angle,
    )
}

use crate::fixed::fit;

impl SimpleCamera {
    /// A camera at `origin` looking toward `lookat`, with `(0, 1, 0)` as
    /// up.
    pub fn new(origin: Point3, lookat: Point3, fov: Fx, width: usize, height: usize) -> (r: Self)
        ensures
            r.fov == fov,
            r.width == width,
            r.height == height,
            r.lookat.fwd() == s_lookat_fwd(origin, lookat, Vec3 { x: 0, y: FX_ONE, z: 0 }),
            r.lookat.inv() == s_lookat_inv(origin, lookat, Vec3 { x: 0, y: FX_ONE, z: 0 }),
    {
        Self {
            fov,
            lookat: Transform::new_lookat(origin, lookat, vec3(0, FX_ONE, 0)),
            width,
            height,
        }
    }

    /// The world-space ray of a (jittered) pixel coordinate: the screen
    /// point at depth one is normalized in camera space, then the inverse
    /// lookat carries the ray into the world.
    pub fn get_ray(&self, xy: Point2) -> (r: Ray)
        requires
            1 <= self.width <= 0x7fff_ffff,
            1 <= self.height <= 0x7fff_ffff,
        ensures
            ({
                let xx = s_cam_xx(self.fov as int, self.width as int, self.height as int, xy.x as int);
                let yy = s_cam_yy(self.fov as int, self.width as int, self.height as int, xy.y as int);
                let d = Vec3 { x: xx as i64, y: yy as i64, z: (-FX_ONE) as i64 };
                let m = s_sqrt(s_dot(d, d));
                let dn = Vec3 {
                    x: s_div(d.x as int, m) as i64,
                    y: s_div(d.y as int, m) as i64,
                    z: s_div(d.z as int, m) as i64,
                };
                let cam_ray = Ray {
                    origin: Vec3 { x: 0, y: 0, z: 0 },
                    direction: dn,
                    t_min: FX_RAY_EPSILON,
                    t_max: FX_MAX,
                    time: 0,
                    has_differentials: false,
                    rx_origin: None,
                    ry_origin: None,
                    rx_direction: None,
                    ry_direction: None,
                };
                r == s_ray_via(self.lookat.inv(), cam_ray)
            }),
    {
        let angle = tan_fx(deg2rad(fx_div(self.fov, 2 * FX_ONE)));
        let wfx = fx_from_int(self.width as i64);
        let hfx = fx_from_int(self.height as i64);
        let aspect = fx_div(wfx, hfx);
        let xx = fx_mul(
            fx_mul(
                fx_sub(fx_mul(2 * FX_ONE, fx_mul(fx_add(xy.x, FX_HALF), fx_div(FX_ONE, wfx))), FX_ONE),
                angle,
            ),
            aspect,
        );
        let yy = fx_mul(
            fx_sub(FX_ONE, fx_mul(2 * FX_ONE, fx_mul(fx_add(xy.y, FX_HALF), fx_div(FX_ONE, hfx)))),
            angle,
        );
        let direction = vec3(xx, yy, fx_neg(FX_ONE)).normalize();
        let ray = Ray::new_non_differential(point3(0, 0, 0), direction, FX_RAY_EPSILON, FX_MAX, 0);
        self.lookat.iray(&ray)
    }
}

} // verus!
