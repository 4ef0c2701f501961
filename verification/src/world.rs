//! The render host interface: a scene, a camera and an integrator,
//! exposing a pull-based per-pixel renderer.

use vstd::prelude::*;

use crate::camera::SimpleCamera;
use crate::color::{black, color_to_pixel, s_encode_channel};
use crate::fixed::{fit, s_add, s_div, fx_add, fx_from_int, FX_ONE};
use crate::integrator::{s_le_sum, PathIntegrator};
use crate::rng::RngGen;
use crate::scene::Scene;
use crate::vector::{point2};

verus! {

/// `v` added to itself `n` times with saturating addition.
pub open spec fn s_rep_add(v: int, n: int) -> int
    decreases n,
{
    if n <= 0 {
        0
    } else {
        s_add(s_rep_add(v, n - 1), v)
    }
}

/// A scene with its camera, path integrator and per-pixel sample count.
pub struct World {
    pub scene: Scene,
    pub cam: SimpleCamera,
    pub integrator: PathIntegrator,
    pub samples_per_pixel: usize,
    pub rng: RngGen,
}

impl World {
    pub fn new(scene: Scene, cam: SimpleCamera, max_depth: usize, samples_per_pixel: usize) -> (r:
        Self)
        ensures
            r.scene == scene,
            r.cam == cam,
            r.samples_per_pixel == samples_per_pixel,
            r.integrator.max_depth == max_depth,
    {
        Self {
            scene,
            cam,
            samples_per_pixel,
            rng: RngGen::new(),
            integrator: PathIntegrator::new(max_depth),
        }
    }

    /// Hands the world bounds to the lights; must run before rendering.
    pub fn preprocess(&mut self)
        requires
            forall|i: int|
                0 <= i < old(self).scene.lights@.len() ==> (#[trigger] old(
                    self,
                ).scene.lights@[i]).distr_coherent(),
        ensures
            final(self).scene.objs@ == old(self).scene.objs@,
            final(self).scene.lights@.len() == old(self).scene.lights@.len(),
            final(self).scene.lights_ready(),
            forall|i: int|
                0 <= i < old(self).scene.lights@.len() ==> #[trigger] final(self).scene.lights@[i]
                    == crate::light::s_light_with_bounds(
                    old(self).scene.lights@[i],
                    old(self).scene.spec_world_bounds(),
                ),
            final(self).cam == old(self).cam,
            final(self).integrator == old(self).integrator,
            final(self).samples_per_pixel == old(self).samples_per_pixel,
    {
        self.scene.preprocess();
    }

    /// Renders one pixel: the configured number of jittered camera rays
    /// are traced, their radiance averaged, and the average gamma-encoded
    /// as RGBA with full alpha. In an empty scene every sample is exactly
    /// the lights' summed escape radiance, so the pixel is that radiance
    /// averaged and encoded.
    pub fn render_pixel(&self, x: usize, y: usize) -> (r: [u8; 4])
        requires
            self.scene.shapes_wf(),
            self.scene.lights_ready(),
            self.scene.lights@.len() <= 0x7fff_ffff,
            1 <= self.samples_per_pixel <= 0x7fff_ffff,
            1 <= self.cam.width <= 0x7fff_ffff,
            1 <= self.cam.height <= 0x7fff_ffff,
            x <= 0x7fff_ffff,
            y <= 0x7fff_ffff,
        ensures
            r[3] == 255,
            self.scene.objs@.len() == 0 ==> ({
                let t = s_le_sum(self.scene.lights@, self.scene.lights@.len() as int);
                let n = self.samples_per_pixel as int;
                &&& r[0] as int == s_encode_channel(s_rep_add(s_div(t.0, fit(n * FX_ONE)), n))
                &&& r[1] as int == s_encode_channel(s_rep_add(s_div(t.1, fit(n * FX_ONE)), n))
                &&& r[2] as int == s_encode_channel(s_rep_add(s_div(t.2, fit(n * FX_ONE)), n))
            }),
    {
        let mut out_col = black();
        let n = self.samples_per_pixel;
        let nfx = fx_from_int(n as i64);
        let mut k: usize = 0;
        while k < n
            invariant
                self.scene.shapes_wf(),
                self.scene.lights_ready(),
                self.scene.lights@.len() <= 0x7fff_ffff,
                1 <= n <= 0x7fff_ffff,
                1 <= self.cam.width <= 0x7fff_ffff,
                1 <= self.cam.height <= 0x7fff_ffff,
                nfx as int == fit(n as int * FX_ONE),
                k <= n,
                self.scene.objs@.len() == 0 ==> ({
                    let t = s_le_sum(self.scene.lights@, self.scene.lights@.len() as int);
                    &&& out_col.x as int == s_rep_add(s_div(t.0, fit(n as int * FX_ONE)), k as int)
                    &&& out_col.y as int == s_rep_add(s_div(t.1, fit(n as int * FX_ONE)), k as int)
                    &&& out_col.z as int == s_rep_add(s_div(t.2, fit(n as int * FX_ONE)), k as int)
                }),
            decreases n - k,
        {
            let jx = self.rng.sample_neg1_1();
            let jy = self.rng.sample_neg1_1();
            let px = fx_add(fx_from_int(x as i64), jx);
            let py = fx_add(fx_from_int(y as i64), jy);
            let mut ray = self.cam.get_ray(point2(px, py));
            let col = self.integrator.li(&mut ray, &self.scene, 0, &self.rng);
            out_col = out_col.add(col.div_scalar(nfx));
            k = k + 1;
        }
        color_to_pixel(out_col)
    }
}

} // verus!
