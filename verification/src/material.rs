//! The scattering model: BxDF lobes with capability flags, the composite
//! BSDF with its local shading frame, and the matte material.

use vstd::prelude::*;

use crate::color::{color3, Color3};
use crate::common::FX_PI;
use crate::distributions::{s_concentric, Distribution1D};
use crate::fixed::{
    fit, max_int, min_int, s_add, s_div, s_mul, s_sqrt, s_sub, tdiv, Fx, fx_abs, fx_add,
    fx_div, fx_from_int, fx_mul, fx_neg, fx_sub, FX_MAX, FX_ONE,
};
use crate::interaction::{Shading, SurfaceInteraction};
use crate::ray::Ray;
use crate::texture::{ColorTexture, ScalarTexture};
use crate::transform::s_cross;
use crate::vector::{point2, s_dot, vec3, Point2, Vec3};

verus! {

pub const BXDF_REFLECTION: u8 = 0x01;

pub const BXDF_TRANSMISSION: u8 = 0x02;

pub const BXDF_DIFFUSE: u8 = 0x04;

pub const BXDF_GLOSSY: u8 = 0x08;

pub const BXDF_SPECULAR: u8 = 0x10;

pub const BXDF_ALL: u8 = BXDF_DIFFUSE | BXDF_GLOSSY | BXDF_REFLECTION | BXDF_SPECULAR
    | BXDF_TRANSMISSION;

pub type BXDFType = u8;

/// Whether two local directions point into the same hemisphere: their `z`
/// components have the same strict sign.
pub fn same_hemisphere(w: &Vec3, wp: &Vec3) -> (r: bool)
    ensures
        r == ((w.z > 0 && wp.z > 0) || (w.z < 0 && wp.z < 0)),
{
    (w.z > 0 && wp.z > 0) || (w.z < 0 && wp.z < 0)
}

/// The magnitude of a local direction's `z` component.
pub fn abs_cos_theta(w: &Vec3) -> (r: Fx)
    ensures
        r as int == fit(crate::fixed::abs_int(w.z as int)),
{
    fx_abs(w.z)
}

/// A Lambertian reflection lobe: constant albedo `r`, `f = r / pi`.
pub struct LambertianReflection {
    pub r: Color3,
}

impl LambertianReflection {
    pub fn new(r: Color3) -> (l: Self)
        ensures
            l.r == r,
    {
        Self { r }
    }
}

/// A single scattering lobe, tagged by its capabilities.
pub enum Bxdf {
    Lambertian(LambertianReflection),
}

/// The cosine-hemisphere direction a lobe's default sampler produces for
/// `u`, flipped into the hemisphere of `wo`. Opaque: callers treat it as
/// a value; `Bxdf::sample_f` establishes it.
#[verifier::opaque]
pub open spec fn s_default_wi(wo: Vec3, u: Point2) -> Vec3 {
    let d = s_concentric(u);
    let z = s_sqrt(
        max_int(0, s_sub(s_sub(FX_ONE as int, s_mul(d.0, d.0)), s_mul(d.1, d.1))),
    );
    let zf = if wo.z < 0 {
        -z
    } else {
        z
    };
    Vec3 { x: d.0 as i64, y: d.1 as i64, z: zf as i64 }
}

impl Bxdf {
    /// The lobe's capability flags.
    pub open spec fn spec_type(self) -> u8 {
        match self {
            Bxdf::Lambertian(_) => BXDF_DIFFUSE | BXDF_REFLECTION,
        }
    }

    pub fn bxdf_type(&self) -> (t: BXDFType)
        ensures
            t == self.spec_type(),
    {
        match self {
            Bxdf::Lambertian(_) => BXDF_DIFFUSE | BXDF_REFLECTION,
        }
    }

    /// The lobe's overall weight; one for every provided lobe.
    pub fn scale(&self) -> (r: Fx)
        ensures
            r == FX_ONE,
    {
        FX_ONE
    }

    /// The lobe's attenuation for a local direction pair.
    pub open spec fn spec_f(self, wo: Vec3, wi: Vec3) -> Option<Color3> {
        match self {
            Bxdf::Lambertian(l) => Some(
                Vec3 {
                    x: s_div(l.r.x as int, FX_PI as int) as i64,
                    y: s_div(l.r.y as int, FX_PI as int) as i64,
                    z: s_div(l.r.z as int, FX_PI as int) as i64,
                },
            ),
        }
    }

    /// Evaluates the lobe: the Lambertian returns its albedo over pi.
    pub fn f(&self, wo: &Vec3, wi: &Vec3) -> (r: Option<Color3>)
        ensures
            r == self.spec_f(*wo, *wi),
    {
        match self {
            Bxdf::Lambertian(l) => Some(l.r.div_scalar(FX_PI)),
        }
    }

    /// The density the default sampler attaches to a pair: `|cos| / pi`
    /// within one hemisphere, zero across.
    pub open spec fn spec_pdf(self, wo: Vec3, wi: Vec3) -> int {
        if (wo.z > 0 && wi.z > 0) || (wo.z < 0 && wi.z < 0) {
            s_div(fit(crate::fixed::abs_int(wi.z as int)), FX_PI as int)
        } else {
            0
        }
    }

    pub fn pdf(&self, wo: &Vec3, wi: &Vec3) -> (r: Fx)
        ensures
            r as int == self.spec_pdf(*wo, *wi),
    {
        if same_hemisphere(wo, wi) {
            fx_div(abs_cos_theta(wi), FX_PI)
        } else {
            0
        }
    }

    /// Samples the lobe with the default cosine-hemisphere sampler: the
    /// sampled direction, its density, the lobe value there, and the
    /// lobe's flags.
    pub fn sample_f(&self, wo: &Vec3, u: &Point2) -> (r: Option<(Color3, Fx, Vec3, BXDFType)>)
        requires
            0 <= u.x <= FX_ONE,
            0 <= u.y <= FX_ONE,
        ensures
            ({
                let wi = s_default_wi(*wo, *u);
                match self.spec_f(*wo, wi) {
                    Some(col) => r.is_some() && r.unwrap().0 == col && r.unwrap().1 as int
                        == self.spec_pdf(*wo, wi) && r.unwrap().2 == wi && r.unwrap().3
                        == self.spec_type(),
                    None => r.is_none(),
                }
            }),
    {
        proof {
            reveal(s_default_wi);
        }
        let mut wi = Distribution1D::cosine_sample_hemisphere(u);
        if wo.z < 0 {
            wi.z = fx_neg(wi.z);
        }
        let pdf = self.pdf(wo, &wi);
        match self.f(wo, &wi) {
            Some(col) => Some((col, pdf, wi, self.bxdf_type())),
            None => None,
        }
    }
}

/// The unit `s` axis of a shading frame: the normalized `dpdu`.
pub open spec fn s_frame_s(sh: Shading) -> Vec3 {
    let m = s_sqrt(s_dot(sh.dpdu, sh.dpdu));
    Vec3 {
        x: s_div(sh.dpdu.x as int, m) as i64,
        y: s_div(sh.dpdu.y as int, m) as i64,
        z: s_div(sh.dpdu.z as int, m) as i64,
    }
}

/// The `t` axis of a shading frame: `n x s`.
pub open spec fn s_frame_t(sh: Shading) -> Vec3 {
    s_cross(sh.n, s_frame_s(sh))
}

/// A composite BSDF: an ordered bag of lobes and the shading frame
/// `(ss, ts, ns)` plus the geometric normal `ng`.
pub struct Bsdf {
    pub bxdfs: Vec<Bxdf>,
    pub ss: Vec3,
    pub ns: Vec3,
    pub ng: Vec3,
    pub ts: Vec3,
}

impl Bsdf {
    /// An empty BSDF over the interaction's shading frame.
    pub fn new(inter: &SurfaceInteraction) -> (r: Self)
        requires
            inter.shading.is_some(),
            inter.n.is_some(),
        ensures
            r.bxdfs@.len() == 0,
            r.ns == inter.shading.unwrap().n,
            r.ng == inter.n.unwrap(),
            r.ss == s_frame_s(inter.shading.unwrap()),
            r.ts == s_frame_t(inter.shading.unwrap()),
    {
        let sh = inter.shading.unwrap();
        let n_g = inter.n.unwrap();
        let ss = sh.dpdu.normalize();
        let ts = sh.n.cross(ss);
        Self { bxdfs: Vec::new(), ns: sh.n, ng: n_g, ss, ts }
    }

    /// Appends a lobe.
    pub fn add(&mut self, bxdf: Bxdf)
        ensures
            final(self).bxdfs@ == old(self).bxdfs@.push(bxdf),
            final(self).ss == old(self).ss,
            final(self).ts == old(self).ts,
            final(self).ns == old(self).ns,
            final(self).ng == old(self).ng,
    {
        self.bxdfs.push(bxdf);
    }

    /// A world direction in the local frame: the projections on `s`, `t`,
    /// `n`.
    pub fn world_to_local(&self, v: &Vec3) -> (r: Vec3)
        ensures
            r.x as int == s_dot(self.ss, *v),
            r.y as int == s_dot(self.ts, *v),
            r.z as int == s_dot(self.ns, *v),
    {
        vec3(self.ss.dot(*v), self.ts.dot(*v), self.ns.dot(*v))
    }

    /// A local direction back in world space: the transpose frame applied
    /// to it.
    pub fn local_to_world(&self, v: &Vec3) -> (r: Vec3)
        ensures
            r.x as int == s_add(
                s_add(s_mul(self.ss.x as int, v.x as int), s_mul(self.ts.x as int, v.y as int)),
                s_mul(self.ns.x as int, v.z as int),
            ),
            r.y as int == s_add(
                s_add(s_mul(self.ss.y as int, v.x as int), s_mul(self.ts.y as int, v.y as int)),
                s_mul(self.ns.y as int, v.z as int),
            ),
            r.z as int == s_add(
                s_add(s_mul(self.ss.z as int, v.x as int), s_mul(self.ts.z as int, v.y as int)),
                s_mul(self.ns.z as int, v.z as int),
            ),
    {
        vec3(
            fx_add(
                fx_add(fx_mul(self.ss.x, v.x), fx_mul(self.ts.x, v.y)),
                fx_mul(self.ns.x, v.z),
            ),
            fx_add(
                fx_add(fx_mul(self.ss.y, v.x), fx_mul(self.ts.y, v.y)),
                fx_mul(self.ns.y, v.z),
            ),
            fx_add(
                fx_add(fx_mul(self.ss.z, v.x), fx_mul(self.ts.z, v.y)),
                fx_mul(self.ns.z, v.z),
            ),
        )
    }
}

} // verus!

verus! {

/// A world direction in a frame's local coordinates.
pub open spec fn s_w2l(ss: Vec3, ts: Vec3, ns: Vec3, v: Vec3) -> Vec3 {
    Vec3 { x: s_dot(ss, v) as i64, y: s_dot(ts, v) as i64, z: s_dot(ns, v) as i64 }
}

/// A local direction back in world coordinates: the transpose frame.
pub open spec fn s_l2w(ss: Vec3, ts: Vec3, ns: Vec3, v: Vec3) -> Vec3 {
    Vec3 {
        x: s_add(
            s_add(s_mul(ss.x as int, v.x as int), s_mul(ts.x as int, v.y as int)),
            s_mul(ns.x as int, v.z as int),
        ) as i64,
        y: s_add(
            s_add(s_mul(ss.y as int, v.x as int), s_mul(ts.y as int, v.y as int)),
            s_mul(ns.y as int, v.z as int),
        ) as i64,
        z: s_add(
            s_add(s_mul(ss.z as int, v.x as int), s_mul(ts.z as int, v.y as int)),
            s_mul(ns.z as int, v.z as int),
        ) as i64,
    }
}

/// How many of the first `i` lobes carry a flag in `flags`.
pub open spec fn s_matching_count(lobes: Seq<Bxdf>, flags: u8, i: int) -> int
    decreases i,
{
    if i <= 0 {
        0
    } else {
        s_matching_count(lobes, flags, i - 1) + if lobes[i - 1].spec_type() & flags != 0 {
            1int
        } else {
            0int
        }
    }
}

/// Counts over longer prefixes dominate, and grow by at most one per
/// lobe.
pub proof fn lemma_matching_count_monotone(lobes: Seq<Bxdf>, flags: u8, i: int, j: int)
    requires
        0 <= i <= j,
    ensures
        s_matching_count(lobes, flags, i) <= s_matching_count(lobes, flags, j),
        s_matching_count(lobes, flags, j) <= s_matching_count(lobes, flags, i) + (j - i),
    decreases j - i,
{
    if i < j {
        lemma_matching_count_monotone(lobes, flags, i, j - 1);
    }
}

/// The slot of the matching lobe whose prefix holds exactly `comp`
/// earlier matches; unique when it exists.
pub open spec fn s_matching_index(lobes: Seq<Bxdf>, flags: u8, comp: int) -> int {
    choose|j: int|
        0 <= j < lobes.len() && (#[trigger] lobes[j]).spec_type() & flags != 0
            && s_matching_count(lobes, flags, j) == comp
}

/// A slot with the matching-index properties is the matching index: two
/// such slots would have to strictly out-count one another.
pub proof fn lemma_matching_index_agrees(lobes: Seq<Bxdf>, flags: u8, comp: int, idx: int)
    requires
        0 <= idx < lobes.len(),
        lobes[idx].spec_type() & flags != 0,
        s_matching_count(lobes, flags, idx) == comp,
    ensures
        s_matching_index(lobes, flags, comp) == idx,
{
    let j = s_matching_index(lobes, flags, comp);
    assert(0 <= j < lobes.len() && lobes[j].spec_type() & flags != 0 && s_matching_count(
        lobes,
        flags,
        j,
    ) == comp);
    if j < idx {
        lemma_matching_count_monotone(lobes, flags, j + 1, idx);
        assert(s_matching_count(lobes, flags, j + 1) == comp + 1);
    } else if idx < j {
        lemma_matching_count_monotone(lobes, flags, idx + 1, j);
        assert(s_matching_count(lobes, flags, idx + 1) == comp + 1);
    }
}

/// The slot picked by `u_x` among `m` matching lobes:
/// `min(floor(u_x * m), m - 1)`.
pub open spec fn s_pick_comp(lobes: Seq<Bxdf>, flags: u8, u_x: Fx) -> int {
    let m = s_matching_count(lobes, flags, lobes.len() as int);
    if m == 0 {
        0
    } else {
        min_int(tdiv(u_x as int * m, FX_ONE as int), m - 1)
    }
}

/// The sample with its first coordinate remapped to the picked slot's
/// sub-interval: `u.x * m - comp`, back in `[0, 1]`.
pub open spec fn s_remapped_u(lobes: Seq<Bxdf>, flags: u8, u: Point2) -> Point2 {
    let m = s_matching_count(lobes, flags, lobes.len() as int);
    let comp = s_pick_comp(lobes, flags, u.x);
    Point2 {
        x: s_sub(s_mul(u.x as int, fit(m * FX_ONE)), fit(comp * FX_ONE)) as i64,
        y: u.y,
    }
}

/// The running sum of matching lobes' densities over the first `i` lobes.
pub open spec fn s_pdf_sum(lobes: Seq<Bxdf>, wo: Vec3, wi: Vec3, flags: u8, i: int) -> int
    decreases i,
{
    if i <= 0 {
        0
    } else {
        let prev = s_pdf_sum(lobes, wo, wi, flags, i - 1);
        if lobes[i - 1].spec_type() & flags != 0 {
            s_add(prev, lobes[i - 1].spec_pdf(wo, wi))
        } else {
            prev
        }
    }
}

/// Whether a lobe takes part in an `f` evaluation: its flags match and its
/// reflection class agrees with the geometric classification.
pub open spec fn s_lobe_active(b: Bxdf, flags: u8, reflect: bool) -> bool {
    b.spec_type() & flags != 0 && ((reflect && b.spec_type() & BXDF_REFLECTION != 0) || (!reflect
        && b.spec_type() & BXDF_TRANSMISSION != 0))
}

/// The componentwise sum of active lobes' attenuations over the first `i`
/// lobes.
pub open spec fn s_f_sum(
    lobes: Seq<Bxdf>,
    wo: Vec3,
    wi: Vec3,
    flags: u8,
    reflect: bool,
    i: int,
) -> (int, int, int)
    decreases i,
{
    if i <= 0 {
        (0, 0, 0)
    } else {
        let prev = s_f_sum(lobes, wo, wi, flags, reflect, i - 1);
        if s_lobe_active(lobes[i - 1], flags, reflect) {
            match lobes[i - 1].spec_f(wo, wi) {
                Some(c) => (
                    s_add(prev.0, c.x as int),
                    s_add(prev.1, c.y as int),
                    s_add(prev.2, c.z as int),
                ),
                None => prev,
            }
        } else {
            prev
        }
    }
}

impl Bsdf {
    /// Indexability of the lobe bag.
    pub open spec fn wf(self) -> bool {
        self.bxdfs@.len() < 0x8000_0000
    }

    /// The combined density: the average of the matching lobes' densities
    /// (zero when none match).
    pub fn pdf(&self, wo: &Vec3, wi: &Vec3, flags: BXDFType) -> (r: Fx)
        requires
            self.wf(),
        ensures
            ({
                let n = self.bxdfs@.len() as int;
                let m = s_matching_count(self.bxdfs@, flags, n);
                let lwo = s_w2l(self.ss, self.ts, self.ns, *wo);
                let lwi = s_w2l(self.ss, self.ts, self.ns, *wi);
                r as int == if m == 0 {
                    0
                } else {
                    s_div(s_pdf_sum(self.bxdfs@, lwo, lwi, flags, n), fit(m * FX_ONE))
                }
            }),
    {
        let lwo = self.world_to_local(wo);
        let lwi = self.world_to_local(wi);
        let mut sum: Fx = 0;
        let mut m: i64 = 0;
        let mut i: usize = 0;
        while i < self.bxdfs.len()
            invariant
                self.wf(),
                i <= self.bxdfs@.len(),
                m == s_matching_count(self.bxdfs@, flags, i as int),
                sum as int == s_pdf_sum(self.bxdfs@, lwo, lwi, flags, i as int),
                lwo == s_w2l(self.ss, self.ts, self.ns, *wo),
                lwi == s_w2l(self.ss, self.ts, self.ns, *wi),
                0 <= m <= i,
            decreases self.bxdfs@.len() - i,
        {
            let b = &self.bxdfs[i];
            if b.bxdf_type() & flags != 0 {
                sum = fx_add(sum, b.pdf(&lwo, &lwi));
                m = m + 1;
            }
            i = i + 1;
        }
        if m == 0 {
            0
        } else {
            fx_div(sum, fx_from_int(m))
        }
    }

    /// The combined attenuation: world directions are taken to the local
    /// frame, the pair is classified as reflection or transmission against
    /// the geometric normal, and the active lobes' values are summed.
    pub fn f(&self, wo_world: &Vec3, wi_world: &Vec3, flags: BXDFType) -> (r: Color3)
        ensures
            ({
                let lwo = s_w2l(self.ss, self.ts, self.ns, *wo_world);
                let lwi = s_w2l(self.ss, self.ts, self.ns, *wi_world);
                let di = s_dot(*wi_world, self.ng);
                let do_ = s_dot(*wo_world, self.ng);
                let reflect = (di > 0 && do_ > 0) || (di < 0 && do_ < 0);
                let t = s_f_sum(self.bxdfs@, lwo, lwi, flags, reflect, self.bxdfs@.len() as int);
                r.x as int == t.0 && r.y as int == t.1 && r.z as int == t.2
            }),
    {
        let lwo = self.world_to_local(wo_world);
        let lwi = self.world_to_local(wi_world);
        let di = wi_world.dot(self.ng);
        let dd = wo_world.dot(self.ng);
        let reflect = (di > 0 && dd > 0) || (di < 0 && dd < 0);
        let mut fx_: Fx = 0;
        let mut fy: Fx = 0;
        let mut fz: Fx = 0;
        let mut i: usize = 0;
        while i < self.bxdfs.len()
            invariant
                i <= self.bxdfs@.len(),
                lwo == s_w2l(self.ss, self.ts, self.ns, *wo_world),
                lwi == s_w2l(self.ss, self.ts, self.ns, *wi_world),
                (fx_ as int, fy as int, fz as int) == s_f_sum(
                    self.bxdfs@,
                    lwo,
                    lwi,
                    flags,
                    reflect,
                    i as int,
                ),
            decreases self.bxdfs@.len() - i,
        {
            let b = &self.bxdfs[i];
            let ty = b.bxdf_type();
            if ty & flags != 0 && ((reflect && ty & BXDF_REFLECTION != 0) || (!reflect && ty
                & BXDF_TRANSMISSION != 0)) {
                match b.f(&lwo, &lwi) {
                    Some(c) => {
                        fx_ = fx_add(fx_, c.x);
                        fy = fx_add(fy, c.y);
                        fz = fx_add(fz, c.z);
                    },
                    None => {},
                }
            }
            i = i + 1;
        }
        color3(fx_, fy, fz)
    }

    /// Picks the `min(floor(u.x m), m - 1)`-th lobe among the `m` lobes
    /// matching `flags`, remaps `u.x` into that slot's sub-interval,
    /// samples the lobe in the local frame, and returns the value,
    /// density, world direction and sampled flags. Nothing is sampled when
    /// no lobe matches.
    pub fn sample_f(&self, wo: &Vec3, u: &Point2, flags: BXDFType) -> (r: Option<
        (Color3, Fx, Vec3, BXDFType),
    >)
        requires
            self.wf(),
            0 <= u.x <= FX_ONE,
            0 <= u.y <= FX_ONE,
        ensures
            ({
                let m = s_matching_count(self.bxdfs@, flags, self.bxdfs@.len() as int);
                &&& ((m == 0) <==> r.is_none())
                &&& m > 0 ==> ({
                    let comp = s_pick_comp(self.bxdfs@, flags, u.x);
                    let lobe = self.bxdfs@[s_matching_index(self.bxdfs@, flags, comp)];
                    let ur = s_remapped_u(self.bxdfs@, flags, *u);
                    let lwo = s_w2l(self.ss, self.ts, self.ns, *wo);
                    let lwi = s_default_wi(lwo, ur);
                    match lobe.spec_f(lwo, lwi) {
                        Some(col) => r.is_some() && ({
                            let out = r.unwrap();
                            out.0 == col && out.1 as int == lobe.spec_pdf(lwo, lwi) && out.2
                                == s_l2w(self.ss, self.ts, self.ns, lwi) && out.3
                                == lobe.spec_type()
                        }),
                        None => r.is_none(),
                    }
                })
            }),
    {
        let mut m: i64 = 0;
        let mut i: usize = 0;
        while i < self.bxdfs.len()
            invariant
                self.wf(),
                i <= self.bxdfs@.len(),
                m == s_matching_count(self.bxdfs@, flags, i as int),
                0 <= m <= i,
            decreases self.bxdfs@.len() - i,
        {
            if self.bxdfs[i].bxdf_type() & flags != 0 {
                m = m + 1;
            }
            i = i + 1;
        }
        if m == 0 {
            return None;
        }
        proof {
            crate::fixed::lemma_mul_nonneg(u.x as int, m as int);
            crate::fixed::lemma_mul_le(u.x as int, 65536, m as int);
            vstd::arithmetic::div_mod::lemma_div_is_ordered(
                u.x as int * m as int,
                65536 * m as int,
                65536,
            );
            vstd::arithmetic::div_mod::lemma_div_multiples_vanish(m as int, 65536);
            vstd::arithmetic::div_mod::lemma_div_pos_is_pos(u.x as int * m as int, 65536);
            vstd::arithmetic::div_mod::lemma_fundamental_div_mod(u.x as int * m as int, 65536);
            vstd::arithmetic::div_mod::lemma_mod_bound(u.x as int * m as int, 65536);
        }
        let q: i64 = (((u.x as i128) * (m as i128)) / 65536) as i64;
        let comp: i64 = if q > m - 1 {
            m - 1
        } else {
            q
        };
        // locate the comp-th matching lobe
        let mut idx: usize = 0;
        let mut seen: i64 = 0;
        while idx < self.bxdfs.len()
            invariant_except_break
                self.wf(),
                idx <= self.bxdfs@.len(),
                seen == s_matching_count(self.bxdfs@, flags, idx as int),
                0 <= seen <= comp,
                0 <= comp < m,
                m == s_matching_count(self.bxdfs@, flags, self.bxdfs@.len() as int),
            ensures
                idx < self.bxdfs@.len(),
                self.bxdfs@[idx as int].spec_type() & flags != 0,
                s_matching_count(self.bxdfs@, flags, idx as int) == comp,
            decreases self.bxdfs@.len() - idx,
        {
            if self.bxdfs[idx].bxdf_type() & flags != 0 {
                if seen == comp {
                    break ;
                }
                seen = seen + 1;
            }
            proof {
                if idx + 1 == self.bxdfs@.len() {
                    lemma_matching_count_monotone(
                        self.bxdfs@,
                        flags,
                        idx as int + 1,
                        self.bxdfs@.len() as int,
                    );
                }
            }
            idx = idx + 1;
        }
        proof {
            lemma_matching_index_agrees(self.bxdfs@, flags, comp as int, idx as int);
            crate::fixed::lemma_mul_assoc_scale(u.x as int, m as int);
            crate::fixed::lemma_tdiv_scale(u.x as int * m as int);
        }
        let u_re = point2(fx_sub(fx_mul(u.x, fx_from_int(m)), fx_from_int(comp)), u.y);
        proof {
            if comp == q {
                assert(u.x as int * m as int == 65536 * (q as int) + (u.x as int * m as int)
                    % 65536);
            } else {
                assert(65536 * (m as int) <= 65536 * (q as int)) by (nonlinear_arith)
                    requires
                        m <= q,
                ;
            }
            assert(0 <= u_re.x <= FX_ONE);
        }
        let lwo = self.world_to_local(wo);
        let lobe = &self.bxdfs[idx];
        match lobe.sample_f(&lwo, &u_re) {
            Some((col, pdf, lwi, ty)) => Some((col, pdf, self.local_to_world(&lwi), ty)),
            None => None,
        }
    }
}

/// The matte material: an albedo texture and an optional roughness; zero
/// roughness yields a Lambertian lobe.
pub struct Matte {
    pub kd: ColorTexture,
    pub sigma: Option<ScalarTexture>,
    pub bump_map: Option<ScalarTexture>,
}

/// Whether a matte material adds its Lambertian lobe: a nonzero albedo and
/// an explicit roughness that clamps to zero.
pub open spec fn s_matte_adds_lobe(m: Matte) -> bool {
    &&& m.kd.spec_eval() != (Vec3 { x: 0, y: 0, z: 0 })
    &&& match m.sigma {
        Some(st) => max_int(0, min_int(st.spec_eval() as int, 90 * FX_ONE as int)) == 0,
        None => false,
    }
}

impl Matte {
    /// Populates the interaction's BSDF: a Lambertian lobe of the albedo
    /// when the roughness clamps to zero; nothing otherwise.
    pub fn calculate_bsdf(&self, inter: &mut SurfaceInteraction)
        ensures
            final(inter).p == old(inter).p && final(inter).time == old(inter).time,
            final(inter).wo == old(inter).wo && final(inter).n == old(inter).n,
            final(inter).uv == old(inter).uv && final(inter).dpdu == old(inter).dpdu,
            final(inter).dpdv == old(inter).dpdv && final(inter).shading == old(inter).shading,
            final(inter).primitive == old(inter).primitive,
            s_matte_adds_lobe(*self) && old(inter).bsdf.is_some() ==> ({
                &&& final(inter).bsdf.is_some()
                &&& final(inter).bsdf.unwrap().bxdfs@ == old(inter).bsdf.unwrap().bxdfs@.push(
                    Bxdf::Lambertian(LambertianReflection { r: self.kd.spec_eval() }),
                )
                &&& final(inter).bsdf.unwrap().ss == old(inter).bsdf.unwrap().ss
                &&& final(inter).bsdf.unwrap().ts == old(inter).bsdf.unwrap().ts
                &&& final(inter).bsdf.unwrap().ns == old(inter).bsdf.unwrap().ns
                &&& final(inter).bsdf.unwrap().ng == old(inter).bsdf.unwrap().ng
            }),
            !s_matte_adds_lobe(*self) ==> final(inter).bsdf == old(inter).bsdf,
    {
        let r = self.kd.eval(inter);
        if !(r.x == 0 && r.y == 0 && r.z == 0) {
            match &self.sigma {
                Some(sigma) => {
                    let sig = crate::fixed::fx_clamp(sigma.eval(inter), 0, 90 * FX_ONE);
                    if sig == 0 {
                        inter.add_bxdf(Bxdf::Lambertian(LambertianReflection::new(r)));
                    }
                },
                None => {},
            }
        }
    }

    /// The density a cosine-weighted scatter would have toward the ray's
    /// direction: `cos / pi` above the surface, zero below or without a
    /// normal.
    pub fn scattering_pdf(&self, ray: &Ray, inter: &SurfaceInteraction) -> (r: Fx)
        ensures
            ({
                match inter.n {
                    Some(n) => {
                        let c = s_dot(n, ray.direction);
                        r as int == if c > 0 {
                            s_div(c, FX_PI as int)
                        } else {
                            0
                        }
                    },
                    None => r == 0,
                }
            }),
    {
        match inter.n {
            Some(n) => {
                let c = n.dot(ray.direction);
                if c > 0 {
                    Distribution1D::cosine_hemisphere_pdf(c)
                } else {
                    0
                }
            },
            None => 0,
        }
    }
}

/// A surface material; the closed set holds the matte material.
pub enum Material {
    Matte(Matte),
}

impl Material {
    /// Populates the interaction's BSDF according to the material.
    pub fn calculate_bsdf(&self, inter: &mut SurfaceInteraction)
        ensures
            final(inter).p == old(inter).p && final(inter).time == old(inter).time,
            final(inter).wo == old(inter).wo && final(inter).n == old(inter).n,
            final(inter).uv == old(inter).uv && final(inter).dpdu == old(inter).dpdu,
            final(inter).dpdv == old(inter).dpdv && final(inter).shading == old(inter).shading,
            final(inter).primitive == old(inter).primitive,
            ({
                match *self {
                    Material::Matte(m) => (s_matte_adds_lobe(m) && old(inter).bsdf.is_some())
                        ==> ({
                        &&& final(inter).bsdf.is_some()
                        &&& final(inter).bsdf.unwrap().bxdfs@ == old(
                            inter,
                        ).bsdf.unwrap().bxdfs@.push(
                            Bxdf::Lambertian(LambertianReflection { r: m.kd.spec_eval() }),
                        )
                        &&& final(inter).bsdf.unwrap().ss == old(inter).bsdf.unwrap().ss
                        &&& final(inter).bsdf.unwrap().ts == old(inter).bsdf.unwrap().ts
                        &&& final(inter).bsdf.unwrap().ns == old(inter).bsdf.unwrap().ns
                        &&& final(inter).bsdf.unwrap().ng == old(inter).bsdf.unwrap().ng
                    }),
                }
            }),
            ({
                match *self {
                    Material::Matte(m) => !s_matte_adds_lobe(m) ==> final(inter).bsdf == old(
                        inter,
                    ).bsdf,
                }
            }),
    {
        match self {
            Material::Matte(m) => m.calculate_bsdf(inter),
        }
    }

    /// The material's scattering density toward the ray's direction.
    pub fn scattering_pdf(&self, ray: &Ray, inter: &SurfaceInteraction) -> (r: Fx)
        ensures
            ({
                match (*self, inter.n) {
                    (Material::Matte(_), Some(n)) => {
                        let c = s_dot(n, ray.direction);
                        r as int == if c > 0 {
                            s_div(c, FX_PI as int)
                        } else {
                            0
                        }
                    },
                    (Material::Matte(_), None) => r == 0,
                }
            }),
    {
        match self {
            Material::Matte(m) => m.scattering_pdf(ray, inter),
        }
    }
}

} // verus!

verus! {

/// Law: for a frame whose axes are exactly the coordinate axes, taking a
/// world direction to the local frame and back restores it exactly. For a
/// frame built from arbitrary unit vectors the round trip holds only up to
/// the scalar's resolution, which the test suite checks numerically.
pub proof fn lemma_frame_round_trip_axis(v: Vec3)
    requires
        crate::fixed::abs_int(v.x as int) <= crate::fixed::FX_MAX as int,
        crate::fixed::abs_int(v.y as int) <= crate::fixed::FX_MAX as int,
        crate::fixed::abs_int(v.z as int) <= crate::fixed::FX_MAX as int,
    ensures
        ({
            let ex = Vec3 { x: FX_ONE, y: 0, z: 0 };
            let ey = Vec3 { x: 0, y: FX_ONE, z: 0 };
            let ez = Vec3 { x: 0, y: 0, z: FX_ONE };
            s_l2w(ex, ey, ez, s_w2l(ex, ey, ez, v)) == v
        }),
{
    let ex = Vec3 { x: FX_ONE, y: 0, z: 0 };
    let ey = Vec3 { x: 0, y: FX_ONE, z: 0 };
    let ez = Vec3 { x: 0, y: 0, z: FX_ONE };
    crate::fixed::lemma_tdiv_scale(v.x as int);
    crate::fixed::lemma_tdiv_scale(v.y as int);
    crate::fixed::lemma_tdiv_scale(v.z as int);
    crate::fixed::lemma_tdiv_scale(0);
    let one = FX_ONE as int;
    let sx = fit(one) * fit(v.x as int) + fit(0int) * fit(v.y as int) + fit(0int) * fit(v.z as int);
    assert(sx == one * (v.x as int)) by (nonlinear_arith)
        requires
            sx == one * v.x as int + 0 * v.y as int + 0 * v.z as int,
    ;
    let sy = fit(0int) * fit(v.x as int) + fit(one) * fit(v.y as int) + fit(0int) * fit(v.z as int);
    assert(sy == one * (v.y as int)) by (nonlinear_arith)
        requires
            sy == 0 * v.x as int + one * v.y as int + 0 * v.z as int,
    ;
    let sz = fit(0int) * fit(v.x as int) + fit(0int) * fit(v.y as int) + fit(one) * fit(v.z as int);
    assert(sz == one * (v.z as int)) by (nonlinear_arith)
        requires
            sz == 0 * v.x as int + 0 * v.y as int + one * v.z as int,
    ;
    let l = s_w2l(ex, ey, ez, v);
    assert(l.x == v.x && l.y == v.y && l.z == v.z);
    let lx = l.x as int;
    let ly = l.y as int;
    let lz = l.z as int;
    assert(s_mul(one, lx) == lx && s_mul(0, ly) == 0 && s_mul(0, lz) == 0) by {
        crate::fixed::lemma_tdiv_scale(lx);
        assert(one * lx == 65536 * lx) by (nonlinear_arith)
            requires
                one == 65536,
        ;
        assert(0 * ly == 65536 * 0 && 0 * lz == 65536 * 0) by (nonlinear_arith);
    }
    assert(s_mul(one, ly) == ly && s_mul(one, lz) == lz) by {
        crate::fixed::lemma_tdiv_scale(ly);
        crate::fixed::lemma_tdiv_scale(lz);
        assert(one * ly == 65536 * ly && one * lz == 65536 * lz) by (nonlinear_arith)
            requires
                one == 65536,
        ;
    }
    assert(s_mul(0, lx) == 0) by {
        assert(0 * lx == 65536 * 0) by (nonlinear_arith);
        crate::fixed::lemma_tdiv_scale(0);
    }
}

} // verus!
