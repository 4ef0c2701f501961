//! The estimators: multiple-importance-weighted direct lighting, the
//! one-light and all-lights strategies, and the path integrator with
//! throughput tracking and Russian roulette.

use vstd::prelude::*;

use crate::color::{black, color3, Color3};
use crate::fixed::{
    abs_int, fit, max_int, s_add, s_div, s_mul, s_sub, tdiv, Fx, fx_abs, fx_add, fx_div,
    fx_from_int, fx_max, fx_mul, fx_sub, FX_MAX, FX_ONE,
};
use crate::interaction::SurfaceInteraction;
use crate::light::{s_light_le, s_point_li, s_point_wi, s_segment, Light};
use crate::material::{
    s_default_wi, s_f_sum, s_l2w, s_matching_count, s_pdf_sum, s_w2l, Bsdf, BXDF_ALL,
    BXDF_SPECULAR, BXDFType,
};
use crate::ray::Ray;
use crate::rng::RngGen;
use crate::scene::Scene;
use crate::vector::{s_dot, Point2, Vec3};

verus! {

/// The roulette floor: paths keep at least this probability of surviving.
pub const FX_RR_MIN: i64 = 3277;

/// Mirror of the power heuristic with exponent two:
/// `(nf f)^2 / ((nf f)^2 + (ng g)^2)`.
pub open spec fn s_power_heuristic(nf: int, f_pdf: int, ng: int, g_pdf: int) -> int {
    let f = s_mul(fit(nf * FX_ONE), f_pdf);
    let g = s_mul(fit(ng * FX_ONE), g_pdf);
    s_div(s_mul(f, f), s_add(s_mul(f, f), s_mul(g, g)))
}

/// The power heuristic: the balance weight of a strategy that took `nf`
/// samples at density `f_pdf` against one that took `ng` at `g_pdf`. The
/// result always lies in `[0, 1]`; see `lemma_power_heuristic_unit`.
pub fn power_heuristic(nf: usize, f_pdf: Fx, ng: usize, g_pdf: Fx) -> (r: Fx)
    requires
        nf <= 0x7fff_ffff,
        ng <= 0x7fff_ffff,
    ensures
        r as int == s_power_heuristic(nf as int, f_pdf as int, ng as int, g_pdf as int),
        0 <= r <= FX_ONE,
{
    let f = fx_mul(fx_from_int(nf as i64), f_pdf);
    let g = fx_mul(fx_from_int(ng as i64), g_pdf);
    proof {
        lemma_power_heuristic_unit(nf as int, f_pdf as int, ng as int, g_pdf as int);
    }
    fx_div(fx_mul(f, f), fx_add(fx_mul(f, f), fx_mul(g, g)))
}

/// Law: the power heuristic is a proportion, never below zero nor above
/// one.
pub proof fn lemma_power_heuristic_unit(nf: int, f_pdf: int, ng: int, g_pdf: int)
    ensures
        0 <= s_power_heuristic(nf, f_pdf, ng, g_pdf) <= FX_ONE as int,
{
    let f = s_mul(fit(nf * FX_ONE), f_pdf);
    let g = s_mul(fit(ng * FX_ONE), g_pdf);
    let f2 = s_mul(f, f);
    let g2 = s_mul(g, g);
    crate::fixed::lemma_smul_sq_nonneg(f);
    crate::fixed::lemma_smul_sq_nonneg(g);
    let d = s_add(f2, g2);
    if d == 0 {
    } else {
        crate::fixed::lemma_div_unit_range(f2, d);
    }
}

/// Law: together with the complementary strategy's weight, the power
/// heuristic accounts for the whole estimate: the two weights sum to one,
/// up to the scalar's final truncation step (and exactly one whenever the
/// two truncated quotients split evenly). The degenerate case of two zero
/// densities is excluded: there both weights are zero.
pub proof fn lemma_power_heuristic_complementary(nf: int, f_pdf: int, ng: int, g_pdf: int)
    requires
        0 < s_mul(s_mul(fit(nf * FX_ONE), f_pdf), s_mul(fit(nf * FX_ONE), f_pdf)) + s_mul(
            s_mul(fit(ng * FX_ONE), g_pdf),
            s_mul(fit(ng * FX_ONE), g_pdf),
        ) <= FX_MAX as int,
    ensures
        FX_ONE as int - 1 <= s_power_heuristic(nf, f_pdf, ng, g_pdf) + s_power_heuristic(
            ng,
            g_pdf,
            nf,
            f_pdf,
        ) <= FX_ONE as int,
{
    let f = s_mul(fit(nf * FX_ONE), f_pdf);
    let g = s_mul(fit(ng * FX_ONE), g_pdf);
    let f2 = s_mul(f, f);
    let g2 = s_mul(g, g);
    crate::fixed::lemma_smul_sq_nonneg(f);
    crate::fixed::lemma_smul_sq_nonneg(g);
    let d = f2 + g2;
    assert(s_add(f2, g2) == d);
    assert(s_add(g2, f2) == d);
    let sc = 65536int;
    let a = f2 * sc;
    let b = g2 * sc;
    crate::fixed::lemma_mul_nonneg(f2, sc);
    crate::fixed::lemma_mul_nonneg(g2, sc);
    vstd::arithmetic::div_mod::lemma_fundamental_div_mod(a, d);
    vstd::arithmetic::div_mod::lemma_fundamental_div_mod(b, d);
    let qa = a / d;
    let qb = b / d;
    let ra = a % d;
    let rb = b % d;
    vstd::arithmetic::div_mod::lemma_mod_bound(a, d);
    vstd::arithmetic::div_mod::lemma_mod_bound(b, d);
    assert(a + b == d * sc) by (nonlinear_arith)
        requires
            a == f2 * sc,
            b == g2 * sc,
            d == f2 + g2,
    ;
    assert(qa + qb == sc || qa + qb == sc - 1) by (nonlinear_arith)
        requires
            a == d * qa + ra,
            b == d * qb + rb,
            0 <= ra < d,
            0 <= rb < d,
            a + b == d * sc,
            d > 0,
    ;
    assert(0 <= qa && qa <= sc) by (nonlinear_arith)
        requires
            a == d * qa + ra,
            0 <= ra < d,
            0 <= a,
            a <= d * sc,
            d > 0,
            qb >= 0,
            qa + qb >= sc - 1,
            b >= 0,
            b == d * qb + rb,
    ;
    assert(tdiv(a, d) == qa);
    assert(tdiv(b, d) == qb);
    assert(fit(qa) == qa && fit(qb) == qb);
}

/// One Russian-roulette decision: with termination probability
/// `q = max(floor, 1 - beta.y)`, the path stops when the draw falls below
/// `q`; a surviving path's throughput is rescaled by `1 / (1 - q)`, which
/// keeps the estimator's expectation unchanged.
pub fn russian_roulette(beta: Color3, u: Fx) -> (r: (bool, Color3))
    ensures
        ({
            let q = max_int(FX_RR_MIN as int, s_sub(FX_ONE as int, beta.y as int));
            &&& r.0 == ((u as int) < q)
            &&& r.0 ==> r.1 == beta
            &&& !r.0 ==> ({
                let denom = s_sub(FX_ONE as int, q);
                r.1.x as int == s_div(beta.x as int, denom) && r.1.y as int == s_div(
                    beta.y as int,
                    denom,
                ) && r.1.z as int == s_div(beta.z as int, denom)
            })
        }),
{
    let q = fx_max(FX_RR_MIN, fx_sub(FX_ONE, beta.y));
    if u < q {
        (true, beta)
    } else {
        (false, beta.div_scalar(fx_sub(FX_ONE, q)))
    }
}

/// The direct contribution of a delta point light at a hit: the BSDF
/// value toward the light, scaled by the magnitude of the incident
/// cosine, times the received radiance over the unit sample density. A
/// delta light takes the full weight (no heuristic applies to it), and
/// the contribution is zeroed when the segment to the light is occluded.
/// The second (BSDF-sampling) strategy contributes nothing for a delta
/// light.
pub open spec fn s_direct_point(
    l: crate::light::PointLight,
    b: Bsdf,
    wo: Vec3,
    ns: Vec3,
    p: Vec3,
    flags: u8,
    occluded: bool,
) -> (int, int, int) {
    let li = s_point_li(l, p);
    let wi = s_point_wi(l, p);
    if li == (Vec3 { x: 0, y: 0, z: 0 }) {
        (0, 0, 0)
    } else {
        let lwo = s_w2l(b.ss, b.ts, b.ns, wo);
        let lwi = s_w2l(b.ss, b.ts, b.ns, wi);
        let di = s_dot(wi, b.ng);
        let dw = s_dot(wo, b.ng);
        let reflect = (di > 0 && dw > 0) || (di < 0 && dw < 0);
        let f0 = s_f_sum(b.bxdfs@, lwo, lwi, flags, reflect, b.bxdfs@.len() as int);
        let cosl = fit(abs_int(s_dot(wi, ns)));
        let f = (s_mul(f0.0, cosl), s_mul(f0.1, cosl), s_mul(f0.2, cosl));
        if f == (0int, 0int, 0int) {
            (0, 0, 0)
        } else if occluded {
            (0, 0, 0)
        } else {
            let w = FX_ONE as int;
            (
                s_div(s_mul(s_mul(f.0, li.x as int), w), FX_ONE as int),
                s_div(s_mul(s_mul(f.1, li.y as int), w), FX_ONE as int),
                s_div(s_mul(s_mul(f.2, li.z as int), w), FX_ONE as int),
            )
        }
    }
}


/// The direct contribution of the constant environment light at a hit:
/// the light-sampling strategy weighted against the BSDF density, plus the
/// BSDF-sampling strategy weighted against the environment's map density.
/// Mirrors the estimator exactly, including its early exits.
pub open spec fn s_direct_env(
    l: crate::light::ConstantInfiniteLight,
    b: Bsdf,
    wo: Vec3,
    ns: Vec3,
    p: Vec3,
    flags: u8,
    u_s: Point2,
    u_l: Point2,
    occluded: bool,
) -> (int, int, int) {
    let zero3 = (Vec3 { x: 0, y: 0, z: 0 });
    let t = l.distr.spec_sample(u_l.x as int, u_l.y as int);
    let es = crate::light::s_env_sample(l, u_l.x as int, u_l.y as int, p);
    let li = crate::light::s_env_le(l);
    let lwo = s_w2l(b.ss, b.ts, b.ns, wo);
    let n = b.bxdfs@.len() as int;
    let part1 = if t.2 != 0 && es.1 > 0 && li != zero3 {
        let wi = es.0;
        let lwi = s_w2l(b.ss, b.ts, b.ns, wi);
        let di = s_dot(wi, b.ng);
        let dw = s_dot(wo, b.ng);
        let reflect = (di > 0 && dw > 0) || (di < 0 && dw < 0);
        let f0 = s_f_sum(b.bxdfs@, lwo, lwi, flags, reflect, n);
        let cosl = fit(abs_int(s_dot(wi, ns)));
        let f = (s_mul(f0.0, cosl), s_mul(f0.1, cosl), s_mul(f0.2, cosl));
        let m = s_matching_count(b.bxdfs@, flags, n);
        let pdf_s = if m == 0 {
            0
        } else {
            s_div(s_pdf_sum(b.bxdfs@, lwo, lwi, flags, n), fit(m * FX_ONE))
        };
        if f == (0int, 0int, 0int) || occluded {
            (0int, 0int, 0int)
        } else {
            let w = s_power_heuristic(1, es.1, 1, pdf_s);
            (
                s_div(s_mul(s_mul(f.0, li.x as int), w), es.1),
                s_div(s_mul(s_mul(f.1, li.y as int), w), es.1),
                s_div(s_mul(s_mul(f.2, li.z as int), w), es.1),
            )
        }
    } else {
        (0int, 0int, 0int)
    };
    s_env_bsdf_part(l, b, wo, ns, flags, u_s, part1)
}

/// What the BSDF-sampling strategy adds to an accumulated estimate `acc`
/// against the constant environment: the sampled lobe's value weighted
/// against the environment's map density, or `acc` unchanged on any of the
/// strategy's early exits.
pub open spec fn s_env_bsdf_part(
    l: crate::light::ConstantInfiniteLight,
    b: Bsdf,
    wo: Vec3,
    ns: Vec3,
    flags: u8,
    u_s: Point2,
    acc: (int, int, int),
) -> (int, int, int) {
    let zero3 = (Vec3 { x: 0, y: 0, z: 0 });
    let lwo = s_w2l(b.ss, b.ts, b.ns, wo);
    let m = s_matching_count(b.bxdfs@, flags, b.bxdfs@.len() as int);
    if m == 0 {
        acc
    } else {
        let comp = crate::material::s_pick_comp(b.bxdfs@, flags, u_s.x);
        let lobe = b.bxdfs@[crate::material::s_matching_index(b.bxdfs@, flags, comp)];
        let ur = crate::material::s_remapped_u(b.bxdfs@, flags, u_s);
        let lwi = s_default_wi(lwo, ur);
        match lobe.spec_f(lwo, lwi) {
            None => acc,
            Some(f2c) => {
                let pdf2 = lobe.spec_pdf(lwo, lwi);
                let wi2 = s_l2w(b.ss, b.ts, b.ns, lwi);
                let cos2 = fit(abs_int(s_dot(wi2, ns)));
                let f2 = (
                    s_mul(f2c.x as int, cos2),
                    s_mul(f2c.y as int, cos2),
                    s_mul(f2c.z as int, cos2),
                );
                let specular = lobe.spec_type() & BXDF_SPECULAR != 0;
                if f2 == (0int, 0int, 0int) || pdf2 <= 0 {
                    acc
                } else {
                    let lpdf = crate::light::s_env_pdf_li(l, wi2);
                    if !specular && lpdf == 0 {
                        acc
                    } else {
                        let w2 = if specular {
                            FX_ONE as int
                        } else {
                            s_power_heuristic(1, pdf2, 1, lpdf)
                        };
                        let le = crate::light::s_env_le(l);
                        if le == zero3 {
                            acc
                        } else {
                            (
                                s_add(acc.0, s_div(s_mul(s_mul(f2.0, le.x as int), w2), pdf2)),
                                s_add(acc.1, s_div(s_mul(s_mul(f2.1, le.y as int), w2), pdf2)),
                                s_add(acc.2, s_div(s_mul(s_mul(f2.2, le.z as int), w2), pdf2)),
                            )
                        }
                    }
                }
            },
        }
    }
}

/// Estimates one light's direct contribution at a hit by combining a light
/// sample and a BSDF sample with the power heuristic. For a delta point
/// light the estimate is exactly `s_direct_point`; for the constant
/// environment it is exactly `s_direct_env`, with the occlusion test taken
/// against the sampled segment's far endpoint.
#[verifier::rlimit(100)]
#[verifier::spinoff_prover]
pub fn estimate_direct(
    inter: &SurfaceInteraction,
    u_scattering: Point2,
    light: &Light,
    u_light: Point2,
    scene: &Scene,
    _rng: &RngGen,
) -> (r: Color3)
    requires
        light.ready(),
        inter.bsdf.is_some(),
        inter.bsdf.unwrap().wf(),
        inter.wo.is_some(),
        inter.shading.is_some(),
        0 <= u_scattering.x <= FX_ONE,
        0 <= u_scattering.y <= FX_ONE,
    ensures
        ({
            let t = s_light_estimate(
                *light,
                inter.bsdf.unwrap(),
                inter.wo.unwrap(),
                inter.shading.unwrap().n,
                inter.p,
                inter.time,
                *scene,
                u_scattering,
                u_light,
            );
            r.x as int == t.0 && r.y as int == t.1 && r.z as int == t.2
        }),
{
    let flags: BXDFType = BXDF_ALL & !BXDF_SPECULAR;
    let mut ld = black();
    let wo = match inter.wo {
        Some(w) => w,
        None => crate::vector::vec3(0, 0, 0),
    };
    let ns = match &inter.shading {
        Some(sh) => sh.n,
        None => crate::vector::vec3(0, 0, 0),
    };
    let bsdf = match &inter.bsdf {
        Some(b) => b,
        None => {
            return ld;
        },
    };
    match light.sample_li(inter, u_light) {
        Some(li) => {
            if li.pdf > 0 && !(li.col.x == 0 && li.col.y == 0 && li.col.z == 0) {
                let f0 = bsdf.f(&wo, &li.wi, flags);
                let f = f0.scale(fx_abs(li.wi.dot(ns)));
                let scattering_pdf = bsdf.pdf(&wo, &li.wi, flags);
                if !(f.x == 0 && f.y == 0 && f.z == 0) {
                    if !li.vis.unoccluded(scene) {
                        // occluded: the light sample contributes nothing
                    } else {
                        // a delta light takes the full weight: its sample is
                        // the only way to reach it
                        let weight = if light.is_delta() {
                            FX_ONE
                        } else {
                            power_heuristic(1, li.pdf, 1, scattering_pdf)
                        };
                        ld = ld.add(f.component_mul(li.col).scale(weight).div_scalar(li.pdf));
                    }
                }
            }
        },
        None => {},
    }
    bsdf_sample_contribution(ld, inter, light, u_scattering)
}

/// The BSDF-sampling half of the direct estimator: samples a lobe and
/// adds the environment radiance it reaches, weighted against the light's
/// density. A delta light cannot be reached this way, so the accumulated
/// estimate passes through unchanged; against the constant environment
/// the result is exactly `s_env_bsdf_part` of it.
#[verifier::rlimit(100)]
fn bsdf_sample_contribution(
    ld: Color3,
    inter: &SurfaceInteraction,
    light: &Light,
    u_scattering: Point2,
) -> (r: Color3)
    requires
        light.ready(),
        inter.bsdf.is_some(),
        inter.bsdf.unwrap().wf(),
        inter.wo.is_some(),
        inter.shading.is_some(),
        0 <= u_scattering.x <= FX_ONE,
        0 <= u_scattering.y <= FX_ONE,
    ensures
        ({
            match *light {
                Light::Point(_) => r == ld,
                Light::ConstantInfinite(l) => ({
                    let t = s_env_bsdf_part(
                        l,
                        inter.bsdf.unwrap(),
                        inter.wo.unwrap(),
                        inter.shading.unwrap().n,
                        BXDF_ALL & !BXDF_SPECULAR,
                        u_scattering,
                        (ld.x as int, ld.y as int, ld.z as int),
                    );
                    r.x as int == t.0 && r.y as int == t.1 && r.z as int == t.2
                }),
            }
        }),
{
    let flags: BXDFType = BXDF_ALL & !BXDF_SPECULAR;
    let mut out = ld;
    let wo = match inter.wo {
        Some(w) => w,
        None => crate::vector::vec3(0, 0, 0),
    };
    let ns = match &inter.shading {
        Some(sh) => sh.n,
        None => crate::vector::vec3(0, 0, 0),
    };
    let bsdf = match &inter.bsdf {
        Some(b) => b,
        None => {
            return out;
        },
    };
    match bsdf.sample_f(&wo, &u_scattering, flags) {
        Some((f0, scattering_pdf, wi, sampled_type)) => {
            proof {
                // a sampled lobe means some lobe matched; the count lemma
                // turns "not none" into a positive matching count, firing
                // the sampler's detailed clauses
                let b = inter.bsdf.unwrap();
                crate::material::lemma_matching_count_monotone(
                    b.bxdfs@,
                    flags,
                    0,
                    b.bxdfs@.len() as int,
                );
            }
            let f = f0.scale(fx_abs(wi.dot(ns)));
            let sampled_specular = sampled_type & BXDF_SPECULAR != 0;
            if !(f.x == 0 && f.y == 0 && f.z == 0) && scattering_pdf > 0 {
                let mut weight = FX_ONE;
                if !sampled_specular {
                    let li_pdf = light.pdf_li(inter, &wi);
                    if li_pdf == 0 {
                        return out;
                    }
                    weight = power_heuristic(1, scattering_pdf, 1, li_pdf);
                }
                let ray = inter.spawn_ray_to_point(&wi);
                let li = light.le(&ray);
                if !(li.x == 0 && li.y == 0 && li.z == 0) {
                    out = out.add(f.component_mul(li).scale(weight).div_scalar(scattering_pdf));
                }
            }
        },
        None => {},
    }
    out
}

/// The running sum of one light's estimates over the first `k` sample
/// pairs.
pub open spec fn s_estimate_fold(
    light: Light,
    b: Bsdf,
    wo: Vec3,
    ns: Vec3,
    p: Vec3,
    time: Fx,
    scene: Scene,
    uss: Seq<Point2>,
    uls: Seq<Point2>,
    k: int,
) -> (int, int, int)
    decreases k,
{
    if k <= 0 {
        (0, 0, 0)
    } else {
        let prev = s_estimate_fold(light, b, wo, ns, p, time, scene, uss, uls, k - 1);
        let e = s_light_estimate(light, b, wo, ns, p, time, scene, uss[k - 1], uls[k - 1]);
        (s_add(prev.0, e.0), s_add(prev.1, e.1), s_add(prev.2, e.2))
    }
}

/// Whether `c` is an admissible per-light contribution of the all-lights
/// strategy: one estimate under some admissible sample pair (taken when no
/// sample array was configured), or the average of `n` estimates under
/// some admissible sample arrays.
pub open spec fn s_admissible_contribution(
    c: (int, int, int),
    light: Light,
    b: Bsdf,
    wo: Vec3,
    ns: Vec3,
    p: Vec3,
    time: Fx,
    scene: Scene,
    n: int,
) -> bool {
    ||| exists|us: Point2, ul: Point2|
        s_in_unit(us) && s_in_unit(ul) && c == #[trigger] s_light_estimate(
            light,
            b,
            wo,
            ns,
            p,
            time,
            scene,
            us,
            ul,
        )
    ||| exists|uss: Seq<Point2>, uls: Seq<Point2>|
        {
            &&& uss.len() == n && uls.len() == n && n > 0
            &&& forall|k: int| 0 <= k < n ==> s_in_unit(#[trigger] uss[k]) && s_in_unit(uls[k])
            &&& ({
                let t = #[trigger] s_estimate_fold(light, b, wo, ns, p, time, scene, uss, uls, n);
                c == (
                    s_div(t.0, fit(n * FX_ONE)),
                    s_div(t.1, fit(n * FX_ONE)),
                    s_div(t.2, fit(n * FX_ONE)),
                )
            })
        }
}

/// The componentwise sum of per-light contributions over the first `i`.
pub open spec fn s_contrib_fold(per: Seq<(int, int, int)>, i: int) -> (int, int, int)
    decreases i,
{
    if i <= 0 {
        (0, 0, 0)
    } else {
        let prev = s_contrib_fold(per, i - 1);
        (
            s_add(prev.0, per[i - 1].0),
            s_add(prev.1, per[i - 1].1),
            s_add(prev.2, per[i - 1].2),
        )
    }
}

/// The fold reads only the first `i` entries.
proof fn lemma_contrib_fold_prefix(a: Seq<(int, int, int)>, b: Seq<(int, int, int)>, i: int)
    requires
        0 <= i,
        forall|k: int| 0 <= k < i ==> a[k] == b[k],
    ensures
        s_contrib_fold(a, i) == s_contrib_fold(b, i),
    decreases i,
{
    if i > 0 {
        lemma_contrib_fold_prefix(a, b, i - 1);
    }
}

/// Direct lighting summed over every light, averaging the configured
/// number of samples per light. Whatever the draws were, the result is
/// the componentwise sum of one admissible contribution per light.
pub fn uniform_sample_all_lights(
    inter: &SurfaceInteraction,
    scene: &Scene,
    n_light_samples: Vec<usize>,
    rng: &RngGen,
) -> (r: Color3)
    requires
        scene.lights_ready(),
        inter.bsdf.is_some(),
        inter.bsdf.unwrap().wf(),
        inter.wo.is_some(),
        inter.shading.is_some(),
        n_light_samples@.len() >= scene.lights@.len(),
        forall|j: int|
            0 <= j < n_light_samples@.len() ==> (#[trigger] n_light_samples@[j]) <= 0x1000,
    ensures
        scene.lights@.len() == 0 ==> r == (Vec3 { x: 0, y: 0, z: 0 }),
        exists|per: Seq<(int, int, int)>|
            {
                &&& per.len() == scene.lights@.len()
                &&& forall|j: int|
                    0 <= j < per.len() ==> s_admissible_contribution(
                        #[trigger] per[j],
                        scene.lights@[j],
                        inter.bsdf.unwrap(),
                        inter.wo.unwrap(),
                        inter.shading.unwrap().n,
                        inter.p,
                        inter.time,
                        *scene,
                        n_light_samples@[j] as int,
                    )
                &&& ({
                    let t = #[trigger] s_contrib_fold(per, per.len() as int);
                    r.x as int == t.0 && r.y as int == t.1 && r.z as int == t.2
                })
            },
{
    let mut out_color = black();
    let mut j: usize = 0;
    let ghost mut per: Seq<(int, int, int)> = Seq::empty();
    while j < scene.lights.len()
        invariant
            scene.lights_ready(),
            inter.bsdf.is_some(),
            inter.bsdf.unwrap().wf(),
            inter.wo.is_some(),
            inter.shading.is_some(),
            n_light_samples@.len() >= scene.lights@.len(),
            forall|k: int|
                0 <= k < n_light_samples@.len() ==> (#[trigger] n_light_samples@[k]) <= 0x1000,
            j <= scene.lights@.len(),
            scene.lights@.len() == 0 ==> out_color == (Vec3 { x: 0, y: 0, z: 0 }),
            per.len() == j,
            forall|k: int|
                0 <= k < per.len() ==> s_admissible_contribution(
                    #[trigger] per[k],
                    scene.lights@[k],
                    inter.bsdf.unwrap(),
                    inter.wo.unwrap(),
                    inter.shading.unwrap().n,
                    inter.p,
                    inter.time,
                    *scene,
                    n_light_samples@[k] as int,
                ),
            ({
                let t = s_contrib_fold(per, per.len() as int);
                out_color.x as int == t.0 && out_color.y as int == t.1 && out_color.z as int
                    == t.2
            }),
        decreases scene.lights@.len() - j,
    {
        let light = &scene.lights[j];
        proof {
            assert(scene.lights@[j as int].ready());
        }
        let n_samples = n_light_samples[j];
        let u_light_array = rng.get_2d_array(n_samples);
        let u_scattering_array = rng.get_2d_array(n_samples);
        if u_light_array.len() == 0 || u_scattering_array.len() == 0 {
            let u_light = rng.uniform_sample_point2();
            let u_scattering = rng.uniform_sample_point2();
            let ed = estimate_direct(inter, u_scattering, light, u_light, scene, rng);
            proof {
                assert(s_in_unit(u_scattering) && s_in_unit(u_light));
                let c = (ed.x as int, ed.y as int, ed.z as int);
                assert(s_admissible_contribution(
                    c,
                    scene.lights@[j as int],
                    inter.bsdf.unwrap(),
                    inter.wo.unwrap(),
                    inter.shading.unwrap().n,
                    inter.p,
                    inter.time,
                    *scene,
                    n_light_samples@[j as int] as int,
                ));
                lemma_contrib_fold_prefix(per, per.push(c), j as int);
                per = per.push(c);
            }
            out_color = out_color.add(ed);
        } else {
            let mut ld = black();
            let mut k: usize = 0;
            while k < n_samples
                invariant
                    scene.lights_ready(),
                    light.ready(),
                    *light == scene.lights@[j as int],
                    inter.bsdf.is_some(),
                    inter.bsdf.unwrap().wf(),
                    inter.wo.is_some(),
                    inter.shading.is_some(),
                    j < scene.lights@.len(),
                    u_light_array@.len() == n_samples,
                    u_scattering_array@.len() == n_samples,
                    forall|i: int|
                        0 <= i < n_samples ==> 0 <= (#[trigger] u_scattering_array@[i]).x
                            < FX_ONE && 0 <= u_scattering_array@[i].y < FX_ONE,
                    forall|i: int|
                        0 <= i < n_samples ==> 0 <= (#[trigger] u_light_array@[i]).x < FX_ONE
                            && 0 <= u_light_array@[i].y < FX_ONE,
                    k <= n_samples,
                    ({
                        let t = s_estimate_fold(
                            *light,
                            inter.bsdf.unwrap(),
                            inter.wo.unwrap(),
                            inter.shading.unwrap().n,
                            inter.p,
                            inter.time,
                            *scene,
                            u_scattering_array@,
                            u_light_array@,
                            k as int,
                        );
                        ld.x as int == t.0 && ld.y as int == t.1 && ld.z as int == t.2
                    }),
                decreases n_samples - k,
            {
                ld = ld.add(
                    estimate_direct(
                        inter,
                        u_scattering_array[k],
                        light,
                        u_light_array[k],
                        scene,
                        rng,
                    ),
                );
                k = k + 1;
            }
            let avg = ld.div_scalar(fx_from_int(n_samples as i64));
            proof {
                let t = s_estimate_fold(
                    *light,
                    inter.bsdf.unwrap(),
                    inter.wo.unwrap(),
                    inter.shading.unwrap().n,
                    inter.p,
                    inter.time,
                    *scene,
                    u_scattering_array@,
                    u_light_array@,
                    n_samples as int,
                );
                assert((avg.x as int, avg.y as int, avg.z as int) == (
                    s_div(t.0, fit(n_samples as int * FX_ONE)),
                    s_div(t.1, fit(n_samples as int * FX_ONE)),
                    s_div(t.2, fit(n_samples as int * FX_ONE)),
                ));
                let c = (avg.x as int, avg.y as int, avg.z as int);
                assert(s_admissible_contribution(
                    c,
                    scene.lights@[j as int],
                    inter.bsdf.unwrap(),
                    inter.wo.unwrap(),
                    inter.shading.unwrap().n,
                    inter.p,
                    inter.time,
                    *scene,
                    n_light_samples@[j as int] as int,
                ));
                lemma_contrib_fold_prefix(per, per.push(c), j as int);
                per = per.push(c);
            }
            out_color = out_color.add(avg);
        }
        j = j + 1;
    }
    out_color
}

/// Whether both coordinates of a sample lie in the unit interval.
pub open spec fn s_in_unit(u: Point2) -> bool {
    0 <= u.x <= FX_ONE && 0 <= u.y <= FX_ONE
}

/// The direct estimate of one light at a hit under the sample pair
/// `(us, ul)`: the delta point light's exact contribution, or the
/// environment's light-and-BSDF combination, with occlusion taken against
/// the respective segment.
pub open spec fn s_light_estimate(
    light: Light,
    b: Bsdf,
    wo: Vec3,
    ns: Vec3,
    p: Vec3,
    time: Fx,
    scene: Scene,
    us: Point2,
    ul: Point2,
) -> (int, int, int) {
    let flags = BXDF_ALL & !BXDF_SPECULAR;
    match light {
        Light::Point(l) => {
            let occluded = exists|i: int|
                0 <= i < scene.objs@.len() && crate::primitive::s_prim_occludes(
                    #[trigger] scene.objs@[i],
                    s_segment(p, l.position, time),
                );
            s_direct_point(l, b, wo, ns, p, flags, occluded)
        },
        Light::ConstantInfinite(l) => {
            let es = crate::light::s_env_sample(l, ul.x as int, ul.y as int, p);
            let occluded = exists|i: int|
                0 <= i < scene.objs@.len() && crate::primitive::s_prim_occludes(
                    #[trigger] scene.objs@[i],
                    s_segment(p, es.2, time),
                );
            s_direct_env(l, b, wo, ns, p, flags, us, ul, occluded)
        },
    }
}

/// Whether `r` is the light-count-scaled direct estimate of the light at
/// `idx` under the admissible sample pair `(us, ul)`: what one call of the
/// one-light strategy produces for some draw.
pub open spec fn s_one_light_estimate(
    r: Color3,
    b: Bsdf,
    wo: Vec3,
    ns: Vec3,
    p: Vec3,
    time: Fx,
    scene: Scene,
    idx: int,
    us: Point2,
    ul: Point2,
) -> bool {
    let n = scene.lights@.len() as int;
    let t = s_light_estimate(scene.lights@[idx], b, wo, ns, p, time, scene, us, ul);
    &&& 0 <= idx < n
    &&& s_in_unit(us) && s_in_unit(ul)
    &&& r.x as int == s_mul(t.0, fit(n * FX_ONE))
    &&& r.y as int == s_mul(t.1, fit(n * FX_ONE))
    &&& r.z as int == s_mul(t.2, fit(n * FX_ONE))
}

/// Direct lighting from one light picked uniformly, scaled by the light
/// count; black when the scene has no lights. Whatever the draws were,
/// the result is the scaled estimate of some light under some admissible
/// sample pair.
pub fn uniform_sample_one_light(inter: &SurfaceInteraction, scene: &Scene, rng: &RngGen) -> (r:
    Color3)
    requires
        scene.lights_ready(),
        scene.lights@.len() <= 0x7fff_ffff,
        inter.bsdf.is_some(),
        inter.bsdf.unwrap().wf(),
        inter.wo.is_some(),
        inter.shading.is_some(),
    ensures
        scene.lights@.len() == 0 ==> r == (Vec3 { x: 0, y: 0, z: 0 }),
        scene.lights@.len() > 0 ==> exists|idx: int, us: Point2, ul: Point2|
            #[trigger] s_one_light_estimate(
                r,
                inter.bsdf.unwrap(),
                inter.wo.unwrap(),
                inter.shading.unwrap().n,
                inter.p,
                inter.time,
                *scene,
                idx,
                us,
                ul,
            ),
{
    if scene.lights.len() == 0 {
        return black();
    }
    let pick = rng.sample_0_1();
    let idx = crate::distributions::clamp_cell(pick, scene.lights.len());
    let light = &scene.lights[idx];
    let u_light = rng.uniform_sample_point2();
    let u_scattering = rng.uniform_sample_point2();
    let ed = estimate_direct(inter, u_scattering, light, u_light, scene, rng);
    let out = ed.scale(fx_from_int(scene.lights.len() as i64));
    proof {
        assert(s_one_light_estimate(
            out,
            inter.bsdf.unwrap(),
            inter.wo.unwrap(),
            inter.shading.unwrap().n,
            inter.p,
            inter.time,
            *scene,
            idx as int,
            u_scattering,
            u_light,
        ));
    }
    out
}

/// How direct lighting distributes samples across lights.
#[derive(PartialEq, Eq, Structural)]
pub enum LightStrategy {
    UniformSampleAll,
    UniformSampleOne,
}

/// An integrator that estimates direct lighting only.
pub struct DirectLightingIntegrator {
    pub strategy: LightStrategy,
    pub max_depth: usize,
    pub n_light_samples: Vec<usize>,
}

impl DirectLightingIntegrator {
    pub fn new(strategy: LightStrategy, max_depth: usize) -> (r: Self)
        ensures
            r.strategy == strategy,
            r.max_depth == max_depth,
            r.n_light_samples@.len() == 0,
    {
        Self { strategy, max_depth, n_light_samples: Vec::new() }
    }

    /// Records each light's sample count when sampling all lights.
    pub fn preprocess(&mut self, scene: &Scene, _cam: &crate::camera::SimpleCamera)
        ensures
            final(self).strategy == old(self).strategy,
            final(self).max_depth == old(self).max_depth,
            old(self).strategy == LightStrategy::UniformSampleAll ==> final(self).n_light_samples@.len()
                == old(self).n_light_samples@.len() + scene.lights@.len(),
            old(self).strategy != LightStrategy::UniformSampleAll ==> *final(self) == *old(self),
    {
        if self.strategy == LightStrategy::UniformSampleAll {
            let mut i: usize = 0;
            while i < scene.lights.len()
                invariant
                    i <= scene.lights@.len(),
                    self.strategy == old(self).strategy,
                    self.max_depth == old(self).max_depth,
                    self.n_light_samples@.len() == old(self).n_light_samples@.len() + i,
                decreases scene.lights@.len() - i,
            {
                let n = scene.lights[i].num_samples();
                self.n_light_samples.push(n);
                i = i + 1;
            }
        }
    }

    /// One direct-lighting estimate along the ray: black whenever no
    /// primitive is hit, else the configured strategy's estimate at the
    /// hit.
    pub fn li(&self, ray: &mut Ray, scene: &Scene, _depth: usize, rng: &RngGen) -> (r: Color3)
        requires
            scene.shapes_wf(),
            scene.lights_ready(),
            scene.lights@.len() <= 0x7fff_ffff,
            self.strategy == LightStrategy::UniformSampleAll ==> (
            self.n_light_samples@.len() >= scene.lights@.len() && forall|j: int|
                0 <= j < self.n_light_samples@.len() ==> (#[trigger] self.n_light_samples@[j])
                    <= 0x1000),
        ensures
            crate::scene::s_scene_misses(*scene, *old(ray)) ==> r == (Vec3 { x: 0, y: 0, z: 0 }),
    {
        match scene.intersect(ray) {
            Some(inter) => {
                if self.strategy == LightStrategy::UniformSampleAll {
                    let mut counts: Vec<usize> = Vec::new();
                    let mut i: usize = 0;
                    while i < self.n_light_samples.len()
                        invariant
                            i <= self.n_light_samples@.len(),
                            counts@ == self.n_light_samples@.subrange(0, i as int),
                        decreases self.n_light_samples@.len() - i,
                    {
                        counts.push(self.n_light_samples[i]);
                        i = i + 1;
                    }
                    proof {
                        assert(counts@ =~= self.n_light_samples@);
                    }
                    uniform_sample_all_lights(&inter, scene, counts, rng)
                } else {
                    uniform_sample_one_light(&inter, scene, rng)
                }
            },
            None => black(),
        }
    }
}

/// The per-light radiance sum an escaping ray collects, over the first `i`
/// lights.
pub open spec fn s_le_sum(lights: Seq<Light>, i: int) -> (int, int, int)
    decreases i,
{
    if i <= 0 {
        (0, 0, 0)
    } else {
        let prev = s_le_sum(lights, i - 1);
        let le = s_light_le(lights[i - 1]);
        (s_add(prev.0, le.x as int), s_add(prev.1, le.y as int), s_add(prev.2, le.z as int))
    }
}

/// Law: preprocessing does not change what escaping rays receive. The
/// lights' summed escape radiance is the same before and after the scene
/// bounds are handed to every light, so an empty-scene pixel follows end
/// to end from the lights the scene was built with.
pub proof fn lemma_escape_radiance_after_preprocess(
    lights: Seq<Light>,
    b: crate::aabb::AABB3,
    i: int,
)
    requires
        0 <= i <= lights.len(),
    ensures
        s_le_sum(
            lights.map_values(|l: Light| crate::light::s_light_with_bounds(l, b)),
            i,
        ) == s_le_sum(lights, i),
    decreases i,
{
    if i > 0 {
        lemma_escape_radiance_after_preprocess(lights, b, i - 1);
        let mapped = lights.map_values(|l: Light| crate::light::s_light_with_bounds(l, b));
        assert(mapped[i - 1] == crate::light::s_light_with_bounds(lights[i - 1], b));
        assert(s_light_le(mapped[i - 1]) == s_light_le(lights[i - 1]));
    }
}

/// The full path integrator.
pub struct PathIntegrator {
    pub max_depth: usize,
}

impl PathIntegrator {
    pub fn new(max_depth: usize) -> (r: Self)
        ensures
            r.max_depth == max_depth,
    {
        Self { max_depth }
    }

    /// One path estimate: walk bounces up to the depth limit, adding the
    /// environment on escape and direct lighting at every hit, with
    /// Russian roulette after the fourth bounce. The caller's ray is only
    /// copied, never written. Whenever no primitive is hit by the given
    /// ray (in particular in an empty scene), the result is exactly the
    /// lights' summed escape radiance.
    pub fn li(&self, original_ray: &mut Ray, scene: &Scene, _depth: usize, rng: &RngGen) -> (r:
        Color3)
        requires
            scene.shapes_wf(),
            scene.lights_ready(),
            scene.lights@.len() <= 0x7fff_ffff,
        ensures
            *final(original_ray) == *old(original_ray),
            crate::scene::s_scene_misses(*scene, *old(original_ray)) ==> ({
                let t = s_le_sum(scene.lights@, scene.lights@.len() as int);
                r.x as int == t.0 && r.y as int == t.1 && r.z as int == t.2
            }),
    {
        let mut out_color = black();
        let mut ray = *original_ray;
        let mut beta = color3(FX_ONE, FX_ONE, FX_ONE);
        let mut specular_bounce = false;
        let mut bounces: usize = 0;
        loop
            invariant_except_break
                scene.shapes_wf(),
                scene.lights_ready(),
                scene.lights@.len() <= 0x7fff_ffff,
                bounces <= self.max_depth,
                crate::scene::s_scene_misses(*scene, *old(original_ray)) ==> (bounces == 0
                    && out_color == (Vec3 { x: 0, y: 0, z: 0 }) && beta == (Vec3 {
                    x: FX_ONE,
                    y: FX_ONE,
                    z: FX_ONE,
                }) && ray == *old(original_ray)),
            ensures
                crate::scene::s_scene_misses(*scene, *old(original_ray)) ==> ({
                    let t = s_le_sum(scene.lights@, scene.lights@.len() as int);
                    out_color.x as int == t.0 && out_color.y as int == t.1 && out_color.z as int
                        == t.2
                }),
            decreases self.max_depth + 1 - bounces,
        {
            let inter_opt = scene.intersect(&mut ray);
            if bounces == 0 || specular_bounce {
                if inter_opt.is_none() {
                    let mut j: usize = 0;
                    while j < scene.lights.len()
                        invariant
                            j <= scene.lights@.len(),
                            crate::scene::s_scene_misses(*scene, *old(original_ray)) ==> (beta
                                == (Vec3 { x: FX_ONE, y: FX_ONE, z: FX_ONE }) && ({
                                let t = s_le_sum(scene.lights@, j as int);
                                out_color.x as int == t.0 && out_color.y as int == t.1
                                    && out_color.z as int == t.2
                            })),
                        decreases scene.lights@.len() - j,
                    {
                        let le = scene.lights[j].le(&ray);
                        proof {
                            crate::fixed::lemma_tdiv_scale(le.x as int);
                            crate::fixed::lemma_tdiv_scale(le.y as int);
                            crate::fixed::lemma_tdiv_scale(le.z as int);
                        }
                        out_color = out_color.add(beta.component_mul(le));
                        j = j + 1;
                    }
                }
            }
            if inter_opt.is_none() || bounces >= self.max_depth {
                break;
            }
            let mut inter = match inter_opt {
                Some(it) => it,
                None => {
                    break;
                },
            };
            inter.scatter(&mut ray, rng);
            let direct = uniform_sample_one_light(&inter, scene, rng);
            out_color = out_color.add(beta.component_mul(direct));
            let wo = ray.direction.neg();
            let u = rng.uniform_sample_point2();
            let sampled = match &inter.bsdf {
                Some(b) => b.sample_f(&wo, &u, BXDF_ALL),
                None => None,
            };
            match sampled {
                Some((f, pdf, wi, flags)) => {
                    if (f.x == 0 && f.y == 0 && f.z == 0) || pdf == 0 {
                        break;
                    }
                    let ns = match &inter.shading {
                        Some(sh) => sh.n,
                        None => crate::vector::vec3(0, 0, 0),
                    };
                    let cosw = fx_abs(wi.dot(ns));
                    beta = beta.component_mul(f.scale(cosw).div_scalar(pdf));
                    specular_bounce = flags & BXDF_SPECULAR != 0;
                    ray = inter.spawn_ray(wi);
                },
                None => {},
            }
            if bounces > 3 {
                let draw = rng.sample_0_1();
                let (stop, rescaled) = russian_roulette(beta, draw);
                if stop {
                    break;
                }
                beta = rescaled;
            }
            bounces = bounces + 1;
        }
        out_color
    }
}

} // verus!
