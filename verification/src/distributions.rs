//! Piecewise-constant 1D and 2D distributions with tabulated inverse CDFs,
//! and the closed-form hemisphere, sphere, disk, triangle and cosine
//! samplers.

use vstd::prelude::*;

use crate::common::{FX_PI, FX_PI_2, FX_PI_4, FX_TAU};
use crate::fixed::{
    abs_int, fit, max_int, min_int, s_add, s_div, s_mul, s_sqrt, s_sub, tdiv, Fx,
    fx_add, fx_div, fx_from_int, fx_max, fx_mul, fx_sqrt, fx_sub, FX_ONE,
    };
use crate::trig::{cos_sin, s_cos_sin};
use crate::vector::{point2, vec3, Point2, Vec2, Vec3};

verus! {

/// The raw (unnormalized) CDF of a function table: the running sum of
/// `f[k] / n`, where `n` is the table length.
pub open spec fn s_cdf_raw(f: Seq<i64>, i: int) -> int
    decreases i,
{
    if i <= 0 {
        0
    } else {
        s_add(s_cdf_raw(f, i - 1), s_div(f[i - 1] as int, fit(f.len() * FX_ONE)))
    }
}

/// The function's integral: the last raw CDF entry.
pub open spec fn s_func_int(f: Seq<i64>) -> int {
    s_cdf_raw(f, f.len() as int)
}

/// The normalized CDF entry: zero at index zero; otherwise the raw entry
/// over the integral, or `i / n` when the integral vanishes.
pub open spec fn s_cdf_final(f: Seq<i64>, i: int) -> int {
    if i == 0 {
        0
    } else if s_func_int(f) == 0 {
        s_div(fit(i * FX_ONE), fit(f.len() * FX_ONE))
    } else {
        s_div(s_cdf_raw(f, i), s_func_int(f))
    }
}

/// The sampling offset: the largest index not above `i` whose CDF entry is
/// at most `u`, or zero when there is none.
pub open spec fn s_offset(cdf: Seq<i64>, u: int, i: int) -> int
    decreases i,
{
    if i <= 0 {
        0
    } else if cdf[i] <= u {
        i
    } else {
        s_offset(cdf, u, i - 1)
    }
}

/// Mirror of the concentric square-to-disk mapping, as a coordinate pair.
pub open spec fn s_concentric(u: Point2) -> (int, int) {
    let ox = s_sub(s_mul(2 * FX_ONE as int, u.x as int), FX_ONE as int);
    let oy = s_sub(s_mul(2 * FX_ONE as int, u.y as int), FX_ONE as int);
    if ox == 0 && oy == 0 {
        (0, 0)
    } else {
        let theta = if abs_int(ox) > abs_int(oy) {
            s_mul(FX_PI_4 as int, s_div(oy, ox))
        } else {
            s_sub(FX_PI_2 as int, s_mul(FX_PI_4 as int, s_div(ox, oy)))
        };
        let rad = if abs_int(ox) > abs_int(oy) {
            ox
        } else {
            oy
        };
        let cs = s_cos_sin(theta as i64 as int);
        (s_mul(rad, cs.0), s_mul(rad, cs.1))
    }
}

/// Mirror of the uniform sphere sampler: `z = 1 - 2 u.x`, the rest on the
/// circle of radius `sqrt(1 - z^2)` at angle `2 pi u.y`.
pub open spec fn s_uniform_sphere(u: Point2) -> Vec3 {
    let z = s_sub(FX_ONE as int, s_mul(2 * FX_ONE as int, u.x as int));
    let rad = s_sqrt(max_int(0, s_sub(FX_ONE as int, s_mul(z, z))));
    let cs = s_cos_sin(s_mul(FX_TAU as int, u.y as int) as i64 as int);
    Vec3 { x: s_mul(rad, cs.0) as i64, y: s_mul(rad, cs.1) as i64, z: z as i64 }
}

/// Mirror of the uniform triangle sampler:
/// `(1 - sqrt(u.x), u.y * sqrt(u.x))`.
pub open spec fn s_uniform_triangle(u: Point2) -> Vec2 {
    Vec2 {
        x: s_sub(FX_ONE as int, s_sqrt(u.x as int)) as i64,
        y: s_mul(u.y as int, s_sqrt(u.x as int)) as i64,
    }
}

/// A piecewise-constant 1D distribution: the function table, its
/// normalized CDF (one entry longer), and its integral.
pub struct Distribution1D {
    pub func: Vec<Fx>,
    pub cdf: Vec<Fx>,
    pub func_int: Fx,
}

impl Distribution1D {
    /// Structural coherence: the CDF has one entry per function cell plus
    /// the leading zero, and the table is small enough to index.
    pub open spec fn wf(self) -> bool {
        &&& self.func@.len() >= 1
        &&& self.cdf@.len() == self.func@.len() + 1
        &&& self.func@.len() <= 0x7fff_ffff
    }

    /// Builds the distribution over `n` cells of `f`: a running sum of
    /// `f[k] / n`, normalized by the integral (or to a uniform ramp when
    /// the integral is zero).
    pub fn new(f: &[Fx], n: usize) -> (r: Self)
        requires
            n == f@.len(),
            1 <= n <= 0x7fff_ffff,
        ensures
            r.wf(),
            r.func@ == f@,
            r.func_int as int == s_func_int(f@),
            forall|i: int| 0 <= i <= n ==> #[trigger] r.cdf@[i] as int == s_cdf_final(f@, i),
    {
        let mut func: Vec<Fx> = Vec::new();
        let mut k: usize = 0;
        while k < n
            invariant
                k <= n,
                n == f@.len(),
                func@ =~= f@.subrange(0, k as int),
            decreases n - k,
        {
            func.push(f[k]);
            k = k + 1;
        }
        proof {
            assert(func@ =~= f@);
        }
        let nfx = fx_from_int(n as i64);
        let mut cdf: Vec<Fx> = Vec::new();
        cdf.push(0);
        let mut i: usize = 1;
        while i <= n
            invariant
                1 <= i <= n + 1,
                n == f@.len(),
                n <= 0x7fff_ffff,
                func@ == f@,
                nfx as int == fit(n as int * FX_ONE),
                cdf@.len() == i,
                forall|j: int| 0 <= j < i ==> #[trigger] cdf@[j] as int == s_cdf_raw(f@, j),
            decreases n + 1 - i,
        {
            let prev = cdf[i - 1];
            cdf.push(fx_add(prev, fx_div(func[i - 1], nfx)));
            i = i + 1;
        }
        let func_int = cdf[n];
        let mut out_cdf: Vec<Fx> = Vec::new();
        out_cdf.push(0);
        let mut i2: usize = 1;
        while i2 <= n
            invariant
                1 <= i2 <= n + 1,
                n == f@.len(),
                n <= 0x7fff_ffff,
                nfx as int == fit(n as int * FX_ONE),
                cdf@.len() == n + 1,
                forall|j: int| 0 <= j <= n ==> #[trigger] cdf@[j] as int == s_cdf_raw(f@, j),
                func_int as int == s_func_int(f@),
                out_cdf@.len() == i2,
                forall|j: int| 0 <= j < i2 ==> #[trigger] out_cdf@[j] as int == s_cdf_final(f@, j),
            decreases n + 1 - i2,
        {
            if func_int == 0 {
                out_cdf.push(fx_div(fx_from_int(i2 as i64), nfx));
            } else {
                out_cdf.push(fx_div(cdf[i2], func_int));
            }
            i2 = i2 + 1;
        }
        Self { func, cdf: out_cdf, func_int }
    }

    /// The number of cells.
    pub fn count(&self) -> (r: usize)
        ensures
            r == self.func@.len(),
    {
        self.func.len()
    }

    /// Locates the sampling offset for `u`: the last CDF entry at most `u`.
    fn find_offset(&self, u: Fx) -> (r: usize)
        requires
            self.wf(),
        ensures
            r as int == s_offset(self.cdf@, u as int, self.func@.len() - 1),
            r < self.func@.len(),
    {
        let mut i: usize = self.func.len() - 1;
        while i > 0
            invariant
                self.wf(),
                i < self.func@.len(),
                s_offset(self.cdf@, u as int, self.func@.len() - 1) == s_offset(
                    self.cdf@,
                    u as int,
                    i as int,
                ),
            decreases i,
        {
            if self.cdf[i] <= u {
                return i;
            }
            i = i - 1;
        }
        i
    }

    /// Samples the discrete cell under `u`: the relative function value of
    /// the located cell and the remainder rescaled within it.
    pub fn sample_discrete(&self, u: Fx) -> (r: Option<(Fx, Fx)>)
        requires
            self.wf(),
        ensures
            r.is_some(),
            ({
                let off = s_offset(self.cdf@, u as int, self.func@.len() - 1);
                let v = r.unwrap();
                v.0 as int == s_div(
                    self.func@[off] as int,
                    s_div(self.func_int as int, fit(self.func@.len() * FX_ONE)),
                ) && v.1 as int == s_div(
                    s_sub(u as int, self.cdf@[off] as int),
                    s_sub(self.cdf@[off + 1] as int, self.cdf@[off] as int),
                )
            }),
    {
        let off = self.find_offset(u);
        let value = fx_div(self.func[off], fx_div(self.func_int, fx_from_int(self.func.len() as i64)));
        let remainder = fx_div(fx_sub(u, self.cdf[off]), fx_sub(self.cdf[off + 1], self.cdf[off]));
        Some((value, remainder))
    }

    /// The discrete probability of one cell.
    pub fn discrete_pdf(&self, index: usize) -> (r: Fx)
        requires
            self.wf(),
            index < self.func@.len(),
        ensures
            r as int == s_div(
                self.func@[index as int] as int,
                s_mul(self.func_int as int, fit(self.func@.len() * FX_ONE)),
            ),
    {
        fx_div(self.func[index], fx_mul(self.func_int, fx_from_int(self.func.len() as i64)))
    }

    /// Samples the continuous inverse CDF at `u`: the rescaled position in
    /// `[0, 1]`, the probability density there, and the cell index.
    pub fn sample_continuous(&self, u: Fx) -> (r: Option<(Fx, Fx, usize)>)
        requires
            self.wf(),
        ensures
            r.is_some(),
            ({
                let off = s_offset(self.cdf@, u as int, self.func@.len() - 1);
                let gap = s_sub(self.cdf@[off + 1] as int, self.cdf@[off] as int);
                let du0 = s_sub(u as int, self.cdf@[off] as int);
                let du = if gap > 0 {
                    s_div(du0, gap)
                } else {
                    du0
                };
                let v = r.unwrap();
                v.0 as int == s_div(s_add(fit(off * FX_ONE), du), fit(self.func@.len() * FX_ONE))
                    && v.1 as int == s_div(self.func@[off] as int, self.func_int as int) && v.2
                    == off
            }),
    {
        let off = self.find_offset(u);
        let mut du = fx_sub(u, self.cdf[off]);
        let gap = fx_sub(self.cdf[off + 1], self.cdf[off]);
        if gap > 0 {
            du = fx_div(du, gap);
        }
        let pdf = fx_div(self.func[off], self.func_int);
        let value = fx_div(fx_add(fx_from_int(off as i64), du), fx_from_int(self.func.len() as i64));
        Some((value, pdf, off))
    }

    /// A direction on the upper hemisphere: `z = u.x`, the rest on the
    /// circle of radius `sqrt(1 - z^2)` at angle `2 pi u.y`.
    pub fn uniform_sample_hemisphere(u: &Point2) -> (r: Vec3)
        ensures
            ({
                let z = u.x as int;
                let rad = s_sqrt(max_int(0, s_sub(FX_ONE as int, s_mul(z, z))));
                let cs = s_cos_sin(s_mul(FX_TAU as int, u.y as int) as i64 as int);
                r.x as int == s_mul(rad, cs.0) && r.y as int == s_mul(rad, cs.1) && r.z == u.x
            }),
            u.x >= 0 ==> r.z >= 0,
    {
        let z = u.x;
        let rad = fx_sqrt(fx_max(0, fx_sub(FX_ONE, fx_mul(z, z))));
        let phi = fx_mul(FX_TAU, u.y);
        let (c, s) = cos_sin(phi);
        vec3(fx_mul(rad, c), fx_mul(rad, s), z)
    }

    /// The constant density of the uniform hemisphere sampler.
    pub fn uniform_hemisphere_pdf() -> (r: Fx)
        ensures
            r as int == s_div(FX_ONE as int, FX_TAU as int),
    {
        fx_div(FX_ONE, FX_TAU)
    }

    /// A direction on the full sphere: `z = 1 - 2 u.x`, the rest as for the
    /// hemisphere.
    pub fn uniform_sample_sphere(u: &Point2) -> (r: Vec3)
        ensures
            r == s_uniform_sphere(*u),
    {
        let z = fx_sub(FX_ONE, fx_mul(2 * FX_ONE, u.x));
        let rad = fx_sqrt(fx_max(0, fx_sub(FX_ONE, fx_mul(z, z))));
        let phi = fx_mul(FX_TAU, u.y);
        let (c, s) = cos_sin(phi);
        vec3(fx_mul(rad, c), fx_mul(rad, s), z)
    }

    /// The constant density of the uniform sphere sampler.
    pub fn uniform_sphere_pdf() -> (r: Fx)
        ensures
            r as int == s_div(FX_ONE as int, 2 * FX_TAU as int),
    {
        fx_div(FX_ONE, 2 * FX_TAU)
    }

    /// A point on the unit disk by polar inversion: radius `sqrt(u.x)`,
    /// angle `2 pi u.y`.
    pub fn uniform_sample_disk(u: &Point2) -> (r: Point2)
        ensures
            ({
                let rad = s_sqrt(u.x as int);
                let cs = s_cos_sin(s_mul(FX_TAU as int, u.y as int) as i64 as int);
                r.x as int == s_mul(rad, cs.0) && r.y as int == s_mul(rad, cs.1)
            }),
    {
        let rad = fx_sqrt(u.x);
        let theta = fx_mul(FX_TAU, u.y);
        let (c, s) = cos_sin(theta);
        point2(fx_mul(rad, c), fx_mul(rad, s))
    }

    /// Barycentric coordinates uniform over a triangle:
    /// `(1 - sqrt(u.x), u.y * sqrt(u.x))`.
    pub fn uniform_sample_triangle(u: &Point2) -> (r: Point2)
        ensures
            r == s_uniform_triangle(*u),
    {
        let su0 = fx_sqrt(u.x);
        point2(fx_sub(FX_ONE, su0), fx_mul(u.y, su0))
    }

    /// The concentric square-to-disk mapping: the square is folded onto
    /// polar wedges, which preserves relative measure. The result always
    /// lies in the closed unit disk.
    pub fn concentric_sample_disk(u: &Point2) -> (r: Point2)
        requires
            0 <= u.x <= FX_ONE,
            0 <= u.y <= FX_ONE,
        ensures
            (r.x as int, r.y as int) == s_concentric(*u),
            r.x as int * r.x as int + r.y as int * r.y as int <= FX_ONE as int * FX_ONE as int,
    {
        let ox = fx_sub(fx_mul(2 * FX_ONE, u.x), FX_ONE);
        let oy = fx_sub(fx_mul(2 * FX_ONE, u.y), FX_ONE);
        proof {
            crate::fixed::lemma_mul_double(u.x as int);
            crate::fixed::lemma_mul_double(u.y as int);
        }
        if ox == 0 && oy == 0 {
            proof {
                crate::fixed::lemma_sq_abs(0);
            }
            return point2(0, 0);
        }
        let ax = crate::fixed::fx_abs(ox);
        let ay = crate::fixed::fx_abs(oy);
        let (theta, rad) = if ax > ay {
            (fx_mul(FX_PI_4, fx_div(oy, ox)), ox)
        } else {
            (fx_sub(FX_PI_2, fx_mul(FX_PI_4, fx_div(ox, oy))), oy)
        };
        let (c, s) = cos_sin(theta);
        let x = fx_mul(rad, c);
        let y = fx_mul(rad, s);
        proof {
            lemma_scaled_pair_in_disk(rad as int, c as int, s as int, x as int, y as int);
        }
        point2(x, y)
    }

    /// A cosine-weighted direction on the upper hemisphere: a concentric
    /// disk point lifted by `z = sqrt(1 - x^2 - y^2)`; `z` lies in
    /// `[0, 1]`.
    pub fn cosine_sample_hemisphere(u: &Point2) -> (r: Vec3)
        requires
            0 <= u.x <= FX_ONE,
            0 <= u.y <= FX_ONE,
        ensures
            0 <= r.z <= FX_ONE,
            (r.x as int, r.y as int) == s_concentric(*u),
            r.z as int == s_sqrt(
                max_int(
                    0,
                    s_sub(
                        s_sub(FX_ONE as int, s_mul(r.x as int, r.x as int)),
                        s_mul(r.y as int, r.y as int),
                    ),
                ),
            ),
            r.x as int * r.x as int + r.y as int * r.y as int <= FX_ONE as int * FX_ONE as int,
    {
        let d = Distribution1D::concentric_sample_disk(u);
        proof {
            crate::fixed::lemma_sq_abs(d.x as int);
            crate::fixed::lemma_sq_abs(d.y as int);
            vstd::arithmetic::div_mod::lemma_div_pos_is_pos(d.x as int * d.x as int, 65536);
            vstd::arithmetic::div_mod::lemma_div_pos_is_pos(d.y as int * d.y as int, 65536);
        }
        let m = fx_max(0, fx_sub(fx_sub(FX_ONE, fx_mul(d.x, d.x)), fx_mul(d.y, d.y)));
        let z = fx_sqrt(m);
        proof {
            assert(0 <= m <= FX_ONE);
            if m > 0 {
                crate::fixed::lemma_sqrt_floor(m as int * 65536);
                assert(65536 * 65536 >= m as int * 65536);
                crate::fixed::lemma_sq_le(z as int, 65536);
            }
        }
        vec3(d.x, d.y, z)
    }

    /// The cosine-hemisphere density: `cos(theta) / pi`.
    pub fn cosine_hemisphere_pdf(cos_theta: Fx) -> (r: Fx)
        ensures
            r as int == s_div(cos_theta as int, FX_PI as int),
    {
        fx_div(cos_theta, FX_PI)
    }
}

/// A truncated scaled product shrinks in magnitude, so a disk point built
/// from a radius within one and a cosine/sine pair stays in the unit disk.
proof fn lemma_scaled_pair_in_disk(rad: int, c: int, s: int, x: int, y: int)
    requires
        abs_int(rad) <= FX_ONE as int,
        c * c + s * s <= FX_ONE as int * FX_ONE as int,
        abs_int(c) <= FX_ONE as int,
        abs_int(s) <= FX_ONE as int,
        x == s_mul(rad, c),
        y == s_mul(rad, s),
    ensures
        x * x + y * y <= FX_ONE as int * FX_ONE as int,
{
    let sc = FX_ONE as int;
    crate::fixed::lemma_abs_mul(rad, c);
    crate::fixed::lemma_abs_mul(rad, s);
    crate::fixed::lemma_sq_abs(x);
    crate::fixed::lemma_sq_abs(y);
    crate::fixed::lemma_sq_abs(c);
    crate::fixed::lemma_sq_abs(s);
    assert(abs_int(rad * c) <= sc * sc && abs_int(rad * s) <= sc * sc) by (nonlinear_arith)
        requires
            abs_int(rad) <= sc,
            abs_int(c) <= sc,
            abs_int(s) <= sc,
            abs_int(rad * c) == abs_int(rad) * abs_int(c),
            abs_int(rad * s) == abs_int(rad) * abs_int(s),
            sc == 65536,
    ;
    lemma_tdiv_mag(rad * c, sc);
    lemma_tdiv_mag(rad * s, sc);
    assert(x == tdiv(rad * c, sc) && y == tdiv(rad * s, sc));
    assert(abs_int(x) <= abs_int(c)) by (nonlinear_arith)
        requires
            abs_int(x) * sc <= abs_int(rad * c),
            abs_int(rad * c) == abs_int(rad) * abs_int(c),
            abs_int(rad) <= sc,
            abs_int(x) >= 0 && abs_int(c) >= 0 && abs_int(rad) >= 0,
            sc == 65536,
    ;
    assert(abs_int(y) <= abs_int(s)) by (nonlinear_arith)
        requires
            abs_int(y) * sc <= abs_int(rad * s),
            abs_int(rad * s) == abs_int(rad) * abs_int(s),
            abs_int(rad) <= sc,
            abs_int(y) >= 0 && abs_int(s) >= 0 && abs_int(rad) >= 0,
            sc == 65536,
    ;
    assert(abs_int(x) * abs_int(x) + abs_int(y) * abs_int(y) <= sc * sc) by (nonlinear_arith)
        requires
            abs_int(x) <= abs_int(c),
            abs_int(y) <= abs_int(s),
            abs_int(c) * abs_int(c) + abs_int(s) * abs_int(s) <= sc * sc,
            abs_int(x) >= 0 && abs_int(y) >= 0 && abs_int(c) >= 0 && abs_int(s) >= 0,
    ;
}

proof fn lemma_tdiv_mag(a: int, d: int)
    requires
        d > 0,
    ensures
        abs_int(tdiv(a, d)) * d <= abs_int(a),
        abs_int(tdiv(a, d)) == abs_int(a) / d,
{
    vstd::arithmetic::div_mod::lemma_fundamental_div_mod(abs_int(a), d);
    vstd::arithmetic::div_mod::lemma_div_pos_is_pos(abs_int(a), d);
    assert((abs_int(a) / d) * d <= abs_int(a)) by (nonlinear_arith)
        requires
            abs_int(a) == d * (abs_int(a) / d) + abs_int(a) % d,
            abs_int(a) % d >= 0,
    ;
}

/// A 2D distribution: one 1D conditional per row and a marginal over the
/// row integrals.
pub struct Distribution2D {
    pub p_conditional_v: Vec<Distribution1D>,
    pub p_marginal: Distribution1D,
}

impl Distribution2D {
    /// Structural coherence of the parts.
    pub open spec fn wf(self) -> bool {
        &&& self.p_marginal.wf()
        &&& self.p_conditional_v@.len() == self.p_marginal.func@.len()
        &&& forall|v: int|
            0 <= v < self.p_conditional_v@.len() ==> (#[trigger] self.p_conditional_v@[v]).wf()
    }

    /// Builds one conditional distribution per row of `func` and a marginal
    /// distribution over the rows' integrals.
    pub fn new(func: &Vec<Vec<Fx>>) -> (r: Self)
        requires
            1 <= func@.len() <= 0x7fff_ffff,
            forall|v: int| 0 <= v < func@.len() ==> 1 <= (#[trigger] func@[v])@.len() <= 0x7fff_ffff,
        ensures
            r.wf(),
            r.p_conditional_v@.len() == func@.len(),
            forall|v: int|
                0 <= v < func@.len() ==> (#[trigger] r.p_conditional_v@[v]).func@ == func@[v]@,
            forall|v: int|
                0 <= v < func@.len() ==> (#[trigger] r.p_marginal.func@[v]) as int == s_func_int(
                    func@[v]@,
                ),
            r.p_marginal.func@.len() == func@.len(),
    {
        let mut p_conditional_v: Vec<Distribution1D> = Vec::new();
        let mut v: usize = 0;
        while v < func.len()
            invariant
                v <= func@.len(),
                func@.len() <= 0x7fff_ffff,
                forall|k: int| 0 <= k < func@.len() ==> 1 <= (#[trigger] func@[k])@.len() <= 0x7fff_ffff,
                p_conditional_v@.len() == v,
                forall|k: int|
                    0 <= k < v ==> (#[trigger] p_conditional_v@[k]).func@ == func@[k]@
                        && p_conditional_v@[k].wf() && p_conditional_v@[k].func_int as int
                        == s_func_int(func@[k]@),
            decreases func@.len() - v,
        {
            let row = &func[v];
            p_conditional_v.push(Distribution1D::new(row.as_slice(), row.len()));
            v = v + 1;
        }
        let mut marginal_func: Vec<Fx> = Vec::new();
        let mut k: usize = 0;
        while k < p_conditional_v.len()
            invariant
                k <= p_conditional_v@.len(),
                p_conditional_v@.len() == func@.len(),
                func@.len() <= 0x7fff_ffff,
                forall|j: int|
                    0 <= j < func@.len() ==> (#[trigger] p_conditional_v@[j]).func@ == func@[j]@
                        && p_conditional_v@[j].wf() && p_conditional_v@[j].func_int as int
                        == s_func_int(func@[j]@),
                marginal_func@.len() == k,
                forall|j: int|
                    0 <= j < k ==> #[trigger] marginal_func@[j] as int == s_func_int(func@[j]@),
            decreases p_conditional_v@.len() - k,
        {
            marginal_func.push(p_conditional_v[k].func_int);
            k = k + 1;
        }
        let n = marginal_func.len();
        let p_marginal = Distribution1D::new(marginal_func.as_slice(), n);
        Self { p_conditional_v, p_marginal }
    }

    /// The sampled column position, row position and joint density, at the
    /// spec level.
    pub open spec fn spec_sample(self, ux: int, uy: int) -> (int, int, int) {
        let nv = self.p_marginal.func@.len() as int;
        let mo = s_offset(self.p_marginal.cdf@, uy, nv - 1);
        let mgap = s_sub(self.p_marginal.cdf@[mo + 1] as int, self.p_marginal.cdf@[mo] as int);
        let mdu0 = s_sub(uy, self.p_marginal.cdf@[mo] as int);
        let mdu = if mgap > 0 {
            s_div(mdu0, mgap)
        } else {
            mdu0
        };
        let d1 = s_div(s_add(fit(mo * FX_ONE), mdu), fit(nv * FX_ONE));
        let pdf1 = s_div(self.p_marginal.func@[mo] as int, self.p_marginal.func_int as int);
        let row = self.p_conditional_v@[mo];
        let nu = row.func@.len() as int;
        let co = s_offset(row.cdf@, ux, nu - 1);
        let cgap = s_sub(row.cdf@[co + 1] as int, row.cdf@[co] as int);
        let cdu0 = s_sub(ux, row.cdf@[co] as int);
        let cdu = if cgap > 0 {
            s_div(cdu0, cgap)
        } else {
            cdu0
        };
        let d0 = s_div(s_add(fit(co * FX_ONE), cdu), fit(nu * FX_ONE));
        let pdf0 = s_div(row.func@[co] as int, row.func_int as int);
        (d0, d1, s_mul(pdf0, pdf1))
    }

    /// Samples a row from the marginal, then a column from that row's
    /// conditional; the density is the product of the two.
    pub fn sample_continuous(&self, u: &Point2) -> (r: Option<(Point2, Fx)>)
        requires
            self.wf(),
        ensures
            r.is_some(),
            ({
                let t = self.spec_sample(u.x as int, u.y as int);
                let out = r.unwrap();
                out.0.x as int == t.0 && out.0.y as int == t.1 && out.1 as int == t.2
            }),
    {
        let m = self.p_marginal.sample_continuous(u.y);
        let (d1, pdf1, v) = match m {
            Some(t) => t,
            None => {
                return None;
            },
        };
        proof {
            lemma_offset_in_range(
                self.p_marginal.cdf@,
                u.y as int,
                self.p_marginal.func@.len() - 1,
            );
        }
        let c = self.p_conditional_v[v].sample_continuous(u.x);
        match c {
            Some((d0, pdf0, _)) => Some((point2(d0, d1), fx_mul(pdf0, pdf1))),
            None => None,
        }
    }

    /// The density at a point of the unit square, at the spec level: the
    /// cell's function value over the total integral.
    pub open spec fn spec_pdf(self, px: int, py: int) -> int {
        let nu = self.p_conditional_v@[0].func@.len() as int;
        let nv = self.p_marginal.func@.len() as int;
        let iu = max_int(0, min_int(tdiv(px * nu, FX_ONE as int), nu - 1));
        let iv = max_int(0, min_int(tdiv(py * nv, FX_ONE as int), nv - 1));
        s_div(self.p_conditional_v@[iv].func@[iu] as int, self.p_marginal.func_int as int)
    }

    /// The density at a point of the unit square: the cell's function value
    /// over the total integral.
    pub fn pdf(&self, p: Point2) -> (r: Fx)
        requires
            self.wf(),
            forall|v: int|
                0 <= v < self.p_conditional_v@.len() ==> (
                #[trigger] self.p_conditional_v@[v]).func@.len()
                    == self.p_conditional_v@[0].func@.len(),
        ensures
            r as int == self.spec_pdf(p.x as int, p.y as int),
    {
        let nu = self.p_conditional_v[0].func.len();
        let nv = self.p_marginal.func.len();
        let iu = clamp_cell(p.x, nu);
        let iv = clamp_cell(p.y, nv);
        fx_div(self.p_conditional_v[iv].func[iu], self.p_marginal.func_int)
    }
}

proof fn lemma_offset_in_range(cdf: Seq<i64>, u: int, i: int)
    requires
        i >= 0,
    ensures
        0 <= s_offset(cdf, u, i) <= i,
    decreases i,
{
    if i > 0 && !(cdf[i] <= u) {
        lemma_offset_in_range(cdf, u, i - 1);
    }
}

/// The cell index of a unit-interval coordinate in an `n`-cell table,
/// clamped into range: `floor(x * n)`.
pub fn clamp_cell(x: Fx, n: usize) -> (r: usize)
    requires
        1 <= n <= 0x7fff_ffff,
    ensures
        r as int == max_int(0, min_int(tdiv(x as int * n as int, FX_ONE as int), n - 1)),
        r < n,
{
    proof {
        crate::fixed::lemma_mul_abs_bound(x as int, n as int, 0x8000_0000_0000_0000, 0x8000_0000);
    }
    let prod: i128 = (x as i128) * (n as i128);
    let neg = prod < 0;
    let mag = crate::fixed::mag_i128(prod);
    let q = mag / (FX_ONE as u128);
    if neg {
        0
    } else if q >= n as u128 {
        n - 1
    } else {
        proof {
            assert(q < 0x8000_0000);
        }
        q as usize
    }
}

} // verus!
