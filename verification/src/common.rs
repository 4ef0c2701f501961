//! Shared numeric helpers: interpolation, the quadratic solver used by the
//! sphere intersection, a 2x2 linear solver, and angle conversions.

use vstd::prelude::*;

use crate::fixed::{
    s_add, s_div, s_mul, s_neg, s_sqrt, s_sub, min_int, max_int, Fx, fx_add, fx_div, fx_mul,
    fx_neg, fx_sqrt, fx_sub, FX_HALF, FX_ONE,
};

verus! {

/// Pi in fixed point: the nearest scalar to the real number.
pub const FX_PI: i64 = 205887;

/// 2 * pi in fixed point.
pub const FX_TAU: i64 = 411775;

/// Pi / 2 in fixed point.
pub const FX_PI_2: i64 = 102944;

/// Pi / 4 in fixed point.
pub const FX_PI_4: i64 = 51472;

/// Intersection robustness bound. Far hits are dilated by
/// `gamma(n) = n*eps/(1 - n*eps)` with `eps = 1e-10`; that is below this
/// scalar's resolution, so the dilation is exactly zero here.
pub const EPSILON: i64 = 0;

/// Mirror of `lerp`: `(1 - t) * v1 + t * v2`.
pub open spec fn s_lerp(t: int, v1: int, v2: int) -> int {
    s_add(s_mul(s_sub(FX_ONE as int, t), v1), s_mul(t, v2))
}

/// Linear interpolation by parameter `t`.
pub fn lerp(t: Fx, v1: Fx, v2: Fx) -> (r: Fx)
    ensures
        r as int == s_lerp(t as int, v1 as int, v2 as int),
{
    fx_add(fx_mul(fx_sub(FX_ONE, t), v1), fx_mul(t, v2))
}

/// Discriminant `b^2 - 4ac` of the quadratic `a t^2 + b t + c`.
pub open spec fn s_discrim(a: int, b: int, c: int) -> int {
    s_sub(s_mul(b, b), s_mul(s_mul(4 * FX_ONE as int, a), c))
}

/// The Gauss-stable intermediate `q`: `-1/2 (b -+ sqrt(discrim))`, with the
/// sign chosen by the sign of `b`.
pub open spec fn s_quad_q(a: int, b: int, c: int) -> int {
    let sd = s_sqrt(s_discrim(a, b, c));
    if b < 0 {
        s_mul(s_neg(FX_HALF as int), s_sub(b, sd))
    } else {
        s_mul(s_neg(FX_HALF as int), s_add(b, sd))
    }
}

/// First candidate root `q / a`.
pub open spec fn s_quad_r0(a: int, b: int, c: int) -> int {
    s_div(s_quad_q(a, b, c), a)
}

/// Second candidate root `c / q`.
pub open spec fn s_quad_r1(a: int, b: int, c: int) -> int {
    s_div(c, s_quad_q(a, b, c))
}

/// Solves `a t^2 + b t + c = 0` in the Gauss-stable form. Returns the two
/// roots in ascending order, or `None` when the discriminant is negative.
pub fn quadratic(a: Fx, b: Fx, c: Fx) -> (r: Option<(Fx, Fx)>)
    ensures
        r.is_some() <==> s_discrim(a as int, b as int, c as int) >= 0,
        r.is_some() ==> r.unwrap().0 as int == min_int(
            s_quad_r0(a as int, b as int, c as int),
            s_quad_r1(a as int, b as int, c as int),
        ),
        r.is_some() ==> r.unwrap().1 as int == max_int(
            s_quad_r0(a as int, b as int, c as int),
            s_quad_r1(a as int, b as int, c as int),
        ),
{
    let discrim = fx_sub(fx_mul(b, b), fx_mul(fx_mul(4 * FX_ONE, a), c));
    if discrim < 0 {
        return None;
    }
    let sqrt_d = fx_sqrt(discrim);
    let q = if b < 0 {
        fx_mul(fx_neg(FX_HALF), fx_sub(b, sqrt_d))
    } else {
        fx_mul(fx_neg(FX_HALF), fx_add(b, sqrt_d))
    };
    let t0 = fx_div(q, a);
    let t1 = fx_div(c, q);
    if t0 > t1 {
        Some((t1, t0))
    } else {
        Some((t0, t1))
    }
}

/// Determinant of the 2x2 system matrix.
pub open spec fn s_det2(a00: int, a01: int, a10: int, a11: int) -> int {
    s_sub(s_mul(a00, a11), s_mul(a01, a10))
}

/// Solves the 2x2 system `A x = b` by Cramer's rule; `None, None` when the
/// determinant vanishes.
pub fn linear_system(a: [[Fx; 2]; 2], b: [Fx; 2]) -> (r: (Option<Fx>, Option<Fx>))
    ensures
        ({
            let det = s_det2(a[0][0] as int, a[0][1] as int, a[1][0] as int, a[1][1] as int);
            if det == 0 {
                r.0.is_none() && r.1.is_none()
            } else {
                r.0.is_some() && r.1.is_some()
                    && r.0.unwrap() as int == s_div(
                    s_sub(s_mul(a[1][1] as int, b[0] as int), s_mul(a[0][1] as int, b[1] as int)),
                    det,
                )
                    && r.1.unwrap() as int == s_div(
                    s_sub(s_mul(a[0][0] as int, b[1] as int), s_mul(a[1][0] as int, b[0] as int)),
                    det,
                )
            }
        }),
{
    let det = fx_sub(fx_mul(a[0][0], a[1][1]), fx_mul(a[0][1], a[1][0]));
    if det == 0 {
        return (None, None);
    }
    let x0 = fx_div(fx_sub(fx_mul(a[1][1], b[0]), fx_mul(a[0][1], b[1])), det);
    let x1 = fx_div(fx_sub(fx_mul(a[0][0], b[1]), fx_mul(a[1][0], b[0])), det);
    (Some(x0), Some(x1))
}

/// Mirror of `gamma`: `(n * eps) / (1 - n * eps)`.
pub open spec fn s_gamma(n: int) -> int {
    s_div(s_mul(n, EPSILON as int), s_sub(FX_ONE as int, s_mul(n, EPSILON as int)))
}

/// Conservative floating-error dilation bound; identically zero at this
/// scalar's resolution (see `EPSILON`).
pub fn gamma(n: Fx) -> (r: Fx)
    ensures
        r as int == s_gamma(n as int),
{
    fx_div(fx_mul(n, EPSILON), fx_sub(FX_ONE, fx_mul(n, EPSILON)))
}

/// Mirror of `deg2rad`.
pub open spec fn s_deg2rad(deg: int) -> int {
    s_mul(s_div(deg, 180 * FX_ONE as int), FX_PI as int)
}

/// Degrees to radians.
pub fn deg2rad(deg: Fx) -> (r: Fx)
    ensures
        r as int == s_deg2rad(deg as int),
{
    fx_mul(fx_div(deg, 180 * FX_ONE), FX_PI)
}

/// Mirror of `rad2deg`.
pub open spec fn s_rad2deg(rad: int) -> int {
    s_div(s_mul(rad, 180 * FX_ONE as int), FX_PI as int)
}

/// Radians to degrees.
pub fn rad2deg(rad: Fx) -> (r: Fx)
    ensures
        r as int == s_rad2deg(rad as int),
{
    fx_div(fx_mul(rad, 180 * FX_ONE), FX_PI)
}

} // verus!
