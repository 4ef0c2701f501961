//! Fixed-point trigonometry.
//!
//! `cos_sin` reduces its argument into one quadrant, evaluates a truncated
//! cosine series on `[0, pi/4]`, and recovers the other coordinate as an
//! integer square root of `ONE^2 - c^2`. That pairing makes the invariant
//! `c^2 + s^2 <= ONE^2` exact, which the samplers built on top rely on.
//! `atan2_fx` and `acos_fx` use a short rational approximation; their
//! contracts state the computed formula exactly.

use vstd::prelude::*;

use crate::common::{FX_PI, FX_PI_2, FX_PI_4, FX_TAU};
use crate::fixed::{
    abs_int, fit, max_int, min_int, s_add, s_div, s_mul, s_neg, s_sub, sqrt_floor, Fx,
    fx_abs, fx_add, fx_clamp, fx_div, fx_mul, fx_neg, fx_sub, isqrt_u128, lemma_sqrt_floor, FX_ONE,
};

verus! {

/// Atan shape constant: the nearest scalar to 0.273.
pub const FX_ATAN_K: i64 = 17891;

/// Mirror of the truncated cosine series on `[0, pi/4]`, clamped to `[0, 1]`:
/// `1 - x^2/2 + x^4/24 - x^6/720`.
pub open spec fn s_cos_base(x: int) -> int {
    let x2 = s_mul(x, x);
    let x4 = s_mul(x2, x2);
    let x6 = s_mul(x4, x2);
    let raw = s_sub(
        s_add(s_sub(FX_ONE as int, s_div(x2, 2 * FX_ONE as int)), s_div(x4, 24 * FX_ONE as int)),
        s_div(x6, 720 * FX_ONE as int),
    );
    max_int(0, min_int(raw, FX_ONE as int))
}

/// The nonnegative root of `ONE^2 - c^2`, for `c` in `[0, ONE]`.
pub open spec fn s_sin_from_cos(c: int) -> int {
    sqrt_floor(FX_ONE as int * FX_ONE as int - c * c)
}

/// Cosine and sine on one quadrant `[0, pi/2]`.
pub open spec fn s_base_pair(x: int) -> (int, int) {
    if x <= FX_PI_4 as int {
        let c = s_cos_base(x);
        (c, s_sin_from_cos(c))
    } else {
        let cb = s_cos_base(s_sub(FX_PI_2 as int, x));
        (s_sin_from_cos(cb), cb)
    }
}

/// Euclidean reduction of an angle into `[0, 2*pi)`.
pub open spec fn s_angle_mod(theta: int) -> int {
    let k = abs_int(theta) % (FX_TAU as int);
    if theta >= 0 {
        k
    } else if k == 0 {
        0
    } else {
        FX_TAU as int - k
    }
}

/// Mirror of `cos_sin`: quadrant reduction over the base pair.
pub open spec fn s_cos_sin(theta: int) -> (int, int) {
    let r = s_angle_mod(theta);
    if r < FX_PI_2 as int {
        s_base_pair(r)
    } else if r < FX_PI as int {
        let p = s_base_pair(r - FX_PI_2 as int);
        (-p.1, p.0)
    } else if r < FX_PI as int + FX_PI_2 as int {
        let p = s_base_pair(r - FX_PI as int);
        (-p.0, -p.1)
    } else {
        let p = s_base_pair(r - (FX_PI as int + FX_PI_2 as int));
        (p.1, -p.0)
    }
}

/// Truncated cosine series on `[0, pi/4]`, clamped into `[0, ONE]`.
fn cos_base(x: Fx) -> (r: Fx)
    requires
        0 <= x <= FX_PI_4,
    ensures
        r as int == s_cos_base(x as int),
        0 <= r <= FX_ONE,
{
    let x2 = fx_mul(x, x);
    let x4 = fx_mul(x2, x2);
    let x6 = fx_mul(x4, x2);
    let raw = fx_sub(
        fx_add(fx_sub(FX_ONE, fx_div(x2, 2 * FX_ONE)), fx_div(x4, 24 * FX_ONE)),
        fx_div(x6, 720 * FX_ONE),
    );
    fx_clamp(raw, 0, FX_ONE)
}

/// The nonnegative companion coordinate: `sqrt(ONE^2 - c^2)` exactly, so
/// `c^2 + s^2 <= ONE^2` holds by the square root's defining property.
fn sin_from_cos(c: Fx) -> (r: Fx)
    requires
        0 <= c <= FX_ONE,
    ensures
        r as int == s_sin_from_cos(c as int),
        0 <= r <= FX_ONE,
        c as int * c as int + r as int * r as int <= FX_ONE as int * FX_ONE as int,
{
    proof {
        crate::fixed::lemma_mul_abs_bound(c as int, c as int, FX_ONE as int, FX_ONE as int);
    }
    let d: u128 = (FX_ONE as u128) * (FX_ONE as u128) - (c as u128) * (c as u128);
    let r = isqrt_u128(d);
    proof {
        lemma_sqrt_floor(d as int);
        crate::fixed::lemma_sq_le(sqrt_floor(d as int), FX_ONE as int);
    }
    r as i64
}

/// Cosine and sine on one quadrant.
fn base_pair(x: Fx) -> (r: (Fx, Fx))
    requires
        0 <= x <= FX_PI_2,
    ensures
        r.0 as int == s_base_pair(x as int).0,
        r.1 as int == s_base_pair(x as int).1,
        0 <= r.0 <= FX_ONE,
        0 <= r.1 <= FX_ONE,
        r.0 as int * r.0 as int + r.1 as int * r.1 as int <= FX_ONE as int * FX_ONE as int,
{
    if x <= FX_PI_4 {
        let c = cos_base(x);
        let s = sin_from_cos(c);
        (c, s)
    } else {
        let cb = cos_base(fx_sub(FX_PI_2, x));
        let c = sin_from_cos(cb);
        (c, cb)
    }
}

/// Cosine and sine of an angle in radians, as one pair.
///
/// The pair always satisfies `c^2 + s^2 <= ONE^2` and each coordinate lies
/// in `[-ONE, ONE]`; the exact values are given by the `s_cos_sin` mirror.
pub fn cos_sin(theta: Fx) -> (r: (Fx, Fx))
    ensures
        r.0 as int == s_cos_sin(theta as int).0,
        r.1 as int == s_cos_sin(theta as int).1,
        -FX_ONE <= r.0 <= FX_ONE,
        -FX_ONE <= r.1 <= FX_ONE,
        r.0 as int * r.0 as int + r.1 as int * r.1 as int <= FX_ONE as int * FX_ONE as int,
{
    let m: u128 = if theta < 0 {
        ((-(theta as i128)) as u128) % (FX_TAU as u128)
    } else {
        (theta as u128) % (FX_TAU as u128)
    };
    let red: i64 = if theta >= 0 {
        m as i64
    } else if m == 0 {
        0
    } else {
        FX_TAU - (m as i64)
    };
    assert(red as int == s_angle_mod(theta as int));
    assert(0 <= red < FX_TAU);
    let (c, s) = if red < FX_PI_2 {
        let p = base_pair(red);
        proof {
            lemma_sq_of_neg(p.0 as int);
            lemma_sq_of_neg(p.1 as int);
        }
        (p.0, p.1)
    } else if red < FX_PI {
        let p = base_pair(red - FX_PI_2);
        proof {
            lemma_sq_of_neg(p.0 as int);
            lemma_sq_of_neg(p.1 as int);
        }
        (-p.1, p.0)
    } else if red < FX_PI + FX_PI_2 {
        let p = base_pair(red - FX_PI);
        proof {
            lemma_sq_of_neg(p.0 as int);
            lemma_sq_of_neg(p.1 as int);
        }
        (-p.0, -p.1)
    } else {
        let p = base_pair(red - (FX_PI + FX_PI_2));
        proof {
            lemma_sq_of_neg(p.0 as int);
            lemma_sq_of_neg(p.1 as int);
        }
        (p.1, -p.0)
    };
    (c, s)
}

proof fn lemma_sq_of_neg(a: int)
    by (nonlinear_arith)
    ensures
        (-a) * (-a) == a * a,
{
}

/// Cosine of an angle in radians.
pub fn cos_fx(theta: Fx) -> (r: Fx)
    ensures
        r as int == s_cos_sin(theta as int).0,
{
    let p = cos_sin(theta);
    p.0
}

/// Sine of an angle in radians.
pub fn sin_fx(theta: Fx) -> (r: Fx)
    ensures
        r as int == s_cos_sin(theta as int).1,
{
    let p = cos_sin(theta);
    p.1
}

/// Mirror of `tan`: sine over cosine.
pub open spec fn s_tan(theta: int) -> int {
    s_div(s_cos_sin(theta).1, s_cos_sin(theta).0)
}

/// Tangent of an angle in radians.
pub fn tan_fx(theta: Fx) -> (r: Fx)
    ensures
        r as int == s_tan(theta as int),
{
    let p = cos_sin(theta);
    fx_div(p.1, p.0)
}

/// Mirror of the arctangent approximation on `[0, ONE]`:
/// `(pi/4) t + 0.273 t (1 - t)`, clamped into `[0, pi/2]`.
pub open spec fn s_atan_base(t: int) -> int {
    let raw = s_add(s_mul(t, FX_PI_4 as int), s_mul(s_mul(t, s_sub(FX_ONE as int, t)), FX_ATAN_K as int));
    max_int(0, min_int(raw, FX_PI_2 as int))
}

fn atan_base(t: Fx) -> (r: Fx)
    requires
        0 <= t <= FX_ONE,
    ensures
        r as int == s_atan_base(t as int),
        0 <= r <= FX_PI_2,
{
    let raw = fx_add(fx_mul(t, FX_PI_4), fx_mul(fx_mul(t, fx_sub(FX_ONE, t)), FX_ATAN_K));
    fx_clamp(raw, 0, FX_PI_2)
}

/// The first-octant angle of `(|x|, |y|)`: the arctangent of the smaller
/// magnitude over the larger, folded across `pi/4`.
pub open spec fn s_octant_angle(ay: int, ax: int) -> int {
    if ay <= ax {
        s_atan_base(s_div(ay, ax))
    } else {
        s_sub(FX_PI_2 as int, s_atan_base(s_div(ax, ay)))
    }
}

/// Mirror of `atan2`: the octant angle placed into `(-pi, pi]`.
pub open spec fn s_atan2(y: int, x: int) -> int {
    if x == 0 && y == 0 {
        0
    } else {
        let a = s_octant_angle(fit(abs_int(y)), fit(abs_int(x)));
        if x >= 0 && y >= 0 {
            a
        } else if x < 0 && y >= 0 {
            s_sub(FX_PI as int, a)
        } else if x < 0 {
            s_neg(s_sub(FX_PI as int, a))
        } else {
            s_neg(a)
        }
    }
}

/// Four-quadrant arctangent, in `(-pi, pi]`.
pub fn atan2_fx(y: Fx, x: Fx) -> (r: Fx)
    ensures
        r as int == s_atan2(y as int, x as int),
        -FX_PI <= r <= FX_PI,
{
    if x == 0 && y == 0 {
        return 0;
    }
    let ax = fx_abs(x);
    let ay = fx_abs(y);
    let a = if ay <= ax {
        let t = fx_div(ay, ax);
        assert(0 <= t <= FX_ONE) by {
            crate::fixed::lemma_div_unit_range(ay as int, ax as int);
        }
        atan_base(t)
    } else {
        let t = fx_div(ax, ay);
        assert(0 <= t <= FX_ONE) by {
            crate::fixed::lemma_div_unit_range(ax as int, ay as int);
        }
        fx_sub(FX_PI_2, atan_base(t))
    };
    if x >= 0 && y >= 0 {
        a
    } else if x < 0 && y >= 0 {
        fx_sub(FX_PI, a)
    } else if x < 0 {
        fx_neg(fx_sub(FX_PI, a))
    } else {
        fx_neg(a)
    }
}

/// Mirror of `acos`: the four-quadrant arctangent of the nonnegative root
/// of `ONE^2 - x^2` over `x`; lands in `[0, pi]`.
pub open spec fn s_acos(x: int) -> int {
    s_atan2(sqrt_floor(FX_ONE as int * FX_ONE as int - x * x), x)
}

/// Arccosine of a scalar in `[-ONE, ONE]`, in `[0, pi]`.
pub fn acos_fx(x: Fx) -> (r: Fx)
    requires
        -FX_ONE <= x <= FX_ONE,
    ensures
        r as int == s_acos(x as int),
        -FX_PI <= r <= FX_PI,
{
    let ax = fx_abs(x);
    proof {
        lemma_sq_of_neg(x as int);
        lemma_abs_sq(x as int);
        crate::fixed::lemma_mul_abs_bound(ax as int, ax as int, FX_ONE as int, FX_ONE as int);
    }
    let d: u128 = (FX_ONE as u128) * (FX_ONE as u128) - (ax as u128) * (ax as u128);
    let s = isqrt_u128(d);
    proof {
        lemma_sqrt_floor(d as int);
        crate::fixed::lemma_sq_le(sqrt_floor(d as int), FX_ONE as int);
    }
    atan2_fx(s as i64, x)
}

proof fn lemma_abs_sq(a: int)
    by (nonlinear_arith)
    ensures
        abs_int(a) * abs_int(a) == a * a,
        a * a >= 0,
{
}

} // verus!
