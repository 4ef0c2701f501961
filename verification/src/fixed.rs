//! The renderer's scalar: signed 64-bit fixed point, scaled by `FX_SCALE`.
//!
//! A `Fx` value `x` stands for the real number `x / FX_SCALE`. Results of
//! every operation saturate at `FX_MAX` in magnitude, so all operations are
//! total over `i64` and no intermediate computation can overflow. Each
//! executable operation is specified exactly by a spec-level mirror
//! (`s_add`, `s_mul`, ...) over mathematical integers.

use vstd::prelude::*;

verus! {

/// A fixed-point scalar: the real value is `self / FX_SCALE`.
pub type Fx = i64;

/// Scale denominator: 2^16.
pub const FX_SCALE: i64 = 65536;

/// The fixed-point representation of 1.
pub const FX_ONE: i64 = 65536;

/// The fixed-point representation of 1/2.
pub const FX_HALF: i64 = 32768;

/// Saturation bound on every result: 2^62.
pub const FX_MAX: i64 = 0x4000_0000_0000_0000;

/// The saturation bound clamps a mathematical result into `[-FX_MAX, FX_MAX]`.
pub open spec fn fit(x: int) -> int {
    if x > FX_MAX as int {
        FX_MAX as int
    } else if x < -(FX_MAX as int) {
        -(FX_MAX as int)
    } else {
        x
    }
}

/// Truncating (round toward zero) integer division.
pub open spec fn tdiv(a: int, b: int) -> int
    recommends
        b != 0,
{
    let q: int = abs_int(a) / abs_int(b);
    if (a < 0) <==> (b < 0) {
        q
    } else {
        -q
    }
}

pub open spec fn abs_int(a: int) -> int {
    if a < 0 {
        -a
    } else {
        a
    }
}

pub open spec fn min_int(a: int, b: int) -> int {
    if a < b {
        a
    } else {
        b
    }
}

pub open spec fn max_int(a: int, b: int) -> int {
    if a < b {
        b
    } else {
        a
    }
}

/// Saturating fixed-point addition.
pub open spec fn s_add(a: int, b: int) -> int {
    fit(a + b)
}

/// Saturating fixed-point subtraction.
pub open spec fn s_sub(a: int, b: int) -> int {
    fit(a - b)
}

/// Saturating fixed-point negation.
pub open spec fn s_neg(a: int) -> int {
    fit(-a)
}

/// Saturating fixed-point multiplication: `(a * b) / FX_SCALE`, truncated.
pub open spec fn s_mul(a: int, b: int) -> int {
    fit(tdiv(a * b, FX_SCALE as int))
}

/// Saturating fixed-point division: `(a * FX_SCALE) / b`, truncated.
/// Division by zero saturates in the direction of the dividend's sign.
pub open spec fn s_div(a: int, b: int) -> int {
    if b == 0 {
        if a > 0 {
            FX_MAX as int
        } else if a < 0 {
            -(FX_MAX as int)
        } else {
            0
        }
    } else {
        fit(tdiv(a * FX_SCALE, b))
    }
}

/// The integer square root: the unique `r >= 0` with `r^2 <= x < (r+1)^2`.
pub closed spec fn sqrt_floor(x: int) -> int {
    if x >= 0 {
        choose|r: int| 0 <= r && #[trigger] (r * r) <= x < (r + 1) * (r + 1)
    } else {
        0
    }
}

/// Fixed-point square root of a nonpositive argument is 0; otherwise the
/// scaled root `sqrt_floor(a * FX_SCALE)`, which stands for `sqrt(a / FX_SCALE)`.
pub open spec fn s_sqrt(a: int) -> int {
    if a <= 0 {
        0
    } else {
        sqrt_floor(a * FX_SCALE)
    }
}

proof fn lemma_sqrt_exists(x: int) -> (r: int)
    requires
        0 <= x,
    ensures
        0 <= r && r * r <= x < (r + 1) * (r + 1),
    decreases x,
{
    if x == 0 {
        0
    } else {
        let p: int = lemma_sqrt_exists(x - 1);
        if x < (p + 1) * (p + 1) {
            p
        } else {
            assert(x == (p + 1) * (p + 1));
            assert((p + 1) * (p + 1) < (p + 2) * (p + 2)) by (nonlinear_arith)
                requires
                    0 <= p,
            ;
            p + 1
        }
    }
}

proof fn lemma_sqrt_unique(x: int, r1: int, r2: int)
    requires
        0 <= r1 && r1 * r1 <= x < (r1 + 1) * (r1 + 1),
        0 <= r2 && r2 * r2 <= x < (r2 + 1) * (r2 + 1),
    ensures
        r1 == r2,
{
    assert(r1 == r2) by (nonlinear_arith)
        requires
            0 <= r1 && r1 * r1 <= x < (r1 + 1) * (r1 + 1),
            0 <= r2 && r2 * r2 <= x < (r2 + 1) * (r2 + 1),
    ;
}

/// The defining properties of `sqrt_floor` on nonnegative arguments.
pub proof fn lemma_sqrt_floor(x: int)
    requires
        0 <= x,
    ensures
        0 <= sqrt_floor(x),
        sqrt_floor(x) * sqrt_floor(x) <= x,
        x < (sqrt_floor(x) + 1) * (sqrt_floor(x) + 1),
{
    let w: int = lemma_sqrt_exists(x);
    assert(0 <= w && w * w <= x < (w + 1) * (w + 1));
}

/// Saturating addition.
pub fn fx_add(a: Fx, b: Fx) -> (r: Fx)
    ensures
        r as int == s_add(a as int, b as int),
{
    let s: i128 = a as i128 + b as i128;
    if s > FX_MAX as i128 {
        FX_MAX
    } else if s < -(FX_MAX as i128) {
        -FX_MAX
    } else {
        s as i64
    }
}

/// Saturating subtraction.
pub fn fx_sub(a: Fx, b: Fx) -> (r: Fx)
    ensures
        r as int == s_sub(a as int, b as int),
{
    let s: i128 = a as i128 - b as i128;
    if s > FX_MAX as i128 {
        FX_MAX
    } else if s < -(FX_MAX as i128) {
        -FX_MAX
    } else {
        s as i64
    }
}

/// Saturating negation.
pub fn fx_neg(a: Fx) -> (r: Fx)
    ensures
        r as int == s_neg(a as int),
{
    let s: i128 = -(a as i128);
    if s > FX_MAX as i128 {
        FX_MAX
    } else if s < -(FX_MAX as i128) {
        -FX_MAX
    } else {
        s as i64
    }
}

/// Magnitude of an `i128` as a `u128`.
pub(crate) fn mag_i128(a: i128) -> (r: u128)
    ensures
        r as int == abs_int(a as int),
{
    if a < 0 {
        (-(a as i128 + 1)) as u128 + 1
    } else {
        a as u128
    }
}

/// Truncating division of an `i128` by a positive `u128`, saturating into
/// the fixed-point range.
pub(crate) fn sat_tdiv(p: i128, d: u128) -> (r: Fx)
    requires
        d > 0,
    ensures
        r as int == fit(tdiv(p as int, d as int)),
{
    let mag: u128 = mag_i128(p);
    let q: u128 = mag / d;
    assert(q as int == abs_int(p as int) / (d as int));
    if p < 0 {
        if q > FX_MAX as u128 {
            -FX_MAX
        } else {
            -((q as i64))
        }
    } else {
        if q > FX_MAX as u128 {
            FX_MAX
        } else {
            q as i64
        }
    }
}

/// Saturating fixed-point multiplication.
pub fn fx_mul(a: Fx, b: Fx) -> (r: Fx)
    ensures
        r as int == s_mul(a as int, b as int),
{
    proof {
        lemma_mul_abs_bound(a as int, b as int, 0x8000_0000_0000_0000, 0x8000_0000_0000_0000);
    }
    let p: i128 = (a as i128) * (b as i128);
    sat_tdiv(p, FX_SCALE as u128)
}

/// Saturating fixed-point division. Division by zero saturates in the
/// direction of the dividend's sign.
pub fn fx_div(a: Fx, b: Fx) -> (r: Fx)
    ensures
        r as int == s_div(a as int, b as int),
{
    if b == 0 {
        if a > 0 {
            FX_MAX
        } else if a < 0 {
            -FX_MAX
        } else {
            0
        }
    } else {
        proof {
            lemma_mul_abs_bound(a as int, FX_SCALE as int, 0x8000_0000_0000_0000, 0x1_0000);
        }
        let p: i128 = (a as i128) * (FX_SCALE as i128);
        let d: u128 = mag_i128(b as i128);
        let q: u128 = mag_i128(p) / d;
        let neg = (a < 0) != (b < 0);
        assert(q as int == abs_int(a as int * FX_SCALE) / abs_int(b as int));
        assert(tdiv(a as int * FX_SCALE, b as int) == if neg { -(q as int) } else { q as int });
        if neg {
            if q > FX_MAX as u128 {
                -FX_MAX
            } else {
                -((q as i64))
            }
        } else {
            if q > FX_MAX as u128 {
                FX_MAX
            } else {
                q as i64
            }
        }
    }
}

/// Clamp a raw scalar into the saturation range `[-FX_MAX, FX_MAX]`.
/// On every value the library itself produces this is the identity.
pub fn fx_cap(a: Fx) -> (r: Fx)
    ensures
        r as int == fit(a as int),
        -FX_MAX <= r <= FX_MAX,
{
    if a > FX_MAX {
        FX_MAX
    } else if a < -FX_MAX {
        -FX_MAX
    } else {
        a
    }
}

/// The smaller of two scalars.
pub fn fx_min(a: Fx, b: Fx) -> (r: Fx)
    ensures
        r as int == min_int(a as int, b as int),
{
    if a < b {
        a
    } else {
        b
    }
}

/// The larger of two scalars.
pub fn fx_max(a: Fx, b: Fx) -> (r: Fx)
    ensures
        r as int == max_int(a as int, b as int),
{
    if a < b {
        b
    } else {
        a
    }
}

/// Saturating absolute value.
pub fn fx_abs(a: Fx) -> (r: Fx)
    ensures
        r as int == fit(abs_int(a as int)),
{
    if a < 0 {
        fx_neg(a)
    } else if a > FX_MAX {
        FX_MAX
    } else {
        a
    }
}

/// Clamp into `[lo, hi]`.
pub fn fx_clamp(a: Fx, lo: Fx, hi: Fx) -> (r: Fx)
    requires
        lo <= hi,
    ensures
        r as int == max_int(lo as int, min_int(a as int, hi as int)),
{
    if a < lo {
        lo
    } else if a > hi {
        hi
    } else {
        a
    }
}

/// The fixed-point scalar standing for the integer `n`.
pub fn fx_from_int(n: i64) -> (r: Fx)
    ensures
        r as int == fit(n * FX_SCALE),
{
    let p: i128 = (n as i128) * (FX_SCALE as i128);
    if p > FX_MAX as i128 {
        FX_MAX
    } else if p < -(FX_MAX as i128) {
        -FX_MAX
    } else {
        p as i64
    }
}

pub(crate) proof fn lemma_mul_abs_bound(a: int, b: int, m: int, n: int)
    by (nonlinear_arith)
    requires
        abs_int(a) <= m,
        abs_int(b) <= n,
    ensures
        abs_int(a * b) <= m * n,
{
}

proof fn lemma_sq_mono(a: int, b: int)
    by (nonlinear_arith)
    requires
        0 <= a <= b,
    ensures
        a * a <= b * b,
{
}

/// Dividing a multiple of the scale by the scale recovers the factor.
pub proof fn lemma_tdiv_scale(k: int)
    ensures
        tdiv(FX_ONE as int * k, FX_ONE as int) == k,
        tdiv(65536 * k, 65536) == k,
{
    let sc = 65536int;
    assert(abs_int(sc * k) == sc * abs_int(k)) by (nonlinear_arith)
        requires
            sc == 65536,
    ;
    vstd::arithmetic::div_mod::lemma_div_multiples_vanish(abs_int(k), sc);
    assert(sc * k < 0 <==> k < 0) by (nonlinear_arith)
        requires
            sc == 65536,
    ;
}

/// Multiplying by the scalar two is exact doubling.
pub proof fn lemma_mul_double(u: int)
    ensures
        s_mul(2 * FX_ONE as int, u) == fit(2 * u),
{
    assert(2 * FX_ONE as int * u == FX_ONE as int * (2 * u)) by (nonlinear_arith)
        requires
            FX_ONE == 65536,
    ;
    lemma_tdiv_scale(2 * u);
}

/// The magnitude of a product is the product of the magnitudes.
pub proof fn lemma_abs_mul(a: int, b: int)
    by (nonlinear_arith)
    ensures
        abs_int(a * b) == abs_int(a) * abs_int(b),
{
}

/// A square equals the square of the magnitude.
pub proof fn lemma_sq_abs(a: int)
    by (nonlinear_arith)
    ensures
        a * a == abs_int(a) * abs_int(a),
        a * a >= 0,
{
}

/// A scalar's self-product is a nonnegative scalar in range.
pub proof fn lemma_smul_sq_nonneg(a: int)
    ensures
        0 <= s_mul(a, a) <= FX_MAX as int,
{
    lemma_sq_abs(a);
    vstd::arithmetic::div_mod::lemma_div_pos_is_pos(a * a, 65536);
}

/// A quotient of a numerator by a denominator at least as large lies in
/// `[0, 1]`.
pub proof fn lemma_div_unit_range(a: int, b: int)
    requires
        0 <= a <= b,
        0 < b,
    ensures
        0 <= s_div(a, b) <= FX_ONE as int,
{
    let sc = 65536int;
    assert(a * sc <= b * sc && 0 <= a * sc) by (nonlinear_arith)
        requires
            0 <= a <= b,
            sc == 65536int,
    ;
    vstd::arithmetic::div_mod::lemma_div_pos_is_pos(a * sc, b);
    vstd::arithmetic::div_mod::lemma_div_is_ordered(a * sc, b * sc, b);
    vstd::arithmetic::div_mod::lemma_div_by_multiple(sc, b);
    assert(b * sc == sc * b) by (nonlinear_arith);
    assert((a * sc) / b <= sc);
    assert(tdiv(a * sc, b) == (a * sc) / b);
}

/// Regrouping a product with the scale factor.
pub proof fn lemma_mul_assoc_scale(a: int, m: int)
    by (nonlinear_arith)
    ensures
        a * (m * 65536) == 65536 * (a * m),
{
}

/// A product of nonnegative factors is nonnegative.
pub proof fn lemma_mul_nonneg(a: int, b: int)
    by (nonlinear_arith)
    requires
        a >= 0,
        b >= 0,
    ensures
        a * b >= 0,
{
}

/// Multiplying an inequality by a nonnegative factor preserves it.
pub proof fn lemma_mul_le(a: int, b: int, c: int)
    by (nonlinear_arith)
    requires
        a <= b,
        c >= 0,
    ensures
        a * c <= b * c,
{
}

/// If two nonnegative scalars' squares are ordered, so are the scalars.
pub proof fn lemma_sq_le(a: int, b: int)
    by (nonlinear_arith)
    requires
        0 <= a,
        0 <= b,
        a * a <= b * b,
    ensures
        a <= b,
{
}

proof fn lemma_sq_lt(a: int, b: int)
    by (nonlinear_arith)
    requires
        0 <= a,
        0 <= b,
        a * a < b * b,
    ensures
        a < b,
{
}

/// Integer square root over `u128` by bisection.
pub(crate) fn isqrt_u128(x: u128) -> (r: u64)
    requires
        x < 0x1_0000_0000_0000_0000_0000_0000_0000_0000,
    ensures
        r as int == sqrt_floor(x as int),
{
    proof {
        lemma_sqrt_floor(x as int);
    }
    let mut lo: u128 = 0;
    let mut hi: u128 = 0x1_0000_0000_0000_0000;
    assert(hi * hi == 0x1_0000_0000_0000_0000_0000_0000_0000_0000int);
    while lo + 1 < hi
        invariant
            lo < hi <= 0x1_0000_0000_0000_0000u128,
            lo * lo <= x as int,
            (x as int) < hi * hi,
        decreases hi - lo,
    {
        let mid: u128 = lo + (hi - lo) / 2;
        assert(lo < mid < hi);
        proof {
            lemma_sq_mono(mid as int, 0xffff_ffff_ffff_ffffu128 as int);
        }
        let sq: u128 = mid * mid;
        if sq > x {
            hi = mid;
        } else {
            lo = mid;
        }
    }
    proof {
        lemma_sqrt_unique(x as int, lo as int, sqrt_floor(x as int));
        lemma_sq_mono(lo as int, 0xffff_ffff_ffff_ffffu128 as int);
    }
    lo as u64
}

/// Fixed-point square root: 0 on nonpositive input, else the scaled root.
pub fn fx_sqrt(a: Fx) -> (r: Fx)
    ensures
        r as int == s_sqrt(a as int),
        r >= 0,
{
    if a <= 0 {
        0
    } else {
        proof {
            lemma_mul_abs_bound(a as int, FX_SCALE as int, 0x8000_0000_0000_0000, 0x1_0000);
        }
        let m: u128 = (a as u128) * (FX_SCALE as u128);
        let r: u64 = isqrt_u128(m);
        proof {
            lemma_sqrt_floor(m as int);
            assert(0x1_0000_0000_0000int * 0x1_0000_0000_0000int == 0x1_0000_0000_0000_0000_0000_0000int);
            lemma_sq_lt(sqrt_floor(m as int), 0x1_0000_0000_0000int);
        }
        r as i64
    }
}

} // verus!
