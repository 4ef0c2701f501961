//! 4x4 matrices over the fixed-point scalar, row major.
//!
//! The inverse is computed exactly as the adjugate over the determinant,
//! so `try_inverse` carries a complete entrywise contract; `Transform`
//! builds on it.

use vstd::prelude::*;

use crate::fixed::{
    fit, s_add, s_div, s_mul, s_neg, s_sub, tdiv, Fx, fx_add, fx_cap, fx_div, fx_mul, fx_neg,
    fx_sub, FX_ONE, FX_SCALE,
};

verus! {

/// A 4x4 matrix of fixed-point scalars, row major: `mij` is row `i`, column `j`.
#[derive(Clone, Copy, PartialEq, Eq, Structural, Debug)]
pub struct Matrix4 {
    pub m00: Fx,
    pub m01: Fx,
    pub m02: Fx,
    pub m03: Fx,
    pub m10: Fx,
    pub m11: Fx,
    pub m12: Fx,
    pub m13: Fx,
    pub m20: Fx,
    pub m21: Fx,
    pub m22: Fx,
    pub m23: Fx,
    pub m30: Fx,
    pub m31: Fx,
    pub m32: Fx,
    pub m33: Fx,
}

/// The matrix's entries as mathematical integers, for contracts.
pub ghost struct MatInts {
    pub m00: int,
    pub m01: int,
    pub m02: int,
    pub m03: int,
    pub m10: int,
    pub m11: int,
    pub m12: int,
    pub m13: int,
    pub m20: int,
    pub m21: int,
    pub m22: int,
    pub m23: int,
    pub m30: int,
    pub m31: int,
    pub m32: int,
    pub m33: int,
}

impl Matrix4 {
    /// The entries of this matrix as mathematical integers.
    pub open spec fn ints(self) -> MatInts {
        MatInts {
            m00: self.m00 as int,
            m01: self.m01 as int,
            m02: self.m02 as int,
            m03: self.m03 as int,
            m10: self.m10 as int,
            m11: self.m11 as int,
            m12: self.m12 as int,
            m13: self.m13 as int,
            m20: self.m20 as int,
            m21: self.m21 as int,
            m22: self.m22 as int,
            m23: self.m23 as int,
            m30: self.m30 as int,
            m31: self.m31 as int,
            m32: self.m32 as int,
            m33: self.m33 as int,
        }
    }
}

/// Builds a matrix from rows.
pub fn matrix4(m: [[Fx; 4]; 4]) -> (r: Matrix4)
    ensures
        r.m00 == m[0][0],
        r.m01 == m[0][1],
        r.m02 == m[0][2],
        r.m03 == m[0][3],
        r.m10 == m[1][0],
        r.m11 == m[1][1],
        r.m12 == m[1][2],
        r.m13 == m[1][3],
        r.m20 == m[2][0],
        r.m21 == m[2][1],
        r.m22 == m[2][2],
        r.m23 == m[2][3],
        r.m30 == m[3][0],
        r.m31 == m[3][1],
        r.m32 == m[3][2],
        r.m33 == m[3][3],
{
    Matrix4 {
        m00: m[0][0],
        m01: m[0][1],
        m02: m[0][2],
        m03: m[0][3],
        m10: m[1][0],
        m11: m[1][1],
        m12: m[1][2],
        m13: m[1][3],
        m20: m[2][0],
        m21: m[2][1],
        m22: m[2][2],
        m23: m[2][3],
        m30: m[3][0],
        m31: m[3][1],
        m32: m[3][2],
        m33: m[3][3],
    }
}

impl Matrix4 {
    /// The identity matrix.
    pub fn identity() -> (r: Matrix4)
        ensures
            r.m00 == FX_ONE,
            r.m01 == 0,
            r.m02 == 0,
            r.m03 == 0,
            r.m10 == 0,
            r.m11 == FX_ONE,
            r.m12 == 0,
            r.m13 == 0,
            r.m20 == 0,
            r.m21 == 0,
            r.m22 == FX_ONE,
            r.m23 == 0,
            r.m30 == 0,
            r.m31 == 0,
            r.m32 == 0,
            r.m33 == FX_ONE,
    {
        Matrix4 {
            m00: FX_ONE,
            m01: 0,
            m02: 0,
            m03: 0,
            m10: 0,
            m11: FX_ONE,
            m12: 0,
            m13: 0,
            m20: 0,
            m21: 0,
            m22: FX_ONE,
            m23: 0,
            m30: 0,
            m31: 0,
            m32: 0,
            m33: FX_ONE,
        }
    }

    /// The transpose at the spec level.
    pub open spec fn spec_transpose(self) -> Matrix4 {
        Matrix4 {
            m00: self.m00,
            m01: self.m10,
            m02: self.m20,
            m03: self.m30,
            m10: self.m01,
            m11: self.m11,
            m12: self.m21,
            m13: self.m31,
            m20: self.m02,
            m21: self.m12,
            m22: self.m22,
            m23: self.m32,
            m30: self.m03,
            m31: self.m13,
            m32: self.m23,
            m33: self.m33,
        }
    }

    /// The transpose.
    pub fn transpose(self) -> (r: Matrix4)
        ensures
            r == self.spec_transpose(),
    {
        Matrix4 {
            m00: self.m00,
            m01: self.m10,
            m02: self.m20,
            m03: self.m30,
            m10: self.m01,
            m11: self.m11,
            m12: self.m21,
            m13: self.m31,
            m20: self.m02,
            m21: self.m12,
            m22: self.m22,
            m23: self.m32,
            m30: self.m03,
            m31: self.m13,
            m32: self.m23,
            m33: self.m33,
        }
    }
}

/// Mirror of a 4-term scaled inner product over capped entries.
pub open spec fn s_row4(a: int, b: int, c: int, d: int, x: int, y: int, z: int, w: int) -> int {
    fit(
        tdiv(
            fit(a) * fit(x) + fit(b) * fit(y) + fit(c) * fit(z) + fit(d) * fit(w),
            FX_SCALE as int,
        ),
    )
}

/// A 4-term scaled inner product: one row of a matrix applied to a column.
fn row4(a: Fx, b: Fx, c: Fx, d: Fx, x: Fx, y: Fx, z: Fx, w: Fx) -> (r: Fx)
    ensures
        r as int == s_row4(a as int, b as int, c as int, d as int, x as int, y as int, z as int, w as int),
{
    let a1: i128 = fx_cap(a) as i128;
    let b1: i128 = fx_cap(b) as i128;
    let c1: i128 = fx_cap(c) as i128;
    let d1: i128 = fx_cap(d) as i128;
    let x1: i128 = fx_cap(x) as i128;
    let y1: i128 = fx_cap(y) as i128;
    let z1: i128 = fx_cap(z) as i128;
    let w1: i128 = fx_cap(w) as i128;
    proof {
        crate::fixed::lemma_mul_abs_bound(a1 as int, x1 as int, 0x4000_0000_0000_0000, 0x4000_0000_0000_0000);
        crate::fixed::lemma_mul_abs_bound(b1 as int, y1 as int, 0x4000_0000_0000_0000, 0x4000_0000_0000_0000);
        crate::fixed::lemma_mul_abs_bound(c1 as int, z1 as int, 0x4000_0000_0000_0000, 0x4000_0000_0000_0000);
        crate::fixed::lemma_mul_abs_bound(d1 as int, w1 as int, 0x4000_0000_0000_0000, 0x4000_0000_0000_0000);
    }
    let p: i128 = a1 * x1 + b1 * y1 + c1 * z1 + d1 * w1;
    crate::fixed::sat_tdiv(p, FX_SCALE as u128)
}

/// The matrix product at the spec level: entry `(i, j)` is the scaled
/// inner product of row `i` of `a` with column `j` of `b`.
pub open spec fn s_mat_mul(a: MatInts, b: MatInts) -> MatInts {
    MatInts {
        m00: s_row4(a.m00, a.m01, a.m02, a.m03, b.m00, b.m10, b.m20, b.m30),
        m01: s_row4(a.m00, a.m01, a.m02, a.m03, b.m01, b.m11, b.m21, b.m31),
        m02: s_row4(a.m00, a.m01, a.m02, a.m03, b.m02, b.m12, b.m22, b.m32),
        m03: s_row4(a.m00, a.m01, a.m02, a.m03, b.m03, b.m13, b.m23, b.m33),
        m10: s_row4(a.m10, a.m11, a.m12, a.m13, b.m00, b.m10, b.m20, b.m30),
        m11: s_row4(a.m10, a.m11, a.m12, a.m13, b.m01, b.m11, b.m21, b.m31),
        m12: s_row4(a.m10, a.m11, a.m12, a.m13, b.m02, b.m12, b.m22, b.m32),
        m13: s_row4(a.m10, a.m11, a.m12, a.m13, b.m03, b.m13, b.m23, b.m33),
        m20: s_row4(a.m20, a.m21, a.m22, a.m23, b.m00, b.m10, b.m20, b.m30),
        m21: s_row4(a.m20, a.m21, a.m22, a.m23, b.m01, b.m11, b.m21, b.m31),
        m22: s_row4(a.m20, a.m21, a.m22, a.m23, b.m02, b.m12, b.m22, b.m32),
        m23: s_row4(a.m20, a.m21, a.m22, a.m23, b.m03, b.m13, b.m23, b.m33),
        m30: s_row4(a.m30, a.m31, a.m32, a.m33, b.m00, b.m10, b.m20, b.m30),
        m31: s_row4(a.m30, a.m31, a.m32, a.m33, b.m01, b.m11, b.m21, b.m31),
        m32: s_row4(a.m30, a.m31, a.m32, a.m33, b.m02, b.m12, b.m22, b.m32),
        m33: s_row4(a.m30, a.m31, a.m32, a.m33, b.m03, b.m13, b.m23, b.m33),
    }
}

impl Matrix4 {
    /// Matrix product `self * rhs`.
    pub fn mat_mul(self, rhs: Matrix4) -> (r: Matrix4)
        ensures
            r.ints() == s_mat_mul(self.ints(), rhs.ints()),
            r.m00 as int == s_row4(self.m00 as int, self.m01 as int, self.m02 as int, self.m03 as int, rhs.m00 as int, rhs.m10 as int, rhs.m20 as int, rhs.m30 as int),
            r.m01 as int == s_row4(self.m00 as int, self.m01 as int, self.m02 as int, self.m03 as int, rhs.m01 as int, rhs.m11 as int, rhs.m21 as int, rhs.m31 as int),
            r.m02 as int == s_row4(self.m00 as int, self.m01 as int, self.m02 as int, self.m03 as int, rhs.m02 as int, rhs.m12 as int, rhs.m22 as int, rhs.m32 as int),
            r.m03 as int == s_row4(self.m00 as int, self.m01 as int, self.m02 as int, self.m03 as int, rhs.m03 as int, rhs.m13 as int, rhs.m23 as int, rhs.m33 as int),
            r.m10 as int == s_row4(self.m10 as int, self.m11 as int, self.m12 as int, self.m13 as int, rhs.m00 as int, rhs.m10 as int, rhs.m20 as int, rhs.m30 as int),
            r.m11 as int == s_row4(self.m10 as int, self.m11 as int, self.m12 as int, self.m13 as int, rhs.m01 as int, rhs.m11 as int, rhs.m21 as int, rhs.m31 as int),
            r.m12 as int == s_row4(self.m10 as int, self.m11 as int, self.m12 as int, self.m13 as int, rhs.m02 as int, rhs.m12 as int, rhs.m22 as int, rhs.m32 as int),
            r.m13 as int == s_row4(self.m10 as int, self.m11 as int, self.m12 as int, self.m13 as int, rhs.m03 as int, rhs.m13 as int, rhs.m23 as int, rhs.m33 as int),
            r.m20 as int == s_row4(self.m20 as int, self.m21 as int, self.m22 as int, self.m23 as int, rhs.m00 as int, rhs.m10 as int, rhs.m20 as int, rhs.m30 as int),
            r.m21 as int == s_row4(self.m20 as int, self.m21 as int, self.m22 as int, self.m23 as int, rhs.m01 as int, rhs.m11 as int, rhs.m21 as int, rhs.m31 as int),
            r.m22 as int == s_row4(self.m20 as int, self.m21 as int, self.m22 as int, self.m23 as int, rhs.m02 as int, rhs.m12 as int, rhs.m22 as int, rhs.m32 as int),
            r.m23 as int == s_row4(self.m20 as int, self.m21 as int, self.m22 as int, self.m23 as int, rhs.m03 as int, rhs.m13 as int, rhs.m23 as int, rhs.m33 as int),
            r.m30 as int == s_row4(self.m30 as int, self.m31 as int, self.m32 as int, self.m33 as int, rhs.m00 as int, rhs.m10 as int, rhs.m20 as int, rhs.m30 as int),
            r.m31 as int == s_row4(self.m30 as int, self.m31 as int, self.m32 as int, self.m33 as int, rhs.m01 as int, rhs.m11 as int, rhs.m21 as int, rhs.m31 as int),
            r.m32 as int == s_row4(self.m30 as int, self.m31 as int, self.m32 as int, self.m33 as int, rhs.m02 as int, rhs.m12 as int, rhs.m22 as int, rhs.m32 as int),
            r.m33 as int == s_row4(self.m30 as int, self.m31 as int, self.m32 as int, self.m33 as int, rhs.m03 as int, rhs.m13 as int, rhs.m23 as int, rhs.m33 as int),
    {
        Matrix4 {
            m00: row4(self.m00, self.m01, self.m02, self.m03, rhs.m00, rhs.m10, rhs.m20, rhs.m30),
            m01: row4(self.m00, self.m01, self.m02, self.m03, rhs.m01, rhs.m11, rhs.m21, rhs.m31),
            m02: row4(self.m00, self.m01, self.m02, self.m03, rhs.m02, rhs.m12, rhs.m22, rhs.m32),
            m03: row4(self.m00, self.m01, self.m02, self.m03, rhs.m03, rhs.m13, rhs.m23, rhs.m33),
            m10: row4(self.m10, self.m11, self.m12, self.m13, rhs.m00, rhs.m10, rhs.m20, rhs.m30),
            m11: row4(self.m10, self.m11, self.m12, self.m13, rhs.m01, rhs.m11, rhs.m21, rhs.m31),
            m12: row4(self.m10, self.m11, self.m12, self.m13, rhs.m02, rhs.m12, rhs.m22, rhs.m32),
            m13: row4(self.m10, self.m11, self.m12, self.m13, rhs.m03, rhs.m13, rhs.m23, rhs.m33),
            m20: row4(self.m20, self.m21, self.m22, self.m23, rhs.m00, rhs.m10, rhs.m20, rhs.m30),
            m21: row4(self.m20, self.m21, self.m22, self.m23, rhs.m01, rhs.m11, rhs.m21, rhs.m31),
            m22: row4(self.m20, self.m21, self.m22, self.m23, rhs.m02, rhs.m12, rhs.m22, rhs.m32),
            m23: row4(self.m20, self.m21, self.m22, self.m23, rhs.m03, rhs.m13, rhs.m23, rhs.m33),
            m30: row4(self.m30, self.m31, self.m32, self.m33, rhs.m00, rhs.m10, rhs.m20, rhs.m30),
            m31: row4(self.m30, self.m31, self.m32, self.m33, rhs.m01, rhs.m11, rhs.m21, rhs.m31),
            m32: row4(self.m30, self.m31, self.m32, self.m33, rhs.m02, rhs.m12, rhs.m22, rhs.m32),
            m33: row4(self.m30, self.m31, self.m32, self.m33, rhs.m03, rhs.m13, rhs.m23, rhs.m33),
        }
    }
}

/// Mirror of a 3x3 determinant: `a(ei - fh) - b(di - fg) + c(dh - eg)`.
pub open spec fn s_det3x3(a: int, b: int, c: int, d: int, e: int, g: int, h: int, k: int, l: int) -> int {
    s_add(
        s_sub(
            s_mul(a, s_sub(s_mul(e, l), s_mul(g, k))),
            s_mul(b, s_sub(s_mul(d, l), s_mul(g, h))),
        ),
        s_mul(c, s_sub(s_mul(d, k), s_mul(e, h))),
    )
}

/// 3x3 determinant of the rows `(a b c; d e g; h k l)`.
fn det3x3(a: Fx, b: Fx, c: Fx, d: Fx, e: Fx, g: Fx, h: Fx, k: Fx, l: Fx) -> (r: Fx)
    ensures
        r as int == s_det3x3(a as int, b as int, c as int, d as int, e as int, g as int, h as int, k as int, l as int),
{
    fx_add(
        fx_sub(
            fx_mul(a, fx_sub(fx_mul(e, l), fx_mul(g, k))),
            fx_mul(b, fx_sub(fx_mul(d, l), fx_mul(g, h))),
        ),
        fx_mul(c, fx_sub(fx_mul(d, k), fx_mul(e, h))),
    )
}

/// The cofactor matrix: entry `(i, j)` is the signed 3x3 minor determinant.
pub open spec fn s_cof(m: MatInts) -> MatInts {
    MatInts {
            m00: s_det3x3(m.m11, m.m12, m.m13, m.m21, m.m22, m.m23, m.m31, m.m32, m.m33),
            m01: s_neg(s_det3x3(m.m10, m.m12, m.m13, m.m20, m.m22, m.m23, m.m30, m.m32, m.m33)),
            m02: s_det3x3(m.m10, m.m11, m.m13, m.m20, m.m21, m.m23, m.m30, m.m31, m.m33),
            m03: s_neg(s_det3x3(m.m10, m.m11, m.m12, m.m20, m.m21, m.m22, m.m30, m.m31, m.m32)),
            m10: s_neg(s_det3x3(m.m01, m.m02, m.m03, m.m21, m.m22, m.m23, m.m31, m.m32, m.m33)),
            m11: s_det3x3(m.m00, m.m02, m.m03, m.m20, m.m22, m.m23, m.m30, m.m32, m.m33),
            m12: s_neg(s_det3x3(m.m00, m.m01, m.m03, m.m20, m.m21, m.m23, m.m30, m.m31, m.m33)),
            m13: s_det3x3(m.m00, m.m01, m.m02, m.m20, m.m21, m.m22, m.m30, m.m31, m.m32),
            m20: s_det3x3(m.m01, m.m02, m.m03, m.m11, m.m12, m.m13, m.m31, m.m32, m.m33),
            m21: s_neg(s_det3x3(m.m00, m.m02, m.m03, m.m10, m.m12, m.m13, m.m30, m.m32, m.m33)),
            m22: s_det3x3(m.m00, m.m01, m.m03, m.m10, m.m11, m.m13, m.m30, m.m31, m.m33),
            m23: s_neg(s_det3x3(m.m00, m.m01, m.m02, m.m10, m.m11, m.m12, m.m30, m.m31, m.m32)),
            m30: s_neg(s_det3x3(m.m01, m.m02, m.m03, m.m11, m.m12, m.m13, m.m21, m.m22, m.m23)),
            m31: s_det3x3(m.m00, m.m02, m.m03, m.m10, m.m12, m.m13, m.m20, m.m22, m.m23),
            m32: s_neg(s_det3x3(m.m00, m.m01, m.m03, m.m10, m.m11, m.m13, m.m20, m.m21, m.m23)),
            m33: s_det3x3(m.m00, m.m01, m.m02, m.m10, m.m11, m.m12, m.m20, m.m21, m.m22),
    }
}

/// The determinant: row-0 expansion over cofactors.
pub open spec fn s_mat_det(m: MatInts) -> int {
    let c = s_cof(m);
    s_add(
        s_add(s_mul(m.m00, c.m00), s_mul(m.m01, c.m01)),
        s_add(s_mul(m.m02, c.m02), s_mul(m.m03, c.m03)),
    )
}

/// The inverse as adjugate over determinant: entry `(i, j)` is
/// `cof(j, i) / det`.
pub open spec fn s_mat_inverse(m: MatInts) -> MatInts {
    let c = s_cof(m);
    let det = s_mat_det(m);
    MatInts {
        m00: s_div(c.m00, det),
        m01: s_div(c.m10, det),
        m02: s_div(c.m20, det),
        m03: s_div(c.m30, det),
        m10: s_div(c.m01, det),
        m11: s_div(c.m11, det),
        m12: s_div(c.m21, det),
        m13: s_div(c.m31, det),
        m20: s_div(c.m02, det),
        m21: s_div(c.m12, det),
        m22: s_div(c.m22, det),
        m23: s_div(c.m32, det),
        m30: s_div(c.m03, det),
        m31: s_div(c.m13, det),
        m32: s_div(c.m23, det),
        m33: s_div(c.m33, det),
    }
}

impl Matrix4 {
    /// Upper-left 3x3 determinant; negative when the transform swaps
    /// handedness.
    pub fn det_upper3(self) -> (r: Fx)
        ensures
            r as int == s_det3x3(
                self.m00 as int, self.m01 as int, self.m02 as int,
                self.m10 as int, self.m11 as int, self.m12 as int,
                self.m20 as int, self.m21 as int, self.m22 as int,
            ),
    {
        det3x3(
            self.m00, self.m01, self.m02,
            self.m10, self.m11, self.m12,
            self.m20, self.m21, self.m22,
        )
    }

    /// The matrix inverse, exactly the adjugate over the determinant, or
    /// `None` when the determinant is zero at this scale.
    pub fn try_inverse(self) -> (r: Option<Matrix4>)
        ensures
            r.is_some() <==> s_mat_det(self.ints()) != 0,
            r.is_some() ==> r.unwrap().ints() == s_mat_inverse(self.ints()),
    {
        let c00 = det3x3(self.m11, self.m12, self.m13, self.m21, self.m22, self.m23, self.m31, self.m32, self.m33);
        let c01 = fx_neg(det3x3(self.m10, self.m12, self.m13, self.m20, self.m22, self.m23, self.m30, self.m32, self.m33));
        let c02 = det3x3(self.m10, self.m11, self.m13, self.m20, self.m21, self.m23, self.m30, self.m31, self.m33);
        let c03 = fx_neg(det3x3(self.m10, self.m11, self.m12, self.m20, self.m21, self.m22, self.m30, self.m31, self.m32));
        let c10 = fx_neg(det3x3(self.m01, self.m02, self.m03, self.m21, self.m22, self.m23, self.m31, self.m32, self.m33));
        let c11 = det3x3(self.m00, self.m02, self.m03, self.m20, self.m22, self.m23, self.m30, self.m32, self.m33);
        let c12 = fx_neg(det3x3(self.m00, self.m01, self.m03, self.m20, self.m21, self.m23, self.m30, self.m31, self.m33));
        let c13 = det3x3(self.m00, self.m01, self.m02, self.m20, self.m21, self.m22, self.m30, self.m31, self.m32);
        let c20 = det3x3(self.m01, self.m02, self.m03, self.m11, self.m12, self.m13, self.m31, self.m32, self.m33);
        let c21 = fx_neg(det3x3(self.m00, self.m02, self.m03, self.m10, self.m12, self.m13, self.m30, self.m32, self.m33));
        let c22 = det3x3(self.m00, self.m01, self.m03, self.m10, self.m11, self.m13, self.m30, self.m31, self.m33);
        let c23 = fx_neg(det3x3(self.m00, self.m01, self.m02, self.m10, self.m11, self.m12, self.m30, self.m31, self.m32));
        let c30 = fx_neg(det3x3(self.m01, self.m02, self.m03, self.m11, self.m12, self.m13, self.m21, self.m22, self.m23));
        let c31 = det3x3(self.m00, self.m02, self.m03, self.m10, self.m12, self.m13, self.m20, self.m22, self.m23);
        let c32 = fx_neg(det3x3(self.m00, self.m01, self.m03, self.m10, self.m11, self.m13, self.m20, self.m21, self.m23));
        let c33 = det3x3(self.m00, self.m01, self.m02, self.m10, self.m11, self.m12, self.m20, self.m21, self.m22);
        let det = fx_add(
            fx_add(fx_mul(self.m00, c00), fx_mul(self.m01, c01)),
            fx_add(fx_mul(self.m02, c02), fx_mul(self.m03, c03)),
        );
        if det == 0 {
            return None;
        }
        let inv = Matrix4 {
            m00: fx_div(c00, det),
            m01: fx_div(c10, det),
            m02: fx_div(c20, det),
            m03: fx_div(c30, det),
            m10: fx_div(c01, det),
            m11: fx_div(c11, det),
            m12: fx_div(c21, det),
            m13: fx_div(c31, det),
            m20: fx_div(c02, det),
            m21: fx_div(c12, det),
            m22: fx_div(c22, det),
            m23: fx_div(c32, det),
            m30: fx_div(c03, det),
            m31: fx_div(c13, det),
            m32: fx_div(c23, det),
            m33: fx_div(c33, det),
        };
        Some(inv)
    }

    /// Applies the matrix to a homogeneous column `(x, y, z, w)`; returns
    /// the four transformed coordinates.
    fn apply4(self, x: Fx, y: Fx, z: Fx, w: Fx) -> (r: (Fx, Fx, Fx, Fx))
        ensures
            r.0 as int == s_row4(self.m00 as int, self.m01 as int, self.m02 as int, self.m03 as int, x as int, y as int, z as int, w as int),
            r.1 as int == s_row4(self.m10 as int, self.m11 as int, self.m12 as int, self.m13 as int, x as int, y as int, z as int, w as int),
            r.2 as int == s_row4(self.m20 as int, self.m21 as int, self.m22 as int, self.m23 as int, x as int, y as int, z as int, w as int),
            r.3 as int == s_row4(self.m30 as int, self.m31 as int, self.m32 as int, self.m33 as int, x as int, y as int, z as int, w as int),
    {
        (
            row4(self.m00, self.m01, self.m02, self.m03, x, y, z, w),
            row4(self.m10, self.m11, self.m12, self.m13, x, y, z, w),
            row4(self.m20, self.m21, self.m22, self.m23, x, y, z, w),
            row4(self.m30, self.m31, self.m32, self.m33, x, y, z, w),
        )
    }
}

/// Mirror of applying the matrix to a point: homogeneous apply at `w = 1`,
/// then a perspective divide unless `w'` is one or zero.
pub open spec fn s_tpoint(m: MatInts, px: int, py: int, pz: int) -> (int, int, int) {
    let one = FX_ONE as int;
    let x = s_row4(m.m00, m.m01, m.m02, m.m03, px, py, pz, one);
    let y = s_row4(m.m10, m.m11, m.m12, m.m13, px, py, pz, one);
    let z = s_row4(m.m20, m.m21, m.m22, m.m23, px, py, pz, one);
    let w = s_row4(m.m30, m.m31, m.m32, m.m33, px, py, pz, one);
    if w == one || w == 0 {
        (x, y, z)
    } else {
        (s_div(x, w), s_div(y, w), s_div(z, w))
    }
}

/// Mirror of applying the matrix to a direction: `w = 0`, no translation,
/// no divide.
pub open spec fn s_tvec(m: MatInts, vx: int, vy: int, vz: int) -> (int, int, int) {
    (
        s_row4(m.m00, m.m01, m.m02, m.m03, vx, vy, vz, 0),
        s_row4(m.m10, m.m11, m.m12, m.m13, vx, vy, vz, 0),
        s_row4(m.m20, m.m21, m.m22, m.m23, vx, vy, vz, 0),
    )
}

impl Matrix4 {
    /// Applies the matrix to a point (translates; divides by `w'` when it is
    /// neither one nor zero).
    pub fn transform_point(self, p: crate::vector::Point3) -> (r: crate::vector::Point3)
        ensures
            ({
                let t = s_tpoint(self.ints(), p.x as int, p.y as int, p.z as int);
                r.x as int == t.0 && r.y as int == t.1 && r.z as int == t.2
            }),
    {
        let (x, y, z, w) = self.apply4(p.x, p.y, p.z, FX_ONE);
        if w == FX_ONE || w == 0 {
            crate::vector::Vec3 { x, y, z }
        } else {
            crate::vector::Vec3 { x: fx_div(x, w), y: fx_div(y, w), z: fx_div(z, w) }
        }
    }

    /// Applies the matrix to a direction (ignores translation).
    pub fn transform_vector(self, v: &crate::vector::Vec3) -> (r: crate::vector::Vec3)
        ensures
            ({
                let t = s_tvec(self.ints(), v.x as int, v.y as int, v.z as int);
                r.x as int == t.0 && r.y as int == t.1 && r.z as int == t.2
            }),
    {
        let (x, y, z, _w) = self.apply4(v.x, v.y, v.z, 0);
        crate::vector::Vec3 { x, y, z }
    }
}

} // verus!
