//! Transforms: a forward/inverse pair of 4x4 matrices, with distinct
//! application rules for points, vectors, normals, rays and boxes.
//!
//! Constructors with a closed-form inverse (translation, scaling, rotation,
//! lookat) build both matrices directly; `new_from_forward` inverts
//! numerically through the adjugate.

use vstd::prelude::*;

use crate::aabb::{s_pmax, s_pmin, AABB3};
use crate::common::s_deg2rad;
use crate::fixed::{s_div, s_neg, s_sub, Fx, fx_div, fx_neg, FX_ONE};
use crate::matrix::{
    matrix4, s_det3x3, s_mat_det, s_mat_inverse, s_mat_mul, s_row4, s_tpoint, s_tvec, MatInts,
    Matrix4,
};
use crate::ray::Ray;
use crate::trig::{cos_sin, s_cos_sin, tan_fx};
use crate::vector::{s_dot, vec3, Normal3, Point3, Vec3};

verus! {

/// A cached pair of a matrix and its inverse, so that inversion is a swap.
#[derive(Clone, Copy, PartialEq, Eq, Structural, Debug)]
pub struct Transform {
    m_forward: Matrix4,
    m_inverse: Matrix4,
}

/// The identity matrix's entries.
pub open spec fn s_identity() -> MatInts {
    MatInts {
        m00: FX_ONE as int,
        m01: 0,
        m02: 0,
        m03: 0,
        m10: 0,
        m11: FX_ONE as int,
        m12: 0,
        m13: 0,
        m20: 0,
        m21: 0,
        m22: FX_ONE as int,
        m23: 0,
        m30: 0,
        m31: 0,
        m32: 0,
        m33: FX_ONE as int,
    }
}

/// A translation by `d`.
pub open spec fn s_translation(d: Vec3) -> MatInts {
    MatInts {
        m00: FX_ONE as int,
        m01: 0,
        m02: 0,
        m03: d.x as int,
        m10: 0,
        m11: FX_ONE as int,
        m12: 0,
        m13: d.y as int,
        m20: 0,
        m21: 0,
        m22: FX_ONE as int,
        m23: d.z as int,
        m30: 0,
        m31: 0,
        m32: 0,
        m33: FX_ONE as int,
    }
}

/// The inverse translation: by `-d`.
pub open spec fn s_translation_inv(d: Vec3) -> MatInts {
    MatInts {
        m00: FX_ONE as int,
        m01: 0,
        m02: 0,
        m03: s_neg(d.x as int),
        m10: 0,
        m11: FX_ONE as int,
        m12: 0,
        m13: s_neg(d.y as int),
        m20: 0,
        m21: 0,
        m22: FX_ONE as int,
        m23: s_neg(d.z as int),
        m30: 0,
        m31: 0,
        m32: 0,
        m33: FX_ONE as int,
    }
}

/// A scaling by `v` on the axes.
pub open spec fn s_scaling(v: Vec3) -> MatInts {
    MatInts {
        m00: v.x as int,
        m01: 0,
        m02: 0,
        m03: 0,
        m10: 0,
        m11: v.y as int,
        m12: 0,
        m13: 0,
        m20: 0,
        m21: 0,
        m22: v.z as int,
        m23: 0,
        m30: 0,
        m31: 0,
        m32: 0,
        m33: FX_ONE as int,
    }
}

/// The inverse scaling: by the reciprocals.
pub open spec fn s_scaling_inv(v: Vec3) -> MatInts {
    MatInts {
        m00: s_div(FX_ONE as int, v.x as int),
        m01: 0,
        m02: 0,
        m03: 0,
        m10: 0,
        m11: s_div(FX_ONE as int, v.y as int),
        m12: 0,
        m13: 0,
        m20: 0,
        m21: 0,
        m22: s_div(FX_ONE as int, v.z as int),
        m23: 0,
        m30: 0,
        m31: 0,
        m32: 0,
        m33: FX_ONE as int,
    }
}

/// A rotation about the x axis with the given cosine and sine.
pub open spec fn s_rot_x(c: int, s: int) -> MatInts {
    MatInts {
        m00: FX_ONE as int,
        m01: 0,
        m02: 0,
        m03: 0,
        m10: 0,
        m11: c,
        m12: -s,
        m13: 0,
        m20: 0,
        m21: s,
        m22: c,
        m23: 0,
        m30: 0,
        m31: 0,
        m32: 0,
        m33: FX_ONE as int,
    }
}

/// A rotation about the y axis with the given cosine and sine.
pub open spec fn s_rot_y(c: int, s: int) -> MatInts {
    MatInts {
        m00: c,
        m01: 0,
        m02: s,
        m03: 0,
        m10: 0,
        m11: FX_ONE as int,
        m12: 0,
        m13: 0,
        m20: -s,
        m21: 0,
        m22: c,
        m23: 0,
        m30: 0,
        m31: 0,
        m32: 0,
        m33: FX_ONE as int,
    }
}

/// A rotation about the z axis with the given cosine and sine.
pub open spec fn s_rot_z(c: int, s: int) -> MatInts {
    MatInts {
        m00: c,
        m01: -s,
        m02: 0,
        m03: 0,
        m10: s,
        m11: c,
        m12: 0,
        m13: 0,
        m20: 0,
        m21: 0,
        m22: FX_ONE as int,
        m23: 0,
        m30: 0,
        m31: 0,
        m32: 0,
        m33: FX_ONE as int,
    }
}

impl Transform {
    /// Spec view of the forward matrix as a matrix.
    pub closed spec fn spec_forward(self) -> Matrix4 {
        self.m_forward
    }

    /// Spec view of the inverse matrix as a matrix.
    pub closed spec fn spec_inverse(self) -> Matrix4 {
        self.m_inverse
    }

    /// Spec view of the forward matrix's entries.
    pub open spec fn fwd(self) -> MatInts {
        self.spec_forward().ints()
    }

    /// Spec view of the inverse matrix's entries.
    pub open spec fn inv(self) -> MatInts {
        self.spec_inverse().ints()
    }

    pub fn forward_matrix(&self) -> (r: &Matrix4)
        ensures
            r == self.spec_forward(),
    {
        &self.m_forward
    }

    pub fn inverse_matrix(&self) -> (r: &Matrix4)
        ensures
            r == self.spec_inverse(),
    {
        &self.m_inverse
    }

    /// The inverse transform: the pair swapped.
    pub fn as_inverse_transform(&self) -> (r: Transform)
        ensures
            r.spec_forward() == self.spec_inverse(),
            r.spec_inverse() == self.spec_forward(),
    {
        Transform { m_forward: self.m_inverse, m_inverse: self.m_forward }
    }

    /// A transform from an already-inverted pair of matrices.
    pub fn new(m_forward: Matrix4, m_inverse: Matrix4) -> (r: Self)
        ensures
            r.spec_forward() == m_forward,
            r.spec_inverse() == m_inverse,
    {
        Self { m_forward, m_inverse }
    }

    /// A transform whose inverse is computed from the forward matrix;
    /// `None` when the matrix is singular at this scale.
    pub fn new_from_forward(m_forward: Matrix4) -> (r: Option<Self>)
        ensures
            r.is_some() <==> s_mat_det(m_forward.ints()) != 0,
            r.is_some() ==> r.unwrap().spec_forward() == m_forward,
            r.is_some() ==> r.unwrap().inv() == s_mat_inverse(m_forward.ints()),
    {
        let m_inverse = m_forward.try_inverse();
        match m_inverse {
            Some(m_inv) => Some(Self { m_forward, m_inverse: m_inv }),
            None => None,
        }
    }

    /// Both matrices transposed.
    pub fn from_transpose(t: Transform) -> (r: Self)
        ensures
            r.spec_forward() == t.spec_forward().spec_transpose(),
            r.spec_inverse() == t.spec_inverse().spec_transpose(),
    {
        Self {
            m_forward: t.m_forward.transpose(),
            m_inverse: t.m_inverse.transpose(),
        }
    }

    /// The identity transform.
    pub fn new_identity() -> (r: Self)
        ensures
            r.fwd() == s_identity(),
            r.inv() == s_identity(),
    {
        Self { m_forward: Matrix4::identity(), m_inverse: Matrix4::identity() }
    }

    /// A translation by `delta`; the inverse translates back.
    pub fn new_translate(delta: Vec3) -> (r: Self)
        ensures
            r.fwd() == s_translation(delta),
            r.inv() == s_translation_inv(delta),
    {
        Self {
            m_forward: matrix4(
                [
                    [FX_ONE, 0, 0, delta.x],
                    [0, FX_ONE, 0, delta.y],
                    [0, 0, FX_ONE, delta.z],
                    [0, 0, 0, FX_ONE],
                ],
            ),
            m_inverse: matrix4(
                [
                    [FX_ONE, 0, 0, fx_neg(delta.x)],
                    [0, FX_ONE, 0, fx_neg(delta.y)],
                    [0, 0, FX_ONE, fx_neg(delta.z)],
                    [0, 0, 0, FX_ONE],
                ],
            ),
        }
    }

    /// An axis-aligned scaling by `s`; the inverse scales by the
    /// reciprocals.
    pub fn new_scale(s: Vec3) -> (r: Self)
        ensures
            r.fwd() == s_scaling(s),
            r.inv() == s_scaling_inv(s),
    {
        Self {
            m_forward: matrix4(
                [
                    [s.x, 0, 0, 0],
                    [0, s.y, 0, 0],
                    [0, 0, s.z, 0],
                    [0, 0, 0, FX_ONE],
                ],
            ),
            m_inverse: matrix4(
                [
                    [fx_div(FX_ONE, s.x), 0, 0, 0],
                    [0, fx_div(FX_ONE, s.y), 0, 0],
                    [0, 0, fx_div(FX_ONE, s.z), 0],
                    [0, 0, 0, FX_ONE],
                ],
            ),
        }
    }

    /// Rotation about the x axis by `theta` radians; the inverse rotates by
    /// `-theta`.
    pub fn new_rotate_x(theta: Fx) -> (r: Self)
        ensures
            ({
                let p = s_cos_sin(theta as int);
                let q = s_cos_sin(s_neg(theta as int));
                r.fwd() == s_rot_x(p.0, p.1) && r.inv() == s_rot_x(q.0, q.1)
            }),
    {
        let (c, s) = cos_sin(theta);
        let (ci, si) = cos_sin(fx_neg(theta));
        Self {
            m_forward: matrix4(
                [
                    [FX_ONE, 0, 0, 0],
                    [0, c, fx_neg(s), 0],
                    [0, s, c, 0],
                    [0, 0, 0, FX_ONE],
                ],
            ),
            m_inverse: matrix4(
                [
                    [FX_ONE, 0, 0, 0],
                    [0, ci, fx_neg(si), 0],
                    [0, si, ci, 0],
                    [0, 0, 0, FX_ONE],
                ],
            ),
        }
    }
}

impl Transform {
    /// Rotation about the y axis by `theta` radians; the inverse rotates by
    /// `-theta`.
    pub fn new_rotate_y(theta: Fx) -> (r: Self)
        ensures
            ({
                let p = s_cos_sin(theta as int);
                let q = s_cos_sin(s_neg(theta as int));
                r.fwd() == s_rot_y(p.0, p.1) && r.inv() == s_rot_y(q.0, q.1)
            }),
    {
        let (c, s) = cos_sin(theta);
        let (ci, si) = cos_sin(fx_neg(theta));
        Self {
            m_forward: matrix4(
                [
                    [c, 0, s, 0],
                    [0, FX_ONE, 0, 0],
                    [fx_neg(s), 0, c, 0],
                    [0, 0, 0, FX_ONE],
                ],
            ),
            m_inverse: matrix4(
                [
                    [ci, 0, si, 0],
                    [0, FX_ONE, 0, 0],
                    [fx_neg(si), 0, ci, 0],
                    [0, 0, 0, FX_ONE],
                ],
            ),
        }
    }

    /// Rotation about the z axis by `theta` radians; the inverse rotates by
    /// `-theta`.
    pub fn new_rotate_z(theta: Fx) -> (r: Self)
        ensures
            ({
                let p = s_cos_sin(theta as int);
                let q = s_cos_sin(s_neg(theta as int));
                r.fwd() == s_rot_z(p.0, p.1) && r.inv() == s_rot_z(q.0, q.1)
            }),
    {
        let (c, s) = cos_sin(theta);
        let (ci, si) = cos_sin(fx_neg(theta));
        Self {
            m_forward: matrix4(
                [
                    [c, fx_neg(s), 0, 0],
                    [s, c, 0, 0],
                    [0, 0, FX_ONE, 0],
                    [0, 0, 0, FX_ONE],
                ],
            ),
            m_inverse: matrix4(
                [
                    [ci, fx_neg(si), 0, 0],
                    [si, ci, 0, 0],
                    [0, 0, FX_ONE, 0],
                    [0, 0, 0, FX_ONE],
                ],
            ),
        }
    }
}

/// The camera basis of a lookat: forward `f = normalize(look - pos)`,
/// sideways `s = normalize(f x up)`, corrected up `u = s x f`.
pub open spec fn s_lookat_basis(pos: Point3, look: Point3, up: Vec3) -> (Vec3, Vec3, Vec3) {
    let d = look.sub_spec(pos);
    let m = crate::fixed::s_sqrt(s_dot(d, d));
    let fv = Vec3 {
        x: s_div(d.x as int, m) as i64,
        y: s_div(d.y as int, m) as i64,
        z: s_div(d.z as int, m) as i64,
    };
    let c = s_cross(fv, up);
    let mc = crate::fixed::s_sqrt(s_dot(c, c));
    let sv = Vec3 {
        x: s_div(c.x as int, mc) as i64,
        y: s_div(c.y as int, mc) as i64,
        z: s_div(c.z as int, mc) as i64,
    };
    let uv = s_cross(sv, fv);
    (fv, sv, uv)
}

/// The view matrix of a lookat: rows are the basis vectors, the last column
/// their negated projections of the eye point.
pub open spec fn s_lookat_fwd(pos: Point3, look: Point3, up: Vec3) -> MatInts {
    let b = s_lookat_basis(pos, look, up);
    let fv = b.0;
    let sv = b.1;
    let uv = b.2;
    MatInts {
        m00: sv.x as int, m01: sv.y as int, m02: sv.z as int, m03: s_neg(s_dot(sv, pos)),
        m10: uv.x as int, m11: uv.y as int, m12: uv.z as int, m13: s_neg(s_dot(uv, pos)),
        m20: s_neg(fv.x as int), m21: s_neg(fv.y as int), m22: s_neg(fv.z as int), m23: s_dot(fv, pos),
        m30: 0, m31: 0, m32: 0, m33: FX_ONE as int,
    }
}

/// The closed-form inverse of the view matrix: basis vectors as columns and
/// the eye point as the last column (exact for a rigid frame).
pub open spec fn s_lookat_inv(pos: Point3, look: Point3, up: Vec3) -> MatInts {
    let b = s_lookat_basis(pos, look, up);
    let fv = b.0;
    let sv = b.1;
    let uv = b.2;
    MatInts {
        m00: sv.x as int, m01: uv.x as int, m02: s_neg(fv.x as int), m03: pos.x as int,
        m10: sv.y as int, m11: uv.y as int, m12: s_neg(fv.y as int), m13: pos.y as int,
        m20: sv.z as int, m21: uv.z as int, m22: s_neg(fv.z as int), m23: pos.z as int,
        m30: 0, m31: 0, m32: 0, m33: FX_ONE as int,
    }
}

/// The cross product at the spec level.
pub open spec fn s_cross(a: Vec3, b: Vec3) -> Vec3 {
    Vec3 {
        x: s_sub(crate::fixed::s_mul(a.y as int, b.z as int), crate::fixed::s_mul(a.z as int, b.y as int)) as i64,
        y: s_sub(crate::fixed::s_mul(a.z as int, b.x as int), crate::fixed::s_mul(a.x as int, b.z as int)) as i64,
        z: s_sub(crate::fixed::s_mul(a.x as int, b.y as int), crate::fixed::s_mul(a.y as int, b.x as int)) as i64,
    }
}

impl Transform {
    /// A right-handed lookat view transform with its rigid closed-form
    /// inverse.
    pub fn new_lookat(pos: Point3, look: Point3, up: Vec3) -> (r: Self)
        ensures
            r.fwd() == s_lookat_fwd(pos, look, up),
            r.inv() == s_lookat_inv(pos, look, up),
    {
        let fv = look.sub(pos).normalize();
        let sv = fv.cross(up).normalize();
        let uv = sv.cross(fv);
        let m_forward = matrix4(
            [
                [sv.x, sv.y, sv.z, fx_neg(sv.dot(pos))],
                [uv.x, uv.y, uv.z, fx_neg(uv.dot(pos))],
                [fx_neg(fv.x), fx_neg(fv.y), fx_neg(fv.z), fv.dot(pos)],
                [0, 0, 0, FX_ONE],
            ],
        );
        let m_inverse = matrix4(
            [
                [sv.x, uv.x, fx_neg(fv.x), pos.x],
                [sv.y, uv.y, fx_neg(fv.y), pos.y],
                [sv.z, uv.z, fx_neg(fv.z), pos.z],
                [0, 0, 0, FX_ONE],
            ],
        );
        Self { m_forward, m_inverse }
    }

    /// An orthographic depth remap: scale after translating the near plane
    /// to the origin.
    pub fn new_orthographic(z_near: Fx, z_far: Fx) -> (r: Self)
        ensures
            ({
                let sc = Transform::spec_new_scale_arg(z_near, z_far);
                let tr = Vec3 { x: 0, y: 0, z: s_neg(z_near as int) as i64 };
                r.fwd() == s_mat_mul(s_scaling(sc), s_translation(tr)) && r.inv() == s_mat_mul(
                    s_scaling_inv(sc),
                    s_translation_inv(tr),
                )
            }),
    {
        let sc = vec3(FX_ONE, FX_ONE, fx_div(FX_ONE, crate::fixed::fx_sub(z_far, z_near)));
        Transform::new_scale(sc).compose(Transform::new_translate(vec3(0, 0, fx_neg(z_near))))
    }

    /// The scale vector used by the orthographic transform.
    pub open spec fn spec_new_scale_arg(z_near: Fx, z_far: Fx) -> Vec3 {
        Vec3 {
            x: FX_ONE,
            y: FX_ONE,
            z: s_div(FX_ONE as int, s_sub(z_far as int, z_near as int)) as i64,
        }
    }

    /// Composition: forward matrices multiplied, and likewise the cached
    /// inverses.
    pub fn compose(self, rhs: Transform) -> (r: Transform)
        ensures
            r.fwd() == s_mat_mul(self.fwd(), rhs.fwd()),
            r.inv() == s_mat_mul(self.inv(), rhs.inv()),
    {
        Transform::new(
            self.m_forward.mat_mul(rhs.m_forward),
            self.m_inverse.mat_mul(rhs.m_inverse),
        )
    }
}

/// The perspective depth matrix: maps `z` in `[n, f]` projectively.
pub open spec fn s_persp_mat(n: int, f: int) -> MatInts {
    let one = FX_ONE as int;
    MatInts {
        m00: one, m01: 0, m02: 0, m03: 0,
        m10: 0, m11: one, m12: 0, m13: 0,
        m20: 0, m21: 0, m22: s_div(f, s_sub(f, n)), m23: s_neg(s_div(crate::fixed::s_mul(f, n), s_sub(f, n))),
        m30: 0, m31: 0, m32: one, m33: 0,
    }
}

/// `1 / tan(deg2rad(fov) / 2)`: the focal scale of a perspective transform.
pub open spec fn s_inv_tan_half_fov(fov_deg: int) -> int {
    s_div(FX_ONE as int, crate::trig::s_tan(s_div(s_deg2rad(fov_deg), 2 * FX_ONE as int)))
}

impl Transform {
    /// A perspective projection with the given vertical field of view in
    /// degrees; `None` when the depth matrix is singular at this scale.
    #[verifier::rlimit(50)]
    pub fn new_perspective(fov_deg: Fx, n: Fx, f: Fx) -> (r: Option<Self>)
        ensures
            r.is_some() <==> s_mat_det(s_persp_mat(n as int, f as int)) != 0,
            r.is_some() ==> ({
                let it = s_inv_tan_half_fov(fov_deg as int) as i64;
                let sc = Vec3 { x: it, y: it, z: FX_ONE };
                let pm = s_persp_mat(n as int, f as int);
                r.unwrap().fwd() == s_mat_mul(s_scaling(sc), pm) && r.unwrap().inv() == s_mat_mul(
                    s_scaling_inv(sc),
                    s_mat_inverse(pm),
                )
            }),
    {
        let fn_div = fx_div(f, crate::fixed::fx_sub(f, n));
        let off = fx_neg(fx_div(crate::fixed::fx_mul(f, n), crate::fixed::fx_sub(f, n)));
        let persp = matrix4(
            [
                [FX_ONE, 0, 0, 0],
                [0, FX_ONE, 0, 0],
                [0, 0, fn_div, off],
                [0, 0, FX_ONE, 0],
            ],
        );
        let inv_tan = fx_div(FX_ONE, tan_fx(fx_div(crate::common::deg2rad(fov_deg), 2 * FX_ONE)));
        assert(inv_tan as int == s_inv_tan_half_fov(fov_deg as int));
        assert(-(crate::fixed::FX_MAX as int) <= inv_tan as int <= crate::fixed::FX_MAX as int);
        match Transform::new_from_forward(persp) {
            Some(p) => Some(Transform::new_scale(vec3(inv_tan, inv_tan, FX_ONE)).compose(p)),
            None => None,
        }
    }
}

/// Whether a squared axis length is away from one by more than a tolerance
/// of about a thousandth.
pub open spec fn s_not_one(x: int) -> bool {
    x < 65470 || x > 65601
}

/// The squared length of a direction after the matrix is applied to it.
pub open spec fn s_tvec_len2(m: MatInts, x: int, y: int, z: int) -> int {
    let t = s_tvec(m, x, y, z);
    let v = Vec3 { x: t.0 as i64, y: t.1 as i64, z: t.2 as i64 };
    s_dot(v, v)
}

impl Transform {
    /// Whether the forward matrix changes the length of some unit axis by
    /// more than the tolerance.
    pub fn has_scale(&self) -> (r: bool)
        ensures
            r == (s_not_one(s_tvec_len2(self.fwd(), FX_ONE as int, 0, 0)) || s_not_one(
                s_tvec_len2(self.fwd(), 0, FX_ONE as int, 0),
            ) || s_not_one(s_tvec_len2(self.fwd(), 0, 0, FX_ONE as int))),
    {
        let la2 = self.fvec(&vec3(FX_ONE, 0, 0)).magnitude_squared();
        let lb2 = self.fvec(&vec3(0, FX_ONE, 0)).magnitude_squared();
        let lc2 = self.fvec(&vec3(0, 0, FX_ONE)).magnitude_squared();
        (la2 < 65470 || la2 > 65601) || (lb2 < 65470 || lb2 > 65601) || (lc2 < 65470 || lc2
            > 65601)
    }

    /// Both matrices transposed, as a transform.
    pub fn transpose(self) -> (r: Transform)
        ensures
            r.spec_forward() == self.spec_forward().spec_transpose(),
            r.spec_inverse() == self.spec_inverse().spec_transpose(),
    {
        Transform::new(self.m_forward.transpose(), self.m_inverse.transpose())
    }

    /// Whether the upper-left determinant of the forward matrix is
    /// negative, i.e. the transform mirrors space.
    pub fn swaps_handedness(self) -> (r: bool)
        ensures
            r == (s_det3x3(
                self.fwd().m00, self.fwd().m01, self.fwd().m02,
                self.fwd().m10, self.fwd().m11, self.fwd().m12,
                self.fwd().m20, self.fwd().m21, self.fwd().m22,
            ) < 0),
    {
        self.m_forward.det_upper3() < 0
    }

    /// Applies the forward matrix to a point.
    pub fn forward_point_transform(self, a: Point3) -> (r: Point3)
        ensures
            ({
                let t = s_tpoint(self.fwd(), a.x as int, a.y as int, a.z as int);
                r.x as int == t.0 && r.y as int == t.1 && r.z as int == t.2
            }),
    {
        self.m_forward.transform_point(a)
    }

    /// Applies the forward matrix to a point.
    pub fn fpt(self, a: Point3) -> (r: Point3)
        ensures
            ({
                let t = s_tpoint(self.fwd(), a.x as int, a.y as int, a.z as int);
                r.x as int == t.0 && r.y as int == t.1 && r.z as int == t.2
            }),
    {
        self.forward_point_transform(a)
    }

    /// Applies the inverse matrix to a point.
    pub fn inverse_point_transform(self, a: Point3) -> (r: Point3)
        ensures
            ({
                let t = s_tpoint(self.inv(), a.x as int, a.y as int, a.z as int);
                r.x as int == t.0 && r.y as int == t.1 && r.z as int == t.2
            }),
    {
        self.m_inverse.transform_point(a)
    }

    /// Applies the inverse matrix to a point.
    pub fn ipt(self, a: Point3) -> (r: Point3)
        ensures
            ({
                let t = s_tpoint(self.inv(), a.x as int, a.y as int, a.z as int);
                r.x as int == t.0 && r.y as int == t.1 && r.z as int == t.2
            }),
    {
        self.inverse_point_transform(a)
    }

    /// Applies the forward matrix to a direction (no translation).
    pub fn forward_vector_transform(self, a: &Vec3) -> (r: Vec3)
        ensures
            ({
                let t = s_tvec(self.fwd(), a.x as int, a.y as int, a.z as int);
                r.x as int == t.0 && r.y as int == t.1 && r.z as int == t.2
            }),
    {
        self.m_forward.transform_vector(a)
    }

    /// Applies the forward matrix to a direction (no translation).
    pub fn fvec(self, a: &Vec3) -> (r: Vec3)
        ensures
            ({
                let t = s_tvec(self.fwd(), a.x as int, a.y as int, a.z as int);
                r.x as int == t.0 && r.y as int == t.1 && r.z as int == t.2
            }),
    {
        self.forward_vector_transform(a)
    }

    /// Applies the inverse matrix to a direction (no translation).
    pub fn inverse_vector_transform(self, a: &Vec3) -> (r: Vec3)
        ensures
            ({
                let t = s_tvec(self.inv(), a.x as int, a.y as int, a.z as int);
                r.x as int == t.0 && r.y as int == t.1 && r.z as int == t.2
            }),
    {
        self.m_inverse.transform_vector(a)
    }

    /// Applies the inverse matrix to a direction (no translation).
    pub fn ivec(self, a: &Vec3) -> (r: Vec3)
        ensures
            ({
                let t = s_tvec(self.inv(), a.x as int, a.y as int, a.z as int);
                r.x as int == t.0 && r.y as int == t.1 && r.z as int == t.2
            }),
    {
        self.inverse_vector_transform(a)
    }

    /// Applies the forward transform to a normal: directions of normals use
    /// the transpose of the inverse matrix.
    pub fn fnorm(self, a: &Normal3) -> (r: Normal3)
        ensures
            ({
                let t = s_tvec(self.spec_inverse().spec_transpose().ints(), a.x as int, a.y as int, a.z as int);
                r.x as int == t.0 && r.y as int == t.1 && r.z as int == t.2
            }),
    {
        self.m_inverse.transpose().transform_vector(a)
    }

    /// Applies the inverse transform to a normal: the transpose of the
    /// forward matrix.
    pub fn inorm(self, a: &Normal3) -> (r: Normal3)
        ensures
            ({
                let t = s_tvec(self.spec_forward().spec_transpose().ints(), a.x as int, a.y as int, a.z as int);
                r.x as int == t.0 && r.y as int == t.1 && r.z as int == t.2
            }),
    {
        self.m_forward.transpose().transform_vector(a)
    }
}

/// The ray with origin and direction transformed by the given matrix pair
/// semantics: origin as a point, direction as a vector.
pub open spec fn s_ray_via(m: MatInts, a: Ray) -> (Ray) {
    let o = s_tpoint(m, a.origin.x as int, a.origin.y as int, a.origin.z as int);
    let d = s_tvec(m, a.direction.x as int, a.direction.y as int, a.direction.z as int);
    Ray {
        origin: Vec3 { x: o.0 as i64, y: o.1 as i64, z: o.2 as i64 },
        direction: Vec3 { x: d.0 as i64, y: d.1 as i64, z: d.2 as i64 },
        ..a
    }
}

impl Transform {
    /// Applies the forward transform to a ray: origin as a point, direction
    /// as a vector; the traversal window and time carry over.
    pub fn forward_ray_transform(self, a: &Ray) -> (r: Ray)
        ensures
            r == s_ray_via(self.fwd(), *a),
    {
        let o = self.fpt(a.origin);
        let d = self.fvec(&a.direction);
        Ray { origin: o, direction: d, ..*a }
    }

    /// Applies the forward transform to a ray.
    pub fn fray(self, a: &Ray) -> (r: Ray)
        ensures
            r == s_ray_via(self.fwd(), *a),
    {
        self.forward_ray_transform(a)
    }

    /// Applies the inverse transform to a ray.
    pub fn inverse_ray_transform(self, a: &Ray) -> (r: Ray)
        ensures
            r == s_ray_via(self.inv(), *a),
    {
        let o = self.ipt(a.origin);
        let d = self.ivec(&a.direction);
        Ray { origin: o, direction: d, ..*a }
    }

    /// Applies the inverse transform to a ray.
    pub fn iray(self, a: &Ray) -> (r: Ray)
        ensures
            r == s_ray_via(self.inv(), *a),
    {
        self.inverse_ray_transform(a)
    }
}

/// One transformed corner of a box, as a point.
pub open spec fn s_corner_via(m: MatInts, x: int, y: int, z: int) -> Vec3 {
    let t = s_tpoint(m, x, y, z);
    Vec3 { x: t.0 as i64, y: t.1 as i64, z: t.2 as i64 }
}

/// The axis-aligned hull of the eight transformed corners of a box.
pub open spec fn s_aabb_via(m: MatInts, a: AABB3) -> AABB3 {
    let x0 = a.p_min.x as int;
    let y0 = a.p_min.y as int;
    let z0 = a.p_min.z as int;
    let x1 = a.p_max.x as int;
    let y1 = a.p_max.y as int;
    let z1 = a.p_max.z as int;
    let c0 = s_corner_via(m, x0, y0, z0);
    let c1 = s_corner_via(m, x1, y0, z0);
    let c2 = s_corner_via(m, x0, y1, z0);
    let c3 = s_corner_via(m, x0, y0, z1);
    let c4 = s_corner_via(m, x0, y1, z1);
    let c5 = s_corner_via(m, x1, y1, z0);
    let c6 = s_corner_via(m, x1, y0, z1);
    let c7 = s_corner_via(m, x1, y1, z1);
    let lo = s_pmin(s_pmin(s_pmin(c0, c1), s_pmin(c2, c3)), s_pmin(s_pmin(c4, c5), s_pmin(c6, c7)));
    let hi = s_pmax(s_pmax(s_pmax(c0, c1), s_pmax(c2, c3)), s_pmax(s_pmax(c4, c5), s_pmax(c6, c7)));
    AABB3 { p_min: lo, p_max: hi }
}

impl Transform {
    #[verifier::rlimit(50)]
    fn aabb_via_forward(self, a: &AABB3, use_inverse: bool) -> (r: AABB3)
        ensures
            !use_inverse ==> r == s_aabb_via(self.fwd(), *a),
            use_inverse ==> r == s_aabb_via(self.inv(), *a),
    {
        let m = if use_inverse {
            self.m_inverse
        } else {
            self.m_forward
        };
        let c0 = m.transform_point(crate::vector::point3(a.p_min.x, a.p_min.y, a.p_min.z));
        let c1 = m.transform_point(crate::vector::point3(a.p_max.x, a.p_min.y, a.p_min.z));
        let c2 = m.transform_point(crate::vector::point3(a.p_min.x, a.p_max.y, a.p_min.z));
        let c3 = m.transform_point(crate::vector::point3(a.p_min.x, a.p_min.y, a.p_max.z));
        let c4 = m.transform_point(crate::vector::point3(a.p_min.x, a.p_max.y, a.p_max.z));
        let c5 = m.transform_point(crate::vector::point3(a.p_max.x, a.p_max.y, a.p_min.z));
        let c6 = m.transform_point(crate::vector::point3(a.p_max.x, a.p_min.y, a.p_max.z));
        let c7 = m.transform_point(crate::vector::point3(a.p_max.x, a.p_max.y, a.p_max.z));
        let mut ret = AABB3::from(c0);
        ret = ret.union(c1);
        ret = ret.union(c2);
        ret = ret.union(c3);
        ret = ret.union(c4);
        ret = ret.union(c5);
        ret = ret.union(c6);
        ret = ret.union(c7);
        ret
    }

    /// The hull of the box's corners under the forward transform.
    pub fn forward_aabb_transform(self, a: &AABB3) -> (r: AABB3)
        ensures
            r == s_aabb_via(self.fwd(), *a),
    {
        self.aabb_via_forward(a, false)
    }

    /// The hull of the box's corners under the forward transform.
    pub fn faabb(self, a: &AABB3) -> (r: AABB3)
        ensures
            r == s_aabb_via(self.fwd(), *a),
    {
        self.forward_aabb_transform(a)
    }

    /// The hull of the box's corners under the inverse transform.
    pub fn inverse_aabb_transform(self, a: &AABB3) -> (r: AABB3)
        ensures
            r == s_aabb_via(self.inv(), *a),
    {
        self.aabb_via_forward(a, true)
    }

    /// The hull of the box's corners under the inverse transform.
    pub fn iaabb(self, a: &AABB3) -> (r: AABB3)
        ensures
            r == s_aabb_via(self.inv(), *a),
    {
        self.inverse_aabb_transform(a)
    }
}

} // verus!
// What follows are the laws this module guarantees exactly. Rotations and
// scalings invert only up to the scalar's resolution (their entries are
// themselves approximate), so their round trips are checked numerically by
// the test suite; for translations the round trips are exact and proved.

verus! {

/// How a translation-shaped row acts: each coordinate row shifts one
/// coordinate by the row's offset, and the homogeneous row yields one.
proof fn lemma_translation_rows(a: int, p: int, q: int, w: int)
    requires
        crate::fixed::abs_int(a) <= crate::fixed::FX_MAX as int,
        crate::fixed::abs_int(p) <= crate::fixed::FX_MAX as int,
        crate::fixed::abs_int(q) <= crate::fixed::FX_MAX as int,
        crate::fixed::abs_int(w) <= crate::fixed::FX_MAX as int,
    ensures
        s_row4(FX_ONE as int, 0, 0, a, p, q, w, FX_ONE as int) == crate::fixed::fit(p + a),
        s_row4(0, FX_ONE as int, 0, a, p, q, w, FX_ONE as int) == crate::fixed::fit(q + a),
        s_row4(0, 0, FX_ONE as int, a, p, q, w, FX_ONE as int) == crate::fixed::fit(w + a),
        s_row4(0, 0, 0, FX_ONE as int, p, q, w, FX_ONE as int) == FX_ONE as int,
        s_row4(FX_ONE as int, 0, 0, a, p, q, w, 0) == p,
        s_row4(0, FX_ONE as int, 0, a, p, q, w, 0) == q,
        s_row4(0, 0, FX_ONE as int, a, p, q, w, 0) == w,
        s_row4(0, 0, 0, FX_ONE as int, p, q, w, 0) == 0,
{
    let one = FX_ONE as int;
    let f0 = crate::fixed::fit(0);
    let f1 = crate::fixed::fit(one);
    let fa = crate::fixed::fit(a);
    let fp = crate::fixed::fit(p);
    let fq = crate::fixed::fit(q);
    let fw = crate::fixed::fit(w);
    assert(f0 == 0 && f1 == one && fa == a && fp == p && fq == q && fw == w);
    let s0 = f1 * fp + f0 * fq + f0 * fw + fa * f1;
    assert(s0 == one * (p + a)) by (nonlinear_arith)
        requires
            s0 == one * p + 0 * q + 0 * w + a * one,
    ;
    let s1 = f0 * fp + f1 * fq + f0 * fw + fa * f1;
    assert(s1 == one * (q + a)) by (nonlinear_arith)
        requires
            s1 == 0 * p + one * q + 0 * w + a * one,
    ;
    let s2 = f0 * fp + f0 * fq + f1 * fw + fa * f1;
    assert(s2 == one * (w + a)) by (nonlinear_arith)
        requires
            s2 == 0 * p + 0 * q + one * w + a * one,
    ;
    let s3 = f0 * fp + f0 * fq + f0 * fw + f1 * f1;
    assert(s3 == one * one) by (nonlinear_arith)
        requires
            s3 == 0 * p + 0 * q + 0 * w + one * one,
    ;
    let v0 = f1 * fp + f0 * fq + f0 * fw + fa * f0;
    assert(v0 == one * p) by (nonlinear_arith)
        requires
            v0 == one * p + 0 * q + 0 * w + a * 0,
    ;
    let v1 = f0 * fp + f1 * fq + f0 * fw + fa * f0;
    assert(v1 == one * q) by (nonlinear_arith)
        requires
            v1 == 0 * p + one * q + 0 * w + a * 0,
    ;
    let v2 = f0 * fp + f0 * fq + f1 * fw + fa * f0;
    assert(v2 == one * w) by (nonlinear_arith)
        requires
            v2 == 0 * p + 0 * q + one * w + a * 0,
    ;
    let v3 = f0 * fp + f0 * fq + f0 * fw + f1 * f0;
    assert(v3 == one * 0) by (nonlinear_arith)
        requires
            v3 == 0 * p + 0 * q + 0 * w + one * 0,
    ;
    crate::fixed::lemma_tdiv_scale(0);
    crate::fixed::lemma_tdiv_scale(p + a);
    crate::fixed::lemma_tdiv_scale(q + a);
    crate::fixed::lemma_tdiv_scale(w + a);
    crate::fixed::lemma_tdiv_scale(one);
    crate::fixed::lemma_tdiv_scale(p);
    crate::fixed::lemma_tdiv_scale(q);
    crate::fixed::lemma_tdiv_scale(w);
}

/// Law: translating a point forward and then back restores it exactly,
/// provided the point and its translate stay in the representable range.
pub proof fn lemma_translation_point_round_trip(d: Vec3, p: Vec3)
    requires
        crate::fixed::abs_int(d.x as int) <= crate::fixed::FX_MAX as int,
        crate::fixed::abs_int(d.y as int) <= crate::fixed::FX_MAX as int,
        crate::fixed::abs_int(d.z as int) <= crate::fixed::FX_MAX as int,
        crate::fixed::abs_int(p.x as int) <= crate::fixed::FX_MAX as int,
        crate::fixed::abs_int(p.y as int) <= crate::fixed::FX_MAX as int,
        crate::fixed::abs_int(p.z as int) <= crate::fixed::FX_MAX as int,
        crate::fixed::abs_int(p.x as int + d.x as int) <= crate::fixed::FX_MAX as int,
        crate::fixed::abs_int(p.y as int + d.y as int) <= crate::fixed::FX_MAX as int,
        crate::fixed::abs_int(p.z as int + d.z as int) <= crate::fixed::FX_MAX as int,
    ensures
        ({
            let fwd = s_tpoint(s_translation(d), p.x as int, p.y as int, p.z as int);
            let back = s_tpoint(s_translation_inv(d), fwd.0, fwd.1, fwd.2);
            back.0 == p.x as int && back.1 == p.y as int && back.2 == p.z as int
        }),
{
    lemma_translation_rows(d.x as int, p.x as int, p.y as int, p.z as int);
    lemma_translation_rows(d.y as int, p.x as int, p.y as int, p.z as int);
    lemma_translation_rows(d.z as int, p.x as int, p.y as int, p.z as int);
    let fwd = s_tpoint(s_translation(d), p.x as int, p.y as int, p.z as int);
    assert(fwd.0 == p.x as int + d.x as int);
    assert(fwd.1 == p.y as int + d.y as int);
    assert(fwd.2 == p.z as int + d.z as int);
    assert(crate::fixed::fit(-(d.x as int)) == -(d.x as int));
    lemma_translation_rows(-(d.x as int), fwd.0, fwd.1, fwd.2);
    lemma_translation_rows(-(d.y as int), fwd.0, fwd.1, fwd.2);
    lemma_translation_rows(-(d.z as int), fwd.0, fwd.1, fwd.2);
}

/// Law: a translation leaves directions untouched.
pub proof fn lemma_translation_vector_unchanged(d: Vec3, v: Vec3)
    requires
        crate::fixed::abs_int(d.x as int) <= crate::fixed::FX_MAX as int,
        crate::fixed::abs_int(d.y as int) <= crate::fixed::FX_MAX as int,
        crate::fixed::abs_int(d.z as int) <= crate::fixed::FX_MAX as int,
        crate::fixed::abs_int(v.x as int) <= crate::fixed::FX_MAX as int,
        crate::fixed::abs_int(v.y as int) <= crate::fixed::FX_MAX as int,
        crate::fixed::abs_int(v.z as int) <= crate::fixed::FX_MAX as int,
    ensures
        s_tvec(s_translation(d), v.x as int, v.y as int, v.z as int) == (
            v.x as int,
            v.y as int,
            v.z as int,
        ),
        s_tvec(s_translation_inv(d), v.x as int, v.y as int, v.z as int) == (
            v.x as int,
            v.y as int,
            v.z as int,
        ),
{
    lemma_translation_rows(d.x as int, v.x as int, v.y as int, v.z as int);
    lemma_translation_rows(d.y as int, v.x as int, v.y as int, v.z as int);
    lemma_translation_rows(d.z as int, v.x as int, v.y as int, v.z as int);
    assert(crate::fixed::fit(-(d.x as int)) == -(d.x as int));
    lemma_translation_rows(-(d.x as int), v.x as int, v.y as int, v.z as int);
    lemma_translation_rows(-(d.y as int), v.x as int, v.y as int, v.z as int);
    lemma_translation_rows(-(d.z as int), v.x as int, v.y as int, v.z as int);
}

/// Law: transforming a ray through a translation and back restores it
/// exactly (origin, direction and traversal window), in the representable
/// range.
pub proof fn lemma_translation_ray_round_trip(d: Vec3, r: Ray)
    requires
        crate::fixed::abs_int(d.x as int) <= crate::fixed::FX_MAX as int,
        crate::fixed::abs_int(d.y as int) <= crate::fixed::FX_MAX as int,
        crate::fixed::abs_int(d.z as int) <= crate::fixed::FX_MAX as int,
        crate::fixed::abs_int(r.origin.x as int) <= crate::fixed::FX_MAX as int,
        crate::fixed::abs_int(r.origin.y as int) <= crate::fixed::FX_MAX as int,
        crate::fixed::abs_int(r.origin.z as int) <= crate::fixed::FX_MAX as int,
        crate::fixed::abs_int(r.origin.x as int + d.x as int) <= crate::fixed::FX_MAX as int,
        crate::fixed::abs_int(r.origin.y as int + d.y as int) <= crate::fixed::FX_MAX as int,
        crate::fixed::abs_int(r.origin.z as int + d.z as int) <= crate::fixed::FX_MAX as int,
        crate::fixed::abs_int(r.direction.x as int) <= crate::fixed::FX_MAX as int,
        crate::fixed::abs_int(r.direction.y as int) <= crate::fixed::FX_MAX as int,
        crate::fixed::abs_int(r.direction.z as int) <= crate::fixed::FX_MAX as int,
    ensures
        s_ray_via(s_translation_inv(d), s_ray_via(s_translation(d), r)) == r,
{
    lemma_translation_point_round_trip(d, r.origin);
    lemma_translation_vector_unchanged(d, r.direction);
    let mid = s_ray_via(s_translation(d), r);
    lemma_translation_vector_unchanged(d, mid.direction);
}

/// Law: a translation's forward and inverse matrices compose to the exact
/// identity, entry by entry.
pub proof fn lemma_translation_inverse_composes_to_identity(d: Vec3)
    requires
        crate::fixed::abs_int(d.x as int) <= crate::fixed::FX_MAX as int,
        crate::fixed::abs_int(d.y as int) <= crate::fixed::FX_MAX as int,
        crate::fixed::abs_int(d.z as int) <= crate::fixed::FX_MAX as int,
    ensures
        s_mat_mul(s_translation(d), s_translation_inv(d)) == s_identity(),
{
    let one = FX_ONE as int;
    assert(crate::fixed::fit(-(d.x as int)) == -(d.x as int));
    assert(crate::fixed::fit(-(d.y as int)) == -(d.y as int));
    assert(crate::fixed::fit(-(d.z as int)) == -(d.z as int));
    lemma_translation_rows(d.x as int, one, 0, 0);
    lemma_translation_rows(d.y as int, one, 0, 0);
    lemma_translation_rows(d.z as int, one, 0, 0);
    lemma_translation_rows(d.x as int, 0, one, 0);
    lemma_translation_rows(d.y as int, 0, one, 0);
    lemma_translation_rows(d.z as int, 0, one, 0);
    lemma_translation_rows(d.x as int, 0, 0, one);
    lemma_translation_rows(d.y as int, 0, 0, one);
    lemma_translation_rows(d.z as int, 0, 0, one);
    lemma_translation_rows(d.x as int, -(d.x as int), -(d.y as int), -(d.z as int));
    lemma_translation_rows(d.y as int, -(d.x as int), -(d.y as int), -(d.z as int));
    lemma_translation_rows(d.z as int, -(d.x as int), -(d.y as int), -(d.z as int));
}

} // verus!

verus! {

/// A direction option mapped through the forward matrix.
pub open spec fn s_opt_tvec(m: MatInts, v: Option<Vec3>) -> Option<Vec3> {
    match v {
        Some(a) => {
            let t = s_tvec(m, a.x as int, a.y as int, a.z as int);
            Some(Vec3 { x: t.0 as i64, y: t.1 as i64, z: t.2 as i64 })
        },
        None => None,
    }
}

/// A normal transformed by the inverse transpose and normalized.
pub open spec fn s_norm_via(minvt: MatInts, a: Vec3) -> Vec3 {
    let t = s_tvec(minvt, a.x as int, a.y as int, a.z as int);
    let v = Vec3 { x: t.0 as i64, y: t.1 as i64, z: t.2 as i64 };
    let mg = crate::fixed::s_sqrt(s_dot(v, v));
    Vec3 {
        x: s_div(v.x as int, mg) as i64,
        y: s_div(v.y as int, mg) as i64,
        z: s_div(v.z as int, mg) as i64,
    }
}

impl Transform {
    /// Lifts a hit to world space: the point as a point, directions as
    /// vectors, normals by the inverse transpose (the main normal is also
    /// normalized); parameters, time, the primitive handle and the BSDF
    /// carry over unchanged.
    pub fn forward_surface_interaction_transform(
        self,
        a: crate::interaction::SurfaceInteraction,
    ) -> (r: crate::interaction::SurfaceInteraction)
        ensures
            ({
                let t = s_tpoint(self.fwd(), a.p.x as int, a.p.y as int, a.p.z as int);
                r.p.x as int == t.0 && r.p.y as int == t.1 && r.p.z as int == t.2
            }),
            r.dpdu == s_opt_tvec(self.fwd(), a.dpdu),
            r.dpdv == s_opt_tvec(self.fwd(), a.dpdv),
            r.wo == s_opt_tvec(self.fwd(), a.wo),
            ({
                match a.n {
                    Some(n) => r.n == Some(
                        s_norm_via(self.spec_inverse().spec_transpose().ints(), n),
                    ),
                    None => r.n.is_none(),
                }
            }),
            ({
                match a.shading {
                    Some(sh) => {
                        &&& r.shading.is_some()
                        &&& ({
                            let t = s_tvec(
                                self.spec_inverse().spec_transpose().ints(),
                                sh.n.x as int,
                                sh.n.y as int,
                                sh.n.z as int,
                            );
                            r.shading.unwrap().n.x as int == t.0 && r.shading.unwrap().n.y as int
                                == t.1 && r.shading.unwrap().n.z as int == t.2
                        })
                        &&& r.shading.unwrap().dpdu == s_opt_tvec(self.fwd(), Some(sh.dpdu)).unwrap()
                        &&& r.shading.unwrap().dpdv == s_opt_tvec(self.fwd(), Some(sh.dpdv)).unwrap()
                    },
                    None => r.shading.is_none(),
                }
            }),
            r.time == a.time,
            r.uv == a.uv,
            r.primitive == a.primitive,
            r.bsdf == a.bsdf,
    {
        let dpdu = match a.dpdu {
            Some(v) => Some(self.fvec(&v)),
            None => None,
        };
        let dpdv = match a.dpdv {
            Some(v) => Some(self.fvec(&v)),
            None => None,
        };
        let n = match a.n {
            Some(v) => Some(self.fnorm(&v).normalize()),
            None => None,
        };
        let wo = match a.wo {
            Some(v) => Some(self.fvec(&v)),
            None => None,
        };
        let shading = match a.shading {
            Some(sh) => Some(
                crate::interaction::Shading {
                    n: self.fnorm(&sh.n),
                    dpdu: self.fvec(&sh.dpdu),
                    dpdv: self.fvec(&sh.dpdv),
                },
            ),
            None => None,
        };
        crate::interaction::SurfaceInteraction {
            p: self.fpt(a.p),
            n,
            wo,
            time: a.time,
            uv: a.uv,
            dpdu,
            dpdv,
            shading,
            primitive: a.primitive,
            bsdf: a.bsdf,
        }
    }
}

} // verus!
