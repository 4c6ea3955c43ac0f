//! Fixed-point 3D vectors and 4x4 matrices, laid out row-major with the
//! row-vector convention of the rendering backend: a point is transformed as
//! a row vector multiplied on the left of the matrix, and translation sits in
//! the fourth row. Every executable operation is specified exactly over the
//! mathematical integers.

use vstd::prelude::*;
use crate::fixed::{
    FX_FACTOR_MAX, FX_ONE, FxCos, FxDot4, FxSin, cos_spec, dot4_spec, fx_abs,
    fx_scale_down, lemma_mul_bounds, lemma_scale_down_bound, sin_spec,
};

verus! {

/// A 3-component fixed-point vector (position, rotation in degrees, scale,
/// or color, depending on use).
#[derive(Clone, Copy, Debug, PartialEq, Eq, Structural)]
pub struct Vec3 {
    pub x: i64,
    pub y: i64,
    pub z: i64,
}

/// The mathematical value of a vector: its components as unbounded
/// integers.
pub struct Vec3V {
    pub x: int,
    pub y: int,
    pub z: int,
}

impl View for Vec3 {
    type V = Vec3V;

    open spec fn view(&self) -> Vec3V {
        Vec3V { x: self.x as int, y: self.y as int, z: self.z as int }
    }
}

impl Vec3 {
    /// Builds a vector from its three components.
    pub fn Create(x: i64, y: i64, z: i64) -> (r: Vec3)
        ensures
            r == (Vec3 { x, y, z }),
    {
        Vec3 { x, y, z }
    }
}

/// The mathematical value of a 4x4 fixed-point matrix: its sixteen entries
/// as unbounded integers, row by row.
pub struct Mat4V {
    pub m00: int, pub m01: int, pub m02: int, pub m03: int,
    pub m10: int, pub m11: int, pub m12: int, pub m13: int,
    pub m20: int, pub m21: int, pub m22: int, pub m23: int,
    pub m30: int, pub m31: int, pub m32: int, pub m33: int,
}

/// A 4x4 fixed-point matrix, row-major.
#[derive(Clone, Copy, Debug, PartialEq, Eq, Structural)]
pub struct Mat4 {
    pub m00: i64, pub m01: i64, pub m02: i64, pub m03: i64,
    pub m10: i64, pub m11: i64, pub m12: i64, pub m13: i64,
    pub m20: i64, pub m21: i64, pub m22: i64, pub m23: i64,
    pub m30: i64, pub m31: i64, pub m32: i64, pub m33: i64,
}

impl View for Mat4 {
    type V = Mat4V;

    open spec fn view(&self) -> Mat4V {
        Mat4V {
            m00: self.m00 as int, m01: self.m01 as int, m02: self.m02 as int, m03: self.m03 as int,
            m10: self.m10 as int, m11: self.m11 as int, m12: self.m12 as int, m13: self.m13 as int,
            m20: self.m20 as int, m21: self.m21 as int, m22: self.m22 as int, m23: self.m23 as int,
            m30: self.m30 as int, m31: self.m31 as int, m32: self.m32 as int, m33: self.m33 as int,
        }
    }
}

/// Every entry of `m` has magnitude at most `c`.
pub open spec fn mat_bounded(m: Mat4V, c: int) -> bool {
    &&& -c <= m.m00 <= c && -c <= m.m01 <= c && -c <= m.m02 <= c && -c <= m.m03 <= c
    &&& -c <= m.m10 <= c && -c <= m.m11 <= c && -c <= m.m12 <= c && -c <= m.m13 <= c
    &&& -c <= m.m20 <= c && -c <= m.m21 <= c && -c <= m.m22 <= c && -c <= m.m23 <= c
    &&& -c <= m.m30 <= c && -c <= m.m31 <= c && -c <= m.m32 <= c && -c <= m.m33 <= c
}

/// The identity matrix.
pub open spec fn identity_spec() -> Mat4V {
    Mat4V {
        m00: FX_ONE as int, m01: 0, m02: 0, m03: 0,
        m10: 0, m11: FX_ONE as int, m12: 0, m13: 0,
        m20: 0, m21: 0, m22: FX_ONE as int, m23: 0,
        m30: 0, m31: 0, m32: 0, m33: FX_ONE as int,
    }
}

/// Translation by `(x, y, z)`: the offset occupies the fourth row.
pub open spec fn translation_spec(x: int, y: int, z: int) -> Mat4V {
    Mat4V {
        m00: FX_ONE as int, m01: 0, m02: 0, m03: 0,
        m10: 0, m11: FX_ONE as int, m12: 0, m13: 0,
        m20: 0, m21: 0, m22: FX_ONE as int, m23: 0,
        m30: x, m31: y, m32: z, m33: FX_ONE as int,
    }
}

/// Scaling by `(sx, sy, sz)` along the axes.
pub open spec fn scaling_spec(sx: int, sy: int, sz: int) -> Mat4V {
    Mat4V {
        m00: sx, m01: 0, m02: 0, m03: 0,
        m10: 0, m11: sy, m12: 0, m13: 0,
        m20: 0, m21: 0, m22: sz, m23: 0,
        m30: 0, m31: 0, m32: 0, m33: FX_ONE as int,
    }
}

/// Rotation about the X axis, from a sine and cosine pair.
pub open spec fn rotation_x_spec(s: int, c: int) -> Mat4V {
    Mat4V {
        m00: FX_ONE as int, m01: 0, m02: 0, m03: 0,
        m10: 0, m11: c, m12: s, m13: 0,
        m20: 0, m21: -s, m22: c, m23: 0,
        m30: 0, m31: 0, m32: 0, m33: FX_ONE as int,
    }
}

/// Rotation about the Y axis, from a sine and cosine pair.
pub open spec fn rotation_y_spec(s: int, c: int) -> Mat4V {
    Mat4V {
        m00: c, m01: 0, m02: -s, m03: 0,
        m10: 0, m11: FX_ONE as int, m12: 0, m13: 0,
        m20: s, m21: 0, m22: c, m23: 0,
        m30: 0, m31: 0, m32: 0, m33: FX_ONE as int,
    }
}

/// Rotation about the Z axis, from a sine and cosine pair.
pub open spec fn rotation_z_spec(s: int, c: int) -> Mat4V {
    Mat4V {
        m00: c, m01: s, m02: 0, m03: 0,
        m10: -s, m11: c, m12: 0, m13: 0,
        m20: 0, m21: 0, m22: FX_ONE as int, m23: 0,
        m30: 0, m31: 0, m32: 0, m33: FX_ONE as int,
    }
}

/// One entry of a fixed-point matrix product: the scaled-down dot product of
/// a row of the left factor with a column of the right one.
pub open spec fn mul_entry_spec(
    a0: int, a1: int, a2: int, a3: int,
    b0: int, b1: int, b2: int, b3: int,
) -> int {
    fx_scale_down(dot4_spec(a0, a1, a2, a3, b0, b1, b2, b3))
}

/// The fixed-point matrix product `a * b`.
pub open spec fn mat_mul_spec(a: Mat4V, b: Mat4V) -> Mat4V {
    Mat4V {
        m00: mul_entry_spec(a.m00, a.m01, a.m02, a.m03, b.m00, b.m10, b.m20, b.m30),
        m01: mul_entry_spec(a.m00, a.m01, a.m02, a.m03, b.m01, b.m11, b.m21, b.m31),
        m02: mul_entry_spec(a.m00, a.m01, a.m02, a.m03, b.m02, b.m12, b.m22, b.m32),
        m03: mul_entry_spec(a.m00, a.m01, a.m02, a.m03, b.m03, b.m13, b.m23, b.m33),
        m10: mul_entry_spec(a.m10, a.m11, a.m12, a.m13, b.m00, b.m10, b.m20, b.m30),
        m11: mul_entry_spec(a.m10, a.m11, a.m12, a.m13, b.m01, b.m11, b.m21, b.m31),
        m12: mul_entry_spec(a.m10, a.m11, a.m12, a.m13, b.m02, b.m12, b.m22, b.m32),
        m13: mul_entry_spec(a.m10, a.m11, a.m12, a.m13, b.m03, b.m13, b.m23, b.m33),
        m20: mul_entry_spec(a.m20, a.m21, a.m22, a.m23, b.m00, b.m10, b.m20, b.m30),
        m21: mul_entry_spec(a.m20, a.m21, a.m22, a.m23, b.m01, b.m11, b.m21, b.m31),
        m22: mul_entry_spec(a.m20, a.m21, a.m22, a.m23, b.m02, b.m12, b.m22, b.m32),
        m23: mul_entry_spec(a.m20, a.m21, a.m22, a.m23, b.m03, b.m13, b.m23, b.m33),
        m30: mul_entry_spec(a.m30, a.m31, a.m32, a.m33, b.m00, b.m10, b.m20, b.m30),
        m31: mul_entry_spec(a.m30, a.m31, a.m32, a.m33, b.m01, b.m11, b.m21, b.m31),
        m32: mul_entry_spec(a.m30, a.m31, a.m32, a.m33, b.m02, b.m12, b.m22, b.m32),
        m33: mul_entry_spec(a.m30, a.m31, a.m32, a.m33, b.m03, b.m13, b.m23, b.m33),
    }
}

/// The transpose of `m`.
pub open spec fn transpose_spec(m: Mat4V) -> Mat4V {
    Mat4V {
        m00: m.m00, m01: m.m10, m02: m.m20, m03: m.m30,
        m10: m.m01, m11: m.m11, m12: m.m21, m13: m.m31,
        m20: m.m02, m21: m.m12, m22: m.m22, m23: m.m32,
        m30: m.m03, m31: m.m13, m32: m.m23, m33: m.m33,
    }
}

/// One entry of the product, with magnitude bookkeeping: the factors of the
/// row are bounded by `ca`, those of the column by `cb`, and the scaled-down
/// result then stays within `cr` whenever `4 * ca * cb <= cr * FX_ONE`.
fn MulEntry(
    a0: i64, a1: i64, a2: i64, a3: i64,
    b0: i64, b1: i64, b2: i64, b3: i64,
    Ghost(ca): Ghost<int>, Ghost(cb): Ghost<int>, Ghost(cr): Ghost<int>,
) -> (r: i64)
    requires
        0 <= ca <= FX_FACTOR_MAX as int,
        0 <= cb <= FX_FACTOR_MAX as int,
        0 <= cr <= i64::MAX as int,
        4 * (ca * cb) <= cr * (FX_ONE as int),
        -ca <= a0 as int <= ca, -ca <= a1 as int <= ca,
        -ca <= a2 as int <= ca, -ca <= a3 as int <= ca,
        -cb <= b0 as int <= cb, -cb <= b1 as int <= cb,
        -cb <= b2 as int <= cb, -cb <= b3 as int <= cb,
    ensures
        r as int == mul_entry_spec(
            a0 as int, a1 as int, a2 as int, a3 as int,
            b0 as int, b1 as int, b2 as int, b3 as int,
        ),
        -cr <= r as int <= cr,
{
    proof {
        lemma_mul_bounds(a0 as int, b0 as int, ca, cb);
        lemma_mul_bounds(a1 as int, b1 as int, ca, cb);
        lemma_mul_bounds(a2 as int, b2 as int, ca, cb);
        lemma_mul_bounds(a3 as int, b3 as int, ca, cb);
        lemma_scale_down_bound(
            dot4_spec(
                a0 as int, a1 as int, a2 as int, a3 as int,
                b0 as int, b1 as int, b2 as int, b3 as int,
            ),
            cr,
        );
    }
    FxDot4(a0, a1, a2, a3, b0, b1, b2, b3)
}

/// Fixed-point matrix product. The ghost bounds thread the magnitude
/// bookkeeping through chains of multiplications.
pub fn MatMul(
    a: &Mat4, b: &Mat4,
    Ghost(ca): Ghost<int>, Ghost(cb): Ghost<int>, Ghost(cr): Ghost<int>,
) -> (r: Mat4)
    requires
        0 <= ca <= FX_FACTOR_MAX as int,
        0 <= cb <= FX_FACTOR_MAX as int,
        0 <= cr <= i64::MAX as int,
        4 * (ca * cb) <= cr * (FX_ONE as int),
        mat_bounded(a@, ca),
        mat_bounded(b@, cb),
    ensures
        r@ == mat_mul_spec(a@, b@),
        mat_bounded(r@, cr),
{
    Mat4 {
        m00: MulEntry(a.m00, a.m01, a.m02, a.m03, b.m00, b.m10, b.m20, b.m30, Ghost(ca), Ghost(cb), Ghost(cr)),
        m01: MulEntry(a.m00, a.m01, a.m02, a.m03, b.m01, b.m11, b.m21, b.m31, Ghost(ca), Ghost(cb), Ghost(cr)),
        m02: MulEntry(a.m00, a.m01, a.m02, a.m03, b.m02, b.m12, b.m22, b.m32, Ghost(ca), Ghost(cb), Ghost(cr)),
        m03: MulEntry(a.m00, a.m01, a.m02, a.m03, b.m03, b.m13, b.m23, b.m33, Ghost(ca), Ghost(cb), Ghost(cr)),
        m10: MulEntry(a.m10, a.m11, a.m12, a.m13, b.m00, b.m10, b.m20, b.m30, Ghost(ca), Ghost(cb), Ghost(cr)),
        m11: MulEntry(a.m10, a.m11, a.m12, a.m13, b.m01, b.m11, b.m21, b.m31, Ghost(ca), Ghost(cb), Ghost(cr)),
        m12: MulEntry(a.m10, a.m11, a.m12, a.m13, b.m02, b.m12, b.m22, b.m32, Ghost(ca), Ghost(cb), Ghost(cr)),
        m13: MulEntry(a.m10, a.m11, a.m12, a.m13, b.m03, b.m13, b.m23, b.m33, Ghost(ca), Ghost(cb), Ghost(cr)),
        m20: MulEntry(a.m20, a.m21, a.m22, a.m23, b.m00, b.m10, b.m20, b.m30, Ghost(ca), Ghost(cb), Ghost(cr)),
        m21: MulEntry(a.m20, a.m21, a.m22, a.m23, b.m01, b.m11, b.m21, b.m31, Ghost(ca), Ghost(cb), Ghost(cr)),
        m22: MulEntry(a.m20, a.m21, a.m22, a.m23, b.m02, b.m12, b.m22, b.m32, Ghost(ca), Ghost(cb), Ghost(cr)),
        m23: MulEntry(a.m20, a.m21, a.m22, a.m23, b.m03, b.m13, b.m23, b.m33, Ghost(ca), Ghost(cb), Ghost(cr)),
        m30: MulEntry(a.m30, a.m31, a.m32, a.m33, b.m00, b.m10, b.m20, b.m30, Ghost(ca), Ghost(cb), Ghost(cr)),
        m31: MulEntry(a.m30, a.m31, a.m32, a.m33, b.m01, b.m11, b.m21, b.m31, Ghost(ca), Ghost(cb), Ghost(cr)),
        m32: MulEntry(a.m30, a.m31, a.m32, a.m33, b.m02, b.m12, b.m22, b.m32, Ghost(ca), Ghost(cb), Ghost(cr)),
        m33: MulEntry(a.m30, a.m31, a.m32, a.m33, b.m03, b.m13, b.m23, b.m33, Ghost(ca), Ghost(cb), Ghost(cr)),
    }
}

/// The identity matrix.
pub fn MatIdentity() -> (r: Mat4)
    ensures
        r@ == identity_spec(),
        mat_bounded(r@, FX_ONE as int),
{
    Mat4 {
        m00: FX_ONE, m01: 0, m02: 0, m03: 0,
        m10: 0, m11: FX_ONE, m12: 0, m13: 0,
        m20: 0, m21: 0, m22: FX_ONE, m23: 0,
        m30: 0, m31: 0, m32: 0, m33: FX_ONE,
    }
}

/// Translation matrix.
pub fn MatTranslation(x: i64, y: i64, z: i64) -> (r: Mat4)
    ensures
        r@ == translation_spec(x as int, y as int, z as int),
{
    Mat4 {
        m00: FX_ONE, m01: 0, m02: 0, m03: 0,
        m10: 0, m11: FX_ONE, m12: 0, m13: 0,
        m20: 0, m21: 0, m22: FX_ONE, m23: 0,
        m30: x, m31: y, m32: z, m33: FX_ONE,
    }
}

/// Scaling matrix.
pub fn MatScaling(sx: i64, sy: i64, sz: i64) -> (r: Mat4)
    ensures
        r@ == scaling_spec(sx as int, sy as int, sz as int),
{
    Mat4 {
        m00: sx, m01: 0, m02: 0, m03: 0,
        m10: 0, m11: sy, m12: 0, m13: 0,
        m20: 0, m21: 0, m22: sz, m23: 0,
        m30: 0, m31: 0, m32: 0, m33: FX_ONE,
    }
}

/// Rotation about the X axis by an angle in fixed-point degrees.
pub fn MatRotationX(angle: i64) -> (r: Mat4)
    ensures
        r@ == rotation_x_spec(sin_spec(angle as int), cos_spec(angle as int)),
        mat_bounded(r@, FX_ONE as int),
{
    let s = FxSin(angle);
    let c = FxCos(angle);
    Mat4 {
        m00: FX_ONE, m01: 0, m02: 0, m03: 0,
        m10: 0, m11: c, m12: s, m13: 0,
        m20: 0, m21: -s, m22: c, m23: 0,
        m30: 0, m31: 0, m32: 0, m33: FX_ONE,
    }
}

/// Rotation about the Y axis by an angle in fixed-point degrees.
pub fn MatRotationY(angle: i64) -> (r: Mat4)
    ensures
        r@ == rotation_y_spec(sin_spec(angle as int), cos_spec(angle as int)),
        mat_bounded(r@, FX_ONE as int),
{
    let s = FxSin(angle);
    let c = FxCos(angle);
    Mat4 {
        m00: c, m01: 0, m02: -s, m03: 0,
        m10: 0, m11: FX_ONE, m12: 0, m13: 0,
        m20: s, m21: 0, m22: c, m23: 0,
        m30: 0, m31: 0, m32: 0, m33: FX_ONE,
    }
}

/// Rotation about the Z axis by an angle in fixed-point degrees.
pub fn MatRotationZ(angle: i64) -> (r: Mat4)
    ensures
        r@ == rotation_z_spec(sin_spec(angle as int), cos_spec(angle as int)),
        mat_bounded(r@, FX_ONE as int),
{
    let s = FxSin(angle);
    let c = FxCos(angle);
    Mat4 {
        m00: c, m01: s, m02: 0, m03: 0,
        m10: -s, m11: c, m12: 0, m13: 0,
        m20: 0, m21: 0, m22: FX_ONE, m23: 0,
        m30: 0, m31: 0, m32: 0, m33: FX_ONE,
    }
}

/// The transpose of `m`.
pub fn MatTranspose(m: &Mat4) -> (r: Mat4)
    ensures
        r@ == transpose_spec(m@),
{
    Mat4 {
        m00: m.m00, m01: m.m10, m02: m.m20, m03: m.m30,
        m10: m.m01, m11: m.m11, m12: m.m21, m13: m.m31,
        m20: m.m02, m21: m.m12, m22: m.m22, m23: m.m32,
        m30: m.m03, m31: m.m13, m32: m.m23, m33: m.m33,
    }
}

/// The value of a point transformed by a matrix: the row vector
/// `(x, y, z, FX_ONE)` multiplied on the left of `m`, scaled back down.
pub open spec fn transform_point_spec(m: Mat4V, x: int, y: int, z: int) -> (int, int, int) {
    (
        mul_entry_spec(x, y, z, FX_ONE as int, m.m00, m.m10, m.m20, m.m30),
        mul_entry_spec(x, y, z, FX_ONE as int, m.m01, m.m11, m.m21, m.m31),
        mul_entry_spec(x, y, z, FX_ONE as int, m.m02, m.m12, m.m22, m.m32),
    )
}

/// Transforms the point `v` by `m` (row-vector convention, w = 1).
pub fn TransformPoint(m: &Mat4, v: Vec3) -> (r: Vec3)
    requires
        fx_abs(v.x as int) <= FX_FACTOR_MAX as int,
        fx_abs(v.y as int) <= FX_FACTOR_MAX as int,
        fx_abs(v.z as int) <= FX_FACTOR_MAX as int,
        mat_bounded(m@, FX_FACTOR_MAX as int),
        fx_abs(transform_point_spec(m@, v.x as int, v.y as int, v.z as int).0) <= i64::MAX as int,
        fx_abs(transform_point_spec(m@, v.x as int, v.y as int, v.z as int).1) <= i64::MAX as int,
        fx_abs(transform_point_spec(m@, v.x as int, v.y as int, v.z as int).2) <= i64::MAX as int,
    ensures
        r.x as int == transform_point_spec(m@, v.x as int, v.y as int, v.z as int).0,
        r.y as int == transform_point_spec(m@, v.x as int, v.y as int, v.z as int).1,
        r.z as int == transform_point_spec(m@, v.x as int, v.y as int, v.z as int).2,
{
    Vec3 {
        x: FxDot4(v.x, v.y, v.z, FX_ONE, m.m00, m.m10, m.m20, m.m30),
        y: FxDot4(v.x, v.y, v.z, FX_ONE, m.m01, m.m11, m.m21, m.m31),
        z: FxDot4(v.x, v.y, v.z, FX_ONE, m.m02, m.m12, m.m22, m.m32),
    }
}

} // verus!
