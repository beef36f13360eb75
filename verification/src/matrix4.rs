//! A 4x4 binary32 matrix for affine and projective transforms: composition,
//! cofactor inversion, perspective projection, and the combined
//! rotation/translation/scale constructor.
//!
//! Entries are named by row/column index `m{row}{col}`, stored and
//! interpreted column-major relative to the transform convention of
//! `from_rotation_translation_scale`: the translation occupies m30, m31 and
//! m32, the first three entries of the fourth column.

use crate::quaternion::Quaternion;
use crate::scalar::add_val;
use crate::scalar::bits_agree;
use crate::scalar::div_val;
use crate::scalar::fadd;
use crate::scalar::fdiv;
use crate::scalar::fmul;
use crate::scalar::fsub;
use crate::scalar::ftan;
use crate::scalar::mul_val;
use crate::scalar::sub_val;
use crate::scalar::tan_val;
use crate::scalar::BITS_NEG_ONE;
use crate::scalar::BITS_ONE;
use crate::scalar::BITS_TWO;
use crate::scalar::BITS_ZERO;
use crate::vector3::Vector3;
use vstd::prelude::*;

verus! {

/// The 2x2 block determinant `a*b - c*d`, every step in binary32.
pub open spec fn det2_val(a: u32, b: u32, c: u32, d: u32) -> u32 {
    sub_val(mul_val(a, b), mul_val(c, d))
}

/// The signed combination `b00*b11 - b01*b10 + b02*b09 + b03*b08 - b04*b07
/// + b05*b06` of the twelve block determinants, every step in binary32.
pub open spec fn det6_val(
    b00: u32, b01: u32, b02: u32, b03: u32, b04: u32, b05: u32,
    b06: u32, b07: u32, b08: u32, b09: u32, b10: u32, b11: u32,
) -> u32 {
    add_val(
        sub_val(
            add_val(
                add_val(sub_val(mul_val(b00, b11), mul_val(b01, b10)), mul_val(b02, b09)),
                mul_val(b03, b08),
            ),
            mul_val(b04, b07),
        ),
        mul_val(b05, b06),
    )
}

/// The cofactor combination `(a*p - b*q + c*t) * d`, every step in binary32.
pub open spec fn cofactor_pos_val(a: u32, p: u32, b: u32, q: u32, c: u32, t: u32, d: u32) -> u32 {
    mul_val(add_val(sub_val(mul_val(a, p), mul_val(b, q)), mul_val(c, t)), d)
}

/// The cofactor combination `(a*p - b*q - c*t) * d`, every step in binary32.
pub open spec fn cofactor_neg_val(a: u32, p: u32, b: u32, q: u32, c: u32, t: u32, d: u32) -> u32 {
    mul_val(sub_val(sub_val(mul_val(a, p), mul_val(b, q)), mul_val(c, t)), d)
}

/// The four-term dot product `a0*b0 + a1*b1 + a2*b2 + a3*b3`, summed left
/// to right, every step in binary32.
pub open spec fn dot4_val(a0: u32, b0: u32, a1: u32, b1: u32, a2: u32, b2: u32, a3: u32, b3: u32) -> u32 {
    add_val(add_val(add_val(mul_val(a0, b0), mul_val(a1, b1)), mul_val(a2, b2)), mul_val(a3, b3))
}

fn block_det(a: u32, b: u32, c: u32, d: u32) -> (r: u32)
    ensures
        bits_agree(r, det2_val(a, b, c, d)),
{
    fsub(fmul(a, b), fmul(c, d))
}

fn det_combine(
    b00: u32, b01: u32, b02: u32, b03: u32, b04: u32, b05: u32,
    b06: u32, b07: u32, b08: u32, b09: u32, b10: u32, b11: u32,
) -> (r: u32)
    ensures
        bits_agree(r, det6_val(b00, b01, b02, b03, b04, b05, b06, b07, b08, b09, b10, b11)),
{
    fadd(
        fsub(
            fadd(fadd(fsub(fmul(b00, b11), fmul(b01, b10)), fmul(b02, b09)), fmul(b03, b08)),
            fmul(b04, b07),
        ),
        fmul(b05, b06),
    )
}

fn cofactor_pos(a: u32, p: u32, b: u32, q: u32, c: u32, t: u32, d: u32) -> (r: u32)
    ensures
        bits_agree(r, cofactor_pos_val(a, p, b, q, c, t, d)),
{
    fmul(fadd(fsub(fmul(a, p), fmul(b, q)), fmul(c, t)), d)
}

fn cofactor_neg(a: u32, p: u32, b: u32, q: u32, c: u32, t: u32, d: u32) -> (r: u32)
    ensures
        bits_agree(r, cofactor_neg_val(a, p, b, q, c, t, d)),
{
    fmul(fsub(fsub(fmul(a, p), fmul(b, q)), fmul(c, t)), d)
}

fn dot4(a0: u32, b0: u32, a1: u32, b1: u32, a2: u32, b2: u32, a3: u32, b3: u32) -> (r: u32)
    ensures
        bits_agree(r, dot4_val(a0, b0, a1, b1, a2, b2, a3, b3)),
{
    fadd(fadd(fadd(fmul(a0, b0), fmul(a1, b1)), fmul(a2, b2)), fmul(a3, b3))
}

/// Agreement chains through `det6_val`: where each operand agrees with its
/// specified value, the combination agrees with the specified combination.
proof fn lemma_det6_agree(
    r: u32,
    t00: u32, m00: u32, t01: u32, m01: u32, t02: u32, m02: u32,
    t03: u32, m03: u32, t04: u32, m04: u32, t05: u32, m05: u32,
    t06: u32, m06: u32, t07: u32, m07: u32, t08: u32, m08: u32,
    t09: u32, m09: u32, t10: u32, m10: u32, t11: u32, m11: u32,
)
    requires
        bits_agree(t00, m00),
        bits_agree(t01, m01),
        bits_agree(t02, m02),
        bits_agree(t03, m03),
        bits_agree(t04, m04),
        bits_agree(t05, m05),
        bits_agree(t06, m06),
        bits_agree(t07, m07),
        bits_agree(t08, m08),
        bits_agree(t09, m09),
        bits_agree(t10, m10),
        bits_agree(t11, m11),
        bits_agree(r, det6_val(t00, t01, t02, t03, t04, t05, t06, t07, t08, t09, t10, t11)),
    ensures
        bits_agree(r, det6_val(m00, m01, m02, m03, m04, m05, m06, m07, m08, m09, m10, m11)),
{
}

/// Agreement chains through `div_val` in its second operand.
proof fn lemma_div_agree(r: u32, a: u32, t: u32, m: u32)
    requires
        bits_agree(t, m),
        bits_agree(r, div_val(a, t)),
    ensures
        bits_agree(r, div_val(a, m)),
{
}

/// Agreement chains through `cofactor_pos_val`: where the block
/// determinants and the reciprocal agree with their specified values, the
/// entry agrees with the specified entry.
proof fn lemma_cofactor_pos_agree(
    r: u32, a: u32, p: u32, mp: u32, b: u32, q: u32, mq: u32, c: u32, t: u32, mt: u32, d: u32, md: u32,
)
    requires
        bits_agree(p, mp),
        bits_agree(q, mq),
        bits_agree(t, mt),
        bits_agree(d, md),
        bits_agree(r, cofactor_pos_val(a, p, b, q, c, t, d)),
    ensures
        bits_agree(r, cofactor_pos_val(a, mp, b, mq, c, mt, md)),
{
}

/// Agreement chains through `cofactor_neg_val`, as for `cofactor_pos_val`.
proof fn lemma_cofactor_neg_agree(
    r: u32, a: u32, p: u32, mp: u32, b: u32, q: u32, mq: u32, c: u32, t: u32, mt: u32, d: u32, md: u32,
)
    requires
        bits_agree(p, mp),
        bits_agree(q, mq),
        bits_agree(t, mt),
        bits_agree(d, md),
        bits_agree(r, cofactor_neg_val(a, p, b, q, c, t, d)),
    ensures
        bits_agree(r, cofactor_neg_val(a, mp, b, mq, c, mt, md)),
{
}

/// A 4x4 matrix whose entries are binary32 bit patterns. Equality is exact
/// entrywise bit equality. No invariant is enforced on determinant or
/// orthogonality: `invert` on a singular matrix produces infinities and
/// NaNs rather than an error.
#[derive(Clone, Copy, Debug, PartialEq, Eq, Structural)]
pub struct Matrix4 {
    pub m00: u32,
    pub m01: u32,
    pub m02: u32,
    pub m03: u32,
    pub m10: u32,
    pub m11: u32,
    pub m12: u32,
    pub m13: u32,
    pub m20: u32,
    pub m21: u32,
    pub m22: u32,
    pub m23: u32,
    pub m30: u32,
    pub m31: u32,
    pub m32: u32,
    pub m33: u32,
}

impl Matrix4 {
    /// Entrywise agreement with a specified matrix: bit-identical, or both
    /// NaN where the specified entry is NaN.
    pub open spec fn agrees_with(self, m: Matrix4) -> bool {
        &&& bits_agree(self.m00, m.m00)
        &&& bits_agree(self.m01, m.m01)
        &&& bits_agree(self.m02, m.m02)
        &&& bits_agree(self.m03, m.m03)
        &&& bits_agree(self.m10, m.m10)
        &&& bits_agree(self.m11, m.m11)
        &&& bits_agree(self.m12, m.m12)
        &&& bits_agree(self.m13, m.m13)
        &&& bits_agree(self.m20, m.m20)
        &&& bits_agree(self.m21, m.m21)
        &&& bits_agree(self.m22, m.m22)
        &&& bits_agree(self.m23, m.m23)
        &&& bits_agree(self.m30, m.m30)
        &&& bits_agree(self.m31, m.m31)
        &&& bits_agree(self.m32, m.m32)
        &&& bits_agree(self.m33, m.m33)
    }

    /// The identity matrix as a spec value: ones on the diagonal, zeros
    /// elsewhere.
    pub open spec fn identity_spec() -> Matrix4 {
        Matrix4 {
            m00: BITS_ONE, m10: BITS_ZERO, m20: BITS_ZERO, m30: BITS_ZERO,
            m01: BITS_ZERO, m11: BITS_ONE, m21: BITS_ZERO, m31: BITS_ZERO,
            m02: BITS_ZERO, m12: BITS_ZERO, m22: BITS_ONE, m32: BITS_ZERO,
            m03: BITS_ZERO, m13: BITS_ZERO, m23: BITS_ZERO, m33: BITS_ONE,
        }
    }

    /// The identity matrix.
    pub fn identity() -> (r: Matrix4)
        ensures
            r == Matrix4::identity_spec(),
    {
        Matrix4 {
            m00: BITS_ONE, m10: BITS_ZERO, m20: BITS_ZERO, m30: BITS_ZERO,
            m01: BITS_ZERO, m11: BITS_ONE, m21: BITS_ZERO, m31: BITS_ZERO,
            m02: BITS_ZERO, m12: BITS_ZERO, m22: BITS_ONE, m32: BITS_ZERO,
            m03: BITS_ZERO, m13: BITS_ZERO, m23: BITS_ZERO, m33: BITS_ONE,
        }
    }

    /// The perspective matrix derived from the frustum parameters:
    /// `f = 1/tan(fov/2)`, x-scale `f/aspect`, y-scale `f`,
    /// `m22 = (near+far)/(near-far)`, `m32 = 2*far*near/(near-far)`, and
    /// `m23 = -1` to trigger the perspective divide.
    pub open spec fn from_perspective_spec(fov: u32, aspect: u32, clip_near: u32, clip_far: u32) -> Matrix4 {
        let f = div_val(BITS_ONE, tan_val(div_val(fov, BITS_TWO)));
        let fa = div_val(f, aspect);
        let nf = div_val(BITS_ONE, sub_val(clip_near, clip_far));
        Matrix4 {
            m00: fa, m10: BITS_ZERO, m20: BITS_ZERO, m30: BITS_ZERO,
            m01: BITS_ZERO, m11: f, m21: BITS_ZERO, m31: BITS_ZERO,
            m02: BITS_ZERO, m12: BITS_ZERO, m22: mul_val(add_val(clip_near, clip_far), nf),
            m32: mul_val(mul_val(mul_val(BITS_TWO, clip_far), clip_near), nf),
            m03: BITS_ZERO, m13: BITS_ZERO, m23: BITS_NEG_ONE, m33: BITS_ZERO,
        }
    }

    /// Builds a perspective projection from a field of view in radians, an
    /// aspect ratio, and the near and far clip distances. The caller is
    /// expected to keep `fov` inside (0, pi), `aspect` positive and
    /// `near != far`; violating that yields NaN or infinite entries, not an
    /// error.
    pub fn from_perspective(fov: u32, aspect: u32, clip_near: u32, clip_far: u32) -> (r: Matrix4)
        ensures
            r.agrees_with(Matrix4::from_perspective_spec(fov, aspect, clip_near, clip_far)),
    {
        let f = fdiv(BITS_ONE, ftan(fdiv(fov, BITS_TWO)));
        let fa = fdiv(f, aspect);
        let nf = fdiv(BITS_ONE, fsub(clip_near, clip_far));

        Matrix4 {
            m00: fa, m10: BITS_ZERO, m20: BITS_ZERO, m30: BITS_ZERO,
            m01: BITS_ZERO, m11: f, m21: BITS_ZERO, m31: BITS_ZERO,
            m02: BITS_ZERO, m12: BITS_ZERO, m22: fmul(fadd(clip_near, clip_far), nf),
            m32: fmul(fmul(fmul(BITS_TWO, clip_far), clip_near), nf),
            m03: BITS_ZERO, m13: BITS_ZERO, m23: BITS_NEG_ONE, m33: BITS_ZERO,
        }
    }

    /// The affine transform that scales first, rotates second and
    /// translates last: the quaternion's doubled cross products fill the
    /// 3x3 rotation block, each rotation column is scaled by the matching
    /// component of `scale`, the translation lands in m30..m32, and the
    /// last entries are fixed to (0, 0, 0, 1).
    pub open spec fn from_rotation_translation_scale_spec(
        rotation: Quaternion,
        translation: Vector3,
        scale: Vector3,
    ) -> Matrix4 {
        let x2 = add_val(rotation.x, rotation.x);
        let y2 = add_val(rotation.y, rotation.y);
        let z2 = add_val(rotation.z, rotation.z);
        let xx = mul_val(rotation.x, x2);
        let xy = mul_val(rotation.x, y2);
        let xz = mul_val(rotation.x, z2);
        let yy = mul_val(rotation.y, y2);
        let yz = mul_val(rotation.y, z2);
        let zz = mul_val(rotation.z, z2);
        let wx = mul_val(rotation.w, x2);
        let wy = mul_val(rotation.w, y2);
        let wz = mul_val(rotation.w, z2);
        Matrix4 {
            m00: mul_val(sub_val(BITS_ONE, add_val(yy, zz)), scale.x),
            m10: mul_val(sub_val(xy, wz), scale.y),
            m20: mul_val(add_val(xz, wy), scale.z),
            m30: translation.x,
            m01: mul_val(add_val(xy, wz), scale.x),
            m11: mul_val(sub_val(BITS_ONE, add_val(xx, zz)), scale.y),
            m21: mul_val(sub_val(yz, wx), scale.z),
            m31: translation.y,
            m02: mul_val(sub_val(xz, wy), scale.x),
            m12: mul_val(add_val(yz, wx), scale.y),
            m22: mul_val(sub_val(BITS_ONE, add_val(xx, yy)), scale.z),
            m32: translation.z,
            m03: BITS_ZERO,
            m13: BITS_ZERO,
            m23: BITS_ZERO,
            m33: BITS_ONE,
        }
    }

    /// Builds the affine transform that applies `scale`, then `rotation`,
    /// then `translation`.
    pub fn from_rotation_translation_scale(
        rotation: Quaternion,
        translation: Vector3,
        scale: Vector3,
    ) -> (r: Matrix4)
        ensures
            r.agrees_with(Matrix4::from_rotation_translation_scale_spec(rotation, translation, scale)),
            r.m30 == translation.x,
            r.m31 == translation.y,
            r.m32 == translation.z,
    {
        let x2 = fadd(rotation.x, rotation.x);
        let y2 = fadd(rotation.y, rotation.y);
        let z2 = fadd(rotation.z, rotation.z);

        let xx = fmul(rotation.x, x2);
        let xy = fmul(rotation.x, y2);
        let xz = fmul(rotation.x, z2);
        let yy = fmul(rotation.y, y2);
        let yz = fmul(rotation.y, z2);
        let zz = fmul(rotation.z, z2);
        let wx = fmul(rotation.w, x2);
        let wy = fmul(rotation.w, y2);
        let wz = fmul(rotation.w, z2);

        Matrix4 {
            m00: fmul(fsub(BITS_ONE, fadd(yy, zz)), scale.x),
            m10: fmul(fsub(xy, wz), scale.y),
            m20: fmul(fadd(xz, wy), scale.z),
            m30: translation.x,
            m01: fmul(fadd(xy, wz), scale.x),
            m11: fmul(fsub(BITS_ONE, fadd(xx, zz)), scale.y),
            m21: fmul(fsub(yz, wx), scale.z),
            m31: translation.y,
            m02: fmul(fsub(xz, wy), scale.x),
            m12: fmul(fadd(yz, wx), scale.y),
            m22: fmul(fsub(BITS_ONE, fadd(xx, yy)), scale.z),
            m32: translation.z,
            m03: BITS_ZERO,
            m13: BITS_ZERO,
            m23: BITS_ZERO,
            m33: BITS_ONE,
        }
    }

    /// The matrix with rows and columns swapped: entry (col, row) of the
    /// result is entry (row, col) of `self`, for all sixteen entries.
    pub open spec fn transpose_spec(self) -> Matrix4 {
        Matrix4 {
            m00: self.m00, m10: self.m01, m20: self.m02, m30: self.m03,
            m01: self.m10, m11: self.m11, m21: self.m12, m31: self.m13,
            m02: self.m20, m12: self.m21, m22: self.m22, m32: self.m23,
            m03: self.m30, m13: self.m31, m23: self.m32, m33: self.m33,
        }
    }

    /// Swaps rows and columns. Every entry follows the one swap rule, so
    /// transposing twice returns the original matrix
    /// (`lemma_transpose_involutive`).
    pub fn transpose(&self) -> (r: Matrix4)
        ensures
            r == self.transpose_spec(),
    {
        Matrix4 {
            m00: self.m00, m10: self.m01, m20: self.m02, m30: self.m03,
            m01: self.m10, m11: self.m11, m21: self.m12, m31: self.m13,
            m02: self.m20, m12: self.m21, m22: self.m22, m32: self.m23,
            m03: self.m30, m13: self.m31, m23: self.m32, m33: self.m33,
        }
    }

    /// The single scalar the twelve 2x2 block determinants combine into:
    /// the determinant of the matrix, every step in binary32.
    pub open spec fn determinant_spec(self) -> u32 {
        det6_val(
            det2_val(self.m00, self.m11, self.m01, self.m10),
            det2_val(self.m00, self.m12, self.m02, self.m10),
            det2_val(self.m00, self.m13, self.m03, self.m10),
            det2_val(self.m01, self.m12, self.m02, self.m11),
            det2_val(self.m01, self.m13, self.m03, self.m11),
            det2_val(self.m02, self.m13, self.m03, self.m12),
            det2_val(self.m20, self.m31, self.m21, self.m30),
            det2_val(self.m20, self.m32, self.m22, self.m30),
            det2_val(self.m20, self.m33, self.m23, self.m30),
            det2_val(self.m21, self.m32, self.m22, self.m31),
            det2_val(self.m21, self.m33, self.m23, self.m31),
            det2_val(self.m22, self.m33, self.m23, self.m32),
        )
    }

    /// The determinant. A caller that needs a singularity check before
    /// `invert` tests this value itself; the library never does.
    pub fn determinant(&self) -> (r: u32)
        ensures
            bits_agree(r, self.determinant_spec()),
    {
        let b00 = block_det(self.m00, self.m11, self.m01, self.m10);
        let b01 = block_det(self.m00, self.m12, self.m02, self.m10);
        let b02 = block_det(self.m00, self.m13, self.m03, self.m10);
        let b03 = block_det(self.m01, self.m12, self.m02, self.m11);
        let b04 = block_det(self.m01, self.m13, self.m03, self.m11);
        let b05 = block_det(self.m02, self.m13, self.m03, self.m12);
        let b06 = block_det(self.m20, self.m31, self.m21, self.m30);
        let b07 = block_det(self.m20, self.m32, self.m22, self.m30);
        let b08 = block_det(self.m20, self.m33, self.m23, self.m30);
        let b09 = block_det(self.m21, self.m32, self.m22, self.m31);
        let b10 = block_det(self.m21, self.m33, self.m23, self.m31);
        let b11 = block_det(self.m22, self.m33, self.m23, self.m32);
        let r = det_combine(b00, b01, b02, b03, b04, b05, b06, b07, b08, b09, b10, b11);
        proof {
            lemma_det6_agree(
                r,
                b00, det2_val(self.m00, self.m11, self.m01, self.m10),
                b01, det2_val(self.m00, self.m12, self.m02, self.m10),
                b02, det2_val(self.m00, self.m13, self.m03, self.m10),
                b03, det2_val(self.m01, self.m12, self.m02, self.m11),
                b04, det2_val(self.m01, self.m13, self.m03, self.m11),
                b05, det2_val(self.m02, self.m13, self.m03, self.m12),
                b06, det2_val(self.m20, self.m31, self.m21, self.m30),
                b07, det2_val(self.m20, self.m32, self.m22, self.m30),
                b08, det2_val(self.m20, self.m33, self.m23, self.m30),
                b09, det2_val(self.m21, self.m32, self.m22, self.m31),
                b10, det2_val(self.m21, self.m33, self.m23, self.m31),
                b11, det2_val(self.m22, self.m33, self.m23, self.m32),
            );
        }
        r
    }

    /// The exact inverse by the 2x2-cofactor expansion: each entry is the
    /// specified signed combination of the block determinants, multiplied
    /// by the reciprocal of the determinant.
    pub open spec fn invert_spec(self) -> Matrix4 {
        let b00 = det2_val(self.m00, self.m11, self.m01, self.m10);
        let b01 = det2_val(self.m00, self.m12, self.m02, self.m10);
        let b02 = det2_val(self.m00, self.m13, self.m03, self.m10);
        let b03 = det2_val(self.m01, self.m12, self.m02, self.m11);
        let b04 = det2_val(self.m01, self.m13, self.m03, self.m11);
        let b05 = det2_val(self.m02, self.m13, self.m03, self.m12);
        let b06 = det2_val(self.m20, self.m31, self.m21, self.m30);
        let b07 = det2_val(self.m20, self.m32, self.m22, self.m30);
        let b08 = det2_val(self.m20, self.m33, self.m23, self.m30);
        let b09 = det2_val(self.m21, self.m32, self.m22, self.m31);
        let b10 = det2_val(self.m21, self.m33, self.m23, self.m31);
        let b11 = det2_val(self.m22, self.m33, self.m23, self.m32);
        let det = div_val(BITS_ONE, self.determinant_spec());
        Matrix4 {
            m00: cofactor_pos_val(self.m11, b11, self.m12, b10, self.m13, b09, det),
            m10: cofactor_neg_val(self.m12, b08, self.m10, b11, self.m13, b07, det),
            m20: cofactor_pos_val(self.m10, b10, self.m11, b08, self.m13, b06, det),
            m30: cofactor_neg_val(self.m11, b07, self.m10, b09, self.m12, b06, det),
            m01: cofactor_neg_val(self.m02, b10, self.m01, b11, self.m03, b09, det),
            m11: cofactor_pos_val(self.m00, b11, self.m02, b08, self.m03, b07, det),
            m21: cofactor_neg_val(self.m01, b08, self.m00, b10, self.m03, b06, det),
            m31: cofactor_pos_val(self.m00, b09, self.m01, b07, self.m02, b06, det),
            m02: cofactor_pos_val(self.m31, b05, self.m32, b04, self.m33, b03, det),
            m12: cofactor_neg_val(self.m32, b02, self.m30, b05, self.m33, b01, det),
            m22: cofactor_pos_val(self.m30, b04, self.m31, b02, self.m33, b00, det),
            m32: cofactor_neg_val(self.m31, b01, self.m30, b03, self.m32, b00, det),
            m03: cofactor_neg_val(self.m22, b04, self.m21, b05, self.m23, b03, det),
            m13: cofactor_pos_val(self.m20, b05, self.m22, b02, self.m23, b01, det),
            m23: cofactor_neg_val(self.m21, b02, self.m20, b04, self.m23, b00, det),
            m33: cofactor_pos_val(self.m20, b03, self.m21, b01, self.m22, b00, det),
        }
    }

    /// Computes the inverse. If the determinant is zero, every entry
    /// degrades to an infinity or NaN; callers needing a singularity check
    /// test `determinant` first.
    pub fn invert(&self) -> (r: Matrix4)
        ensures
            r.agrees_with(self.invert_spec()),
    {
        let b00 = block_det(self.m00, self.m11, self.m01, self.m10);
        let b01 = block_det(self.m00, self.m12, self.m02, self.m10);
        let b02 = block_det(self.m00, self.m13, self.m03, self.m10);
        let b03 = block_det(self.m01, self.m12, self.m02, self.m11);
        let b04 = block_det(self.m01, self.m13, self.m03, self.m11);
        let b05 = block_det(self.m02, self.m13, self.m03, self.m12);
        let b06 = block_det(self.m20, self.m31, self.m21, self.m30);
        let b07 = block_det(self.m20, self.m32, self.m22, self.m30);
        let b08 = block_det(self.m20, self.m33, self.m23, self.m30);
        let b09 = block_det(self.m21, self.m32, self.m22, self.m31);
        let b10 = block_det(self.m21, self.m33, self.m23, self.m31);
        let b11 = block_det(self.m22, self.m33, self.m23, self.m32);
        let determinant = det_combine(b00, b01, b02, b03, b04, b05, b06, b07, b08, b09, b10, b11);
        let det = fdiv(BITS_ONE, determinant);

        let r = Matrix4 {
            m00: cofactor_pos(self.m11, b11, self.m12, b10, self.m13, b09, det),
            m10: cofactor_neg(self.m12, b08, self.m10, b11, self.m13, b07, det),
            m20: cofactor_pos(self.m10, b10, self.m11, b08, self.m13, b06, det),
            m30: cofactor_neg(self.m11, b07, self.m10, b09, self.m12, b06, det),
            m01: cofactor_neg(self.m02, b10, self.m01, b11, self.m03, b09, det),
            m11: cofactor_pos(self.m00, b11, self.m02, b08, self.m03, b07, det),
            m21: cofactor_neg(self.m01, b08, self.m00, b10, self.m03, b06, det),
            m31: cofactor_pos(self.m00, b09, self.m01, b07, self.m02, b06, det),
            m02: cofactor_pos(self.m31, b05, self.m32, b04, self.m33, b03, det),
            m12: cofactor_neg(self.m32, b02, self.m30, b05, self.m33, b01, det),
            m22: cofactor_pos(self.m30, b04, self.m31, b02, self.m33, b00, det),
            m32: cofactor_neg(self.m31, b01, self.m30, b03, self.m32, b00, det),
            m03: cofactor_neg(self.m22, b04, self.m21, b05, self.m23, b03, det),
            m13: cofactor_pos(self.m20, b05, self.m22, b02, self.m23, b01, det),
            m23: cofactor_neg(self.m21, b02, self.m20, b04, self.m23, b00, det),
            m33: cofactor_pos(self.m20, b03, self.m21, b01, self.m22, b00, det),
        };
        proof {
            let b00m = det2_val(self.m00, self.m11, self.m01, self.m10);
            let b01m = det2_val(self.m00, self.m12, self.m02, self.m10);
            let b02m = det2_val(self.m00, self.m13, self.m03, self.m10);
            let b03m = det2_val(self.m01, self.m12, self.m02, self.m11);
            let b04m = det2_val(self.m01, self.m13, self.m03, self.m11);
            let b05m = det2_val(self.m02, self.m13, self.m03, self.m12);
            let b06m = det2_val(self.m20, self.m31, self.m21, self.m30);
            let b07m = det2_val(self.m20, self.m32, self.m22, self.m30);
            let b08m = det2_val(self.m20, self.m33, self.m23, self.m30);
            let b09m = det2_val(self.m21, self.m32, self.m22, self.m31);
            let b10m = det2_val(self.m21, self.m33, self.m23, self.m31);
            let b11m = det2_val(self.m22, self.m33, self.m23, self.m32);
            let detm = div_val(BITS_ONE, self.determinant_spec());
            lemma_det6_agree(
                determinant,
                b00, b00m, b01, b01m, b02, b02m, b03, b03m, b04, b04m, b05, b05m,
                b06, b06m, b07, b07m, b08, b08m, b09, b09m, b10, b10m, b11, b11m,
            );
            lemma_div_agree(det, BITS_ONE, determinant, self.determinant_spec());
            lemma_cofactor_pos_agree(r.m00, self.m11, b11, b11m, self.m12, b10, b10m, self.m13, b09, b09m, det, detm);
            lemma_cofactor_neg_agree(r.m10, self.m12, b08, b08m, self.m10, b11, b11m, self.m13, b07, b07m, det, detm);
            lemma_cofactor_pos_agree(r.m20, self.m10, b10, b10m, self.m11, b08, b08m, self.m13, b06, b06m, det, detm);
            lemma_cofactor_neg_agree(r.m30, self.m11, b07, b07m, self.m10, b09, b09m, self.m12, b06, b06m, det, detm);
            lemma_cofactor_neg_agree(r.m01, self.m02, b10, b10m, self.m01, b11, b11m, self.m03, b09, b09m, det, detm);
            lemma_cofactor_pos_agree(r.m11, self.m00, b11, b11m, self.m02, b08, b08m, self.m03, b07, b07m, det, detm);
            lemma_cofactor_neg_agree(r.m21, self.m01, b08, b08m, self.m00, b10, b10m, self.m03, b06, b06m, det, detm);
            lemma_cofactor_pos_agree(r.m31, self.m00, b09, b09m, self.m01, b07, b07m, self.m02, b06, b06m, det, detm);
            lemma_cofactor_pos_agree(r.m02, self.m31, b05, b05m, self.m32, b04, b04m, self.m33, b03, b03m, det, detm);
            lemma_cofactor_neg_agree(r.m12, self.m32, b02, b02m, self.m30, b05, b05m, self.m33, b01, b01m, det, detm);
            lemma_cofactor_pos_agree(r.m22, self.m30, b04, b04m, self.m31, b02, b02m, self.m33, b00, b00m, det, detm);
            lemma_cofactor_neg_agree(r.m32, self.m31, b01, b01m, self.m30, b03, b03m, self.m32, b00, b00m, det, detm);
            lemma_cofactor_neg_agree(r.m03, self.m22, b04, b04m, self.m21, b05, b05m, self.m23, b03, b03m, det, detm);
            lemma_cofactor_pos_agree(r.m13, self.m20, b05, b05m, self.m22, b02, b02m, self.m23, b01, b01m, det, detm);
            lemma_cofactor_neg_agree(r.m23, self.m21, b02, b02m, self.m20, b04, b04m, self.m23, b00, b00m, det, detm);
            lemma_cofactor_pos_agree(r.m33, self.m20, b03, b03m, self.m21, b01, b01m, self.m22, b00, b00m, det, detm);
        }
        r
    }

    /// The matrix after post-multiplying a translation: each of the first
    /// three rows' dot product with `translation` is added into the fourth
    /// column; every other entry is kept.
    pub open spec fn translate_spec(self, translation: Vector3) -> Matrix4 {
        Matrix4 {
            m30: add_val(
                add_val(add_val(mul_val(self.m00, translation.x), mul_val(self.m10, translation.y)), mul_val(self.m20, translation.z)),
                self.m30,
            ),
            m31: add_val(
                add_val(add_val(mul_val(self.m01, translation.x), mul_val(self.m11, translation.y)), mul_val(self.m21, translation.z)),
                self.m31,
            ),
            m32: add_val(
                add_val(add_val(mul_val(self.m02, translation.x), mul_val(self.m12, translation.y)), mul_val(self.m22, translation.z)),
                self.m32,
            ),
            m33: add_val(
                add_val(add_val(mul_val(self.m03, translation.x), mul_val(self.m13, translation.y)), mul_val(self.m23, translation.z)),
                self.m33,
            ),
            ..self
        }
    }

    /// Post-multiplies a translation into the matrix.
    pub fn translate(self, translation: Vector3) -> (r: Matrix4)
        ensures
            r.agrees_with(self.translate_spec(translation)),
            r.m00 == self.m00,
            r.m01 == self.m01,
            r.m02 == self.m02,
            r.m03 == self.m03,
            r.m10 == self.m10,
            r.m11 == self.m11,
            r.m12 == self.m12,
            r.m13 == self.m13,
            r.m20 == self.m20,
            r.m21 == self.m21,
            r.m22 == self.m22,
            r.m23 == self.m23,
    {
        let m30 = fadd(fadd(fadd(fmul(self.m00, translation.x), fmul(self.m10, translation.y)), fmul(self.m20, translation.z)), self.m30);
        let m31 = fadd(fadd(fadd(fmul(self.m01, translation.x), fmul(self.m11, translation.y)), fmul(self.m21, translation.z)), self.m31);
        let m32 = fadd(fadd(fadd(fmul(self.m02, translation.x), fmul(self.m12, translation.y)), fmul(self.m22, translation.z)), self.m32);
        let m33 = fadd(fadd(fadd(fmul(self.m03, translation.x), fmul(self.m13, translation.y)), fmul(self.m23, translation.z)), self.m33);
        Matrix4 { m30, m31, m32, m33, ..self }
    }

    /// The matrix with its first three columns scaled by the matching
    /// components of `scale`: the basis vectors are scaled, the translation
    /// column is untouched.
    pub open spec fn scale_spec(self, scale: Vector3) -> Matrix4 {
        Matrix4 {
            m00: mul_val(self.m00, scale.x),
            m01: mul_val(self.m01, scale.x),
            m02: mul_val(self.m02, scale.x),
            m03: mul_val(self.m03, scale.x),
            m10: mul_val(self.m10, scale.y),
            m11: mul_val(self.m11, scale.y),
            m12: mul_val(self.m12, scale.y),
            m13: mul_val(self.m13, scale.y),
            m20: mul_val(self.m20, scale.z),
            m21: mul_val(self.m21, scale.z),
            m22: mul_val(self.m22, scale.z),
            m23: mul_val(self.m23, scale.z),
            ..self
        }
    }

    /// Scales the three basis columns, leaving the translation untouched.
    pub fn scale(self, scale: Vector3) -> (r: Matrix4)
        ensures
            r.agrees_with(self.scale_spec(scale)),
            r.m30 == self.m30,
            r.m31 == self.m31,
            r.m32 == self.m32,
            r.m33 == self.m33,
    {
        Matrix4 {
            m00: fmul(self.m00, scale.x),
            m01: fmul(self.m01, scale.x),
            m02: fmul(self.m02, scale.x),
            m03: fmul(self.m03, scale.x),
            m10: fmul(self.m10, scale.y),
            m11: fmul(self.m11, scale.y),
            m12: fmul(self.m12, scale.y),
            m13: fmul(self.m13, scale.y),
            m20: fmul(self.m20, scale.z),
            m21: fmul(self.m21, scale.z),
            m22: fmul(self.m22, scale.z),
            m23: fmul(self.m23, scale.z),
            ..self
        }
    }

    /// The standard 4x4 product `self * rhs`, in which `rhs` is the
    /// transform applied first: entry (row i, col j) sums `rhs`'s row i
    /// against `self`'s column j.
    pub open spec fn mul_spec(self, rhs: Matrix4) -> Matrix4 {
        Matrix4 {
            m00: dot4_val(rhs.m00, self.m00, rhs.m01, self.m10, rhs.m02, self.m20, rhs.m03, self.m30),
            m01: dot4_val(rhs.m00, self.m01, rhs.m01, self.m11, rhs.m02, self.m21, rhs.m03, self.m31),
            m02: dot4_val(rhs.m00, self.m02, rhs.m01, self.m12, rhs.m02, self.m22, rhs.m03, self.m32),
            m03: dot4_val(rhs.m00, self.m03, rhs.m01, self.m13, rhs.m02, self.m23, rhs.m03, self.m33),
            m10: dot4_val(rhs.m10, self.m00, rhs.m11, self.m10, rhs.m12, self.m20, rhs.m13, self.m30),
            m11: dot4_val(rhs.m10, self.m01, rhs.m11, self.m11, rhs.m12, self.m21, rhs.m13, self.m31),
            m12: dot4_val(rhs.m10, self.m02, rhs.m11, self.m12, rhs.m12, self.m22, rhs.m13, self.m32),
            m13: dot4_val(rhs.m10, self.m03, rhs.m11, self.m13, rhs.m12, self.m23, rhs.m13, self.m33),
            m20: dot4_val(rhs.m20, self.m00, rhs.m21, self.m10, rhs.m22, self.m20, rhs.m23, self.m30),
            m21: dot4_val(rhs.m20, self.m01, rhs.m21, self.m11, rhs.m22, self.m21, rhs.m23, self.m31),
            m22: dot4_val(rhs.m20, self.m02, rhs.m21, self.m12, rhs.m22, self.m22, rhs.m23, self.m32),
            m23: dot4_val(rhs.m20, self.m03, rhs.m21, self.m13, rhs.m22, self.m23, rhs.m23, self.m33),
            m30: dot4_val(rhs.m30, self.m00, rhs.m31, self.m10, rhs.m32, self.m20, rhs.m33, self.m30),
            m31: dot4_val(rhs.m30, self.m01, rhs.m31, self.m11, rhs.m32, self.m21, rhs.m33, self.m31),
            m32: dot4_val(rhs.m30, self.m02, rhs.m31, self.m12, rhs.m32, self.m22, rhs.m33, self.m32),
            m33: dot4_val(rhs.m30, self.m03, rhs.m31, self.m13, rhs.m32, self.m23, rhs.m33, self.m33),
        }
    }

    /// The matrix product `self * rhs`; `rhs` is applied first when the
    /// result transforms a point.
    pub fn mul(self, rhs: Matrix4) -> (r: Matrix4)
        ensures
            r.agrees_with(self.mul_spec(rhs)),
    {
        Matrix4 {
            m00: dot4(rhs.m00, self.m00, rhs.m01, self.m10, rhs.m02, self.m20, rhs.m03, self.m30),
            m01: dot4(rhs.m00, self.m01, rhs.m01, self.m11, rhs.m02, self.m21, rhs.m03, self.m31),
            m02: dot4(rhs.m00, self.m02, rhs.m01, self.m12, rhs.m02, self.m22, rhs.m03, self.m32),
            m03: dot4(rhs.m00, self.m03, rhs.m01, self.m13, rhs.m02, self.m23, rhs.m03, self.m33),
            m10: dot4(rhs.m10, self.m00, rhs.m11, self.m10, rhs.m12, self.m20, rhs.m13, self.m30),
            m11: dot4(rhs.m10, self.m01, rhs.m11, self.m11, rhs.m12, self.m21, rhs.m13, self.m31),
            m12: dot4(rhs.m10, self.m02, rhs.m11, self.m12, rhs.m12, self.m22, rhs.m13, self.m32),
            m13: dot4(rhs.m10, self.m03, rhs.m11, self.m13, rhs.m12, self.m23, rhs.m13, self.m33),
            m20: dot4(rhs.m20, self.m00, rhs.m21, self.m10, rhs.m22, self.m20, rhs.m23, self.m30),
            m21: dot4(rhs.m20, self.m01, rhs.m21, self.m11, rhs.m22, self.m21, rhs.m23, self.m31),
            m22: dot4(rhs.m20, self.m02, rhs.m21, self.m12, rhs.m22, self.m22, rhs.m23, self.m32),
            m23: dot4(rhs.m20, self.m03, rhs.m21, self.m13, rhs.m22, self.m23, rhs.m23, self.m33),
            m30: dot4(rhs.m30, self.m00, rhs.m31, self.m10, rhs.m32, self.m20, rhs.m33, self.m30),
            m31: dot4(rhs.m30, self.m01, rhs.m31, self.m11, rhs.m32, self.m21, rhs.m33, self.m31),
            m32: dot4(rhs.m30, self.m02, rhs.m31, self.m12, rhs.m32, self.m22, rhs.m33, self.m32),
            m33: dot4(rhs.m30, self.m03, rhs.m31, self.m13, rhs.m32, self.m23, rhs.m33, self.m33),
        }
    }
}

/// Transposition is an involution: swapping rows and columns twice gives
/// back the original matrix, for every matrix.
pub proof fn lemma_transpose_involutive(m: Matrix4)
    ensures
        m.transpose_spec().transpose_spec() == m,
{
}

} // verus!
