//! A 4-component binary32 vector.

use crate::scalar::add_val;
use crate::scalar::bits_agree;
use crate::scalar::div_val;
use crate::scalar::fadd;
use crate::scalar::fdiv;
use crate::scalar::fmul;
use crate::scalar::fsqrt;
use crate::scalar::fsub;
use crate::scalar::mul_val;
use crate::scalar::sqrt_val;
use crate::scalar::sub_val;
use crate::scalar::BITS_ONE;
use crate::scalar::BITS_ZERO;
use vstd::prelude::*;

verus! {

/// A 4D vector whose components are binary32 bit patterns. Equality is
/// exact componentwise bit equality.
#[derive(Clone, Copy, Debug, PartialEq, Eq, Structural)]
pub struct Vector4 {
    pub x: u32,
    pub y: u32,
    pub z: u32,
    pub w: u32,
}

impl Vector4 {
    /// The vector of four binary32 zeros.
    pub fn zero() -> (r: Vector4)
        ensures
            r.x == BITS_ZERO,
            r.y == BITS_ZERO,
            r.z == BITS_ZERO,
            r.w == BITS_ZERO,
    {
        Vector4 { x: BITS_ZERO, y: BITS_ZERO, z: BITS_ZERO, w: BITS_ZERO }
    }

    /// The vector of four binary32 ones.
    pub fn one() -> (r: Vector4)
        ensures
            r.x == BITS_ONE,
            r.y == BITS_ONE,
            r.z == BITS_ONE,
            r.w == BITS_ONE,
    {
        Vector4 { x: BITS_ONE, y: BITS_ONE, z: BITS_ONE, w: BITS_ONE }
    }

    /// The vector with all four components equal to `val`.
    pub fn splat(val: u32) -> (r: Vector4)
        ensures
            r.x == val,
            r.y == val,
            r.z == val,
            r.w == val,
    {
        Vector4 { x: val, y: val, z: val, w: val }
    }

    /// The Euclidean length: the square root of the sum of the squared
    /// components, every step in binary32.
    pub open spec fn magnitude_spec(self) -> u32 {
        sqrt_val(
            add_val(
                add_val(add_val(mul_val(self.x, self.x), mul_val(self.y, self.y)), mul_val(self.z, self.z)),
                mul_val(self.w, self.w),
            ),
        )
    }

    /// The Euclidean length of the vector.
    pub fn magnitude(&self) -> (r: u32)
        ensures
            bits_agree(r, self.magnitude_spec()),
    {
        fsqrt(
            fadd(
                fadd(fadd(fmul(self.x, self.x), fmul(self.y, self.y)), fmul(self.z, self.z)),
                fmul(self.w, self.w),
            ),
        )
    }

    /// Divides each component by the vector's length, in place. A
    /// zero-length vector degrades to NaN components.
    pub fn normalize(&mut self)
        ensures
            bits_agree(final(self).x, div_val(old(self).x, old(self).magnitude_spec())),
            bits_agree(final(self).y, div_val(old(self).y, old(self).magnitude_spec())),
            bits_agree(final(self).z, div_val(old(self).z, old(self).magnitude_spec())),
            bits_agree(final(self).w, div_val(old(self).w, old(self).magnitude_spec())),
    {
        let magnitude = self.magnitude();
        self.x = fdiv(self.x, magnitude);
        self.y = fdiv(self.y, magnitude);
        self.z = fdiv(self.z, magnitude);
        self.w = fdiv(self.w, magnitude);
    }

    /// Componentwise binary32 sum.
    pub fn add(self, rhs: Vector4) -> (r: Vector4)
        ensures
            bits_agree(r.x, add_val(self.x, rhs.x)),
            bits_agree(r.y, add_val(self.y, rhs.y)),
            bits_agree(r.z, add_val(self.z, rhs.z)),
            bits_agree(r.w, add_val(self.w, rhs.w)),
    {
        Vector4 {
            x: fadd(self.x, rhs.x),
            y: fadd(self.y, rhs.y),
            z: fadd(self.z, rhs.z),
            w: fadd(self.w, rhs.w),
        }
    }

    /// Componentwise binary32 sum, in place.
    pub fn add_assign(&mut self, rhs: Vector4)
        ensures
            bits_agree(final(self).x, add_val(old(self).x, rhs.x)),
            bits_agree(final(self).y, add_val(old(self).y, rhs.y)),
            bits_agree(final(self).z, add_val(old(self).z, rhs.z)),
            bits_agree(final(self).w, add_val(old(self).w, rhs.w)),
    {
        self.x = fadd(self.x, rhs.x);
        self.y = fadd(self.y, rhs.y);
        self.z = fadd(self.z, rhs.z);
        self.w = fadd(self.w, rhs.w);
    }

    /// Componentwise binary32 difference.
    pub fn sub(self, rhs: Vector4) -> (r: Vector4)
        ensures
            bits_agree(r.x, sub_val(self.x, rhs.x)),
            bits_agree(r.y, sub_val(self.y, rhs.y)),
            bits_agree(r.z, sub_val(self.z, rhs.z)),
            bits_agree(r.w, sub_val(self.w, rhs.w)),
    {
        Vector4 {
            x: fsub(self.x, rhs.x),
            y: fsub(self.y, rhs.y),
            z: fsub(self.z, rhs.z),
            w: fsub(self.w, rhs.w),
        }
    }

    /// Componentwise binary32 difference, in place.
    pub fn sub_assign(&mut self, rhs: Vector4)
        ensures
            bits_agree(final(self).x, sub_val(old(self).x, rhs.x)),
            bits_agree(final(self).y, sub_val(old(self).y, rhs.y)),
            bits_agree(final(self).z, sub_val(old(self).z, rhs.z)),
            bits_agree(final(self).w, sub_val(old(self).w, rhs.w)),
    {
        self.x = fsub(self.x, rhs.x);
        self.y = fsub(self.y, rhs.y);
        self.z = fsub(self.z, rhs.z);
        self.w = fsub(self.w, rhs.w);
    }

    /// Componentwise binary32 product.
    pub fn mul(self, rhs: Vector4) -> (r: Vector4)
        ensures
            bits_agree(r.x, mul_val(self.x, rhs.x)),
            bits_agree(r.y, mul_val(self.y, rhs.y)),
            bits_agree(r.z, mul_val(self.z, rhs.z)),
            bits_agree(r.w, mul_val(self.w, rhs.w)),
    {
        Vector4 {
            x: fmul(self.x, rhs.x),
            y: fmul(self.y, rhs.y),
            z: fmul(self.z, rhs.z),
            w: fmul(self.w, rhs.w),
        }
    }

    /// Componentwise binary32 product, in place.
    pub fn mul_assign(&mut self, rhs: Vector4)
        ensures
            bits_agree(final(self).x, mul_val(old(self).x, rhs.x)),
            bits_agree(final(self).y, mul_val(old(self).y, rhs.y)),
            bits_agree(final(self).z, mul_val(old(self).z, rhs.z)),
            bits_agree(final(self).w, mul_val(old(self).w, rhs.w)),
    {
        self.x = fmul(self.x, rhs.x);
        self.y = fmul(self.y, rhs.y);
        self.z = fmul(self.z, rhs.z);
        self.w = fmul(self.w, rhs.w);
    }

    /// Componentwise binary32 quotient.
    pub fn div(self, rhs: Vector4) -> (r: Vector4)
        ensures
            bits_agree(r.x, div_val(self.x, rhs.x)),
            bits_agree(r.y, div_val(self.y, rhs.y)),
            bits_agree(r.z, div_val(self.z, rhs.z)),
            bits_agree(r.w, div_val(self.w, rhs.w)),
    {
        Vector4 {
            x: fdiv(self.x, rhs.x),
            y: fdiv(self.y, rhs.y),
            z: fdiv(self.z, rhs.z),
            w: fdiv(self.w, rhs.w),
        }
    }

    /// Componentwise binary32 quotient, in place.
    pub fn div_assign(&mut self, rhs: Vector4)
        ensures
            bits_agree(final(self).x, div_val(old(self).x, rhs.x)),
            bits_agree(final(self).y, div_val(old(self).y, rhs.y)),
            bits_agree(final(self).z, div_val(old(self).z, rhs.z)),
            bits_agree(final(self).w, div_val(old(self).w, rhs.w)),
    {
        self.x = fdiv(self.x, rhs.x);
        self.y = fdiv(self.y, rhs.y);
        self.z = fdiv(self.z, rhs.z);
        self.w = fdiv(self.w, rhs.w);
    }

    /// Each component multiplied by the scalar `rhs`.
    pub fn mul_scalar(self, rhs: u32) -> (r: Vector4)
        ensures
            bits_agree(r.x, mul_val(self.x, rhs)),
            bits_agree(r.y, mul_val(self.y, rhs)),
            bits_agree(r.z, mul_val(self.z, rhs)),
            bits_agree(r.w, mul_val(self.w, rhs)),
    {
        Vector4 { x: fmul(self.x, rhs), y: fmul(self.y, rhs), z: fmul(self.z, rhs), w: fmul(self.w, rhs) }
    }

    /// Each component divided by the scalar `rhs`.
    pub fn div_scalar(self, rhs: u32) -> (r: Vector4)
        ensures
            bits_agree(r.x, div_val(self.x, rhs)),
            bits_agree(r.y, div_val(self.y, rhs)),
            bits_agree(r.z, div_val(self.z, rhs)),
            bits_agree(r.w, div_val(self.w, rhs)),
    {
        Vector4 { x: fdiv(self.x, rhs), y: fdiv(self.y, rhs), z: fdiv(self.z, rhs), w: fdiv(self.w, rhs) }
    }
}

} // verus!
