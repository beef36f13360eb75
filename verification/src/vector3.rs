//! A 3-component binary32 vector: the value type consumed by the
//! quaternion and by the 4x4 matrix constructors.

use crate::scalar::add_val;
use crate::scalar::bits_agree;
use crate::scalar::div_val;
use crate::scalar::fadd;
use crate::scalar::fdiv;
use crate::scalar::fmul;
use crate::scalar::fsqrt;
use crate::scalar::fsub;
use crate::scalar::mul_val;
use crate::scalar::sqrt_val;
use crate::scalar::sub_val;
use crate::scalar::BITS_NEG_ONE;
use crate::scalar::BITS_ONE;
use crate::scalar::BITS_ZERO;
use vstd::prelude::*;

verus! {

/// A 3D vector whose components are binary32 bit patterns. Equality is
/// exact componentwise bit equality.
#[derive(Clone, Copy, Debug, PartialEq, Eq, Structural)]
pub struct Vector3 {
    pub x: u32,
    pub y: u32,
    pub z: u32,
}

impl Vector3 {
    /// Componentwise agreement with a specified vector: bit-identical, or
    /// both NaN where the specified component is NaN.
    pub open spec fn agrees_with(self, m: Vector3) -> bool {
        &&& bits_agree(self.x, m.x)
        &&& bits_agree(self.y, m.y)
        &&& bits_agree(self.z, m.z)
    }

    /// The zero vector as a spec value.
    pub open spec fn zero_spec() -> Vector3 {
        Vector3 { x: BITS_ZERO, y: BITS_ZERO, z: BITS_ZERO }
    }

    /// The vector of three binary32 zeros.
    pub fn zero() -> (r: Vector3)
        ensures
            r == Vector3::zero_spec(),
    {
        Vector3 { x: BITS_ZERO, y: BITS_ZERO, z: BITS_ZERO }
    }

    /// The all-ones vector as a spec value.
    pub open spec fn one_spec() -> Vector3 {
        Vector3 { x: BITS_ONE, y: BITS_ONE, z: BITS_ONE }
    }

    /// The vector of three binary32 ones.
    pub fn one() -> (r: Vector3)
        ensures
            r == Vector3::one_spec(),
    {
        Vector3 { x: BITS_ONE, y: BITS_ONE, z: BITS_ONE }
    }

    /// The unit vector along positive y.
    pub fn up() -> (r: Vector3)
        ensures
            r == (Vector3 { x: BITS_ZERO, y: BITS_ONE, z: BITS_ZERO }),
    {
        Vector3 { x: BITS_ZERO, y: BITS_ONE, z: BITS_ZERO }
    }

    /// The unit vector along negative y.
    pub fn down() -> (r: Vector3)
        ensures
            r == (Vector3 { x: BITS_ZERO, y: BITS_NEG_ONE, z: BITS_ZERO }),
    {
        Vector3 { x: BITS_ZERO, y: BITS_NEG_ONE, z: BITS_ZERO }
    }

    /// The unit vector along negative x.
    pub fn left() -> (r: Vector3)
        ensures
            r == (Vector3 { x: BITS_NEG_ONE, y: BITS_ZERO, z: BITS_ZERO }),
    {
        Vector3 { x: BITS_NEG_ONE, y: BITS_ZERO, z: BITS_ZERO }
    }

    /// The unit vector along positive x.
    pub fn right() -> (r: Vector3)
        ensures
            r == (Vector3 { x: BITS_ONE, y: BITS_ZERO, z: BITS_ZERO }),
    {
        Vector3 { x: BITS_ONE, y: BITS_ZERO, z: BITS_ZERO }
    }

    /// The unit vector along positive z.
    pub fn forward() -> (r: Vector3)
        ensures
            r == (Vector3 { x: BITS_ZERO, y: BITS_ZERO, z: BITS_ONE }),
    {
        Vector3 { x: BITS_ZERO, y: BITS_ZERO, z: BITS_ONE }
    }

    /// The unit vector along negative z.
    pub fn back() -> (r: Vector3)
        ensures
            r == (Vector3 { x: BITS_ZERO, y: BITS_ZERO, z: BITS_NEG_ONE }),
    {
        Vector3 { x: BITS_ZERO, y: BITS_ZERO, z: BITS_NEG_ONE }
    }

    /// The Euclidean length: the square root of the sum of the squared
    /// components, every step in binary32.
    pub open spec fn magnitude_spec(self) -> u32 {
        sqrt_val(add_val(add_val(mul_val(self.x, self.x), mul_val(self.y, self.y)), mul_val(self.z, self.z)))
    }

    /// The Euclidean length of the vector.
    pub fn magnitude(&self) -> (r: u32)
        ensures
            bits_agree(r, self.magnitude_spec()),
    {
        fsqrt(fadd(fadd(fmul(self.x, self.x), fmul(self.y, self.y)), fmul(self.z, self.z)))
    }

    /// Divides each component by the vector's length. A zero-length vector
    /// degrades to NaN components rather than reporting an error.
    pub fn normalize(&mut self)
        ensures
            bits_agree(final(self).x, div_val(old(self).x, old(self).magnitude_spec())),
            bits_agree(final(self).y, div_val(old(self).y, old(self).magnitude_spec())),
            bits_agree(final(self).z, div_val(old(self).z, old(self).magnitude_spec())),
    {
        let magnitude = self.magnitude();
        self.x = fdiv(self.x, magnitude);
        self.y = fdiv(self.y, magnitude);
        self.z = fdiv(self.z, magnitude);
    }

    /// Componentwise binary32 sum.
    pub fn add(self, rhs: Vector3) -> (r: Vector3)
        ensures
            bits_agree(r.x, add_val(self.x, rhs.x)),
            bits_agree(r.y, add_val(self.y, rhs.y)),
            bits_agree(r.z, add_val(self.z, rhs.z)),
    {
        Vector3 { x: fadd(self.x, rhs.x), y: fadd(self.y, rhs.y), z: fadd(self.z, rhs.z) }
    }

    /// Componentwise binary32 difference.
    pub fn sub(self, rhs: Vector3) -> (r: Vector3)
        ensures
            bits_agree(r.x, sub_val(self.x, rhs.x)),
            bits_agree(r.y, sub_val(self.y, rhs.y)),
            bits_agree(r.z, sub_val(self.z, rhs.z)),
    {
        Vector3 { x: fsub(self.x, rhs.x), y: fsub(self.y, rhs.y), z: fsub(self.z, rhs.z) }
    }

    /// Componentwise binary32 product.
    pub fn mul(self, rhs: Vector3) -> (r: Vector3)
        ensures
            bits_agree(r.x, mul_val(self.x, rhs.x)),
            bits_agree(r.y, mul_val(self.y, rhs.y)),
            bits_agree(r.z, mul_val(self.z, rhs.z)),
    {
        Vector3 { x: fmul(self.x, rhs.x), y: fmul(self.y, rhs.y), z: fmul(self.z, rhs.z) }
    }

    /// Componentwise binary32 quotient.
    pub fn div(self, rhs: Vector3) -> (r: Vector3)
        ensures
            bits_agree(r.x, div_val(self.x, rhs.x)),
            bits_agree(r.y, div_val(self.y, rhs.y)),
            bits_agree(r.z, div_val(self.z, rhs.z)),
    {
        Vector3 { x: fdiv(self.x, rhs.x), y: fdiv(self.y, rhs.y), z: fdiv(self.z, rhs.z) }
    }

    /// Each component multiplied by the scalar `rhs`.
    pub fn mul_scalar(self, rhs: u32) -> (r: Vector3)
        ensures
            bits_agree(r.x, mul_val(self.x, rhs)),
            bits_agree(r.y, mul_val(self.y, rhs)),
            bits_agree(r.z, mul_val(self.z, rhs)),
    {
        Vector3 { x: fmul(self.x, rhs), y: fmul(self.y, rhs), z: fmul(self.z, rhs) }
    }

    /// Each component divided by the scalar `rhs`.
    pub fn div_scalar(self, rhs: u32) -> (r: Vector3)
        ensures
            bits_agree(r.x, div_val(self.x, rhs)),
            bits_agree(r.y, div_val(self.y, rhs)),
            bits_agree(r.z, div_val(self.z, rhs)),
    {
        Vector3 { x: fdiv(self.x, rhs), y: fdiv(self.y, rhs), z: fdiv(self.z, rhs) }
    }
}

} // verus!
