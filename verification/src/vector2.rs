//! A 2-component binary32 vector, with conversions to and from the
//! integer vector.

use crate::ivector2::IVector2;
use crate::scalar::add_val;
use crate::scalar::bits_agree;
use crate::scalar::bits_of_i32;
use crate::scalar::cast_from_i32;
use crate::scalar::cast_to_i32;
use crate::scalar::div_val;
use crate::scalar::fadd;
use crate::scalar::fdiv;
use crate::scalar::fmul;
use crate::scalar::fsqrt;
use crate::scalar::fsub;
use crate::scalar::i32_of_bits;
use crate::scalar::mul_val;
use crate::scalar::sqrt_val;
use crate::scalar::sub_val;
use crate::scalar::BITS_NEG_ONE;
use crate::scalar::BITS_ONE;
use crate::scalar::BITS_ZERO;
use vstd::prelude::*;

verus! {

/// A 2D vector whose components are binary32 bit patterns. Equality is
/// exact componentwise bit equality.
#[derive(Clone, Copy, Debug, PartialEq, Eq, Structural)]
pub struct Vector2 {
    pub x: u32,
    pub y: u32,
}

impl Vector2 {
    /// The vector of two binary32 zeros.
    pub fn zero() -> (r: Vector2)
        ensures
            r.x == BITS_ZERO,
            r.y == BITS_ZERO,
    {
        Vector2 { x: BITS_ZERO, y: BITS_ZERO }
    }

    /// The vector of two binary32 ones.
    pub fn one() -> (r: Vector2)
        ensures
            r.x == BITS_ONE,
            r.y == BITS_ONE,
    {
        Vector2 { x: BITS_ONE, y: BITS_ONE }
    }

    /// The unit vector along positive y.
    pub fn up() -> (r: Vector2)
        ensures
            r.x == BITS_ZERO,
            r.y == BITS_ONE,
    {
        Vector2 { x: BITS_ZERO, y: BITS_ONE }
    }

    /// The unit vector along negative y.
    pub fn down() -> (r: Vector2)
        ensures
            r.x == BITS_ZERO,
            r.y == BITS_NEG_ONE,
    {
        Vector2 { x: BITS_ZERO, y: BITS_NEG_ONE }
    }

    /// The unit vector along negative x.
    pub fn left() -> (r: Vector2)
        ensures
            r.x == BITS_NEG_ONE,
            r.y == BITS_ZERO,
    {
        Vector2 { x: BITS_NEG_ONE, y: BITS_ZERO }
    }

    /// The unit vector along positive x.
    pub fn right() -> (r: Vector2)
        ensures
            r.x == BITS_ONE,
            r.y == BITS_ZERO,
    {
        Vector2 { x: BITS_ONE, y: BITS_ZERO }
    }

    /// The Euclidean length: the square root of the sum of the squared
    /// components, every step in binary32.
    pub open spec fn magnitude_spec(self) -> u32 {
        sqrt_val(add_val(mul_val(self.x, self.x), mul_val(self.y, self.y)))
    }

    /// The Euclidean length of the vector.
    pub fn magnitude(&self) -> (r: u32)
        ensures
            bits_agree(r, self.magnitude_spec()),
    {
        fsqrt(fadd(fmul(self.x, self.x), fmul(self.y, self.y)))
    }

    /// Divides each component by the vector's length, in place. A
    /// zero-length vector degrades to NaN components.
    pub fn normalize(&mut self)
        ensures
            bits_agree(final(self).x, div_val(old(self).x, old(self).magnitude_spec())),
            bits_agree(final(self).y, div_val(old(self).y, old(self).magnitude_spec())),
    {
        let magnitude = self.magnitude();
        self.x = fdiv(self.x, magnitude);
        self.y = fdiv(self.y, magnitude);
    }

    /// The vector scaled to unit length, leaving `self` untouched.
    pub fn normalized(&self) -> (r: Vector2)
        ensures
            bits_agree(r.x, div_val(self.x, self.magnitude_spec())),
            bits_agree(r.y, div_val(self.y, self.magnitude_spec())),
    {
        Vector2 { x: fdiv(self.x, self.magnitude()), y: fdiv(self.y, self.magnitude()) }
    }

    /// Componentwise binary32 sum.
    pub fn add(self, rhs: Vector2) -> (r: Vector2)
        ensures
            bits_agree(r.x, add_val(self.x, rhs.x)),
            bits_agree(r.y, add_val(self.y, rhs.y)),
    {
        Vector2 { x: fadd(self.x, rhs.x), y: fadd(self.y, rhs.y) }
    }

    /// Componentwise binary32 difference.
    pub fn sub(self, rhs: Vector2) -> (r: Vector2)
        ensures
            bits_agree(r.x, sub_val(self.x, rhs.x)),
            bits_agree(r.y, sub_val(self.y, rhs.y)),
    {
        Vector2 { x: fsub(self.x, rhs.x), y: fsub(self.y, rhs.y) }
    }

    /// Componentwise binary32 product.
    pub fn mul(self, rhs: Vector2) -> (r: Vector2)
        ensures
            bits_agree(r.x, mul_val(self.x, rhs.x)),
            bits_agree(r.y, mul_val(self.y, rhs.y)),
    {
        Vector2 { x: fmul(self.x, rhs.x), y: fmul(self.y, rhs.y) }
    }

    /// Componentwise binary32 quotient.
    pub fn div(self, rhs: Vector2) -> (r: Vector2)
        ensures
            bits_agree(r.x, div_val(self.x, rhs.x)),
            bits_agree(r.y, div_val(self.y, rhs.y)),
    {
        Vector2 { x: fdiv(self.x, rhs.x), y: fdiv(self.y, rhs.y) }
    }

    /// Each component multiplied by the scalar `rhs`.
    pub fn mul_scalar(self, rhs: u32) -> (r: Vector2)
        ensures
            bits_agree(r.x, mul_val(self.x, rhs)),
            bits_agree(r.y, mul_val(self.y, rhs)),
    {
        Vector2 { x: fmul(self.x, rhs), y: fmul(self.y, rhs) }
    }

    /// Each component divided by the scalar `rhs`.
    pub fn div_scalar(self, rhs: u32) -> (r: Vector2)
        ensures
            bits_agree(r.x, div_val(self.x, rhs)),
            bits_agree(r.y, div_val(self.y, rhs)),
    {
        Vector2 { x: fdiv(self.x, rhs), y: fdiv(self.y, rhs) }
    }
}

impl From<IVector2> for Vector2 {
    /// Each integer component converted to the nearest binary32 value.
    fn from(value: IVector2) -> (r: Vector2) {
        Vector2 { x: cast_from_i32(value.x), y: cast_from_i32(value.y) }
    }
}

impl vstd::std_specs::convert::FromSpecImpl<IVector2> for Vector2 {
    open spec fn obeys_from_spec() -> bool {
        true
    }

    open spec fn from_spec(v: IVector2) -> Vector2 {
        Vector2 { x: bits_of_i32(v.x), y: bits_of_i32(v.y) }
    }
}

impl From<Vector2> for IVector2 {
    /// Each binary32 component truncated toward zero, saturating at the
    /// `i32` bounds, with NaN mapped to 0.
    fn from(value: Vector2) -> (r: IVector2) {
        IVector2 { x: cast_to_i32(value.x), y: cast_to_i32(value.y) }
    }
}

impl vstd::std_specs::convert::FromSpecImpl<Vector2> for IVector2 {
    open spec fn obeys_from_spec() -> bool {
        true
    }

    open spec fn from_spec(v: Vector2) -> IVector2 {
        IVector2 { x: i32_of_bits(v.x), y: i32_of_bits(v.y) }
    }
}

} // verus!
