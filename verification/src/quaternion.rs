//! A rotation quaternion in the convention `w + xi + yj + zk`, composed by
//! the Hamilton product and built from Euler angles given in degrees.
//!
//! Consumers expect a magnitude near one for valid rotations; the library
//! never normalizes and never checks this.

use crate::scalar::add_val;
use crate::scalar::bits_agree;
use crate::scalar::cos_val;
use crate::scalar::fadd;
use crate::scalar::fcos;
use crate::scalar::fmul;
use crate::scalar::fsin;
use crate::scalar::fsub;
use crate::scalar::mul_val;
use crate::scalar::sin_val;
use crate::scalar::sub_val;
use crate::scalar::BITS_HALF_DEG_TO_RAD;
use crate::scalar::BITS_ONE;
use crate::scalar::BITS_ZERO;
use crate::vector3::Vector3;
use vstd::prelude::*;

verus! {

/// A quaternion whose components are binary32 bit patterns.
#[derive(Clone, Copy, Debug, PartialEq, Eq, Structural)]
pub struct Quaternion {
    pub x: u32,
    pub y: u32,
    pub z: u32,
    pub w: u32,
}

impl Quaternion {
    /// Componentwise agreement with a specified quaternion: bit-identical,
    /// or both NaN where the specified component is NaN.
    pub open spec fn agrees_with(self, m: Quaternion) -> bool {
        &&& bits_agree(self.x, m.x)
        &&& bits_agree(self.y, m.y)
        &&& bits_agree(self.z, m.z)
        &&& bits_agree(self.w, m.w)
    }

    /// The rotation quaternion (0, 0, 0, 1): no rotation.
    pub open spec fn identity_spec() -> Quaternion {
        Quaternion { x: BITS_ZERO, y: BITS_ZERO, z: BITS_ZERO, w: BITS_ONE }
    }

    /// The identity rotation (0, 0, 0, 1).
    pub fn identity() -> (r: Quaternion)
        ensures
            r == Quaternion::identity_spec(),
    {
        Quaternion { x: BITS_ZERO, y: BITS_ZERO, z: BITS_ZERO, w: BITS_ONE }
    }

    /// The quaternion the half-angle formula yields for Euler angles in
    /// degrees: each angle is scaled by pi/360 (degrees to radians, then
    /// halved), and the per-axis half-angle sines and cosines are combined
    /// into the canonical product of the three axis rotations.
    pub open spec fn from_euler_spec(euler: Vector3) -> Quaternion {
        let x = mul_val(euler.x, BITS_HALF_DEG_TO_RAD);
        let y = mul_val(euler.y, BITS_HALF_DEG_TO_RAD);
        let z = mul_val(euler.z, BITS_HALF_DEG_TO_RAD);
        let sx = sin_val(x);
        let cx = cos_val(x);
        let sy = sin_val(y);
        let cy = cos_val(y);
        let sz = sin_val(z);
        let cz = cos_val(z);
        Quaternion {
            x: sub_val(mul_val(mul_val(sx, cy), cz), mul_val(mul_val(cx, sy), sz)),
            y: add_val(mul_val(mul_val(cx, sy), cz), mul_val(mul_val(sx, cy), sz)),
            z: sub_val(mul_val(mul_val(cx, cy), sz), mul_val(mul_val(sx, sy), cz)),
            w: add_val(mul_val(mul_val(cx, cy), cz), mul_val(mul_val(sx, sy), sz)),
        }
    }

    /// Converts Euler angles in degrees (x pitch, y yaw, z roll) into a
    /// unit quaternion by the standard half-angle formula.
    pub fn from_euler(euler: Vector3) -> (r: Quaternion)
        ensures
            r.agrees_with(Quaternion::from_euler_spec(euler)),
    {
        let x = fmul(euler.x, BITS_HALF_DEG_TO_RAD);
        let y = fmul(euler.y, BITS_HALF_DEG_TO_RAD);
        let z = fmul(euler.z, BITS_HALF_DEG_TO_RAD);

        let sx = fsin(x);
        let cx = fcos(x);
        let sy = fsin(y);
        let cy = fcos(y);
        let sz = fsin(z);
        let cz = fcos(z);

        Quaternion {
            x: fsub(fmul(fmul(sx, cy), cz), fmul(fmul(cx, sy), sz)),
            y: fadd(fmul(fmul(cx, sy), cz), fmul(fmul(sx, cy), sz)),
            z: fsub(fmul(fmul(cx, cy), sz), fmul(fmul(sx, sy), cz)),
            w: fadd(fmul(fmul(cx, cy), cz), fmul(fmul(sx, sy), sz)),
        }
    }

    /// The Hamilton product `self * rhs`. Non-commutative: `self * rhs`
    /// applies `rhs`'s rotation first, then `self`'s.
    pub open spec fn mul_spec(self, rhs: Quaternion) -> Quaternion {
        Quaternion {
            x: sub_val(
                add_val(add_val(mul_val(self.x, rhs.w), mul_val(self.w, rhs.x)), mul_val(self.y, rhs.z)),
                mul_val(self.z, rhs.y),
            ),
            y: sub_val(
                add_val(add_val(mul_val(self.y, rhs.w), mul_val(self.w, rhs.y)), mul_val(self.z, rhs.x)),
                mul_val(self.x, rhs.z),
            ),
            z: sub_val(
                add_val(add_val(mul_val(self.z, rhs.w), mul_val(self.w, rhs.z)), mul_val(self.x, rhs.y)),
                mul_val(self.y, rhs.x),
            ),
            w: sub_val(
                sub_val(sub_val(mul_val(self.w, rhs.w), mul_val(self.x, rhs.x)), mul_val(self.y, rhs.y)),
                mul_val(self.z, rhs.z),
            ),
        }
    }

    /// The Hamilton product `self * rhs`.
    pub fn mul(self, rhs: Quaternion) -> (r: Quaternion)
        ensures
            r.agrees_with(self.mul_spec(rhs)),
    {
        Quaternion {
            x: fsub(fadd(fadd(fmul(self.x, rhs.w), fmul(self.w, rhs.x)), fmul(self.y, rhs.z)), fmul(self.z, rhs.y)),
            y: fsub(fadd(fadd(fmul(self.y, rhs.w), fmul(self.w, rhs.y)), fmul(self.z, rhs.x)), fmul(self.x, rhs.z)),
            z: fsub(fadd(fadd(fmul(self.z, rhs.w), fmul(self.w, rhs.z)), fmul(self.x, rhs.y)), fmul(self.y, rhs.x)),
            w: fsub(fsub(fsub(fmul(self.w, rhs.w), fmul(self.x, rhs.x)), fmul(self.y, rhs.y)), fmul(self.z, rhs.z)),
        }
    }

    /// Replaces `self` with the Hamilton product `self * rhs`. All four
    /// output components are computed from a snapshot of the inputs before
    /// any field is overwritten, so the aliased operand is never corrupted.
    pub fn mul_assign(&mut self, rhs: Quaternion)
        ensures
            final(self).agrees_with(old(self).mul_spec(rhs)),
    {
        let ax = fsub(fadd(fadd(fmul(self.x, rhs.w), fmul(self.w, rhs.x)), fmul(self.y, rhs.z)), fmul(self.z, rhs.y));
        let ay = fsub(fadd(fadd(fmul(self.y, rhs.w), fmul(self.w, rhs.y)), fmul(self.z, rhs.x)), fmul(self.x, rhs.z));
        let az = fsub(fadd(fadd(fmul(self.z, rhs.w), fmul(self.w, rhs.z)), fmul(self.x, rhs.y)), fmul(self.y, rhs.x));
        let aw = fsub(fsub(fsub(fmul(self.w, rhs.w), fmul(self.x, rhs.x)), fmul(self.y, rhs.y)), fmul(self.z, rhs.z));

        self.x = ax;
        self.y = ay;
        self.z = az;
        self.w = aw;
    }
}

} // verus!
