//! A 3x3 binary32 matrix of three column vectors: identity, 2D
//! translation, and orthographic projection.

use crate::scalar::bits_agree;
use crate::scalar::div_val;
use crate::scalar::fdiv;
use crate::scalar::BITS_ONE;
use crate::scalar::BITS_TWO;
use crate::scalar::BITS_ZERO;
use crate::vector2::Vector2;
use crate::vector3::Vector3;
use vstd::prelude::*;

verus! {

/// A 3x3 matrix held as three `Vector3` columns of binary32 bit patterns.
#[derive(Clone, Copy, Debug, PartialEq, Eq, Structural)]
pub struct Matrix3 {
    pub x: Vector3,
    pub y: Vector3,
    pub z: Vector3,
}

impl Matrix3 {
    /// The identity matrix as a spec value.
    pub open spec fn identity_spec() -> Matrix3 {
        Matrix3 {
            x: Vector3 { x: BITS_ONE, y: BITS_ZERO, z: BITS_ZERO },
            y: Vector3 { x: BITS_ZERO, y: BITS_ONE, z: BITS_ZERO },
            z: Vector3 { x: BITS_ZERO, y: BITS_ZERO, z: BITS_ONE },
        }
    }

    /// The identity matrix.
    pub fn identity() -> (r: Matrix3)
        ensures
            r == Matrix3::identity_spec(),
    {
        Matrix3 {
            x: Vector3 { x: BITS_ONE, y: BITS_ZERO, z: BITS_ZERO },
            y: Vector3 { x: BITS_ZERO, y: BITS_ONE, z: BITS_ZERO },
            z: Vector3 { x: BITS_ZERO, y: BITS_ZERO, z: BITS_ONE },
        }
    }

    /// The affine 2D translation: identity basis columns and the
    /// translation in the third column.
    pub fn from_translation(translation: Vector2) -> (r: Matrix3)
        ensures
            r.x == (Vector3 { x: BITS_ONE, y: BITS_ZERO, z: BITS_ZERO }),
            r.y == (Vector3 { x: BITS_ZERO, y: BITS_ONE, z: BITS_ZERO }),
            r.z == (Vector3 { x: translation.x, y: translation.y, z: BITS_ONE }),
    {
        Matrix3 {
            x: Vector3 { x: BITS_ONE, y: BITS_ZERO, z: BITS_ZERO },
            y: Vector3 { x: BITS_ZERO, y: BITS_ONE, z: BITS_ZERO },
            z: Vector3 { x: translation.x, y: translation.y, z: BITS_ONE },
        }
    }

    /// The orthographic projection that maps a `width` by `height` region
    /// onto the unit square: 2/width and 2/height on the diagonal.
    pub fn ortho(width: u32, height: u32) -> (r: Matrix3)
        ensures
            bits_agree(r.x.x, div_val(BITS_TWO, width)),
            r.x.y == BITS_ZERO,
            r.x.z == BITS_ZERO,
            r.y.x == BITS_ZERO,
            bits_agree(r.y.y, div_val(BITS_TWO, height)),
            r.y.z == BITS_ZERO,
            r.z == (Vector3 { x: BITS_ZERO, y: BITS_ZERO, z: BITS_ONE }),
    {
        Matrix3 {
            x: Vector3 { x: fdiv(BITS_TWO, width), y: BITS_ZERO, z: BITS_ZERO },
            y: Vector3 { x: BITS_ZERO, y: fdiv(BITS_TWO, height), z: BITS_ZERO },
            z: Vector3 { x: BITS_ZERO, y: BITS_ZERO, z: BITS_ONE },
        }
    }
}

} // verus!
