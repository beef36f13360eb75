//! An allocation-free linear-algebra library for rendering and geometry
//! pipelines: 2D/3D/4D vectors, an integer 2D vector, a quaternion, and
//! 3x3/4x4 matrices.
//!
//! Every scalar is an IEEE-754 binary32 value carried as its raw bit
//! pattern in a `u32` field. The primitive arithmetic on such scalars is
//! performed by a small set of trusted wrappers (see the `scalar` module);
//! everything built on top of them — the Hamilton product, Euler-angle
//! conversion, matrix composition, cofactor inversion, and the perspective
//! projection — is verified to compute exactly the specified combination
//! of those primitives, bit-for-bit wherever no NaN arises; a NaN result
//! is pinned down to being a NaN, since the outside operations leave NaN
//! payload bits unspecified. Numerically degenerate inputs (singular
//! matrices, zero-length vectors) are not rejected: they propagate
//! infinities and NaNs through the primitives, as IEEE-754 prescribes.

mod ivector2;
mod matrix3;
mod matrix4;
mod quaternion;
mod scalar;
mod vector2;
mod vector3;
mod vector4;

pub use ivector2::div_trunc;
pub use ivector2::IVector2;
pub use ivector2::lemma_hash_bytes_injective;
pub use matrix3::Matrix3;
pub use matrix4::cofactor_neg_val;
pub use matrix4::cofactor_pos_val;
pub use matrix4::det2_val;
pub use matrix4::det6_val;
pub use matrix4::dot4_val;
pub use matrix4::lemma_transpose_involutive;
pub use matrix4::Matrix4;
pub use quaternion::Quaternion;
pub use scalar::add_bits;
pub use scalar::add_val;
pub use scalar::bits_agree;
pub use scalar::BITS_HALF_DEG_TO_RAD;
pub use scalar::BITS_NAN;
pub use scalar::BITS_NEG_ONE;
pub use scalar::bits_of_i32;
pub use scalar::BITS_ONE;
pub use scalar::BITS_TWO;
pub use scalar::BITS_ZERO;
pub use scalar::cos_bits;
pub use scalar::cos_val;
pub use scalar::div_bits;
pub use scalar::div_val;
pub use scalar::i32_of_bits;
pub use scalar::is_nan_bits;
pub use scalar::mul_bits;
pub use scalar::mul_val;
pub use scalar::sin_bits;
pub use scalar::sin_val;
pub use scalar::sqrt_bits;
pub use scalar::sqrt_val;
pub use scalar::sub_bits;
pub use scalar::sub_val;
pub use scalar::tan_bits;
pub use scalar::tan_val;
pub use vector2::Vector2;
pub use vector3::Vector3;
pub use vector4::Vector4;
