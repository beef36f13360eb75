//! Scalar arithmetic on IEEE-754 binary32 bit patterns.
//!
//! A scalar is the raw bit pattern of a binary32 value, held in a `u32`.
//! Each primitive operation is named by an uninterpreted spec function
//! (`add_bits`, `mul_bits`, ...) and executed by a trusted wrapper that
//! performs the real IEEE-754 operation on the bits.
//!
//! Where the result of an operation is not NaN, it is rounded to
//! nearest-even and is an exact function of the operand bits, so the
//! wrappers promise the named bits outright. Where the result is NaN, the
//! outside operations fix only that it is *some* NaN: Rust documents the
//! NaN returned by an arithmetic operation as non-deterministically
//! chosen, and different hardware returns different default NaN payloads.
//! The wrappers therefore promise only NaN-ness of such results, and a
//! NaN operand always yields a NaN result. In composed contracts a NaN is
//! represented by the canonical pattern `BITS_NAN` (see `add_val` and its
//! siblings), and a computed value `agrees` with its specified value when
//! it is bit-identical or both are NaN (`bits_agree`).

use core::primitive::f32 as F32;
use vstd::prelude::*;

verus! {

/// Bit pattern of binary32 `0.0`.
pub const BITS_ZERO: u32 = 0x0000_0000;
/// Bit pattern of binary32 `1.0`.
pub const BITS_ONE: u32 = 0x3f80_0000;
/// Bit pattern of binary32 `-1.0`.
pub const BITS_NEG_ONE: u32 = 0xbf80_0000;
/// Bit pattern of binary32 `2.0`.
pub const BITS_TWO: u32 = 0x4000_0000;
/// Bit pattern of pi / 360 rounded to binary32: the factor that takes an
/// angle in degrees to half of it in radians.
pub const BITS_HALF_DEG_TO_RAD: u32 = 0x3c0e_fa35;
/// The canonical quiet-NaN bit pattern, standing in contracts for every
/// NaN a primitive operation may produce.
pub const BITS_NAN: u32 = 0x7fc0_0000;

/// True of the bit patterns binary32 reads as NaN: with the sign bit
/// cleared (the remainder modulo 2^31), the pattern exceeds that of
/// infinity — maximal exponent and a non-zero mantissa.
pub open spec fn is_nan_bits(b: u32) -> bool {
    b % 0x8000_0000 > 0x7f80_0000
}

/// The computed pattern `r` agrees with the specified pattern `m`:
/// bit-for-bit where `m` is not NaN, and NaN where `m` is NaN — the
/// payload of a NaN is left open, since the outside operations do not pin
/// it.
pub open spec fn bits_agree(r: u32, m: u32) -> bool {
    if is_nan_bits(m) {
        is_nan_bits(r)
    } else {
        r == m
    }
}

/// The binary32 sum of two bit patterns, as core's `+` computes it.
pub uninterp spec fn add_bits(a: u32, b: u32) -> u32;

/// The binary32 difference of two bit patterns, as core's `-` computes it.
pub uninterp spec fn sub_bits(a: u32, b: u32) -> u32;

/// The binary32 product of two bit patterns, as core's `*` computes it.
pub uninterp spec fn mul_bits(a: u32, b: u32) -> u32;

/// The binary32 quotient of two bit patterns, as core's `/` computes it.
pub uninterp spec fn div_bits(a: u32, b: u32) -> u32;

/// The binary32 square root of a bit pattern, as `libm::sqrtf` computes it.
pub uninterp spec fn sqrt_bits(a: u32) -> u32;

/// The binary32 sine of a bit pattern (radians), as `libm::sinf` computes it.
pub uninterp spec fn sin_bits(a: u32) -> u32;

/// The binary32 cosine of a bit pattern (radians), as `libm::cosf` computes it.
pub uninterp spec fn cos_bits(a: u32) -> u32;

/// The binary32 tangent of a bit pattern (radians), as `libm::tanf` computes it.
pub uninterp spec fn tan_bits(a: u32) -> u32;

/// The `i32` that the `as` conversion yields for a bit pattern.
pub uninterp spec fn i32_of_bits(a: u32) -> i32;

/// The bit pattern that the `as` conversion to binary32 yields for an `i32`.
pub uninterp spec fn bits_of_i32(v: i32) -> u32;

/// The sum in contract terms: a NaN operand is absorbed into the
/// canonical NaN, since only NaN-ness of a propagated NaN is specified.
pub open spec fn add_val(a: u32, b: u32) -> u32 {
    if is_nan_bits(a) || is_nan_bits(b) {
        BITS_NAN
    } else {
        add_bits(a, b)
    }
}

/// The difference in contract terms; NaN operands as in `add_val`.
pub open spec fn sub_val(a: u32, b: u32) -> u32 {
    if is_nan_bits(a) || is_nan_bits(b) {
        BITS_NAN
    } else {
        sub_bits(a, b)
    }
}

/// The product in contract terms; NaN operands as in `add_val`.
pub open spec fn mul_val(a: u32, b: u32) -> u32 {
    if is_nan_bits(a) || is_nan_bits(b) {
        BITS_NAN
    } else {
        mul_bits(a, b)
    }
}

/// The quotient in contract terms; NaN operands as in `add_val`.
pub open spec fn div_val(a: u32, b: u32) -> u32 {
    if is_nan_bits(a) || is_nan_bits(b) {
        BITS_NAN
    } else {
        div_bits(a, b)
    }
}

/// The square root in contract terms; a NaN operand as in `add_val`.
pub open spec fn sqrt_val(a: u32) -> u32 {
    if is_nan_bits(a) {
        BITS_NAN
    } else {
        sqrt_bits(a)
    }
}

/// The sine in contract terms; a NaN operand as in `add_val`.
pub open spec fn sin_val(a: u32) -> u32 {
    if is_nan_bits(a) {
        BITS_NAN
    } else {
        sin_bits(a)
    }
}

/// The cosine in contract terms; a NaN operand as in `add_val`.
pub open spec fn cos_val(a: u32) -> u32 {
    if is_nan_bits(a) {
        BITS_NAN
    } else {
        cos_bits(a)
    }
}

/// The tangent in contract terms; a NaN operand as in `add_val`.
pub open spec fn tan_val(a: u32) -> u32 {
    if is_nan_bits(a) {
        BITS_NAN
    } else {
        tan_bits(a)
    }
}

/// Relies on core's binary32 addition: a non-NaN sum is rounded to
/// nearest-even and determined by the operand bits alone; a NaN sum has
/// an unspecified payload; a NaN operand yields a NaN sum.
#[verifier::external_body]
pub(crate) fn fadd(a: u32, b: u32) -> (r: u32)
    ensures
        !is_nan_bits(add_bits(a, b)) ==> r == add_bits(a, b),
        is_nan_bits(add_bits(a, b)) ==> is_nan_bits(r),
        is_nan_bits(a) || is_nan_bits(b) ==> is_nan_bits(r),
{
    (F32::from_bits(a) + F32::from_bits(b)).to_bits()
}

/// Relies on core's binary32 subtraction: a non-NaN difference is rounded
/// to nearest-even and determined by the operand bits alone; a NaN
/// difference has an unspecified payload; a NaN operand yields NaN.
#[verifier::external_body]
pub(crate) fn fsub(a: u32, b: u32) -> (r: u32)
    ensures
        !is_nan_bits(sub_bits(a, b)) ==> r == sub_bits(a, b),
        is_nan_bits(sub_bits(a, b)) ==> is_nan_bits(r),
        is_nan_bits(a) || is_nan_bits(b) ==> is_nan_bits(r),
{
    (F32::from_bits(a) - F32::from_bits(b)).to_bits()
}

/// Relies on core's binary32 multiplication: a non-NaN product is rounded
/// to nearest-even and determined by the operand bits alone; a NaN
/// product has an unspecified payload; a NaN operand yields NaN.
#[verifier::external_body]
pub(crate) fn fmul(a: u32, b: u32) -> (r: u32)
    ensures
        !is_nan_bits(mul_bits(a, b)) ==> r == mul_bits(a, b),
        is_nan_bits(mul_bits(a, b)) ==> is_nan_bits(r),
        is_nan_bits(a) || is_nan_bits(b) ==> is_nan_bits(r),
{
    (F32::from_bits(a) * F32::from_bits(b)).to_bits()
}

/// Relies on core's binary32 division: a non-NaN quotient is rounded to
/// nearest-even and determined by the operand bits alone (division by
/// zero yields an infinity, never a panic); a NaN quotient has an
/// unspecified payload; a NaN operand yields NaN.
#[verifier::external_body]
pub(crate) fn fdiv(a: u32, b: u32) -> (r: u32)
    ensures
        !is_nan_bits(div_bits(a, b)) ==> r == div_bits(a, b),
        is_nan_bits(div_bits(a, b)) ==> is_nan_bits(r),
        is_nan_bits(a) || is_nan_bits(b) ==> is_nan_bits(r),
{
    (F32::from_bits(a) / F32::from_bits(b)).to_bits()
}

/// Relies on `libm::sqrtf`: the square root of a non-negative value is
/// correctly rounded, so a non-NaN result is determined by the operand
/// bits alone; the NaN returned for a negative or NaN operand has an
/// unspecified payload.
#[verifier::external_body]
pub(crate) fn fsqrt(a: u32) -> (r: u32)
    ensures
        !is_nan_bits(sqrt_bits(a)) ==> r == sqrt_bits(a),
        is_nan_bits(sqrt_bits(a)) ==> is_nan_bits(r),
        is_nan_bits(a) ==> is_nan_bits(r),
{
    libm::sqrtf(F32::from_bits(a)).to_bits()
}

/// Relies on `libm::sinf`, a deterministic software sine: a non-NaN
/// result is determined by the operand bits alone; the NaN returned for
/// an infinite or NaN operand has an unspecified payload.
#[verifier::external_body]
pub(crate) fn fsin(a: u32) -> (r: u32)
    ensures
        !is_nan_bits(sin_bits(a)) ==> r == sin_bits(a),
        is_nan_bits(sin_bits(a)) ==> is_nan_bits(r),
        is_nan_bits(a) ==> is_nan_bits(r),
{
    libm::sinf(F32::from_bits(a)).to_bits()
}

/// Relies on `libm::cosf`, a deterministic software cosine: a non-NaN
/// result is determined by the operand bits alone; the NaN returned for
/// an infinite or NaN operand has an unspecified payload.
#[verifier::external_body]
pub(crate) fn fcos(a: u32) -> (r: u32)
    ensures
        !is_nan_bits(cos_bits(a)) ==> r == cos_bits(a),
        is_nan_bits(cos_bits(a)) ==> is_nan_bits(r),
        is_nan_bits(a) ==> is_nan_bits(r),
{
    libm::cosf(F32::from_bits(a)).to_bits()
}

/// Relies on `libm::tanf`, a deterministic software tangent: a non-NaN
/// result is determined by the operand bits alone; the NaN returned for
/// an infinite or NaN operand has an unspecified payload.
#[verifier::external_body]
pub(crate) fn ftan(a: u32) -> (r: u32)
    ensures
        !is_nan_bits(tan_bits(a)) ==> r == tan_bits(a),
        is_nan_bits(tan_bits(a)) ==> is_nan_bits(r),
        is_nan_bits(a) ==> is_nan_bits(r),
{
    libm::tanf(F32::from_bits(a)).to_bits()
}

/// Relies on Rust's `as` conversion from binary32 to `i32`: it truncates
/// toward zero, saturates at the `i32` bounds, maps NaN to 0, never
/// panics, and is fully deterministic.
#[verifier::external_body]
pub(crate) fn cast_to_i32(a: u32) -> (r: i32)
    ensures
        r == i32_of_bits(a),
{
    F32::from_bits(a) as i32
}

/// Relies on Rust's `as` conversion from `i32` to binary32: the nearest
/// representable value, a total, deterministic function of the integer.
#[verifier::external_body]
pub(crate) fn cast_from_i32(v: i32) -> (r: u32)
    ensures
        r == bits_of_i32(v),
{
    (v as F32).to_bits()
}

} // verus!
