use vstd::prelude::*;
use crate::bits::{HALF_BITS, ONE_BITS, finite_val, nan_val, sign_of, zero_val};
use rustc_apfloat::Float;
use rustc_apfloat::Round;
use rustc_apfloat::ieee::Single;

verus! {

// Scalar arithmetic on binary32 bit patterns.  Every operation is carried out
// by rustc_apfloat's `Single` type, a software implementation of IEEE 754
// binary32 whose results are bit-identical to hardware float arithmetic under
// round-to-nearest-even (the Rust default); rustc itself relies on it for
// constant evaluation.  The result of each operation is a function of the bit
// patterns alone, so each gets an uninterpreted name, together with the few
// facts of IEEE 754 arithmetic that the proofs below lean on.
//
// Two encoding facts are used to phrase those clauses: for patterns with the
// sign bit clear, unsigned order of the patterns is the numeric order of the
// values; and a pattern is numerically zero exactly when its magnitude bits
// are zero.

/// Sum of two binary32 values, round to nearest, ties to even.
pub uninterp spec fn fp_add(a: u32, b: u32) -> u32;

/// Difference of two binary32 values, round to nearest, ties to even.
pub uninterp spec fn fp_sub(a: u32, b: u32) -> u32;

/// Product of two binary32 values, round to nearest, ties to even.
pub uninterp spec fn fp_mul(a: u32, b: u32) -> u32;

/// The binary32 value rounded toward negative infinity to an integral value.
pub uninterp spec fn fp_floor(a: u32) -> u32;

/// The binary32 value converted to a 64-bit integer, rounding toward zero,
/// saturating at the integer bounds, with NaN mapped to zero.
pub uninterp spec fn fp_to_int(a: u32) -> i64;

/// The unsigned integer converted to binary32, round to nearest, ties to even.
pub uninterp spec fn fp_of_uint(i: usize) -> u32;

/// The signed integer converted to binary32, round to nearest, ties to even.
pub uninterp spec fn fp_of_int(d: i32) -> u32;

/// The larger of two binary32 values under IEEE maxNum semantics.
pub uninterp spec fn fp_max(a: u32, b: u32) -> u32;

/// The smaller of two binary32 values under IEEE minNum semantics.
pub uninterp spec fn fp_min(a: u32, b: u32) -> u32;

/// Relies on rustc_apfloat::ieee::Single::add_r: IEEE binary32 addition,
/// round to nearest even.  Facts: +0.0 + +0.0 is +0.0; a sum of two zeros is
/// a zero; adding a zero to a nonzero value returns that value unchanged; a
/// sum of two nonnegative values is nonnegative, not NaN, and at least each
/// operand; it is finite when both operands are at most 2^126.
#[verifier::external_body]
pub(crate) fn add_bits(a: u32, b: u32) -> (r: u32)
    ensures
        r == fp_add(a, b),
        a == 0u32 && b == 0u32 ==> r == 0u32,
        zero_val(a) && zero_val(b) ==> zero_val(r),
        zero_val(a) && !nan_val(b) && !zero_val(b) ==> r == b,
        zero_val(b) && !nan_val(a) && !zero_val(a) ==> r == a,
        !nan_val(a) && !nan_val(b) && !sign_of(a) && !sign_of(b) ==> !nan_val(r)
            && !sign_of(r) && a <= r && b <= r,
        !sign_of(a) && !sign_of(b) && a <= 0x7e80_0000u32 && b <= 0x7e80_0000u32
            ==> finite_val(r),
{
    let x = Single::from_bits(a as u128);
    let y = Single::from_bits(b as u128);
    x.add_r(y, Round::NearestTiesToEven).value.to_bits() as u32
}

/// Relies on rustc_apfloat::ieee::Single::sub_r: IEEE binary32 subtraction,
/// round to nearest even.  Facts: subtracting a zero from a nonzero value
/// returns it unchanged; +0.0 minus a zero is +0.0; a difference of two zeros
/// is a zero; a NaN operand gives a NaN; for nonnegative operands with a
/// finite and b at most a (patterns with clear sign bit order as the values
/// do), the difference is nonnegative, not NaN, and at most a; subtracting
/// one half from a finite value stays finite (the exact difference is below
/// the overflow threshold).
#[verifier::external_body]
pub(crate) fn sub_bits(a: u32, b: u32) -> (r: u32)
    ensures
        r == fp_sub(a, b),
        zero_val(b) && !nan_val(a) && !zero_val(a) ==> r == a,
        a == 0u32 && zero_val(b) ==> r == 0u32,
        zero_val(a) && zero_val(b) ==> zero_val(r),
        nan_val(a) || nan_val(b) ==> nan_val(r),
        finite_val(a) && !nan_val(b) && !sign_of(a) && !sign_of(b) && b <= a ==> !nan_val(r)
            && !sign_of(r) && r <= a,
        finite_val(a) && b == HALF_BITS ==> finite_val(r),
{
    let x = Single::from_bits(a as u128);
    let y = Single::from_bits(b as u128);
    x.sub_r(y, Round::NearestTiesToEven).value.to_bits() as u32
}

/// Relies on rustc_apfloat::ieee::Single::mul_r: IEEE binary32
/// multiplication, round to nearest even.  Facts: a zero times a finite value
/// is a zero (the sign is the exclusive or of the signs); a zero times an
/// infinity or NaN is NaN.
#[verifier::external_body]
pub(crate) fn mul_bits(a: u32, b: u32) -> (r: u32)
    ensures
        r == fp_mul(a, b),
        zero_val(a) && finite_val(b) ==> zero_val(r),
        zero_val(b) && finite_val(a) ==> zero_val(r),
        a == 0u32 && finite_val(b) && !sign_of(b) ==> r == 0u32,
        b == 0u32 && finite_val(a) && !sign_of(a) ==> r == 0u32,
        zero_val(a) && !finite_val(b) ==> nan_val(r),
        zero_val(b) && !finite_val(a) ==> nan_val(r),
{
    let x = Single::from_bits(a as u128);
    let y = Single::from_bits(b as u128);
    x.mul_r(y, Round::NearestTiesToEven).value.to_bits() as u32
}

/// Relies on rustc_apfloat::ieee::Single::round_to_integral with rounding
/// toward negative infinity: the floor of the value.  Facts: the floor of a
/// zero is that zero; the floor of a finite value is finite; for a
/// nonnegative finite value the floor is nonnegative and at most the value; a
/// NaN floors to a NaN; and for a finite value the fractional part — the
/// value minus its floor — is nonnegative and at most 1.0 (the exact
/// difference lies in [0, 1), and rounding keeps it in [0, 1]).
#[verifier::external_body]
pub(crate) fn floor_bits(a: u32) -> (r: u32)
    ensures
        r == fp_floor(a),
        a == 0u32 ==> r == 0u32,
        zero_val(a) ==> zero_val(r),
        finite_val(a) ==> finite_val(r),
        !sign_of(a) && finite_val(a) ==> !sign_of(r) && r <= a,
        nan_val(a) ==> nan_val(r),
        finite_val(a) ==> !nan_val(fp_sub(a, r)) && !sign_of(fp_sub(a, r)) && fp_sub(a, r)
            <= ONE_BITS,
{
    let x = Single::from_bits(a as u128);
    x.round_to_integral(Round::TowardNegative).value.to_bits() as u32
}

/// Relies on rustc_apfloat::ieee::Single::to_i128 with width 64: conversion
/// to a 64-bit integer rounding toward zero, saturating at the bounds, NaN
/// mapped to zero — the semantics of Rust's float-to-integer cast.
#[verifier::external_body]
pub(crate) fn to_int_bits(a: u32) -> (r: i64)
    ensures
        r == fp_to_int(a),
{
    let x = Single::from_bits(a as u128);
    x.to_i128(64).value as i64
}

/// Relies on rustc_apfloat::ieee::Single::from_u128: conversion of an
/// unsigned integer to binary32, round to nearest even.  Facts: the result is
/// nonnegative and at most 2^64 (so finite); zero converts to +0.0; an
/// integer of at least one converts to at least 1.0; the conversion is
/// monotone.
#[verifier::external_body]
pub(crate) fn of_uint_bits(i: usize) -> (r: u32)
    ensures
        r == fp_of_uint(i),
        !sign_of(r) && r <= 0x5f80_0000u32,
        i == 0 ==> r == 0u32,
        1 <= i ==> ONE_BITS <= r,
        forall|k: usize| k <= i ==> #[trigger] fp_of_uint(k) <= r,
{
    Single::from_u128(i as u128).value.to_bits() as u32
}

/// Relies on rustc_apfloat::ieee::Single::from_i128: conversion of a signed
/// integer to binary32, round to nearest even.  Facts: one and minus one
/// convert exactly.
#[verifier::external_body]
pub(crate) fn of_int_bits(d: i32) -> (r: u32)
    ensures
        r == fp_of_int(d),
        d == 1i32 ==> r == ONE_BITS,
        d == -1i32 ==> r == 0xbf80_0000u32,
{
    Single::from_i128(d as i128).value.to_bits() as u32
}

/// Relies on rustc_apfloat::ieee::Single::max: IEEE maxNum.  Facts: the
/// result is one of the operands when neither is NaN; a nonnegative non-NaN
/// value against +0.0 is returned unchanged; a NaN first operand yields the
/// second.
#[verifier::external_body]
pub(crate) fn max_bits(a: u32, b: u32) -> (r: u32)
    ensures
        r == fp_max(a, b),
        !nan_val(a) && !nan_val(b) ==> r == a || r == b,
        !nan_val(a) && !sign_of(a) && b == 0u32 ==> r == a,
        nan_val(a) ==> r == b,
{
    let x = Single::from_bits(a as u128);
    let y = Single::from_bits(b as u128);
    x.max(y).to_bits() as u32
}

/// Relies on rustc_apfloat::ieee::Single::min: IEEE minNum.  Facts: the
/// result is one of the operands when neither is NaN; for nonnegative
/// non-NaN operands with a at most b, a is returned; a NaN first operand
/// yields the second.
#[verifier::external_body]
pub(crate) fn min_bits(a: u32, b: u32) -> (r: u32)
    ensures
        r == fp_min(a, b),
        !nan_val(a) && !nan_val(b) ==> r == a || r == b,
        !nan_val(a) && !nan_val(b) && !sign_of(a) && !sign_of(b) && a <= b ==> r == a,
        nan_val(a) ==> r == b,
{
    let x = Single::from_bits(a as u128);
    let y = Single::from_bits(b as u128);
    x.min(y).to_bits() as u32
}

} // verus!
