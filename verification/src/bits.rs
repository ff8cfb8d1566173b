use vstd::prelude::*;

verus! {

// Velocity, pressure and density samples are IEEE 754 binary32 values, carried
// as their 32-bit patterns.  The predicates below classify a pattern purely by
// its integer layout: bit 31 is the sign, bits 23..31 the exponent field.

/// Bit pattern of 0.5.
pub const HALF_BITS: u32 = 0x3f00_0000;

/// Bit pattern of 1.0.
pub const ONE_BITS: u32 = 0x3f80_0000;

/// Magnitude of a binary32 pattern: the pattern with its sign bit cleared.
pub open spec fn mag_of(a: u32) -> int {
    if a >= 0x8000_0000u32 {
        a - 0x8000_0000
    } else {
        a as int
    }
}

/// The sign bit is set (the value is negative or a negative zero / NaN payload).
pub open spec fn sign_of(a: u32) -> bool {
    a >= 0x8000_0000u32
}

/// The pattern encodes a zero (either +0.0 or -0.0), i.e. the value equals 0.0.
pub open spec fn zero_val(a: u32) -> bool {
    mag_of(a) == 0
}

/// The pattern encodes a NaN: exponent field all ones, nonzero significand.
pub open spec fn nan_val(a: u32) -> bool {
    mag_of(a) > 0x7f80_0000
}

/// The pattern encodes a finite value (neither an infinity nor a NaN).
pub open spec fn finite_val(a: u32) -> bool {
    mag_of(a) < 0x7f80_0000
}

} // verus!
