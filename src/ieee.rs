//! Classification of IEEE-754 binary64 values given as their bit patterns.

use vstd::prelude::*;

verus! {

/// Mask of the sign bit.
pub const SIGN_MASK: u64 = 0x8000_0000_0000_0000;

/// Mask of the eleven exponent bits.
pub const EXPONENT_MASK: u64 = 0x7FF0_0000_0000_0000;

/// Mask of the fifty-two fraction bits.
pub const FRACTION_MASK: u64 = 0x000F_FFFF_FFFF_FFFF;

/// The sign bit is set: the value is negative, negative zero, or a NaN
/// carrying a sign.
pub open spec fn sign_set(bits: u64) -> bool {
    bits & SIGN_MASK != 0
}

/// The value is a NaN: all exponent bits set and a non-zero fraction.
pub open spec fn is_nan_bits(bits: u64) -> bool {
    bits & EXPONENT_MASK == EXPONENT_MASK && bits & FRACTION_MASK != 0
}

/// The value is positive or negative zero: no exponent or fraction bit set.
pub open spec fn is_zero_bits(bits: u64) -> bool {
    bits & (EXPONENT_MASK | FRACTION_MASK) == 0
}

/// The value compares greater than zero: it is not a NaN, not a zero, and
/// its sign bit is clear. Positive infinity is included.
pub open spec fn is_positive_bits(bits: u64) -> bool {
    !sign_set(bits) && !is_nan_bits(bits) && !is_zero_bits(bits)
}

/// Whether the binary64 value with these bits is greater than zero.
///
/// With the sign bit clear the bit patterns of the non-negative values are
/// ordered as the values are, from `+0.0` at zero up to `+inf`, after which
/// the NaNs follow.
pub fn is_positive(bits: u64) -> (r: bool)
    ensures
        r == is_positive_bits(bits),
{
    proof {
        assert((0 < bits && bits <= 0x7FF0_0000_0000_0000u64) == (
            bits & 0x8000_0000_0000_0000u64 == 0
            && !(bits & 0x7FF0_0000_0000_0000u64 == 0x7FF0_0000_0000_0000u64
                && bits & 0x000F_FFFF_FFFF_FFFFu64 != 0)
            && bits & (0x7FF0_0000_0000_0000u64 | 0x000F_FFFF_FFFF_FFFFu64) != 0)) by (bit_vector);
    }
    0 < bits && bits <= EXPONENT_MASK
}

} // verus!
