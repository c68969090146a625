//! Integer predicates over IEEE-754 single-precision bit patterns.
//!
//! Scalar floating-point arguments cross this core as `u32` bit patterns.
//! The few entry points that must compare such values (line widths, depth
//! ranges) do so with the integer predicates below, which mirror the IEEE-754
//! comparison on the bit level.

use vstd::prelude::*;

verus! {

/// The bit pattern encodes a NaN: maximal exponent and nonzero mantissa.
pub open spec fn spec_is_nan_bits(bits: u32) -> bool {
    (bits & 0x7F80_0000) == 0x7F80_0000 && (bits & 0x007F_FFFF) != 0
}

/// Whether the encoded value compares `<= +0.0`: either zero (of any sign)
/// or any negative non-NaN value. NaN compares false against everything,
/// so it is excluded.
pub open spec fn spec_le_zero_bits(bits: u32) -> bool {
    !spec_is_nan_bits(bits) && ((bits & 0x7FFF_FFFF) == 0 || (bits >> 31) == 1)
}

/// A monotone reordering of non-NaN bit patterns: two finite values compare
/// on the float level exactly as their keys compare as integers.
pub open spec fn spec_order_key(bits: u32) -> u32 {
    if (bits >> 31) == 1 {
        !bits
    } else {
        bits | 0x8000_0000
    }
}

/// `a > b` on the float level, for two non-NaN bit patterns, with the two
/// zeroes identified.
pub open spec fn spec_gt_bits(a: u32, b: u32) -> bool {
    &&& !spec_is_nan_bits(a)
    &&& !spec_is_nan_bits(b)
    &&& spec_order_key(if (a & 0x7FFF_FFFF) == 0 { 0u32 } else { a })
        > spec_order_key(if (b & 0x7FFF_FFFF) == 0 { 0u32 } else { b })
}

/// Checks for a NaN bit pattern.
pub fn is_nan_bits(bits: u32) -> (r: bool)
    ensures
        r == spec_is_nan_bits(bits),
{
    (bits & 0x7F80_0000) == 0x7F80_0000 && (bits & 0x007F_FFFF) != 0
}

/// Checks whether the encoded value compares `<= +0.0`.
pub fn le_zero_bits(bits: u32) -> (r: bool)
    ensures
        r == spec_le_zero_bits(bits),
{
    !is_nan_bits(bits) && ((bits & 0x7FFF_FFFF) == 0 || (bits >> 31) == 1)
}

/// Compares two bit patterns as their encoded values: true exactly when
/// both are non-NaN and the first encodes the strictly greater value.
pub fn gt_bits(a: u32, b: u32) -> (r: bool)
    ensures
        r == spec_gt_bits(a, b),
{
    if is_nan_bits(a) || is_nan_bits(b) {
        return false;
    }
    let na: u32 = if (a & 0x7FFF_FFFF) == 0 { 0 } else { a };
    let nb: u32 = if (b & 0x7FFF_FFFF) == 0 { 0 } else { b };
    let ka: u32 = if (na >> 31) == 1 { !na } else { na | 0x8000_0000 };
    let kb: u32 = if (nb >> 31) == 1 { !nb } else { nb | 0x8000_0000 };
    ka > kb
}

/// The bit pattern of `+1.0`, the default fourth component of a vertex
/// attribute.
pub const ONE_BITS: u32 = 0x3F80_0000;

/// The bit pattern of `+0.0`.
pub const ZERO_BITS: u32 = 0;

} // verus!
