//! Classification of IEEE 754 single-precision values by their bit patterns.

use vstd::prelude::*;

verus! {

/// The bit pattern of positive infinity.
pub const POSITIVE_INFINITY: u32 = 0x7f80_0000;

/// The bit pattern of one.
pub const ONE: u32 = 0x3f80_0000;

/// The bit pattern of negative zero.
pub const NEGATIVE_ZERO: u32 = 0x8000_0000;

/// Whether a bit pattern is that of a finite number: its exponent is not all ones.
pub open spec fn finite(bits: u32) -> bool {
    bits < POSITIVE_INFINITY || NEGATIVE_ZERO <= bits < NEGATIVE_ZERO + POSITIVE_INFINITY
}

/// Whether a bit pattern is that of a finite number above zero.
pub open spec fn positive_finite(bits: u32) -> bool {
    0 < bits < POSITIVE_INFINITY
}

/// Whether a bit pattern is that of positive or negative zero.
pub open spec fn zero(bits: u32) -> bool {
    bits == 0 || bits == NEGATIVE_ZERO
}

/// Report whether a bit pattern is that of a finite number.
pub fn is_finite(bits: u32) -> (is: bool)
    ensures
        is == finite(bits),
{
    bits < POSITIVE_INFINITY || (NEGATIVE_ZERO <= bits && bits - NEGATIVE_ZERO < POSITIVE_INFINITY)
}

/// Report whether a bit pattern is that of a finite number above zero.
pub fn is_positive_finite(bits: u32) -> (is: bool)
    ensures
        is == positive_finite(bits),
{
    0 < bits && bits < POSITIVE_INFINITY
}

/// Report whether a bit pattern is that of positive or negative zero.
pub fn is_zero(bits: u32) -> (is: bool)
    ensures
        is == zero(bits),
{
    bits == 0 || bits == NEGATIVE_ZERO
}

/// A finite number's exponent bits are not all ones, and only a finite number's are not.
pub proof fn lemma_finite_exponent(bits: u32)
    ensures
        finite(bits) == (bits & 0x7f80_0000 != 0x7f80_0000),
{
    assert((bits < 0x7f80_0000 || (0x8000_0000 <= bits && bits < 0xff80_0000)) == (bits
        & 0x7f80_0000 != 0x7f80_0000)) by (bit_vector);
}

} // verus!
