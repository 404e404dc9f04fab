//! The rule for vectors of length zero, on IEEE 754 single-precision bit
//! patterns.

use vstd::prelude::*;

verus! {

/// Bit pattern of the value one.
pub const ONE: u32 = 0x3f80_0000;

/// Bit pattern of negative zero; positive zero is all bits clear.
pub const NEGATIVE_ZERO: u32 = 0x8000_0000;

/// The bit pattern is that of a zero, of either sign.
pub open spec fn is_zero(bits: u32) -> bool {
    bits == 0 || bits == NEGATIVE_ZERO
}

/// What a vector of the given length is divided by to normalize it: one when
/// the length is zero, else the length itself.
pub open spec fn divisor_of(length: u32) -> u32 {
    if is_zero(length) {
        ONE
    } else {
        length
    }
}

/// Returns what a vector of length `length` is divided by to normalize it.
///
/// Only an exact zero is replaced: a tiny length, an infinity or a NaN comes
/// back as it is. The result is never zero, so a vector without length is
/// left as it is instead of being divided by zero.
pub fn divisor(length: u32) -> (d: u32)
    ensures
        d == divisor_of(length),
        !is_zero(d),
{
    if length == 0 || length == NEGATIVE_ZERO {
        ONE
    } else {
        length
    }
}

} // verus!
