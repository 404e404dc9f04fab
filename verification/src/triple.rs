//! Vectors as triples of IEEE 754 single-precision bit patterns.

use vstd::prelude::*;
use crate::length::is_zero;
use crate::length::NEGATIVE_ZERO;

verus! {

/// The bit patterns of a vector's `x`, `y` and `z` components.
#[derive(Clone, Copy, Debug, PartialEq, Eq, Structural)]
pub struct Triple {
    pub x: u32,
    pub y: u32,
    pub z: u32,
}

impl Triple {
    /// Every component is a zero, of either sign.
    pub open spec fn is_zero(self) -> bool {
        is_zero(self.x) && is_zero(self.y) && is_zero(self.z)
    }

    /// Tells whether every component is a zero, of either sign.
    pub fn all_zero(&self) -> (r: bool)
        ensures
            r == self.is_zero(),
    {
        (self.x == 0 || self.x == NEGATIVE_ZERO) && (self.y == 0 || self.y == NEGATIVE_ZERO) && (
        self.z == 0 || self.z == NEGATIVE_ZERO)
    }
}

} // verus!
