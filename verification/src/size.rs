//! The measured size of a component.

use vstd::prelude::*;

verus! {

/// The width and height of a component in pixels.
///
/// A measurement is a binary64 number. Each dimension is held as the bit
/// pattern of that number, as `f64::to_bits` gives it, so that a size is
/// forwarded exactly as it was measured. Two sizes are equal when their bits
/// are; for finite measurements without a sign, which is what a box has,
/// that is when the numbers are equal.
#[derive(Clone, Copy, Debug, PartialEq, Eq, Structural)]
pub struct ComponentSize {
    /// Width of the component in pixels, as the bits of a binary64 number.
    pub width_bits: u64,
    /// Height of the component in pixels, as the bits of a binary64 number.
    pub height_bits: u64,
}

impl ComponentSize {
    /// The size with the given dimensions.
    pub fn new(width_bits: u64, height_bits: u64) -> (size: Self)
        ensures
            size.width_bits == width_bits,
            size.height_bits == height_bits,
    {
        ComponentSize { width_bits, height_bits }
    }
}

impl Default for ComponentSize {
    /// The size zero by zero: both bit patterns are those of `0.0`.
    fn default() -> (size: Self)
        ensures
            size.width_bits == 0,
            size.height_bits == 0,
    {
        ComponentSize { width_bits: 0, height_bits: 0 }
    }
}

} // verus!
