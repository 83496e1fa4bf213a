use vstd::prelude::*;

verus! {

/// A color with red, green and blue components.
///
/// Each component is the bit pattern of an IEEE 754 single-precision value in
/// `0.0..=1.0`. The schedule logic never interprets the components; they are
/// carried through load and save for display layers to use.
#[derive(Clone, Copy, Debug, PartialEq, Eq, Hash, Structural)]
pub struct Color {
    /// Bit pattern of the red component.
    pub red_bits: u32,
    /// Bit pattern of the green component.
    pub green_bits: u32,
    /// Bit pattern of the blue component.
    pub blue_bits: u32,
}

} // verus!
