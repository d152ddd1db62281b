//! Keyboard layouts that can steer the camera.

use vstd::prelude::*;

verus! {

/// A keyboard layout for steering. Each has its own bit in a set of
/// layouts, so layouts can be combined with `|`.
#[derive(Debug, Clone, Copy, PartialEq, Eq, Structural)]
pub enum KeyLayout {
    Wasd,
    Hjkl,
    Arrows,
}

impl KeyLayout {
    /// The layout's value in a set of layouts: `0` for WASD, bit 1 for
    /// HJKL, bit 2 for the arrow keys.
    pub fn flag(self) -> (bits: u8)
        ensures
            bits == match self {
                KeyLayout::Wasd => 0u8,
                KeyLayout::Hjkl => 2u8,
                KeyLayout::Arrows => 4u8,
            },
    {
        assert(1u8 << 1u8 == 2u8) by (bit_vector);
        assert(1u8 << 2u8 == 4u8) by (bit_vector);
        match self {
            KeyLayout::Wasd => 0u8,
            KeyLayout::Hjkl => 1u8 << 1u8,
            KeyLayout::Arrows => 1u8 << 2u8,
        }
    }
}

} // verus!
