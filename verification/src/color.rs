//! Packed 24-bit RGB colours as they travel over the editor's UI protocol.

use vstd::prelude::*;

verus! {

/// A 24-bit RGB colour.
#[derive(Debug, Clone, Copy, PartialEq, Eq, Structural)]
pub struct Rgb {
    pub r: u8,
    pub g: u8,
    pub b: u8,
}

impl Rgb {
    /// Build a colour from its three channels.
    pub fn new(r: u8, g: u8, b: u8) -> (c: Rgb)
        ensures
            c == (Rgb { r, g, b }),
    {
        Rgb { r, g, b }
    }
}

/// What `parse_color` must return: the three bytes of a `0xRRGGBB` integer.
pub open spec fn spec_parse_color(color: u32) -> Rgb {
    Rgb {
        r: ((color >> 16) & 0xFF) as u8,
        g: ((color >> 8) & 0xFF) as u8,
        b: (color & 0xFF) as u8,
    }
}

/// Decode a 24-bit packed RGB integer (`0xRRGGBB`) by byte-shifting.
pub fn parse_color(color: u32) -> (c: Rgb)
    ensures
        c == spec_parse_color(color),
{
    Rgb {
        r: ((color >> 16) & 0xFF) as u8,
        g: ((color >> 8) & 0xFF) as u8,
        b: (color & 0xFF) as u8,
    }
}

} // verus!
