//! The canonical 8-bit-per-channel color record.

use vstd::prelude::*;

verus! {

/// One pixel in canonical form: blue, green, red and one padding byte, so
/// that a record has the stride of a native 32-bit pixel. The padding byte
/// carries no color.
#[derive(Debug, Eq, PartialEq, Clone, Copy, Structural)]
pub struct Bgr8 {
    pub b: u8,
    pub g: u8,
    pub r: u8,
    pub _pad: u8,
}

/// A color as a colormap reports it: sixteen bits per channel.
#[derive(Debug, Eq, PartialEq, Clone, Copy, Structural)]
pub struct Rgb16 {
    pub red: u16,
    pub green: u16,
    pub blue: u16,
}

impl Bgr8 {
    /// The record read as one little-endian 32-bit word.
    pub open spec fn word(self) -> nat {
        (self.b + 0x100 * self.g + 0x1_0000 * self.r + 0x100_0000 * self._pad) as nat
    }

    /// The color that keeps the high byte of each sixteen-bit channel.
    pub open spec fn spec_from_rgb16(color: Rgb16) -> Bgr8 {
        Bgr8 {
            b: (color.blue / 256) as u8,
            g: (color.green / 256) as u8,
            r: (color.red / 256) as u8,
            _pad: 0,
        }
    }

    /// Builds a color from its three channels.
    pub fn new(r: u8, g: u8, b: u8) -> (c: Bgr8)
        ensures
            c == (Bgr8 { b, g, r, _pad: 0 }),
    {
        Bgr8 { b, g, r, _pad: 0 }
    }

    /// Scales a sixteen-bit color down by dropping the low byte of each
    /// channel.
    pub fn from_rgb16(color: Rgb16) -> (c: Bgr8)
        ensures
            c == Bgr8::spec_from_rgb16(color),
    {
        let red: u16 = color.red;
        let green: u16 = color.green;
        let blue: u16 = color.blue;
        proof {
            assert(red >> 8u32 == red / 256 && red >> 8u32 < 256) by (bit_vector);
            assert(green >> 8u32 == green / 256 && green >> 8u32 < 256) by (bit_vector);
            assert(blue >> 8u32 == blue / 256 && blue >> 8u32 < 256) by (bit_vector);
        }
        Bgr8 { b: (blue >> 8u32) as u8, g: (green >> 8u32) as u8, r: (red >> 8u32) as u8, _pad: 0 }
    }

    /// The record as one little-endian 32-bit word.
    pub fn to_word(&self) -> (w: u32)
        ensures
            w == self.word(),
    {
        (self.b as u32) + 0x100 * (self.g as u32) + 0x1_0000 * (self.r as u32) + 0x100_0000 * (
        self._pad as u32)
    }
}

} // verus!
