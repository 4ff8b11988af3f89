//! Eight-bit RGB colours and their packed pixel encodings.

use vstd::prelude::*;

verus! {

/// A colour with eight bits for each of red, green and blue.
#[derive(Clone, Copy, Debug, PartialEq, Eq, Structural)]
pub struct Color {
    pub r: u8,
    pub g: u8,
    pub b: u8,
}

impl Default for Color {
    fn default() -> (c: Self)
        ensures
            c == (Color { r: 0, g: 0, b: 0 }),
    {
        Self { r: 0, g: 0, b: 0 }
    }
}

impl Color {
    /// The RGB565 word of this colour: the five most significant bits of
    /// red, the six most significant of green and the five most
    /// significant of blue, red in the highest place.
    pub open spec fn rgb565(self) -> int {
        (self.r / 8) * 2048 + (self.g / 4) * 32 + self.b / 8
    }

    /// The opaque ARGB pixel of this colour: alpha 255, then red, green and
    /// blue, one byte each.
    pub open spec fn argb32(self) -> int {
        0xFF00_0000 + self.r * 0x1_0000 + self.g * 0x100 + self.b
    }

    /// The colour whose channels are the three low bytes of `pixel`; the
    /// alpha byte is ignored.
    pub open spec fn of_pixel(pixel: u32) -> Color {
        Color {
            r: ((pixel / 0x1_0000) % 0x100) as u8,
            g: ((pixel / 0x100) % 0x100) as u8,
            b: (pixel % 0x100) as u8,
        }
    }

    pub fn new(r: u8, g: u8, b: u8) -> (c: Self)
        ensures
            c == (Color { r, g, b }),
    {
        Self { r, g, b }
    }

    /// Packs the colour for the embedded display.
    pub fn to_rgb565(self) -> (word: u16)
        ensures
            word == self.rgb565(),
    {
        let r8: u8 = self.r;
        let g8: u8 = self.g;
        let b8: u8 = self.b;
        let r: u16 = (r8 as u16 >> 3) & 0x1F;
        let g: u16 = (g8 as u16 >> 2) & 0x3F;
        let b: u16 = (b8 as u16 >> 3) & 0x1F;
        assert(((((r8 as u16 >> 3) & 0x1F) << 11) | (((g8 as u16 >> 2) & 0x3F) << 5) | ((b8 as u16
            >> 3) & 0x1F)) == (r8 / 8) * 2048 + (g8 / 4) * 32 + b8 / 8) by (bit_vector);
        (r << 11) | (g << 5) | b
    }

    /// Packs the colour as an opaque 32-bit pixel for the desktop window.
    pub fn to_argb32(self) -> (pixel: u32)
        ensures
            pixel == self.argb32(),
            Color::of_pixel(pixel) == self,
    {
        let r8: u8 = self.r;
        let g8: u8 = self.g;
        let b8: u8 = self.b;
        assert((0xFF000000u32 | ((r8 as u32) << 16) | ((g8 as u32) << 8) | (b8 as u32))
            == 0xFF00_0000 + r8 * 0x1_0000 + g8 * 0x100 + b8) by (bit_vector);
        0xFF000000 | ((self.r as u32) << 16) | ((self.g as u32) << 8) | (self.b as u32)
    }

    /// Reads the colour channels back out of a 32-bit pixel.
    pub fn from_argb32(pixel: u32) -> (c: Self)
        ensures
            c == Color::of_pixel(pixel),
    {
        assert(((pixel >> 16) & 0xFF) == (pixel / 0x1_0000) % 0x100) by (bit_vector);
        assert(((pixel >> 8) & 0xFF) == (pixel / 0x100) % 0x100) by (bit_vector);
        assert((pixel & 0xFF) == pixel % 0x100) by (bit_vector);
        Self {
            r: ((pixel >> 16) & 0xFF) as u8,
            g: ((pixel >> 8) & 0xFF) as u8,
            b: (pixel & 0xFF) as u8,
        }
    }
}

} // verus!
