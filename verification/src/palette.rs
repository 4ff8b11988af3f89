//! Named colours, the hue wheel in sixteen steps, and the display palette
//! built from them.

use vstd::prelude::*;
use crate::color::Color;

verus! {

// Named colours as `0xRRGGBB`; `Color::from_argb32` turns one into a `Color`.
pub const PINK: u32 = 0xFF1493;

pub const CYAN: u32 = 0x00FFFF;

pub const PURPLE: u32 = 0x9400D3;

pub const MAGENTA: u32 = 0xFF00FF;

pub const BLUE: u32 = 0x1E90FF;

pub const GREEN: u32 = 0x00FF7F;

pub const ORANGE: u32 = 0xFF8C00;

pub const YELLOW: u32 = 0xFFFF00;

pub const BLACK: u32 = 0x000000;

pub const WHITE: u32 = 0xFFFFFF;

/// Number of entries in a palette, and of steps around the hue wheel.
pub const PALETTE_SIZE: usize = 16;

/// The hue wheel in sixteen steps: the fully saturated, full-brightness
/// colours at 0, 22.5, 45, ... degrees of hue, red first, through yellow,
/// green, cyan, blue and magenta.
pub open spec fn wheel() -> Seq<Color> {
    seq![
        Color { r: 255, g: 0, b: 0 },
        Color { r: 255, g: 95, b: 0 },
        Color { r: 255, g: 191, b: 0 },
        Color { r: 223, g: 255, b: 0 },
        Color { r: 127, g: 255, b: 0 },
        Color { r: 31, g: 255, b: 0 },
        Color { r: 0, g: 255, b: 63 },
        Color { r: 0, g: 255, b: 159 },
        Color { r: 0, g: 255, b: 255 },
        Color { r: 0, g: 159, b: 255 },
        Color { r: 0, g: 63, b: 255 },
        Color { r: 31, g: 0, b: 255 },
        Color { r: 127, g: 0, b: 255 },
        Color { r: 223, g: 0, b: 255 },
        Color { r: 255, g: 0, b: 191 },
        Color { r: 255, g: 0, b: 95 },
    ]
}

/// The colour at `step` sixteenths of a turn around the hue wheel; steps
/// past a full turn wrap around.
pub open spec fn wheel_color(step: int) -> Color {
    wheel()[step % 16]
}

/// Computes the colour at `step` sixteenths of a turn around the hue wheel.
///
/// The wheel has six sextants of 60 degrees. A sixteenth of a turn is three
/// eighths of a sextant, so `3 * step` counts eighths of a sextant: its
/// quotient by 8 is the sextant, and over each pair of sextants one channel
/// ramps from zero up to full scale and back while another stays at full
/// scale and the third at zero. The ramping channel is `ramp / 8` of 255,
/// rounded down.
pub fn rainbow_step(step: usize) -> (c: Color)
    ensures
        c == wheel_color(step as int),
{
    let eighths: usize = 3 * (step % PALETTE_SIZE);
    let within: usize = eighths % 16;
    let ramp: usize = if within <= 8 {
        within
    } else {
        16 - within
    };
    let x: u8 = (ramp * 255 / 8) as u8;
    let sextant: usize = eighths / 8;
    if sextant == 0 {
        Color { r: 255, g: x, b: 0 }
    } else if sextant == 1 {
        Color { r: x, g: 255, b: 0 }
    } else if sextant == 2 {
        Color { r: 0, g: 255, b: x }
    } else if sextant == 3 {
        Color { r: 0, g: x, b: 255 }
    } else if sextant == 4 {
        Color { r: x, g: 0, b: 255 }
    } else {
        Color { r: 255, g: 0, b: x }
    }
}

/// Sixteen gradient colours and three accent colours for the display.
pub struct ColorPalette {
    pub colors: [Color; PALETTE_SIZE],
    pub primary: Color,
    pub secondary: Color,
    pub accent: Color,
}

impl ColorPalette {
    /// The default palette: the hue wheel in sixteen steps, with pink, cyan
    /// and purple as primary, secondary and accent.
    pub open spec fn is_rainbow(self) -> bool {
        &&& self.colors@ == wheel()
        &&& self.primary == Color::of_pixel(PINK)
        &&& self.secondary == Color::of_pixel(CYAN)
        &&& self.accent == Color::of_pixel(PURPLE)
    }

    pub fn new() -> (palette: Self)
        ensures
            palette.is_rainbow(),
    {
        let colors: [Color; 16] = [
            rainbow_step(0),
            rainbow_step(1),
            rainbow_step(2),
            rainbow_step(3),
            rainbow_step(4),
            rainbow_step(5),
            rainbow_step(6),
            rainbow_step(7),
            rainbow_step(8),
            rainbow_step(9),
            rainbow_step(10),
            rainbow_step(11),
            rainbow_step(12),
            rainbow_step(13),
            rainbow_step(14),
            rainbow_step(15),
        ];
        assert(colors@ =~= wheel());
        Self {
            colors,
            primary: Color::from_argb32(PINK),
            secondary: Color::from_argb32(CYAN),
            accent: Color::from_argb32(PURPLE),
        }
    }

    /// The gradient colour at `index`, counted around the palette.
    pub fn get(&self, index: usize) -> (c: Color)
        ensures
            c == self.colors[index as int % 16],
    {
        self.colors[index % PALETTE_SIZE]
    }
}

impl Default for ColorPalette {
    fn default() -> (palette: Self)
        ensures
            palette.is_rainbow(),
    {
        Self::new()
    }
}

} // verus!
