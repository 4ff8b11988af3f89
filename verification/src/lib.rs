//! Colour, palette and framebuffer primitives for a small round display
//! that visualises per-band loudness, together with the validation of the
//! band analyser's configuration.

use vstd::prelude::*;

pub mod color;
pub mod config;
pub mod frame;
pub mod palette;

pub use color::Color;
pub use palette::ColorPalette;

verus! {

/// Width and height of the square framebuffer, in pixels.
pub const DISPLAY_SIZE: usize = 240;

/// Number of frequency bands the hardware build analyses.
pub const CHANNELS: usize = 16;

} // verus!
