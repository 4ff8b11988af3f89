//! The square ARGB framebuffer and the drawing steps of one display frame:
//! fading the previous frame, adding light to single pixels, drawing the
//! level meters and enlarging the picture for a desktop window.

use vstd::prelude::*;
use crate::color::Color;
use crate::DISPLAY_SIZE;

verus! {

/// Width of one level meter, in pixels.
pub const METER_WIDTH: usize = 4;

/// Height of one level meter, in pixels.
pub const METER_HEIGHT: usize = 40;

/// Gap between neighbouring meters, in pixels.
pub const METER_SPACING: usize = 2;

/// Column of the first meter's left edge.
pub const METER_LEFT: usize = 5;

/// Row of every meter's top edge.
pub const METER_TOP: usize = 5;

/// Meters share sixteen slots; meter `i` is drawn in slot `i % 16`.
pub const METER_SLOTS: usize = 16;

/// Pixel value of an unlit part of a meter.
pub const METER_BACKGROUND: u32 = 0xFF202020;

/// What one level meter shows: how many pixel rows are lit, counted from the
/// meter's bottom edge upwards, and in which colour.
#[derive(Clone, Copy, Debug, PartialEq, Eq, Structural)]
pub struct MeterLevel {
    pub height: usize,
    pub color: Color,
}

/// Position of the pixel at column `x`, row `y` in row-major order.
pub open spec fn offset(x: int, y: int) -> int {
    y * DISPLAY_SIZE + x
}

/// A colour channel after one frame of fading: seven tenths of its value,
/// rounded down.
pub open spec fn faded_channel(c: u8) -> u8 {
    (c * 7 / 10) as u8
}

/// A pixel after one frame of fading: opaque, each channel faded.
pub open spec fn faded(pixel: u32) -> u32 {
    let c = Color::of_pixel(pixel);
    (Color { r: faded_channel(c.r), g: faded_channel(c.g), b: faded_channel(c.b) }).argb32() as u32
}

/// The sum of two channel values, held at 255.
pub open spec fn lit_channel(a: u8, b: u8) -> u8 {
    if a + b > 255 {
        255u8
    } else {
        (a + b) as u8
    }
}

/// A pixel after `color` has been added to it: opaque, each channel the
/// saturating sum of the pixel's and the colour's.
pub open spec fn lit(pixel: u32, color: Color) -> u32 {
    let c = Color::of_pixel(pixel);
    (Color {
        r: lit_channel(c.r, color.r),
        g: lit_channel(c.g, color.g),
        b: lit_channel(c.b, color.b),
    }).argb32() as u32
}

/// Whether column `x`, row `y` lies in the rectangle with the given top left
/// corner and size.
pub open spec fn in_rect(x: int, y: int, left: int, top: int, width: int, height: int) -> bool {
    left <= x < left + width && top <= y < top + height
}

/// Column of the left edge of meter `index`.
pub open spec fn meter_left(index: int) -> int {
    METER_LEFT + (index % (METER_SLOTS as int)) * (METER_WIDTH + METER_SPACING)
}

/// Number of rows that a meter lights for `height`: the height itself,
/// but never more rows than lie between the top of the display and the
/// meter's bottom edge.
pub open spec fn lit_rows(height: int) -> int {
    if height < METER_TOP + METER_HEIGHT {
        height
    } else {
        METER_TOP + METER_HEIGHT
    }
}

/// The pixel at column `x`, row `y` once meter `index` has been drawn over
/// a pixel that was `prev`. Inside the meter's columns the lit rows, which
/// end at the meter's bottom edge, take the level's colour; the other rows
/// of the meter take the background; everything else keeps its value.
pub open spec fn meter_pixel(prev: u32, index: int, level: MeterLevel, x: int, y: int) -> u32 {
    let left = meter_left(index);
    let bottom = METER_TOP + METER_HEIGHT;
    if left <= x < left + METER_WIDTH {
        if bottom - lit_rows(level.height as int) <= y < bottom {
            level.color.argb32() as u32
        } else if METER_TOP <= y < bottom {
            METER_BACKGROUND
        } else {
            prev
        }
    } else {
        prev
    }
}

/// The frame `s` with meter `index` drawn over it.
pub open spec fn with_meter(s: Seq<u32>, index: int, level: MeterLevel) -> Seq<u32> {
    Seq::new(
        s.len(),
        |k: int| meter_pixel(s[k], index, level, k % (DISPLAY_SIZE as int), k / (DISPLAY_SIZE as int)),
    )
}

/// The frame `s` with the meters of `levels` drawn over it in order, so
/// that a later meter covers an earlier one in the same slot.
pub open spec fn with_meters(s: Seq<u32>, levels: Seq<MeterLevel>) -> Seq<u32>
    decreases levels.len(),
{
    if levels.len() == 0 {
        s
    } else {
        with_meter(with_meters(s, levels.drop_last()), levels.len() - 1, levels.last())
    }
}

/// The factor that `Framebuffer::scaled` enlarges by: `factor`, or 1 where
/// `factor` is 0.
pub open spec fn effective_factor(factor: int) -> int {
    if factor == 0 {
        1
    } else {
        factor
    }
}

/// The frame `s` enlarged by `factor`: a square picture whose side is
/// `factor` times the display's, in row-major order, in which every source
/// pixel has become a square of `factor` by `factor` pixels.
pub open spec fn enlarged(s: Seq<u32>, factor: int) -> Seq<u32> {
    let side = DISPLAY_SIZE * factor;
    Seq::new((side * side) as nat, |k: int| s[offset((k % side) / factor, (k / side) / factor)])
}

/// Fades one colour channel.
pub fn fade_channel(c: u8) -> (r: u8)
    ensures
        r == faded_channel(c),
{
    let wide: u16 = c as u16 * 7 / 10;
    wide as u8
}

/// Fades one pixel and makes it opaque.
pub fn fade_pixel(pixel: u32) -> (r: u32)
    ensures
        r == faded(pixel),
{
    let c = Color::from_argb32(pixel);
    Color::new(fade_channel(c.r), fade_channel(c.g), fade_channel(c.b)).to_argb32()
}

/// Adds two channel values, saturating at 255.
pub fn light_channel(a: u8, b: u8) -> (r: u8)
    ensures
        r == lit_channel(a, b),
{
    let sum: u16 = a as u16 + b as u16;
    if sum > 255 {
        255
    } else {
        sum as u8
    }
}

/// Adds `color` to a pixel, channel by channel, and makes it opaque.
pub fn light_pixel(pixel: u32, color: Color) -> (r: u32)
    ensures
        r == lit(pixel, color),
{
    let c = Color::from_argb32(pixel);
    Color::new(
        light_channel(c.r, color.r),
        light_channel(c.g, color.g),
        light_channel(c.b, color.b),
    ).to_argb32()
}

/// A frame of `DISPLAY_SIZE` by `DISPLAY_SIZE` ARGB pixels in row-major
/// order.
pub struct Framebuffer {
    pixels: Vec<u32>,
}

impl View for Framebuffer {
    type V = Seq<u32>;

    closed spec fn view(&self) -> Seq<u32> {
        self.pixels@
    }
}

impl Framebuffer {
    /// Every frame holds exactly one pixel for each position of the display.
    #[verifier::type_invariant]
    spec fn sized(&self) -> bool {
        self.pixels@.len() == DISPLAY_SIZE * DISPLAY_SIZE
    }

    /// A frame of transparent black.
    pub fn new() -> (fb: Self)
        ensures
            fb@.len() == DISPLAY_SIZE * DISPLAY_SIZE,
            forall|k: int| 0 <= k < fb@.len() ==> fb@[k] == 0,
    {
        Framebuffer { pixels: vec![0u32; DISPLAY_SIZE * DISPLAY_SIZE] }
    }

    /// The pixels in row-major order.
    pub fn pixels(&self) -> (p: &Vec<u32>)
        ensures
            p@ == self@,
    {
        &self.pixels
    }

    /// The pixel at column `x`, row `y`, or `None` outside the display.
    pub fn pixel(&self, x: usize, y: usize) -> (p: Option<u32>)
        ensures
            p == if x < DISPLAY_SIZE && y < DISPLAY_SIZE {
                Some(self@[offset(x as int, y as int)])
            } else {
                None
            },
    {
        proof {
            use_type_invariant(self);
        }
        if x < DISPLAY_SIZE && y < DISPLAY_SIZE {
            Some(self.pixels[y * DISPLAY_SIZE + x])
        } else {
            None
        }
    }

    /// Fades every pixel by one frame, which leaves trails behind whatever
    /// is drawn anew each frame.
    pub fn fade(&mut self)
        ensures
            final(self)@.len() == DISPLAY_SIZE * DISPLAY_SIZE,
            forall|k: int| 0 <= k < old(self)@.len() ==> final(self)@[k] == faded(old(self)@[k]),
    {
        proof {
            use_type_invariant(&*self);
        }
        let n: usize = self.pixels.len();
        let mut i: usize = 0;
        while i < n
            invariant
                i <= n,
                n == DISPLAY_SIZE * DISPLAY_SIZE,
                n == self.pixels.len(),
                n == old(self).pixels.len(),
                forall|k: int| 0 <= k < i ==> self.pixels@[k] == faded(old(self).pixels@[k]),
                forall|k: int| i <= k < n ==> self.pixels@[k] == old(self).pixels@[k],
            decreases n - i,
        {
            let p: u32 = self.pixels[i];
            self.pixels[i] = fade_pixel(p);
            i += 1;
        }
    }

    /// Adds `color` to the pixel at column `x`, row `y`. A position outside
    /// the display is ignored.
    pub fn plot(&mut self, x: usize, y: usize, color: Color)
        ensures
            final(self)@.len() == DISPLAY_SIZE * DISPLAY_SIZE,
            x < DISPLAY_SIZE && y < DISPLAY_SIZE ==> final(self)@ == old(self)@.update(
                offset(x as int, y as int),
                lit(old(self)@[offset(x as int, y as int)], color),
            ),
            !(x < DISPLAY_SIZE && y < DISPLAY_SIZE) ==> final(self)@ == old(self)@,
    {
        proof {
            use_type_invariant(&*self);
        }
        if x < DISPLAY_SIZE && y < DISPLAY_SIZE {
            let idx: usize = y * DISPLAY_SIZE + x;
            let existing: u32 = self.pixels[idx];
            self.pixels[idx] = light_pixel(existing, color);
        }
    }

    /// Sets every pixel of a rectangle to `value`. The part of the
    /// rectangle that lies outside the display is ignored.
    pub fn fill_rect(&mut self, left: usize, top: usize, width: usize, height: usize, value: u32)
        ensures
            final(self)@.len() == DISPLAY_SIZE * DISPLAY_SIZE,
            forall|x: int, y: int|
                0 <= x < DISPLAY_SIZE && 0 <= y < DISPLAY_SIZE ==> #[trigger] final(self)@[offset(x, y)]
                    == if in_rect(x, y, left as int, top as int, width as int, height as int) {
                    value
                } else {
                    old(self)@[offset(x, y)]
                },
    {
        proof {
            use_type_invariant(&*self);
        }
        let x0: usize = if left < DISPLAY_SIZE {
            left
        } else {
            DISPLAY_SIZE
        };
        let x1: usize = if width < DISPLAY_SIZE - x0 {
            x0 + width
        } else {
            DISPLAY_SIZE
        };
        let y0: usize = if top < DISPLAY_SIZE {
            top
        } else {
            DISPLAY_SIZE
        };
        let y1: usize = if height < DISPLAY_SIZE - y0 {
            y0 + height
        } else {
            DISPLAY_SIZE
        };
        let mut y: usize = y0;
        while y < y1
            invariant
                y0 <= y <= y1 <= DISPLAY_SIZE,
                x0 <= x1 <= DISPLAY_SIZE,
                self.pixels.len() == DISPLAY_SIZE * DISPLAY_SIZE,
                old(self).pixels.len() == DISPLAY_SIZE * DISPLAY_SIZE,
                forall|cx: int, cy: int|
                    0 <= cx < DISPLAY_SIZE && 0 <= cy < DISPLAY_SIZE ==> #[trigger] self.pixels@[offset(
                        cx,
                        cy,
                    )] == if x0 <= cx < x1 && y0 <= cy < y {
                        value
                    } else {
                        old(self).pixels@[offset(cx, cy)]
                    },
            decreases y1 - y,
        {
            let mut x: usize = x0;
            while x < x1
                invariant
                    y0 <= y < y1 <= DISPLAY_SIZE,
                    x0 <= x <= x1 <= DISPLAY_SIZE,
                    self.pixels.len() == DISPLAY_SIZE * DISPLAY_SIZE,
                    old(self).pixels.len() == DISPLAY_SIZE * DISPLAY_SIZE,
                    forall|cx: int, cy: int|
                        0 <= cx < DISPLAY_SIZE && 0 <= cy < DISPLAY_SIZE
                            ==> #[trigger] self.pixels@[offset(cx, cy)] == if x0 <= cx < x1 && (y0
                            <= cy < y || (cy == y && cx < x)) {
                            value
                        } else {
                            old(self).pixels@[offset(cx, cy)]
                        },
                decreases x1 - x,
            {
                let idx: usize = y * DISPLAY_SIZE + x;
                self.pixels[idx] = value;
                x += 1;
            }
            y += 1;
        }
    }

    /// Draws level meter `index`: its background, then its lit rows from
    /// the bottom edge upwards.
    pub fn draw_level_meter(&mut self, index: usize, level: MeterLevel)
        ensures
            final(self)@.len() == DISPLAY_SIZE * DISPLAY_SIZE,
            final(self)@ == with_meter(old(self)@, index as int, level),
    {
        proof {
            use_type_invariant(&*self);
        }
        let slot: usize = index % METER_SLOTS;
        let pitch: usize = METER_WIDTH + METER_SPACING;
        assert(slot * pitch <= 15 * 6) by (nonlinear_arith)
            requires
                slot <= 15,
                pitch == 6,
        ;
        let left: usize = METER_LEFT + slot * pitch;
        let bottom: usize = METER_TOP + METER_HEIGHT;
        let rows: usize = if level.height < bottom {
            level.height
        } else {
            bottom
        };
        self.fill_rect(left, METER_TOP, METER_WIDTH, METER_HEIGHT, METER_BACKGROUND);
        self.fill_rect(left, bottom - rows, METER_WIDTH, rows, level.color.to_argb32());
        proof {
            let drawn = with_meter(old(self)@, index as int, level);
            assert forall|k: int| 0 <= k < drawn.len() implies self@[k] == drawn[k] by {
                let x = k % (DISPLAY_SIZE as int);
                let y = k / (DISPLAY_SIZE as int);
                assert(k == offset(x, y));
            }
            assert(self@ =~= drawn);
        }
    }

    /// Draws one level meter for each entry of `levels`, in order.
    pub fn draw_level_meters(&mut self, levels: &[MeterLevel])
        ensures
            final(self)@.len() == DISPLAY_SIZE * DISPLAY_SIZE,
            final(self)@ == with_meters(old(self)@, levels@),
    {
        proof {
            use_type_invariant(&*self);
        }
        let n: usize = levels.len();
        let mut i: usize = 0;
        proof {
            assert(levels@.take(0) =~= Seq::<MeterLevel>::empty());
        }
        while i < n
            invariant
                i <= n,
                n == levels@.len(),
                self@.len() == DISPLAY_SIZE * DISPLAY_SIZE,
                self@ == with_meters(old(self)@, levels@.take(i as int)),
            decreases n - i,
        {
            proof {
                assert(levels@.take(i + 1).drop_last() =~= levels@.take(i as int));
            }
            self.draw_level_meter(i, levels[i]);
            i += 1;
        }
        proof {
            assert(levels@.take(n as int) =~= levels@);
        }
    }

    /// The frame enlarged by `factor` for a window whose side is `factor`
    /// times the display's; a factor of 0 or 1 yields a copy.
    pub fn scaled(&self, factor: usize) -> (out: Vec<u32>)
        requires
            (DISPLAY_SIZE * factor) * (DISPLAY_SIZE * factor) <= usize::MAX,
        ensures
            out@ == enlarged(self@, effective_factor(factor as int)),
    {
        proof {
            use_type_invariant(self);
        }
        let f: usize = if factor == 0 {
            1
        } else {
            factor
        };
        proof {
            lemma_side_fits(factor as int);
        }
        let side: usize = DISPLAY_SIZE * f;
        let mut out: Vec<u32> = Vec::new();
        let mut row: usize = 0;
        while row < side
            invariant
                self@.len() == DISPLAY_SIZE * DISPLAY_SIZE,
                f >= 1,
                side == DISPLAY_SIZE * f,
                side * side <= usize::MAX,
                row <= side,
                out@.len() == row * side,
                forall|k: int|
                    0 <= k < out@.len() ==> out@[k] == self@[offset(
                        (k % (side as int)) / (f as int),
                        (k / (side as int)) / (f as int),
                    )],
            decreases side - row,
        {
            let src_row: usize = row / f;
            proof {
                vstd::arithmetic::div_mod::lemma_multiply_divide_lt(
                    row as int,
                    f as int,
                    DISPLAY_SIZE as int,
                );
                lemma_row_fits(row as int, side as int);
            }
            let mut col: usize = 0;
            while col < side
                invariant
                    self@.len() == DISPLAY_SIZE * DISPLAY_SIZE,
                    f >= 1,
                    side == DISPLAY_SIZE * f,
                    side * side <= usize::MAX,
                    row < side,
                    col <= side,
                    src_row == row / f,
                    src_row < DISPLAY_SIZE,
                    row * side + side <= side * side,
                    out@.len() == row * side + col,
                    forall|k: int|
                        0 <= k < out@.len() ==> out@[k] == self@[offset(
                            (k % (side as int)) / (f as int),
                            (k / (side as int)) / (f as int),
                        )],
                decreases side - col,
            {
                let src_col: usize = col / f;
                proof {
                    vstd::arithmetic::div_mod::lemma_multiply_divide_lt(
                        col as int,
                        f as int,
                        DISPLAY_SIZE as int,
                    );
                    vstd::arithmetic::div_mod::lemma_fundamental_div_mod_converse(
                        row * side + col,
                        side as int,
                        row as int,
                        col as int,
                    );
                }
                out.push(self.pixels[src_row * DISPLAY_SIZE + src_col]);
                col += 1;
            }
            proof {
                assert(row * side + side == (row + 1) * side) by (nonlinear_arith);
            }
            row += 1;
        }
        proof {
            assert(out@ =~= enlarged(self@, f as int));
        }
        out
    }
}

/// A picture whose pixel count fits the machine word has a side that does.
proof fn lemma_side_fits(factor: int)
    requires
        0 <= factor,
        (DISPLAY_SIZE * factor) * (DISPLAY_SIZE * factor) <= usize::MAX,
    ensures
        DISPLAY_SIZE * effective_factor(factor) <= usize::MAX,
        (DISPLAY_SIZE * effective_factor(factor)) * (DISPLAY_SIZE * effective_factor(factor))
            <= usize::MAX,
{
    if factor == 0 {
        assert(effective_factor(factor) == 1);
        assert((DISPLAY_SIZE * 1) * (DISPLAY_SIZE * 1) == 57600) by (nonlinear_arith);
    } else {
        let side = DISPLAY_SIZE * factor;
        assert(effective_factor(factor) == factor);
        assert(side <= side * side) by (nonlinear_arith)
            requires
                side >= 1,
        ;
    }
}

/// Every row of a square picture ends within the picture.
proof fn lemma_row_fits(row: int, side: int)
    requires
        0 <= row < side,
    ensures
        row * side + side <= side * side,
        0 <= row * side,
{
    assert(row * side + side <= side * side && 0 <= row * side) by (nonlinear_arith)
        requires
            0 <= row < side,
    ;
}

} // verus!
