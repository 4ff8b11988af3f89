use girlvoice_ui_core::color::Color;
use girlvoice_ui_core::palette::{
    rainbow_step, ColorPalette, BLACK, BLUE, CYAN, GREEN, MAGENTA, ORANGE, PINK, PURPLE, WHITE,
    YELLOW,
};

// Hue, saturation and value to RGB in single precision, the formula the
// palette's sixteen steps are cut from.
fn hsv_in_floats(h: f32, s: f32, v: f32) -> Color {
    let h = h % 360.0;
    let c = v * s;
    let x = c * (1.0 - libm::fabsf((h / 60.0) % 2.0 - 1.0));
    let m = v - c;
    let (r, g, b) = if h < 60.0 {
        (c, x, 0.0)
    } else if h < 120.0 {
        (x, c, 0.0)
    } else if h < 180.0 {
        (0.0, c, x)
    } else if h < 240.0 {
        (0.0, x, c)
    } else if h < 300.0 {
        (x, 0.0, c)
    } else {
        (c, 0.0, x)
    };
    Color::new(
        ((r + m) * 255.0) as u8,
        ((g + m) * 255.0) as u8,
        ((b + m) * 255.0) as u8,
    )
}

#[test]
fn new_keeps_the_channels() {
    let c = Color::new(1, 2, 3);
    assert_eq!((c.r, c.g, c.b), (1, 2, 3));
}

#[test]
fn default_color_is_black() {
    assert_eq!(Color::default(), Color::new(0, 0, 0));
}

#[test]
fn rgb565_of_known_colors() {
    assert_eq!(Color::new(0, 0, 0).to_rgb565(), 0x0000);
    assert_eq!(Color::new(255, 255, 255).to_rgb565(), 0xFFFF);
    assert_eq!(Color::new(255, 0, 0).to_rgb565(), 0xF800);
    assert_eq!(Color::new(0, 255, 0).to_rgb565(), 0x07E0);
    assert_eq!(Color::new(0, 0, 255).to_rgb565(), 0x001F);
    assert_eq!(Color::new(255, 20, 147).to_rgb565(), 0xF8B2);
}

#[test]
fn rgb565_drops_the_low_bits() {
    assert_eq!(Color::new(7, 3, 7).to_rgb565(), 0);
    assert_eq!(Color::new(8, 4, 8).to_rgb565(), (1 << 11) | (1 << 5) | 1);
}

#[test]
fn rgb565_matches_its_formula_on_every_color_of_a_grid() {
    for r in (0..=255u16).step_by(5) {
        for g in (0..=255u16).step_by(3) {
            for b in (0..=255u16).step_by(17) {
                let c = Color::new(r as u8, g as u8, b as u8);
                assert_eq!(c.to_rgb565(), (r / 8) * 2048 + (g / 4) * 32 + b / 8);
            }
        }
    }
}

#[test]
fn argb32_of_known_colors() {
    assert_eq!(Color::new(0, 0, 0).to_argb32(), 0xFF000000);
    assert_eq!(Color::new(255, 255, 255).to_argb32(), 0xFFFFFFFF);
    assert_eq!(Color::new(0x12, 0x34, 0x56).to_argb32(), 0xFF123456);
}

#[test]
fn from_argb32_ignores_alpha() {
    assert_eq!(Color::from_argb32(0x00123456), Color::new(0x12, 0x34, 0x56));
    assert_eq!(Color::from_argb32(0xAB123456), Color::new(0x12, 0x34, 0x56));
}

#[test]
fn argb32_round_trips() {
    for r in (0..=255u16).step_by(15) {
        for g in (0..=255u16).step_by(15) {
            for b in (0..=255u16).step_by(15) {
                let c = Color::new(r as u8, g as u8, b as u8);
                assert_eq!(Color::from_argb32(c.to_argb32()), c);
            }
        }
    }
}

#[test]
fn named_colors() {
    assert_eq!(Color::from_argb32(PINK), Color::new(255, 20, 147));
    assert_eq!(Color::from_argb32(CYAN), Color::new(0, 255, 255));
    assert_eq!(Color::from_argb32(PURPLE), Color::new(148, 0, 211));
    assert_eq!(Color::from_argb32(MAGENTA), Color::new(255, 0, 255));
    assert_eq!(Color::from_argb32(BLUE), Color::new(30, 144, 255));
    assert_eq!(Color::from_argb32(GREEN), Color::new(0, 255, 127));
    assert_eq!(Color::from_argb32(ORANGE), Color::new(255, 140, 0));
    assert_eq!(Color::from_argb32(YELLOW), Color::new(255, 255, 0));
    assert_eq!(Color::from_argb32(BLACK), Color::new(0, 0, 0));
    assert_eq!(Color::from_argb32(WHITE), Color::new(255, 255, 255));
}

#[test]
fn rainbow_steps_are_the_hue_wheel_in_sixteenths() {
    for i in 0..16usize {
        let t = i as f32 / 16.0;
        assert_eq!(rainbow_step(i), hsv_in_floats(t * 360.0, 1.0, 1.0), "step {}", i);
    }
}

#[test]
fn rainbow_step_values() {
    assert_eq!(rainbow_step(0), Color::new(255, 0, 0));
    assert_eq!(rainbow_step(1), Color::new(255, 95, 0));
    assert_eq!(rainbow_step(4), Color::new(127, 255, 0));
    assert_eq!(rainbow_step(8), Color::new(0, 255, 255));
    assert_eq!(rainbow_step(13), Color::new(223, 0, 255));
    assert_eq!(rainbow_step(15), Color::new(255, 0, 95));
}

#[test]
fn rainbow_step_wraps_after_a_turn() {
    for i in 0..16usize {
        assert_eq!(rainbow_step(i + 16), rainbow_step(i));
        assert_eq!(rainbow_step(i + 160), rainbow_step(i));
    }
    assert_eq!(rainbow_step(usize::MAX), rainbow_step(15));
}

#[test]
fn default_palette_is_the_rainbow() {
    let p = ColorPalette::new();
    for i in 0..16usize {
        let t = i as f32 / 16.0;
        assert_eq!(p.colors[i], hsv_in_floats(t * 360.0, 1.0, 1.0));
        assert_eq!(p.colors[i], rainbow_step(i));
    }
    assert_eq!(p.primary, Color::new(255, 20, 147));
    assert_eq!(p.secondary, Color::new(0, 255, 255));
    assert_eq!(p.accent, Color::new(148, 0, 211));
}

#[test]
fn palette_default_equals_new() {
    let a = ColorPalette::new();
    let b = ColorPalette::default();
    assert_eq!(a.colors, b.colors);
    assert_eq!((a.primary, a.secondary, a.accent), (b.primary, b.secondary, b.accent));
}

#[test]
fn palette_get_counts_around_the_palette() {
    let p = ColorPalette::new();
    assert_eq!(p.get(0), Color::new(255, 0, 0));
    assert_eq!(p.get(5), Color::new(31, 255, 0));
    assert_eq!(p.get(15), Color::new(255, 0, 95));
    assert_eq!(p.get(16), p.get(0));
    assert_eq!(p.get(37), p.get(5));
    assert_eq!(p.get(usize::MAX), p.get(15));
}

#[test]
fn palette_get_reads_the_colors_field() {
    let mut p = ColorPalette::new();
    p.colors[3] = Color::new(9, 8, 7);
    assert_eq!(p.get(3), Color::new(9, 8, 7));
    assert_eq!(p.get(19), Color::new(9, 8, 7));
}
