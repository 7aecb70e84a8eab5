use rabitty::color::{
    CellFlags, ColorSpec, NamedColor, Rgb, Rgba, Theme, cursor_cell_colors, dim_channel, dim_rgb,
    luminance_scaled, resolve_cell, resolve_color, resolve_indexed,
};

fn test_theme() -> Theme {
    let mut ansi = [Rgb { r: 0, g: 0, b: 0 }; 16];
    ansi[1] = Rgb { r: 205, g: 49, b: 49 };
    ansi[9] = Rgb { r: 241, g: 76, b: 76 };
    Theme {
        foreground: Rgb { r: 217, g: 224, b: 237 },
        background: Rgb { r: 16, g: 16, b: 20 },
        cursor: Rgb { r: 255, g: 255, b: 255 },
        ansi,
        background_alpha: 255,
    }
}

#[test]
fn indexed_low_indices_use_theme_slots() {
    let theme = test_theme();
    assert_eq!(resolve_indexed(1, &theme), Rgb { r: 205, g: 49, b: 49 });
    assert_eq!(resolve_indexed(0, &theme), Rgb { r: 0, g: 0, b: 0 });
}

#[test]
fn indexed_cube_formula() {
    let theme = test_theme();
    // (196 - 16) = 180: r level 180/36 = 5, g (180/6)%6 = 0, b 180%6 = 0
    assert_eq!(resolve_indexed(196, &theme), Rgb { r: 255, g: 0, b: 0 });
    // 16 is the cube origin
    assert_eq!(resolve_indexed(16, &theme), Rgb { r: 0, g: 0, b: 0 });
    // 231 is the cube's far corner
    assert_eq!(resolve_indexed(231, &theme), Rgb { r: 255, g: 255, b: 255 });
    // 123 - 16 = 107: levels 107/36 = 2, (107/6)%6 = 5, 107%6 = 5
    assert_eq!(resolve_indexed(123, &theme), Rgb { r: 135, g: 255, b: 255 });
}

#[test]
fn indexed_grayscale_ramp() {
    let theme = test_theme();
    assert_eq!(resolve_indexed(244, &theme), Rgb { r: 128, g: 128, b: 128 });
    assert_eq!(resolve_indexed(232, &theme), Rgb { r: 8, g: 8, b: 8 });
    assert_eq!(resolve_indexed(255, &theme), Rgb { r: 238, g: 238, b: 238 });
}

#[test]
fn bold_promotes_low_indices() {
    let theme = test_theme();
    let spec = ColorSpec::Indexed(1);
    let bold = resolve_color(&spec, true, false, &theme);
    assert_eq!(bold, Rgb { r: 241, g: 76, b: 76 });
    let plain = resolve_color(&spec, false, false, &theme);
    assert_eq!(plain, Rgb { r: 205, g: 49, b: 49 });
}

#[test]
fn dim_scales_channels_by_two_thirds() {
    assert_eq!(dim_channel(255), 170);
    assert_eq!(dim_channel(0), 0);
    assert_eq!(dim_channel(100), 66);
    assert_eq!(
        dim_rgb(Rgb { r: 90, g: 180, b: 240 }),
        Rgb { r: 60, g: 120, b: 160 }
    );
}

#[test]
fn dim_is_multiplicative_not_a_toggle() {
    // Scaling twice is not the same as scaling once: the dimmed value must
    // be re-derived from the undimmed base, not re-scaled in place.
    let once = dim_channel(240);
    let twice = dim_channel(once);
    assert_eq!(once, 160);
    assert_eq!(twice, 106);
    assert_ne!(twice, once);
}

#[test]
fn inverse_swaps_foreground_and_background() {
    let theme = test_theme();
    let flags = CellFlags { bold: false, dim: false, inverse: true, hidden: false, underline: false };
    let (fg, bg) = resolve_cell(
        &ColorSpec::Rgb(Rgb { r: 10, g: 20, b: 30 }),
        &ColorSpec::Rgb(Rgb { r: 40, g: 50, b: 60 }),
        flags,
        &theme,
    );
    assert_eq!(fg, Rgba { r: 40, g: 50, b: 60, a: 255 });
    assert_eq!(bg, Rgba { r: 10, g: 20, b: 30, a: 255 });
}

#[test]
fn hidden_text_takes_background_color() {
    let theme = test_theme();
    let flags = CellFlags { bold: false, dim: false, inverse: false, hidden: true, underline: false };
    let (fg, bg) = resolve_cell(
        &ColorSpec::Rgb(Rgb { r: 10, g: 20, b: 30 }),
        &ColorSpec::Rgb(Rgb { r: 40, g: 50, b: 60 }),
        flags,
        &theme,
    );
    assert_eq!(fg, bg);
}

#[test]
fn background_alpha_comes_from_theme() {
    let mut theme = test_theme();
    theme.background_alpha = 128;
    let flags = CellFlags::default();
    let (fg, bg) = resolve_cell(
        &ColorSpec::Named(NamedColor::Foreground),
        &ColorSpec::Named(NamedColor::Background),
        flags,
        &theme,
    );
    assert_eq!(fg, Rgba { r: 217, g: 224, b: 237, a: 255 });
    assert_eq!(bg, Rgba { r: 16, g: 16, b: 20, a: 128 });
}

#[test]
fn cursor_over_transparent_bright_cell_is_black_on_foreground() {
    // Background alpha 0 and a foreground of luminance about 0.9: the
    // cursor takes the old foreground as an opaque background and draws
    // black text over it.
    let fg = Rgba { r: 230, g: 230, b: 230, a: 255 };
    let bg = Rgba { r: 0, g: 0, b: 0, a: 0 };
    let (cfg, cbg) = cursor_cell_colors(fg, bg);
    assert_eq!(cfg, Rgba { r: 0, g: 0, b: 0, a: 255 });
    assert_eq!(cbg, Rgba { r: 230, g: 230, b: 230, a: 255 });
}

#[test]
fn cursor_over_transparent_dark_cell_is_white_on_foreground() {
    let fg = Rgba { r: 40, g: 40, b: 40, a: 255 };
    let bg = Rgba { r: 0, g: 0, b: 0, a: 0 };
    let (cfg, cbg) = cursor_cell_colors(fg, bg);
    assert_eq!(cfg, Rgba { r: 255, g: 255, b: 255, a: 255 });
    assert_eq!(cbg, Rgba { r: 40, g: 40, b: 40, a: 255 });
}

#[test]
fn cursor_over_visible_background_swaps_colors() {
    let fg = Rgba { r: 1, g: 2, b: 3, a: 255 };
    let bg = Rgba { r: 7, g: 8, b: 9, a: 200 };
    let (cfg, cbg) = cursor_cell_colors(fg, bg);
    assert_eq!(cfg, bg);
    assert_eq!(cbg, fg);
}

#[test]
fn luminance_formula_is_scaled_rec709() {
    // 0.2126 R + 0.7152 G + 0.0722 B, scaled by 10000 * 255
    assert_eq!(
        luminance_scaled(Rgba { r: 255, g: 255, b: 255, a: 255 }),
        2_550_000
    );
    assert_eq!(luminance_scaled(Rgba { r: 0, g: 0, b: 0, a: 255 }), 0);
    assert_eq!(
        luminance_scaled(Rgba { r: 100, g: 50, b: 10, a: 255 }),
        2126 * 100 + 7152 * 50 + 722 * 10
    );
}
