//! Resolution of a cell's logical color state into concrete RGBA values.
//!
//! A cell names its colors in one of three ways: an explicit RGB triple, a
//! palette index (0-255), or a semantic name resolved against the active
//! theme.  Attribute flags (bold, dim, inverse, hidden) modify the result.
//! Channels are 8-bit gamma-encoded values; the conversion to linear-space
//! floats for the GPU happens outside this crate.

use vstd::prelude::*;

verus! {

/// An opaque-free RGB triple, one byte per channel.
#[derive(Debug, Clone, Copy, PartialEq, Eq, Structural)]
pub struct Rgb {
    pub r: u8,
    pub g: u8,
    pub b: u8,
}

/// An RGB triple with an alpha channel, one byte per channel.
#[derive(Debug, Clone, Copy, PartialEq, Eq, Structural)]
pub struct Rgba {
    pub r: u8,
    pub g: u8,
    pub b: u8,
    pub a: u8,
}

/// The active color theme: the three semantic colors, the 16 ANSI slots
/// (normal colors first, bright variants in the upper half), and the
/// configured background opacity as an 8-bit alpha.
#[derive(Debug, Clone, Copy)]
pub struct Theme {
    pub foreground: Rgb,
    pub background: Rgb,
    pub cursor: Rgb,
    pub ansi: [Rgb; 16],
    pub background_alpha: u8,
}

/// A semantic color name, resolved against the theme.
#[derive(Debug, Clone, Copy, PartialEq, Eq, Structural)]
pub enum NamedColor {
    Foreground,
    Background,
    Cursor,
    /// One of the 16 ANSI slots (0-15).
    Ansi(u8),
}

/// A cell's logical color specification.
#[derive(Debug, Clone, Copy, PartialEq, Eq, Structural)]
pub enum ColorSpec {
    Rgb(Rgb),
    Indexed(u8),
    Named(NamedColor),
}

/// Attribute flags of a cell that affect its colors.
#[derive(Debug, Clone, Copy, PartialEq, Eq, Structural, Default)]
pub struct CellFlags {
    pub bold: bool,
    pub dim: bool,
    pub inverse: bool,
    pub hidden: bool,
    pub underline: bool,
}

/// One channel scaled by the fixed 2/3 dim factor.
pub open spec fn spec_dim_channel(c: u8) -> u8 {
    ((c as int) * 2 / 3) as u8
}

/// An RGB triple with every channel dimmed.
pub open spec fn spec_dim_rgb(c: Rgb) -> Rgb {
    Rgb { r: spec_dim_channel(c.r), g: spec_dim_channel(c.g), b: spec_dim_channel(c.b) }
}

/// The six channel levels of the standard 6x6x6 color cube.
pub open spec fn spec_cube_level(i: int) -> u8 {
    if i == 0 {
        0
    } else if i == 1 {
        95
    } else if i == 2 {
        135
    } else if i == 3 {
        175
    } else if i == 4 {
        215
    } else {
        255
    }
}

/// The RGB value of palette index `idx`: 0-15 are the theme's ANSI slots,
/// 16-231 the 6x6x6 cube with levels {0,95,135,175,215,255}, 232-255 a
/// 24-step grayscale ramp.
pub open spec fn spec_indexed_rgb(idx: u8, theme: Theme) -> Rgb {
    if idx < 16 {
        theme.ansi@[idx as int]
    } else if idx <= 231 {
        let v = idx - 16;
        Rgb {
            r: spec_cube_level(v as int / 36),
            g: spec_cube_level((v as int / 6) % 6),
            b: spec_cube_level(v as int % 6),
        }
    } else {
        let g = (8 + (idx as int - 232) * 10) as u8;
        Rgb { r: g, g: g, b: g }
    }
}

/// A color specification resolved to an RGB triple.  Bold promotes an ANSI
/// index below 8 to its bright variant (index + 8); dim scales the resolved
/// triple by 2/3 afterwards.
pub open spec fn spec_resolve_color(spec: ColorSpec, bold: bool, dim: bool, theme: Theme) -> Rgb {
    let base = match spec {
        ColorSpec::Rgb(c) => c,
        ColorSpec::Indexed(idx) => {
            let promoted = if bold && idx < 8 {
                (idx + 8) as u8
            } else {
                idx
            };
            spec_indexed_rgb(promoted, theme)
        },
        ColorSpec::Named(name) => match name {
            NamedColor::Foreground => theme.foreground,
            NamedColor::Background => theme.background,
            NamedColor::Cursor => theme.cursor,
            NamedColor::Ansi(idx) => {
                let slot = if idx < 16 {
                    idx
                } else {
                    (idx % 16) as u8
                };
                let promoted = if bold && slot < 8 {
                    (slot + 8) as u8
                } else {
                    slot
                };
                theme.ansi@[promoted as int]
            },
        },
    };
    if dim {
        spec_dim_rgb(base)
    } else {
        base
    }
}

/// The final foreground/background RGBA pair of a cell: both specs resolved
/// (bold/dim act on the foreground), swapped under inverse, background alpha
/// taken from the theme, and the foreground replaced by the background when
/// the cell is hidden.
pub open spec fn spec_resolve_cell(
    fg: ColorSpec,
    bg: ColorSpec,
    flags: CellFlags,
    theme: Theme,
) -> (Rgba, Rgba) {
    let rfg = spec_resolve_color(fg, flags.bold, flags.dim, theme);
    let rbg = spec_resolve_color(bg, false, false, theme);
    let (sfg, sbg) = if flags.inverse {
        (rbg, rfg)
    } else {
        (rfg, rbg)
    };
    let out_fg = Rgba { r: sfg.r, g: sfg.g, b: sfg.b, a: 255 };
    let out_bg = Rgba { r: sbg.r, g: sbg.g, b: sbg.b, a: theme.background_alpha };
    if flags.hidden {
        (out_bg, out_bg)
    } else {
        (out_fg, out_bg)
    }
}

/// Perceptual luminance of an RGBA color, scaled by 10000 * 255 so that the
/// 0.2126 R + 0.7152 G + 0.0722 B formula stays in integers; the 0.5
/// threshold of the unit-range formula is 1275000 on this scale.
pub open spec fn spec_luminance_scaled(c: Rgba) -> int {
    2126 * (c.r as int) + 7152 * (c.g as int) + 722 * (c.b as int)
}

/// The foreground/background pair of the cursor cell.  A background that is
/// already visible (non-zero alpha) is swapped with the foreground;
/// otherwise the cursor block takes the old foreground as an opaque
/// background, with black text over bright foregrounds and white over dark
/// ones.
pub open spec fn spec_cursor_cell(fg: Rgba, bg: Rgba) -> (Rgba, Rgba) {
    if bg.a > 0 {
        (bg, fg)
    } else {
        let cursor_fg = if spec_luminance_scaled(fg) > 1275000 {
            Rgba { r: 0, g: 0, b: 0, a: 255 }
        } else {
            Rgba { r: 255, g: 255, b: 255, a: 255 }
        };
        let cursor_bg = Rgba { r: fg.r, g: fg.g, b: fg.b, a: 255 };
        (cursor_fg, cursor_bg)
    }
}

/// One channel scaled by the fixed 2/3 dim factor.
pub fn dim_channel(c: u8) -> (r: u8)
    ensures
        r == spec_dim_channel(c),
{
    (((c as u32) * 2) / 3) as u8
}

/// An RGB triple with every channel dimmed.
pub fn dim_rgb(c: Rgb) -> (r: Rgb)
    ensures
        r == spec_dim_rgb(c),
{
    Rgb { r: dim_channel(c.r), g: dim_channel(c.g), b: dim_channel(c.b) }
}

fn cube_level(i: u8) -> (r: u8)
    requires
        i < 6,
    ensures
        r == spec_cube_level(i as int),
{
    if i == 0 {
        0
    } else if i == 1 {
        95
    } else if i == 2 {
        135
    } else if i == 3 {
        175
    } else if i == 4 {
        215
    } else {
        255
    }
}

/// The RGB value of palette index `idx` under the given theme.
pub fn resolve_indexed(idx: u8, theme: &Theme) -> (r: Rgb)
    ensures
        r == spec_indexed_rgb(idx, *theme),
{
    if idx < 16 {
        theme.ansi[idx as usize]
    } else if idx <= 231 {
        let v: u8 = idx - 16;
        Rgb {
            r: cube_level(v / 36),
            g: cube_level((v / 6) % 6),
            b: cube_level(v % 6),
        }
    } else {
        let g: u8 = 8 + (idx - 232) * 10;
        Rgb { r: g, g: g, b: g }
    }
}

/// A color specification resolved to an RGB triple under bold/dim flags.
pub fn resolve_color(spec: &ColorSpec, bold: bool, dim: bool, theme: &Theme) -> (r: Rgb)
    ensures
        r == spec_resolve_color(*spec, bold, dim, *theme),
{
    let base: Rgb = match spec {
        ColorSpec::Rgb(c) => *c,
        ColorSpec::Indexed(idx) => {
            let promoted: u8 = if bold && *idx < 8 {
                *idx + 8
            } else {
                *idx
            };
            resolve_indexed(promoted, theme)
        },
        ColorSpec::Named(name) => match name {
            NamedColor::Foreground => theme.foreground,
            NamedColor::Background => theme.background,
            NamedColor::Cursor => theme.cursor,
            NamedColor::Ansi(idx) => {
                let slot: u8 = if *idx < 16 {
                    *idx
                } else {
                    *idx % 16
                };
                let promoted: u8 = if bold && slot < 8 {
                    slot + 8
                } else {
                    slot
                };
                theme.ansi[promoted as usize]
            },
        },
    };
    if dim {
        dim_rgb(base)
    } else {
        base
    }
}

/// The final foreground/background RGBA pair of a cell.
pub fn resolve_cell(fg: &ColorSpec, bg: &ColorSpec, flags: CellFlags, theme: &Theme) -> (r: (
    Rgba,
    Rgba,
))
    ensures
        r == spec_resolve_cell(*fg, *bg, flags, *theme),
{
    let rfg = resolve_color(fg, flags.bold, flags.dim, theme);
    let rbg = resolve_color(bg, false, false, theme);
    let (sfg, sbg) = if flags.inverse {
        (rbg, rfg)
    } else {
        (rfg, rbg)
    };
    let out_fg = Rgba { r: sfg.r, g: sfg.g, b: sfg.b, a: 255 };
    let out_bg = Rgba { r: sbg.r, g: sbg.g, b: sbg.b, a: theme.background_alpha };
    if flags.hidden {
        (out_bg, out_bg)
    } else {
        (out_fg, out_bg)
    }
}

/// Perceptual luminance of a color on the integer scale of
/// [`spec_luminance_scaled`].
pub fn luminance_scaled(c: Rgba) -> (r: u32)
    ensures
        r == spec_luminance_scaled(c),
{
    2126 * (c.r as u32) + 7152 * (c.g as u32) + 722 * (c.b as u32)
}

/// The foreground/background pair the cursor cell is drawn with.
pub fn cursor_cell_colors(fg: Rgba, bg: Rgba) -> (r: (Rgba, Rgba))
    ensures
        r == spec_cursor_cell(fg, bg),
{
    if bg.a > 0 {
        (bg, fg)
    } else {
        let cursor_fg = if luminance_scaled(fg) > 1275000 {
            Rgba { r: 0, g: 0, b: 0, a: 255 }
        } else {
            Rgba { r: 255, g: 255, b: 255, a: 255 }
        };
        let cursor_bg = Rgba { r: fg.r, g: fg.g, b: fg.b, a: 255 };
        (cursor_fg, cursor_bg)
    }
}

/// The dim scale is multiplicative, not a flag: scaling an already dimmed
/// channel scales it again, so re-applying dim is idempotent only when the
/// value is re-derived from the undimmed base.  Every channel that did not
/// already dim to black strictly shrinks under a second application.
pub proof fn lemma_dim_not_idempotent(c: u8)
    requires
        spec_dim_channel(c) > 0,
    ensures
        spec_dim_channel(spec_dim_channel(c)) < spec_dim_channel(c),
{
}

} // verus!
