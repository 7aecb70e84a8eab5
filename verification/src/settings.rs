//! The settings form: which field an input edits, the editable draft of
//! the configuration, and the hex form of theme colors.
//!
//! The draft holds every value as the raw text being edited; committing
//! it parses each field, keeping the old value where the text does not
//! parse.

use vstd::prelude::*;

verus! {

/// One editable field of the settings form.
#[derive(Debug, Clone, Copy, PartialEq, Eq, Structural)]
pub enum SettingsField {
    UiWindowWidth,
    UiWindowHeight,
    TerminalCellWidth,
    TerminalCellHeight,
    ThemeForeground,
    ThemeBackground,
    ThemeCursor,
    ThemeBackgroundOpacity,
}

/// The settings categories shown as sections.
#[derive(Debug, Clone, Copy, PartialEq, Eq, Structural)]
pub enum SettingsCategory {
    Ui,
    Terminal,
    Theme,
}

impl SettingsCategory {
    /// The section's display label.
    pub fn label(self) -> (r: &'static str)
        ensures
            r@ == match self {
                SettingsCategory::Ui => "UI"@,
                SettingsCategory::Terminal => "Terminal"@,
                SettingsCategory::Theme => "Theme"@,
            },
    {
        match self {
            SettingsCategory::Ui => "UI",
            SettingsCategory::Terminal => "Terminal",
            SettingsCategory::Theme => "Theme",
        }
    }
}

/// The in-progress text of every settings field.
#[derive(Debug, Clone)]
pub struct SettingsDraft {
    pub window_width: String,
    pub window_height: String,
    pub cell_width: String,
    pub cell_height: String,
    pub foreground: String,
    pub background: String,
    pub cursor: String,
    pub background_opacity: String,
}

impl SettingsDraft {
    /// Store the new text of one field, leaving every other field alone.
    pub fn update(&mut self, field: SettingsField, value: String)
        ensures
            final(self).window_width@ == if field is UiWindowWidth {
                value@
            } else {
                old(self).window_width@
            },
            final(self).window_height@ == if field is UiWindowHeight {
                value@
            } else {
                old(self).window_height@
            },
            final(self).cell_width@ == if field is TerminalCellWidth {
                value@
            } else {
                old(self).cell_width@
            },
            final(self).cell_height@ == if field is TerminalCellHeight {
                value@
            } else {
                old(self).cell_height@
            },
            final(self).foreground@ == if field is ThemeForeground {
                value@
            } else {
                old(self).foreground@
            },
            final(self).background@ == if field is ThemeBackground {
                value@
            } else {
                old(self).background@
            },
            final(self).cursor@ == if field is ThemeCursor {
                value@
            } else {
                old(self).cursor@
            },
            final(self).background_opacity@ == if field is ThemeBackgroundOpacity {
                value@
            } else {
                old(self).background_opacity@
            },
    {
        match field {
            SettingsField::UiWindowWidth => self.window_width = value,
            SettingsField::UiWindowHeight => self.window_height = value,
            SettingsField::TerminalCellWidth => self.cell_width = value,
            SettingsField::TerminalCellHeight => self.cell_height = value,
            SettingsField::ThemeForeground => self.foreground = value,
            SettingsField::ThemeBackground => self.background = value,
            SettingsField::ThemeCursor => self.cursor = value,
            SettingsField::ThemeBackgroundOpacity => self.background_opacity = value,
        }
    }
}

/// The lowercase hex digit of a value below 16.
pub open spec fn spec_hex_digit(n: int) -> char {
    if n == 0 {
        '0'
    } else if n == 1 {
        '1'
    } else if n == 2 {
        '2'
    } else if n == 3 {
        '3'
    } else if n == 4 {
        '4'
    } else if n == 5 {
        '5'
    } else if n == 6 {
        '6'
    } else if n == 7 {
        '7'
    } else if n == 8 {
        '8'
    } else if n == 9 {
        '9'
    } else if n == 10 {
        'a'
    } else if n == 11 {
        'b'
    } else if n == 12 {
        'c'
    } else if n == 13 {
        'd'
    } else if n == 14 {
        'e'
    } else {
        'f'
    }
}

/// `#rrggbb`, lowercase, for an RGB triple.
pub open spec fn spec_format_rgb(r: u8, g: u8, b: u8) -> Seq<char> {
    seq![
        '#',
        spec_hex_digit(r as int / 16),
        spec_hex_digit(r as int % 16),
        spec_hex_digit(g as int / 16),
        spec_hex_digit(g as int % 16),
        spec_hex_digit(b as int / 16),
        spec_hex_digit(b as int % 16),
    ]
}

fn hex_digit_str(n: u8) -> (r: &'static str)
    requires
        n < 16,
    ensures
        r@ == seq![spec_hex_digit(n as int)],
{
    proof {
        reveal_strlit("0");
        reveal_strlit("1");
        reveal_strlit("2");
        reveal_strlit("3");
        reveal_strlit("4");
        reveal_strlit("5");
        reveal_strlit("6");
        reveal_strlit("7");
        reveal_strlit("8");
        reveal_strlit("9");
        reveal_strlit("a");
        reveal_strlit("b");
        reveal_strlit("c");
        reveal_strlit("d");
        reveal_strlit("e");
        reveal_strlit("f");
    }
    let r: &'static str = if n == 0 {
        "0"
    } else if n == 1 {
        "1"
    } else if n == 2 {
        "2"
    } else if n == 3 {
        "3"
    } else if n == 4 {
        "4"
    } else if n == 5 {
        "5"
    } else if n == 6 {
        "6"
    } else if n == 7 {
        "7"
    } else if n == 8 {
        "8"
    } else if n == 9 {
        "9"
    } else if n == 10 {
        "a"
    } else if n == 11 {
        "b"
    } else if n == 12 {
        "c"
    } else if n == 13 {
        "d"
    } else if n == 14 {
        "e"
    } else {
        "f"
    };
    proof {
        assert(r@ =~= seq![spec_hex_digit(n as int)]);
    }
    r
}

/// The `#rrggbb` text of an RGB triple, as shown in the theme settings.
pub fn format_rgb(rgb: [u8; 3]) -> (r: String)
    ensures
        r@ == spec_format_rgb(rgb[0], rgb[1], rgb[2]),
{
    proof {
        reveal_strlit("#");
    }
    let mut out: String = "#".to_owned();
    out.append(hex_digit_str(rgb[0] / 16));
    out.append(hex_digit_str(rgb[0] % 16));
    out.append(hex_digit_str(rgb[1] / 16));
    out.append(hex_digit_str(rgb[1] % 16));
    out.append(hex_digit_str(rgb[2] / 16));
    out.append(hex_digit_str(rgb[2] % 16));
    proof {
        assert(out@ =~= spec_format_rgb(rgb[0], rgb[1], rgb[2]));
    }
    out
}

/// The value of a hex digit, upper or lower case; 16 marks a non-digit.
pub open spec fn spec_hex_value(c: char) -> int {
    if '0' <= c && c <= '9' {
        c as int - '0' as int
    } else if 'a' <= c && c <= 'f' {
        c as int - 'a' as int + 10
    } else if 'A' <= c && c <= 'F' {
        c as int - 'A' as int + 10
    } else {
        16
    }
}

/// What a theme color field parses to: exactly `#` followed by six hex
/// digits (either case) gives the RGB triple; anything else is rejected.
pub open spec fn spec_parse_hex_color(s: Seq<char>) -> Option<[u8; 3]> {
    if s.len() == 7 && s[0] == '#' && spec_hex_value(s[1]) < 16 && spec_hex_value(s[2]) < 16
        && spec_hex_value(s[3]) < 16 && spec_hex_value(s[4]) < 16 && spec_hex_value(s[5]) < 16
        && spec_hex_value(s[6]) < 16 {
        Some(
            [
                (spec_hex_value(s[1]) * 16 + spec_hex_value(s[2])) as u8,
                (spec_hex_value(s[3]) * 16 + spec_hex_value(s[4])) as u8,
                (spec_hex_value(s[5]) * 16 + spec_hex_value(s[6])) as u8,
            ],
        )
    } else {
        None
    }
}

fn hex_value(c: char) -> (r: u8)
    ensures
        r == spec_hex_value(c),
{
    let code: u32 = c as u32;
    if 48 <= code && code <= 57 {
        (code - 48) as u8
    } else if 97 <= code && code <= 102 {
        (code - 97 + 10) as u8
    } else if 65 <= code && code <= 70 {
        (code - 65 + 10) as u8
    } else {
        16
    }
}

/// Parse a `#rrggbb` theme color; None when the text is not exactly that
/// shape.
pub fn parse_hex_color(s: &str) -> (r: Option<[u8; 3]>)
    ensures
        r == spec_parse_hex_color(s@),
{
    if s.unicode_len() != 7 {
        return None;
    }
    let head = s.get_char(0);
    if head != '#' {
        proof {
            reveal_strlit("#");
        }
        return None;
    }
    proof {
        reveal_strlit("#");
    }
    let d1 = hex_value(s.get_char(1));
    let d2 = hex_value(s.get_char(2));
    let d3 = hex_value(s.get_char(3));
    let d4 = hex_value(s.get_char(4));
    let d5 = hex_value(s.get_char(5));
    let d6 = hex_value(s.get_char(6));
    if d1 < 16 && d2 < 16 && d3 < 16 && d4 < 16 && d5 < 16 && d6 < 16 {
        Some([d1 * 16 + d2, d3 * 16 + d4, d5 * 16 + d6])
    } else {
        None
    }
}

/// A color formatted for the settings form parses back to itself.
pub proof fn lemma_hex_color_round_trip(rgb: [u8; 3])
    ensures
        spec_parse_hex_color(spec_format_rgb(rgb[0], rgb[1], rgb[2])) == Some(rgb),
{
    let s = spec_format_rgb(rgb[0], rgb[1], rgb[2]);
    assert(spec_hex_value(s[1]) == rgb[0] as int / 16);
    assert(spec_hex_value(s[2]) == rgb[0] as int % 16);
    assert(spec_hex_value(s[3]) == rgb[1] as int / 16);
    assert(spec_hex_value(s[4]) == rgb[1] as int % 16);
    assert(spec_hex_value(s[5]) == rgb[2] as int / 16);
    assert(spec_hex_value(s[6]) == rgb[2] as int % 16);
    let parsed = spec_parse_hex_color(s);
    assert(parsed matches Some(p) && p[0] == rgb[0] && p[1] == rgb[1] && p[2] == rgb[2]);
    assert(parsed->0 =~= rgb);
}

} // verus!
