//! Translation of physical key events into the byte sequences a terminal
//! program expects, following xterm-like conventions.
//!
//! The encoder is a total, side-effect-free mapping; writing the bytes to
//! the session happens in the caller.

use vstd::prelude::*;

verus! {

/// A named (non-character) key, as delivered by the UI framework's
/// keyboard event.  `Other` stands for any named key this emulator does
/// not map to a byte sequence.
#[derive(Debug, Clone, Copy, PartialEq, Eq, Structural)]
pub enum NamedKey {
    Enter,
    Backspace,
    Tab,
    Escape,
    ArrowUp,
    ArrowDown,
    ArrowRight,
    ArrowLeft,
    Home,
    End,
    Delete,
    PageUp,
    PageDown,
    Insert,
    F1,
    F2,
    F3,
    F4,
    F5,
    F6,
    F7,
    F8,
    F9,
    F10,
    F11,
    F12,
    Space,
    Other,
}

/// A key event: a named key, a printable character, or something else
/// entirely (dead keys and the like).
#[derive(Debug, Clone, Copy, PartialEq, Eq, Structural)]
pub enum KeyInput {
    Named(NamedKey),
    Character(char),
    Other,
}

/// The modifier state accompanying a key event.
#[derive(Debug, Clone, Copy, PartialEq, Eq, Structural, Default)]
pub struct KeyModifiers {
    pub shift: bool,
    pub control: bool,
    pub alt: bool,
    pub logo: bool,
}

/// A lowercase ASCII letter raised to its uppercase form; anything else is
/// unchanged.
pub open spec fn spec_ascii_upper(c: char) -> int {
    if 'a' <= c && c <= 'z' {
        c as int - 32
    } else {
        c as int
    }
}

/// The byte sequence a named key produces, or None for an unmapped key.
pub open spec fn spec_encode_named(key: NamedKey, mods: KeyModifiers) -> Option<Seq<u8>> {
    match key {
        NamedKey::Enter => Some(seq![13u8]),
        NamedKey::Backspace => Some(seq![127u8]),
        NamedKey::Tab => if mods.shift {
            Some(seq![27u8, 91u8, 90u8])
        } else {
            Some(seq![9u8])
        },
        NamedKey::Escape => Some(seq![27u8]),
        NamedKey::ArrowUp => Some(seq![27u8, 91u8, 65u8]),
        NamedKey::ArrowDown => Some(seq![27u8, 91u8, 66u8]),
        NamedKey::ArrowRight => Some(seq![27u8, 91u8, 67u8]),
        NamedKey::ArrowLeft => Some(seq![27u8, 91u8, 68u8]),
        NamedKey::Home => Some(seq![27u8, 91u8, 72u8]),
        NamedKey::End => Some(seq![27u8, 91u8, 70u8]),
        NamedKey::Delete => Some(seq![27u8, 91u8, 51u8, 126u8]),
        NamedKey::PageUp => Some(seq![27u8, 91u8, 53u8, 126u8]),
        NamedKey::PageDown => Some(seq![27u8, 91u8, 54u8, 126u8]),
        NamedKey::Insert => Some(seq![27u8, 91u8, 50u8, 126u8]),
        NamedKey::F1 => Some(seq![27u8, 79u8, 80u8]),
        NamedKey::F2 => Some(seq![27u8, 79u8, 81u8]),
        NamedKey::F3 => Some(seq![27u8, 79u8, 82u8]),
        NamedKey::F4 => Some(seq![27u8, 79u8, 83u8]),
        NamedKey::F5 => Some(seq![27u8, 91u8, 49u8, 53u8, 126u8]),
        NamedKey::F6 => Some(seq![27u8, 91u8, 49u8, 55u8, 126u8]),
        NamedKey::F7 => Some(seq![27u8, 91u8, 49u8, 56u8, 126u8]),
        NamedKey::F8 => Some(seq![27u8, 91u8, 49u8, 57u8, 126u8]),
        NamedKey::F9 => Some(seq![27u8, 91u8, 50u8, 48u8, 126u8]),
        NamedKey::F10 => Some(seq![27u8, 91u8, 50u8, 49u8, 126u8]),
        NamedKey::F11 => Some(seq![27u8, 91u8, 50u8, 51u8, 126u8]),
        NamedKey::F12 => Some(seq![27u8, 91u8, 50u8, 52u8, 126u8]),
        NamedKey::Space => if mods.control {
            Some(seq![0u8])
        } else {
            Some(seq![32u8])
        },
        NamedKey::Other => None,
    }
}

/// The byte sequence a key event produces: the named-key table, the single
/// control byte for Ctrl over an ASCII letter, the composed text verbatim
/// for a plain character, and nothing otherwise.
pub open spec fn spec_encode(key: KeyInput, mods: KeyModifiers, text: Option<Seq<u8>>) -> Option<
    Seq<u8>,
> {
    match key {
        KeyInput::Named(named) => spec_encode_named(named, mods),
        KeyInput::Character(c) => if mods.control {
            let upper = spec_ascii_upper(c);
            if 65 <= upper && upper <= 90 {
                Some(seq![(upper - 64) as u8])
            } else {
                None
            }
        } else {
            text
        },
        KeyInput::Other => None,
    }
}

fn byte1(a: u8) -> (r: Vec<u8>)
    ensures
        r@ == seq![a],
{
    let mut v: Vec<u8> = Vec::new();
    v.push(a);
    proof {
        assert(v@ =~= seq![a]);
    }
    v
}

fn byte3(a: u8, b: u8, c: u8) -> (r: Vec<u8>)
    ensures
        r@ == seq![a, b, c],
{
    let mut v: Vec<u8> = Vec::new();
    v.push(a);
    v.push(b);
    v.push(c);
    proof {
        assert(v@ =~= seq![a, b, c]);
    }
    v
}

fn byte4(a: u8, b: u8, c: u8, d: u8) -> (r: Vec<u8>)
    ensures
        r@ == seq![a, b, c, d],
{
    let mut v: Vec<u8> = Vec::new();
    v.push(a);
    v.push(b);
    v.push(c);
    v.push(d);
    proof {
        assert(v@ =~= seq![a, b, c, d]);
    }
    v
}

fn byte5(a: u8, b: u8, c: u8, d: u8, e: u8) -> (r: Vec<u8>)
    ensures
        r@ == seq![a, b, c, d, e],
{
    let mut v: Vec<u8> = Vec::new();
    v.push(a);
    v.push(b);
    v.push(c);
    v.push(d);
    v.push(e);
    proof {
        assert(v@ =~= seq![a, b, c, d, e]);
    }
    v
}

/// The byte sequence to write to the PTY for one key event, or None when
/// the combination has no defined mapping.  `text` is the composed text
/// the platform supplied with the event, already as bytes.
pub fn encode_key(key: &KeyInput, mods: KeyModifiers, text: Option<&Vec<u8>>) -> (r: Option<
    Vec<u8>,
>)
    ensures
        match (r, spec_encode(*key, mods, match text {
            Some(t) => Some(t@),
            None => None,
        })) {
            (Some(v), Some(s)) => v@ == s,
            (None, None) => true,
            _ => false,
        },
{
    match key {
        KeyInput::Named(named) => match named {
            NamedKey::Enter => Some(byte1(13)),
            NamedKey::Backspace => Some(byte1(127)),
            NamedKey::Tab => if mods.shift {
                Some(byte3(27, 91, 90))
            } else {
                Some(byte1(9))
            },
            NamedKey::Escape => Some(byte1(27)),
            NamedKey::ArrowUp => Some(byte3(27, 91, 65)),
            NamedKey::ArrowDown => Some(byte3(27, 91, 66)),
            NamedKey::ArrowRight => Some(byte3(27, 91, 67)),
            NamedKey::ArrowLeft => Some(byte3(27, 91, 68)),
            NamedKey::Home => Some(byte3(27, 91, 72)),
            NamedKey::End => Some(byte3(27, 91, 70)),
            NamedKey::Delete => Some(byte4(27, 91, 51, 126)),
            NamedKey::PageUp => Some(byte4(27, 91, 53, 126)),
            NamedKey::PageDown => Some(byte4(27, 91, 54, 126)),
            NamedKey::Insert => Some(byte4(27, 91, 50, 126)),
            NamedKey::F1 => Some(byte3(27, 79, 80)),
            NamedKey::F2 => Some(byte3(27, 79, 81)),
            NamedKey::F3 => Some(byte3(27, 79, 82)),
            NamedKey::F4 => Some(byte3(27, 79, 83)),
            NamedKey::F5 => Some(byte5(27, 91, 49, 53, 126)),
            NamedKey::F6 => Some(byte5(27, 91, 49, 55, 126)),
            NamedKey::F7 => Some(byte5(27, 91, 49, 56, 126)),
            NamedKey::F8 => Some(byte5(27, 91, 49, 57, 126)),
            NamedKey::F9 => Some(byte5(27, 91, 50, 48, 126)),
            NamedKey::F10 => Some(byte5(27, 91, 50, 49, 126)),
            NamedKey::F11 => Some(byte5(27, 91, 50, 51, 126)),
            NamedKey::F12 => Some(byte5(27, 91, 50, 52, 126)),
            NamedKey::Space => if mods.control {
                Some(byte1(0))
            } else {
                Some(byte1(32))
            },
            NamedKey::Other => None,
        },
        KeyInput::Character(c) => if mods.control {
            let code: u32 = *c as u32;
            let upper: u32 = if 97 <= code && code <= 122 {
                code - 32
            } else {
                code
            };
            if 65 <= upper && upper <= 90 {
                Some(byte1((upper - 64) as u8))
            } else {
                None
            }
        } else {
            match text {
                Some(t) => Some(t.clone()),
                None => None,
            }
        },
        KeyInput::Other => None,
    }
}

} // verus!
