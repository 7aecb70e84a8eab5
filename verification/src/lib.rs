//! Core logic of a GPU-accelerated terminal emulator: key-event encoding,
//! cell color resolution, glyph-atlas packing, and the PTY session
//! reader state machine.

pub mod atlas;
pub mod color;
pub mod grid;
pub mod keys;
pub mod session;
pub mod settings;

use vstd::prelude::*;

verus! {

/// Dimensions of the visible terminal grid, in cells.
#[derive(Debug, Clone, Copy, PartialEq, Eq, Structural)]
pub struct TerminalSize {
    pub columns: usize,
    pub lines: usize,
}

impl TerminalSize {
    pub fn new(columns: usize, lines: usize) -> (s: Self)
        ensures
            s.columns == columns,
            s.lines == lines,
    {
        Self { columns, lines }
    }
}

} // verus!
