//! Building the render-ready cell grid from a terminal-state snapshot:
//! a blank themed grid, the snapshot cells mapped into the viewport, and
//! the cursor overlay.

use vstd::prelude::*;

use crate::TerminalSize;
use crate::color::{CellFlags, ColorSpec, NamedColor, Rgba, Theme};
use crate::color::{cursor_cell_colors, resolve_cell, spec_cursor_cell, spec_resolve_cell};

verus! {

/// Render-ready state of one grid cell: character, position, resolved
/// colors and the underline flag.  Produced fresh once per frame and
/// consumed immediately by the renderer.
#[derive(Debug, Clone, Copy, PartialEq, Eq, Structural)]
pub struct CellVisual {
    pub ch: char,
    pub col: usize,
    pub row: usize,
    pub fg: Rgba,
    pub bg: Rgba,
    pub underline: bool,
}

/// One populated cell of the terminal-state snapshot, in terminal
/// coordinates: the line may be negative while scrolled into history.
#[derive(Debug, Clone, Copy)]
pub struct SnapshotCell {
    pub line: i32,
    pub column: usize,
    pub ch: char,
    pub fg: ColorSpec,
    pub bg: ColorSpec,
    pub flags: CellFlags,
}

/// The snapshot's cursor: its shape reduced to whether it is hidden, and
/// its position in viewport coordinates.
#[derive(Debug, Clone, Copy, PartialEq, Eq, Structural)]
pub struct CursorState {
    pub hidden: bool,
    pub line: i32,
    pub column: usize,
}

/// Relies on alacritty_terminal::term::point_to_viewport: it adds the
/// display offset to the terminal line and keeps the column, returning
/// None for lines still above the viewport (negative after the shift).
#[verifier::external_body]
fn grid_point_to_viewport(display_offset: usize, line: i32, column: usize) -> (r: Option<
    (usize, usize),
>)
    requires
        display_offset <= 0x7FFF_FFFF,
        line + display_offset <= 0x7FFF_FFFF,
    ensures
        line + display_offset >= 0 ==> r == Some((((line + display_offset) as usize), column)),
        line + display_offset < 0 ==> r is None,
{
    alacritty_terminal::term::point_to_viewport(
        display_offset,
        alacritty_terminal::index::Point::new(
            alacritty_terminal::index::Line(line),
            alacritty_terminal::index::Column(column),
        ),
    ).map(|p| (p.line, p.column.0))
}

/// The cell an empty grid slot shows: a space in the theme's semantic
/// foreground and background.
pub open spec fn spec_blank_cell(col: int, row: int, theme: Theme) -> CellVisual {
    let resolved = spec_resolve_cell(
        ColorSpec::Named(NamedColor::Foreground),
        ColorSpec::Named(NamedColor::Background),
        CellFlags { bold: false, dim: false, inverse: false, hidden: false, underline: false },
        theme,
    );
    CellVisual {
        ch: ' ',
        col: col as usize,
        row: row as usize,
        fg: resolved.0,
        bg: resolved.1,
        underline: false,
    }
}

/// A lines x columns grid of blank cells, row-major.
pub open spec fn spec_blank_grid(size: TerminalSize, theme: Theme) -> Seq<CellVisual> {
    Seq::new(
        (size.lines * size.columns) as nat,
        |i: int| spec_blank_cell(i % (size.columns as int), i / (size.columns as int), theme),
    )
}

/// One snapshot cell placed into the grid: mapped into the viewport by
/// the display offset, dropped when it falls outside, with its colors
/// resolved against the theme.
pub open spec fn spec_place_cell(
    grid: Seq<CellVisual>,
    size: TerminalSize,
    theme: Theme,
    display_offset: usize,
    cell: SnapshotCell,
) -> Seq<CellVisual> {
    let vp_line = cell.line + display_offset;
    if vp_line >= 0 && vp_line < size.lines && cell.column < size.columns {
        let resolved = spec_resolve_cell(cell.fg, cell.bg, cell.flags, theme);
        grid.update(
            vp_line * (size.columns as int) + cell.column,
            CellVisual {
                ch: cell.ch,
                col: cell.column,
                row: vp_line as usize,
                fg: resolved.0,
                bg: resolved.1,
                underline: cell.flags.underline,
            },
        )
    } else {
        grid
    }
}

/// All snapshot cells placed into the grid, in order.
pub open spec fn spec_apply_snapshot(
    grid: Seq<CellVisual>,
    size: TerminalSize,
    theme: Theme,
    display_offset: usize,
    cells: Seq<SnapshotCell>,
) -> Seq<CellVisual>
    decreases cells.len(),
{
    if cells.len() == 0 {
        grid
    } else {
        spec_apply_snapshot(
            spec_place_cell(grid, size, theme, display_offset, cells[0]),
            size,
            theme,
            display_offset,
            cells.drop_first(),
        )
    }
}

/// The cursor carved into the grid: a visible cursor inside the viewport
/// swaps or derives its cell's colors (see [`spec_cursor_cell`]); a
/// hidden or out-of-range cursor leaves the grid alone.
pub open spec fn spec_overlay_cursor(
    grid: Seq<CellVisual>,
    size: TerminalSize,
    cursor: CursorState,
) -> Seq<CellVisual> {
    if !cursor.hidden && 0 <= cursor.line < size.lines && cursor.column < size.columns {
        let idx = cursor.line * (size.columns as int) + cursor.column;
        let cell = grid[idx];
        let colors = spec_cursor_cell(cell.fg, cell.bg);
        grid.update(idx, CellVisual { fg: colors.0, bg: colors.1, ..cell })
    } else {
        grid
    }
}

/// The whole frame: blank themed grid, snapshot applied, cursor overlaid.
pub open spec fn spec_grid(
    size: TerminalSize,
    theme: Theme,
    display_offset: usize,
    cells: Seq<SnapshotCell>,
    cursor: CursorState,
) -> Seq<CellVisual> {
    spec_overlay_cursor(
        spec_apply_snapshot(spec_blank_grid(size, theme), size, theme, display_offset, cells),
        size,
        cursor,
    )
}

/// Build the frame's cell grid from a terminal-state snapshot: every slot
/// starts blank in the theme's colors, each populated snapshot cell is
/// mapped into the viewport and resolved, and the cursor (when visible)
/// is carved out of its cell's colors.
pub fn build_grid(
    size: TerminalSize,
    theme: &Theme,
    display_offset: usize,
    cells: &Vec<SnapshotCell>,
    cursor: CursorState,
) -> (grid: Vec<CellVisual>)
    requires
        size.lines * size.columns <= usize::MAX,
        display_offset <= 0x7FFF_FFFF,
        forall|i: int|
            0 <= i < cells@.len() ==> (#[trigger] cells@[i]).line + display_offset
                <= 0x7FFF_FFFF,
    ensures
        grid@ == spec_grid(size, *theme, display_offset, cells@, cursor),
        grid@.len() == size.lines * size.columns,
{
    let columns: usize = size.columns;
    let lines: usize = size.lines;
    let mut grid: Vec<CellVisual> = Vec::new();
    let mut row: usize = 0;
    while row < lines
        invariant
            row <= lines,
            columns == size.columns,
            lines == size.lines,
            lines * columns <= usize::MAX,
            grid@.len() == row * columns,
            forall|i: int| 0 <= i < grid@.len() ==> #[trigger] grid@[i] == spec_blank_grid(
                size,
                *theme,
            )[i],
        decreases lines - row,
    {
        proof {
            vstd::arithmetic::mul::lemma_mul_inequality(
                row as int + 1,
                lines as int,
                columns as int,
            );
            vstd::arithmetic::mul::lemma_mul_is_distributive_add_other_way(
                columns as int,
                row as int,
                1,
            );
        }
        let mut col: usize = 0;
        while col < columns
            invariant
                col <= columns,
                row < lines,
                columns == size.columns,
                lines == size.lines,
                lines * columns <= usize::MAX,
                row * columns + columns <= lines * columns,
                grid@.len() == row * columns + col,
                forall|i: int| 0 <= i < grid@.len() ==> #[trigger] grid@[i] == spec_blank_grid(
                    size,
                    *theme,
                )[i],
            decreases columns - col,
        {
            let resolved = resolve_cell(
                &ColorSpec::Named(NamedColor::Foreground),
                &ColorSpec::Named(NamedColor::Background),
                CellFlags {
                    bold: false,
                    dim: false,
                    inverse: false,
                    hidden: false,
                    underline: false,
                },
                theme,
            );
            grid.push(
                CellVisual { ch: ' ', col, row, fg: resolved.0, bg: resolved.1, underline: false },
            );
            proof {
                let idx = row * (columns as int) + col;
                vstd::arithmetic::div_mod::lemma_fundamental_div_mod_converse(
                    idx,
                    columns as int,
                    row as int,
                    col as int,
                );
                assert(grid@[idx] == spec_blank_grid(size, *theme)[idx]);
            }
            col = col + 1;
        }
        row = row + 1;
        proof {
            vstd::arithmetic::mul::lemma_mul_is_distributive_add_other_way(
                columns as int,
                row as int - 1,
                1,
            );
        }
    }
    proof {
        vstd::arithmetic::mul::lemma_mul_is_commutative(lines as int, columns as int);
        assert(grid@ =~= spec_blank_grid(size, *theme));
    }
    let ghost blank = spec_blank_grid(size, *theme);
    let ghost all = cells@;
    let mut i: usize = 0;
    proof {
        assert(all.skip(0) =~= all);
        assert(grid@ == blank);
    }
    while i < cells.len()
        invariant
            i <= cells@.len(),
            all == cells@,
            columns == size.columns,
            lines == size.lines,
            lines * columns <= usize::MAX,
            display_offset <= 0x7FFF_FFFF,
            forall|j: int|
                0 <= j < cells@.len() ==> (#[trigger] cells@[j]).line + display_offset
                    <= 0x7FFF_FFFF,
            grid@.len() == lines * columns,
            spec_apply_snapshot(blank, size, *theme, display_offset, all) == spec_apply_snapshot(
                grid@,
                size,
                *theme,
                display_offset,
                all.skip(i as int),
            ),
        decreases cells@.len() - i,
    {
        let ghost rest = all.skip(i as int);
        proof {
            assert(rest[0] == all[i as int]);
            assert(rest.drop_first() =~= all.skip(i as int + 1));
        }
        let cell = cells[i];
        match grid_point_to_viewport(display_offset, cell.line, cell.column) {
            Some((vp_line, vp_col)) => {
                if vp_line < lines && vp_col < columns {
                    proof {
                        vstd::arithmetic::mul::lemma_mul_inequality(
                            vp_line as int + 1,
                            lines as int,
                            columns as int,
                        );
                        vstd::arithmetic::mul::lemma_mul_is_distributive_add_other_way(
                            columns as int,
                            vp_line as int,
                            1,
                        );
                    }
                    let resolved = resolve_cell(&cell.fg, &cell.bg, cell.flags, theme);
                    let idx: usize = vp_line * columns + vp_col;
                    grid[idx] = CellVisual {
                        ch: cell.ch,
                        col: vp_col,
                        row: vp_line,
                        fg: resolved.0,
                        bg: resolved.1,
                        underline: cell.flags.underline,
                    };
                }
            },
            None => {},
        }
        i = i + 1;
    }
    proof {
        assert(all.skip(cells@.len() as int) =~= Seq::<SnapshotCell>::empty());
    }
    if !cursor.hidden && cursor.line >= 0 {
        let cur_line: usize = cursor.line as usize;
        if cur_line < lines && cursor.column < columns {
            proof {
                vstd::arithmetic::mul::lemma_mul_inequality(
                    cur_line as int + 1,
                    lines as int,
                    columns as int,
                );
                vstd::arithmetic::mul::lemma_mul_is_distributive_add_other_way(
                    columns as int,
                    cur_line as int,
                    1,
                );
            }
            let idx: usize = cur_line * columns + cursor.column;
            let cell = grid[idx];
            let colors = cursor_cell_colors(cell.fg, cell.bg);
            grid[idx] = CellVisual { fg: colors.0, bg: colors.1, ..cell };
        }
    }
    grid
}

} // verus!
