use rabitty::TerminalSize;
use rabitty::color::{CellFlags, ColorSpec, Rgb, Rgba, Theme};
use rabitty::grid::{CursorState, SnapshotCell, build_grid};

fn theme() -> Theme {
    Theme {
        foreground: Rgb { r: 217, g: 224, b: 237 },
        background: Rgb { r: 16, g: 16, b: 20 },
        cursor: Rgb { r: 255, g: 255, b: 255 },
        ansi: [Rgb { r: 0, g: 0, b: 0 }; 16],
        background_alpha: 255,
    }
}

fn hidden_cursor() -> CursorState {
    CursorState { hidden: true, line: 0, column: 0 }
}

fn snapshot_cell(line: i32, column: usize, ch: char) -> SnapshotCell {
    SnapshotCell {
        line,
        column,
        ch,
        fg: ColorSpec::Rgb(Rgb { r: 1, g: 2, b: 3 }),
        bg: ColorSpec::Rgb(Rgb { r: 4, g: 5, b: 6 }),
        flags: CellFlags::default(),
    }
}

#[test]
fn blank_grid_covers_every_cell() {
    let size = TerminalSize::new(4, 3);
    let grid = build_grid(size, &theme(), 0, &Vec::new(), hidden_cursor());
    assert_eq!(grid.len(), 12);
    for (i, cell) in grid.iter().enumerate() {
        assert_eq!(cell.ch, ' ');
        assert_eq!(cell.col, i % 4);
        assert_eq!(cell.row, i / 4);
        assert_eq!(cell.fg, Rgba { r: 217, g: 224, b: 237, a: 255 });
        assert_eq!(cell.bg, Rgba { r: 16, g: 16, b: 20, a: 255 });
    }
}

#[test]
fn snapshot_cells_land_at_their_positions() {
    let size = TerminalSize::new(4, 3);
    let cells = vec![snapshot_cell(1, 2, 'x')];
    let grid = build_grid(size, &theme(), 0, &cells, hidden_cursor());
    let cell = grid[1 * 4 + 2];
    assert_eq!(cell.ch, 'x');
    assert_eq!(cell.fg, Rgba { r: 1, g: 2, b: 3, a: 255 });
    assert_eq!(cell.bg, Rgba { r: 4, g: 5, b: 6, a: 255 });
    // every other cell stays blank
    assert_eq!(grid[0].ch, ' ');
    assert_eq!(grid[11].ch, ' ');
}

#[test]
fn display_offset_shifts_lines_into_the_viewport() {
    // While scrolled back two lines, terminal line -2 shows at viewport
    // row 0 and line 0 at row 2; a line below the viewport is dropped.
    let size = TerminalSize::new(4, 3);
    let cells = vec![
        snapshot_cell(-2, 0, 'a'),
        snapshot_cell(0, 1, 'b'),
        snapshot_cell(-3, 0, 'c'),
        snapshot_cell(1, 0, 'd'),
    ];
    let grid = build_grid(size, &theme(), 2, &cells, hidden_cursor());
    assert_eq!(grid[0].ch, 'a');
    assert_eq!(grid[2 * 4 + 1].ch, 'b');
    // 'c' maps above the viewport, 'd' below it: both dropped
    let drawn: Vec<char> = grid.iter().map(|c| c.ch).filter(|c| *c != ' ').collect();
    assert_eq!(drawn, vec!['a', 'b']);
}

#[test]
fn visible_cursor_carves_its_cell() {
    let size = TerminalSize::new(2, 2);
    let cursor = CursorState { hidden: false, line: 1, column: 0 };
    let grid = build_grid(size, &theme(), 0, &Vec::new(), cursor);
    // the blank cell has an opaque background, so the cursor swaps colors
    let cell = grid[2];
    assert_eq!(cell.fg, Rgba { r: 16, g: 16, b: 20, a: 255 });
    assert_eq!(cell.bg, Rgba { r: 217, g: 224, b: 237, a: 255 });
    // other cells keep the blank colors
    assert_eq!(grid[0].fg, Rgba { r: 217, g: 224, b: 237, a: 255 });
}

#[test]
fn transparent_background_cursor_derives_from_foreground() {
    // With a fully transparent themed background, a bright foreground
    // gives a black-on-foreground cursor block.
    let mut t = theme();
    t.background_alpha = 0;
    let size = TerminalSize::new(2, 1);
    let cursor = CursorState { hidden: false, line: 0, column: 1 };
    let grid = build_grid(size, &t, 0, &Vec::new(), cursor);
    let cell = grid[1];
    assert_eq!(cell.fg, Rgba { r: 0, g: 0, b: 0, a: 255 });
    assert_eq!(cell.bg, Rgba { r: 217, g: 224, b: 237, a: 255 });
}

#[test]
fn out_of_range_cursor_changes_nothing() {
    let size = TerminalSize::new(2, 2);
    let cursor = CursorState { hidden: false, line: 5, column: 0 };
    let grid = build_grid(size, &theme(), 0, &Vec::new(), cursor);
    for cell in &grid {
        assert_eq!(cell.fg, Rgba { r: 217, g: 224, b: 237, a: 255 });
    }
    let negative = CursorState { hidden: false, line: -1, column: 0 };
    let grid2 = build_grid(size, &theme(), 0, &Vec::new(), negative);
    for cell in &grid2 {
        assert_eq!(cell.fg, Rgba { r: 217, g: 224, b: 237, a: 255 });
    }
}
