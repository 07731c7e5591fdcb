//! Grid engine tests: resize, line updates, region scrolls, and the
//! line-number heuristics.

use nvim_ui::color::Rgb;
use nvim_ui::grid::{Grid, GridCell};
use nvim_ui::protocol::{GridCell as ProtoCell, HighlightAttrs};

fn default_cell() -> GridCell {
    GridCell {
        character: ' ',
        fg: Rgb { r: 255, g: 255, b: 255 },
        bg: Rgb { r: 0, g: 0, b: 0 },
        sp: Rgb { r: 255, g: 0, b: 0 },
        bold: false,
        italic: false,
        underline: false,
    }
}

fn run(text: &str, hl_id: Option<u64>, repeat: u64) -> ProtoCell {
    ProtoCell { text: text.to_string(), hl_id, repeat }
}

fn write_row(grid: &mut Grid, row: usize, text: &str) {
    let runs: Vec<ProtoCell> = text.chars().map(|ch| run(&ch.to_string(), None, 1)).collect();
    grid.update_line(row, 0, &runs);
}

fn row_string(grid: &Grid, row: usize) -> String {
    let (width, _) = grid.dimensions();
    (0..width).map(|c| grid.get_cell(row, c).unwrap().character).collect()
}

#[test]
fn resize_fills_with_defaults() {
    let mut grid = Grid::new(4, 2);
    write_row(&mut grid, 0, "abcd");
    grid.resize(3, 5);
    let (w, h) = grid.dimensions();
    assert_eq!((w, h), (3, 5));
    assert_eq!(grid.cells().len(), 15);
    for r in 0..5 {
        for c in 0..3 {
            assert_eq!(grid.get_cell(r, c).unwrap(), default_cell());
        }
    }
}

#[test]
fn update_line_writes_repeat_run() {
    let mut grid = Grid::new(10, 3);
    grid.update_line(1, 2, &[run("A", None, 3)]);
    for c in 0..10 {
        let cell = grid.get_cell(1, c).unwrap();
        if (2..5).contains(&c) {
            assert_eq!(cell.character, 'A');
        } else {
            assert_eq!(cell, default_cell());
        }
    }
    for c in 0..10 {
        assert_eq!(grid.get_cell(0, c).unwrap(), default_cell());
        assert_eq!(grid.get_cell(2, c).unwrap(), default_cell());
    }
}

#[test]
fn update_line_truncates_at_row_end() {
    let mut grid = Grid::new(4, 2);
    grid.update_line(0, 2, &[run("x", None, 5)]);
    assert_eq!(row_string(&grid, 0), "  xx");
    assert_eq!(row_string(&grid, 1), "    ");
}

#[test]
fn update_line_ignores_missing_row() {
    let mut grid = Grid::new(4, 2);
    grid.update_line(7, 0, &[run("x", None, 2)]);
    assert_eq!(row_string(&grid, 0), "    ");
    assert_eq!(row_string(&grid, 1), "    ");
}

#[test]
fn update_line_resolves_highlights() {
    let mut grid = Grid::new(4, 1);
    let red = Rgb { r: 200, g: 10, b: 10 };
    let attrs = HighlightAttrs {
        foreground: Some(red),
        background: None,
        special: None,
        reverse: false,
        italic: true,
        bold: true,
        strikethrough: false,
        underline: false,
        undercurl: true,
        blend: None,
    };
    grid.define_hl_attr(7, attrs);
    grid.update_line(0, 0, &[run("Q", Some(7), 2)]);
    let cell = grid.get_cell(0, 0).unwrap();
    assert_eq!(cell.character, 'Q');
    assert_eq!(cell.fg, red);
    assert_eq!(cell.bg, Rgb { r: 0, g: 0, b: 0 });
    assert!(cell.bold && cell.italic);
    assert!(cell.underline, "undercurl renders as underline");
}

#[test]
fn scroll_region_moves_content_up() {
    let mut grid = Grid::new(5, 4);
    write_row(&mut grid, 0, "aaaaa");
    write_row(&mut grid, 1, "bbbbb");
    write_row(&mut grid, 2, "ccccc");
    write_row(&mut grid, 3, "ddddd");
    grid.scroll_region(0, 4, 0, 5, 1, 0);
    assert_eq!(row_string(&grid, 0), "bbbbb");
    assert_eq!(row_string(&grid, 1), "ccccc");
    assert_eq!(row_string(&grid, 2), "ddddd");
    assert_eq!(row_string(&grid, 3), "     ");
}

#[test]
fn scroll_region_moves_content_down() {
    let mut grid = Grid::new(5, 4);
    write_row(&mut grid, 0, "aaaaa");
    write_row(&mut grid, 1, "bbbbb");
    write_row(&mut grid, 2, "ccccc");
    write_row(&mut grid, 3, "ddddd");
    grid.scroll_region(0, 4, 0, 5, -2, 0);
    assert_eq!(row_string(&grid, 0), "     ");
    assert_eq!(row_string(&grid, 1), "     ");
    assert_eq!(row_string(&grid, 2), "aaaaa");
    assert_eq!(row_string(&grid, 3), "bbbbb");
}

#[test]
fn scroll_region_respects_columns() {
    let mut grid = Grid::new(6, 3);
    write_row(&mut grid, 0, "aaaXXa");
    write_row(&mut grid, 1, "bbbYYb");
    write_row(&mut grid, 2, "cccZZc");
    grid.scroll_region(0, 3, 3, 5, 1, 0);
    assert_eq!(row_string(&grid, 0), "aaaYYa");
    assert_eq!(row_string(&grid, 1), "bbbZZb");
    assert_eq!(row_string(&grid, 2), "ccc  c");
}

#[test]
fn scroll_round_trip_restores_interior() {
    let mut grid = Grid::new(5, 5);
    for (r, t) in ["11111", "22222", "33333", "44444", "55555"].iter().enumerate() {
        write_row(&mut grid, r, t);
    }
    grid.scroll_region(0, 5, 0, 5, 2, 0);
    grid.scroll_region(0, 5, 0, 5, -2, 0);
    // rows whose shifted source stayed inside the region are restored
    assert_eq!(row_string(&grid, 2), "33333");
    assert_eq!(row_string(&grid, 3), "44444");
    assert_eq!(row_string(&grid, 4), "55555");
    // rows exposed at the edge end as default cells
    assert_eq!(row_string(&grid, 0), "     ");
    assert_eq!(row_string(&grid, 1), "     ");
}

#[test]
fn out_of_bounds_region_is_clamped() {
    let mut grid = Grid::new(3, 2);
    write_row(&mut grid, 0, "abc");
    write_row(&mut grid, 1, "def");
    grid.scroll_region(0, 99, 0, 99, 1, 0);
    assert_eq!(row_string(&grid, 0), "def");
    assert_eq!(row_string(&grid, 1), "   ");
}

#[test]
fn cursor_is_not_bounds_checked() {
    let mut grid = Grid::new(3, 2);
    grid.set_cursor(40, 77);
    assert_eq!(grid.cursor(), (40, 77));
}

#[test]
fn default_colors_update_partially() {
    let mut grid = Grid::new(2, 1);
    let teal = Rgb { r: 0, g: 128, b: 128 };
    grid.set_default_colors(None, Some(teal), None);
    grid.update_line(0, 0, &[run("z", None, 1)]);
    let cell = grid.get_cell(0, 0).unwrap();
    assert_eq!(cell.bg, teal);
    assert_eq!(cell.fg, Rgb { r: 255, g: 255, b: 255 });
}

#[test]
fn top_line_number_parses_margin() {
    let mut grid = Grid::new(8, 3);
    write_row(&mut grid, 0, "  12 fn ");
    assert_eq!(grid.get_top_line_number(), Some(12));
}

#[test]
fn top_line_number_rejects_blank_margin() {
    let mut grid = Grid::new(8, 3);
    write_row(&mut grid, 0, "   ~    ");
    assert_eq!(grid.get_top_line_number(), None);
}

#[test]
fn top_line_number_needs_wide_enough_grid() {
    let grid = Grid::new(4, 3);
    assert_eq!(grid.get_top_line_number(), None);
}

#[test]
fn bottom_line_number_reads_third_last_row() {
    let mut grid = Grid::new(8, 5);
    write_row(&mut grid, 2, "  204 x ");
    assert_eq!(grid.get_bottom_line_number(), Some(204));
}

#[test]
fn last_row_empty_when_unnumbered() {
    let mut grid = Grid::new(8, 3);
    assert!(grid.last_row_is_empty());
    write_row(&mut grid, 2, "    7 ok");
    assert!(!grid.last_row_is_empty());
}

#[test]
fn clear_resets_cells_but_keeps_highlights() {
    let mut grid = Grid::new(3, 2);
    grid.define_hl_attr(3, HighlightAttrs::default());
    write_row(&mut grid, 0, "xyz");
    grid.clear();
    assert_eq!(row_string(&grid, 0), "   ");
    // the highlight table survives a clear: resolving id 3 still works
    grid.update_line(0, 0, &[run("q", Some(3), 1)]);
    assert_eq!(grid.get_cell(0, 0).unwrap().character, 'q');
}
