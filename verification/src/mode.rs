//! The UI session state driven on the presentation tick: the grid, the
//! renderer bridge, and the scroll-boundary policy.
//!
//! The unverified shell owns the subprocess and its reader; it polls events
//! and hands each one here, where the grid mutation and the bridge
//! bookkeeping are applied in order.

use vstd::prelude::*;

use crate::bridge::NvimRendererBridge;
use crate::color::Rgb;
use crate::grid::{
    Grid, cells_updated_to, clamped_bottom, clamped_left, clamped_right, clamped_top, scroll_rel,
    spec_default_cell, spec_expand,
};
use crate::protocol::{NvimResponse, RedrawEvent};
use crate::render::{CellFlags, RenderableCell};
use crate::wire::{WireValue, spec_as_u64};

verus! {

/// Two grids hold the same state.
pub open spec fn grid_equal(a: &Grid, b: &Grid) -> bool {
    &&& b.same_meta(a)
    &&& b.cells_seq() == a.cells_seq()
}

/// A signed wire coordinate clamped into the machine's index range.
pub open spec fn spec_clamp_coord(v: i64) -> int {
    if v < 0 {
        0int
    } else if v > usize::MAX {
        usize::MAX as int
    } else {
        v as int
    }
}

/// Clamp a signed wire coordinate into the machine's index range.
fn clamp_coord(v: i64) -> (r: usize)
    ensures
        r == spec_clamp_coord(v),
{
    if v < 0 {
        0
    } else if v as u64 > usize::MAX as u64 {
        usize::MAX
    } else {
        v as usize
    }
}

/// The backgrounds the selection heuristic singles out.
pub open spec fn spec_selection_blue() -> Rgb {
    Rgb { r: 70, g: 130, b: 255 }
}

/// The approximate session default background the heuristic ignores.
pub open spec fn spec_default_bg_approx() -> Rgb {
    Rgb { r: 30, g: 30, b: 46 }
}

/// Whether a cell's background marks it as selected: the selection blue, or
/// any background that is neither the approximate default nor plain black.
pub open spec fn spec_sel_bg(g: &Grid, row: int, col: int) -> bool {
    let bg = g.cell(row, col).bg;
    bg == spec_selection_blue() || (bg != spec_default_bg_approx() && bg != (Rgb {
        r: 0,
        g: 0,
        b: 0,
    }))
}

/// The background a cell is rendered with: selection blue when the cell
/// lies between two selected cells of its row (inclusive), else its own.
pub open spec fn spec_render_bg(g: &Grid, row: int, col: int) -> Rgb {
    if (exists|c1: int| 0 <= c1 <= col && spec_sel_bg(g, row, c1)) && (exists|c2: int|
        col <= c2 < g.spec_width() && spec_sel_bg(g, row, c2)) {
        spec_selection_blue()
    } else {
        g.cell(row, col).bg
    }
}

/// The renderable cell generated for one grid position.
pub open spec fn spec_rendered_cell(g: &Grid, row: int, col: int) -> RenderableCell {
    let cell = g.cell(row, col);
    RenderableCell {
        line: row as usize,
        column: col as usize,
        character: cell.character,
        flags: CellFlags {
            bold: cell.bold,
            italic: cell.italic,
            underline: cell.underline,
            wide_char: false,
        },
        fg: cell.fg,
        bg: spec_render_bg(g, row, col),
        underline: cell.sp,
    }
}


/// What pass one of the cell generator records for a row: the first and
/// last selected columns, or nothing when the row has no selected cell.
pub open spec fn row_sel_ok(g: &Grid, row: int, entry: Option<(usize, usize)>) -> bool {
    match entry {
        Some(fl) => {
            &&& fl.0 <= fl.1 < g.spec_width()
            &&& spec_sel_bg(g, row, fl.0 as int)
            &&& spec_sel_bg(g, row, fl.1 as int)
            &&& forall|c: int| 0 <= c < fl.0 ==> !#[trigger] spec_sel_bg(g, row, c)
            &&& forall|c: int| fl.1 < c < g.spec_width() ==> !#[trigger] spec_sel_bg(g, row, c)
        },
        None => forall|c: int| 0 <= c < g.spec_width() ==> !#[trigger] spec_sel_bg(g, row, c),
    }
}

/// The session state: grid, bridge, activity flag, and the cached last
/// buffer line used for bottom-boundary detection.
pub struct NvimMode {
    grid: Grid,
    renderer_bridge: NvimRendererBridge,
    active: bool,
    buffer_last_line: Option<u32>,
}

impl NvimMode {
    /// The grid.
    pub closed spec fn spec_grid(&self) -> Grid {
        self.grid
    }

    /// The renderer bridge.
    pub closed spec fn spec_bridge(&self) -> NvimRendererBridge {
        self.renderer_bridge
    }

    /// Whether the session is active.
    pub closed spec fn spec_active(&self) -> bool {
        self.active
    }

    /// The last line of the buffer, as last reported by the editor.
    pub closed spec fn spec_buffer_last_line(&self) -> Option<u32> {
        self.buffer_last_line
    }

    /// The state is sound when its grid is.
    pub open spec fn wf(&self) -> bool {
        self.spec_grid().wf()
    }

    /// A fresh session over a grid of the given size.
    pub fn new(width: usize, height: usize) -> (r: NvimMode)
        requires
            width * height <= usize::MAX,
        ensures
            r.wf(),
            r.spec_active(),
            r.spec_buffer_last_line() is None,
            r.spec_grid().spec_width() == width,
            r.spec_grid().spec_height() == height,
            forall|row: int, col: int|
                0 <= row < height && 0 <= col < width ==> r.spec_grid().cell(row, col)
                    == spec_default_cell(),
            !r.spec_bridge().spec_received_grid_scroll(),
            r.spec_bridge().spec_active_scroll_region() is None,
    {
        NvimMode {
            grid: Grid::new(width, height),
            renderer_bridge: NvimRendererBridge::new(),
            active: true,
            buffer_last_line: None,
        }
    }

    /// Apply one redraw event: grid mutations address grid 1 only, scroll
    /// and cursor events also feed the renderer bridge, and events this
    /// client does not interpret change nothing.
    #[verifier::rlimit(100)]
    pub fn apply_redraw_event(&mut self, event: &RedrawEvent)
        requires
            old(self).wf(),
        ensures
            final(self).wf(),
            final(self).spec_active() == old(self).spec_active(),
            final(self).spec_buffer_last_line() == old(self).spec_buffer_last_line(),
            match *event {
                RedrawEvent::GridLine { grid, row, col_start, cells } => {
                    &&& final(self).spec_bridge() == old(self).spec_bridge()
                    &&& if grid == 1 && row <= usize::MAX && col_start <= usize::MAX {
                        &&& final(self).spec_grid().same_meta(&old(self).spec_grid())
                        &&& (row >= old(self).spec_grid().spec_height() ==> final(self).spec_grid().cells_seq() == old(self).spec_grid().cells_seq())
                        &&& (row < old(self).spec_grid().spec_height() ==> cells_updated_to(
                            &old(self).spec_grid(),
                            &final(self).spec_grid(),
                            row as int,
                            col_start as int,
                            spec_expand(cells@),
                        ))
                    } else {
                        grid_equal(&old(self).spec_grid(), &final(self).spec_grid())
                    }
                },
                RedrawEvent::GridScroll { grid, top, bottom, left, right, rows, cols } => {
                    &&& if grid == 1 {
                        scroll_rel(
                            &old(self).spec_grid(),
                            &final(self).spec_grid(),
                            clamped_top(
                                &old(self).spec_grid(),
                                spec_clamp_coord(top),
                                spec_clamp_coord(bottom),
                            ),
                            clamped_bottom(&old(self).spec_grid(), spec_clamp_coord(bottom)),
                            clamped_left(
                                &old(self).spec_grid(),
                                spec_clamp_coord(left),
                                spec_clamp_coord(right),
                            ),
                            clamped_right(&old(self).spec_grid(), spec_clamp_coord(right)),
                            rows as int,
                        )
                    } else {
                        grid_equal(&old(self).spec_grid(), &final(self).spec_grid())
                    }
                    &&& final(self).spec_bridge().spec_received_grid_scroll()
                    &&& final(self).spec_bridge().spec_active_scroll_region() == Some(
                        (top, bottom),
                    )
                    &&& final(self).spec_bridge().spec_last_scroll_rows() == rows
                    &&& final(self).spec_bridge().same_settings(&old(self).spec_bridge())
                    &&& final(self).spec_bridge().spec_cursor_row() == old(self).spec_bridge().spec_cursor_row()
                },
                RedrawEvent::GridResize { grid, width, height } => {
                    &&& final(self).spec_bridge() == old(self).spec_bridge()
                    &&& if grid == 1 && width <= usize::MAX && height <= usize::MAX && width
                        * height <= usize::MAX {
                        &&& final(self).spec_grid().spec_width() == width
                        &&& final(self).spec_grid().spec_height() == height
                        &&& final(self).spec_grid().hl_map() == old(self).spec_grid().hl_map()
                        &&& final(self).spec_grid().spec_cursor() == old(self).spec_grid().spec_cursor()
                        &&& forall|r: int, c: int|
                            0 <= r < height && 0 <= c < width ==> final(self).spec_grid().cell(
                                r,
                                c,
                            ) == spec_default_cell()
                    } else {
                        grid_equal(&old(self).spec_grid(), &final(self).spec_grid())
                    }
                },
                RedrawEvent::GridClear { grid } => {
                    &&& final(self).spec_bridge() == old(self).spec_bridge()
                    &&& if grid == 1 {
                        &&& final(self).spec_grid().same_meta(&old(self).spec_grid())
                        &&& forall|r: int, c: int|
                            0 <= r < old(self).spec_grid().spec_height() && 0 <= c < old(self).spec_grid().spec_width() ==> final(self).spec_grid().cell(r, c)
                                == spec_default_cell()
                    } else {
                        grid_equal(&old(self).spec_grid(), &final(self).spec_grid())
                    }
                },
                RedrawEvent::GridCursorGoto { grid, row, col } => {
                    &&& if grid == 1 && row <= usize::MAX && col <= usize::MAX {
                        &&& final(self).spec_grid().spec_cursor() == (row as int, col as int)
                        &&& final(self).spec_grid().cells_seq() == old(self).spec_grid().cells_seq()
                        &&& final(self).spec_grid().spec_width() == old(self).spec_grid().spec_width()
                        &&& final(self).spec_grid().spec_height() == old(self).spec_grid().spec_height()
                        &&& final(self).spec_grid().hl_map() == old(self).spec_grid().hl_map()
                    } else {
                        grid_equal(&old(self).spec_grid(), &final(self).spec_grid())
                    }
                    &&& final(self).spec_bridge().spec_cursor_row() == row
                    &&& final(self).spec_bridge().spec_prev_cursor_row() == old(self).spec_bridge().spec_cursor_row()
                    &&& final(self).spec_bridge().same_settings(&old(self).spec_bridge())
                    &&& final(self).spec_bridge().spec_received_grid_scroll() == old(self).spec_bridge().spec_received_grid_scroll()
                },
                RedrawEvent::DefaultColorsSet { fg, bg, sp } => {
                    &&& final(self).spec_bridge() == old(self).spec_bridge()
                    &&& final(self).spec_grid().spec_default_fg() == if fg is Some {
                        fg->0
                    } else {
                        old(self).spec_grid().spec_default_fg()
                    }
                    &&& final(self).spec_grid().spec_default_bg() == if bg is Some {
                        bg->0
                    } else {
                        old(self).spec_grid().spec_default_bg()
                    }
                    &&& final(self).spec_grid().spec_default_sp() == if sp is Some {
                        sp->0
                    } else {
                        old(self).spec_grid().spec_default_sp()
                    }
                    &&& final(self).spec_grid().cells_seq() == old(self).spec_grid().cells_seq()
                    &&& final(self).spec_grid().hl_map() == old(self).spec_grid().hl_map()
                    &&& final(self).spec_grid().spec_width() == old(self).spec_grid().spec_width()
                    &&& final(self).spec_grid().spec_height() == old(self).spec_grid().spec_height()
                },
                RedrawEvent::HlAttrDefine { id, attrs } => {
                    &&& final(self).spec_bridge() == old(self).spec_bridge()
                    &&& final(self).spec_grid().hl_map() == old(self).spec_grid().hl_map().insert(
                        id,
                        attrs,
                    )
                    &&& final(self).spec_grid().cells_seq() == old(self).spec_grid().cells_seq()
                    &&& final(self).spec_grid().spec_width() == old(self).spec_grid().spec_width()
                    &&& final(self).spec_grid().spec_height() == old(self).spec_grid().spec_height()
                },
                RedrawEvent::Flush => {
                    &&& grid_equal(&old(self).spec_grid(), &final(self).spec_grid())
                    &&& final(self).spec_bridge().spec_last_scroll_rows() == 0
                    &&& final(self).spec_bridge().same_settings(&old(self).spec_bridge())
                    &&& final(self).spec_bridge().spec_active_scroll_region() == old(self).spec_bridge().spec_active_scroll_region()
                    &&& final(self).spec_bridge().spec_received_grid_scroll() == old(self).spec_bridge().spec_received_grid_scroll()
                    &&& final(self).spec_bridge().spec_cursor_row() == old(self).spec_bridge().spec_cursor_row()
                },
                _ => {
                    &&& grid_equal(&old(self).spec_grid(), &final(self).spec_grid())
                    &&& final(self).spec_bridge() == old(self).spec_bridge()
                },
            },
    {
        match event {
            RedrawEvent::GridLine { grid, row, col_start, cells } => {
                if *grid == 1 && *row <= usize::MAX as u64 && *col_start <= usize::MAX as u64 {
                    self.grid.update_line(*row as usize, *col_start as usize, cells.as_slice());
                }
            },
            RedrawEvent::GridScroll { grid, top, bottom, left, right, rows, cols } => {
                if *grid == 1 {
                    self.grid.scroll_region(
                        clamp_coord(*top),
                        clamp_coord(*bottom),
                        clamp_coord(*left),
                        clamp_coord(*right),
                        *rows,
                        *cols,
                    );
                }
                self.renderer_bridge.process_event(event);
            },
            RedrawEvent::GridResize { grid, width, height } => {
                if *grid == 1 && *width <= usize::MAX as u64 && *height <= usize::MAX as u64 {
                    let w = *width as usize;
                    let h = *height as usize;
                    let fits = w == 0 || h <= usize::MAX / w;
                    proof {
                        if w != 0 {
                            vstd::arithmetic::div_mod::lemma_remainder(usize::MAX as int, w as int);
                            if h <= usize::MAX as int / w as int {
                                assert(w * h <= usize::MAX && h * w <= usize::MAX)
                                    by (nonlinear_arith)
                                    requires
                                        h as int <= usize::MAX as int / w as int,
                                        (usize::MAX as int / w as int) * w as int <= usize::MAX
                                            as int,
                                        w as int > 0,
                                ;
                            } else {
                                assert(w * h > usize::MAX && h * w > usize::MAX)
                                    by (nonlinear_arith)
                                    requires
                                        h as int >= usize::MAX as int / w as int + 1,
                                        usize::MAX as int - (usize::MAX as int / w as int) * (
                                        w as int) < w as int,
                                        w as int > 0,
                                ;
                            }
                        }
                    }
                    if fits {
                        self.grid.resize(w, h);
                    }
                }
            },
            RedrawEvent::GridClear { grid } => {
                if *grid == 1 {
                    self.grid.clear();
                }
            },
            RedrawEvent::GridCursorGoto { grid, row, col } => {
                if *grid == 1 && *row <= usize::MAX as u64 && *col <= usize::MAX as u64 {
                    self.grid.set_cursor(*row as usize, *col as usize);
                }
                self.renderer_bridge.process_event(event);
            },
            RedrawEvent::DefaultColorsSet { fg, bg, sp } => {
                self.grid.set_default_colors(*fg, *bg, *sp);
            },
            RedrawEvent::HlAttrDefine { id, attrs } => {
                self.grid.define_hl_attr(*id, *attrs);
            },
            RedrawEvent::Flush => {
                self.renderer_bridge.process_event(event);
            },
            _ => {},
        }
    }


    /// The renderable cells for the whole grid, row-major: each cell keeps
    /// its glyph, colours and style flags, and rows with selected cells get
    /// the gap between the first and last selection filled with the
    /// selection background.
    #[verifier::rlimit(100)]
    pub fn get_renderable_cells(&self) -> (r: Vec<RenderableCell>)
        requires
            self.wf(),
        ensures
            r@.len() == self.spec_grid().spec_width() * self.spec_grid().spec_height(),
            forall|row: int, col: int|
                0 <= row < self.spec_grid().spec_height() && 0 <= col < self.spec_grid().spec_width()
                    ==> #[trigger] r@[row * self.spec_grid().spec_width() + col]
                    == spec_rendered_cell(&self.spec_grid(), row, col),
    {
        let (width, height) = self.grid.dimensions();
        let selection_blue = Rgb { r: 70, g: 130, b: 255 };
        let default_bg = Rgb { r: 30, g: 30, b: 46 };
        let black = Rgb { r: 0, g: 0, b: 0 };

        let mut line_selections: Vec<Option<(usize, usize)>> = Vec::new();
        let mut row: usize = 0;
        while row < height
            invariant
                self.wf(),
                row <= height,
                width == self.spec_grid().spec_width(),
                height == self.spec_grid().spec_height(),
                selection_blue == spec_selection_blue(),
                default_bg == spec_default_bg_approx(),
                black == (Rgb { r: 0, g: 0, b: 0 }),
                line_selections@.len() == row,
                forall|rr: int|
                    0 <= rr < row ==> row_sel_ok(
                        &self.spec_grid(),
                        rr,
                        #[trigger] line_selections@[rr],
                    ),
            decreases height - row,
        {
            let mut first: Option<usize> = None;
            let mut last: Option<usize> = None;
            let mut col: usize = 0;
            while col < width
                invariant
                    self.wf(),
                    row < height,
                    col <= width,
                    width == self.spec_grid().spec_width(),
                    height == self.spec_grid().spec_height(),
                    selection_blue == spec_selection_blue(),
                    default_bg == spec_default_bg_approx(),
                    black == (Rgb { r: 0, g: 0, b: 0 }),
                    first is None ==> last is None && forall|c: int|
                        0 <= c < col ==> !#[trigger] spec_sel_bg(&self.spec_grid(), row as int, c),
                    first is Some ==> {
                        &&& last is Some
                        &&& first->0 <= last->0 < col
                        &&& spec_sel_bg(&self.spec_grid(), row as int, first->0 as int)
                        &&& spec_sel_bg(&self.spec_grid(), row as int, last->0 as int)
                        &&& forall|c: int|
                            0 <= c < first->0 ==> !#[trigger] spec_sel_bg(
                                &self.spec_grid(),
                                row as int,
                                c,
                            )
                        &&& forall|c: int|
                            last->0 < c < col ==> !#[trigger] spec_sel_bg(
                                &self.spec_grid(),
                                row as int,
                                c,
                            )
                    },
                decreases width - col,
            {
                match self.grid.get_cell(row, col) {
                    Some(cell) => {
                        if cell.bg == selection_blue || (cell.bg != default_bg && cell.bg
                            != black) {
                            if first.is_none() {
                                first = Some(col);
                            }
                            last = Some(col);
                        } else {
                            proof {
                                assert(!spec_sel_bg(&self.spec_grid(), row as int, col as int));
                            }
                        }
                    },
                    None => {},
                }
                col = col + 1;
            }
            match (first, last) {
                (Some(f), Some(l)) => {
                    line_selections.push(Some((f, l)));
                },
                _ => {
                    line_selections.push(None);
                },
            }
            row = row + 1;
        }

        let mut cells: Vec<RenderableCell> = Vec::new();
        let mut row2: usize = 0;
        proof {
            vstd::arithmetic::mul::lemma_mul_by_zero_is_zero(width as int);
        }
        while row2 < height
            invariant
                self.wf(),
                row2 <= height,
                width == self.spec_grid().spec_width(),
                height == self.spec_grid().spec_height(),
                selection_blue == spec_selection_blue(),
                default_bg == spec_default_bg_approx(),
                black == (Rgb { r: 0, g: 0, b: 0 }),
                line_selections@.len() == height,
                forall|rr: int|
                    0 <= rr < height ==> row_sel_ok(
                        &self.spec_grid(),
                        rr,
                        #[trigger] line_selections@[rr],
                    ),
                cells@.len() == row2 * width,
                forall|rr: int, cc: int|
                    0 <= rr < row2 && 0 <= cc < width ==> #[trigger] cells@[rr * width + cc]
                        == spec_rendered_cell(&self.spec_grid(), rr, cc),
            decreases height - row2,
        {
            let mut col2: usize = 0;
            while col2 < width
                invariant
                    self.wf(),
                    row2 < height,
                    col2 <= width,
                    width == self.spec_grid().spec_width(),
                    height == self.spec_grid().spec_height(),
                    selection_blue == spec_selection_blue(),
                    default_bg == spec_default_bg_approx(),
                    black == (Rgb { r: 0, g: 0, b: 0 }),
                    line_selections@.len() == height,
                    forall|rr: int|
                        0 <= rr < height ==> row_sel_ok(
                            &self.spec_grid(),
                            rr,
                            #[trigger] line_selections@[rr],
                        ),
                    cells@.len() == row2 * width + col2,
                    forall|rr: int, cc: int|
                        (0 <= rr < row2 && 0 <= cc < width) || (rr == row2 && 0 <= cc < col2)
                            ==> #[trigger] cells@[rr * width + cc] == spec_rendered_cell(
                            &self.spec_grid(),
                            rr,
                            cc,
                        ),
                decreases width - col2,
            {
                proof {
                    crate::grid::lemma_flat_index_bounds(
                        width as int,
                        height as int,
                        row2 as int,
                        col2 as int,
                    );
                }
                let cell = match self.grid.get_cell(row2, col2) {
                    Some(c) => c,
                    None => crate::grid::GridCell::default(),
                };
                let bg = match line_selections[row2] {
                    Some(fl) => {
                        if fl.0 <= col2 && col2 <= fl.1 {
                            proof {
                                assert(spec_sel_bg(&self.spec_grid(), row2 as int, fl.0 as int));
                                assert(spec_sel_bg(&self.spec_grid(), row2 as int, fl.1 as int));
                            }
                            selection_blue
                        } else {
                            cell.bg
                        }
                    },
                    None => cell.bg,
                };
                proof {
                    assert(bg == spec_render_bg(&self.spec_grid(), row2 as int, col2 as int));
                }
                let rendered = RenderableCell {
                    line: row2,
                    column: col2,
                    character: cell.character,
                    flags: CellFlags {
                        bold: cell.bold,
                        italic: cell.italic,
                        underline: cell.underline,
                        wide_char: false,
                    },
                    fg: cell.fg,
                    bg,
                    underline: cell.sp,
                };
                cells.push(rendered);
                proof {
                    assert forall|rr: int, cc: int|
                        (0 <= rr < row2 && 0 <= cc < width) || (rr == row2 && 0 <= cc < col2 + 1)
                            implies #[trigger] cells@[rr * width + cc] == spec_rendered_cell(
                        &self.spec_grid(),
                        rr,
                        cc,
                    ) by {
                        crate::grid::lemma_flat_index_bounds(width as int, height as int, rr, cc);
                        if rr * width + cc == row2 * width + col2 {
                            crate::grid::lemma_flat_index_injective(
                                width as int,
                                rr,
                                cc,
                                row2 as int,
                                col2 as int,
                            );
                        } else {
                            if rr < row2 {
                                crate::grid::lemma_flat_index_bounds(
                                    width as int,
                                    row2 as int,
                                    rr,
                                    cc,
                                );
                            }
                        }
                    }
                }
                col2 = col2 + 1;
            }
            proof {
                assert((row2 + 1) * width == row2 * width + width) by (nonlinear_arith);
            }
            row2 = row2 + 1;
        }
        proof {
            vstd::arithmetic::mul::lemma_mul_is_commutative(height as int, width as int);
        }
        cells
    }

    /// Record a response: a numeric result updates the cached last buffer
    /// line (the reply to the line-count query), anything else is ignored.
    pub fn handle_response(&mut self, response: &NvimResponse)
        ensures
            final(self).spec_grid() == old(self).spec_grid(),
            final(self).spec_bridge() == old(self).spec_bridge(),
            final(self).spec_active() == old(self).spec_active(),
            final(self).spec_buffer_last_line() == match response.result {
                Some(v) => match spec_as_u64(v) {
                    Some(n) => Some((n & 0xFFFFFFFF) as u32),
                    None => old(self).spec_buffer_last_line(),
                },
                None => old(self).spec_buffer_last_line(),
            },
    {
        match &response.result {
            Some(result) => {
                match result.as_u64() {
                    Some(line_num) => {
                        proof {
                            assert(line_num & 0xFFFFFFFF <= 0xFFFFFFFFu64) by (bit_vector);
                        }
                        self.buffer_last_line = Some((line_num & 0xFFFFFFFF) as u32);
                    },
                    None => {},
                }
            },
            None => {},
        }
    }

    /// The cursor position.
    pub fn get_cursor(&self) -> (r: (usize, usize))
        ensures
            (r.0 as int, r.1 as int) == self.spec_grid().spec_cursor(),
    {
        self.grid.cursor()
    }

    /// Whether the session is active.
    pub fn is_active(&self) -> (r: bool)
        ensures
            r == self.spec_active(),
    {
        self.active
    }

    /// Deactivate the session.
    pub fn deactivate(&mut self)
        ensures
            !final(self).spec_active(),
            final(self).spec_grid() == old(self).spec_grid(),
            final(self).spec_bridge() == old(self).spec_bridge(),
            final(self).spec_buffer_last_line() == old(self).spec_buffer_last_line(),
    {
        self.active = false;
    }

    /// Resize the grid; the shell forwards the new size to the editor.
    pub fn resize(&mut self, width: usize, height: usize)
        requires
            width * height <= usize::MAX,
        ensures
            final(self).wf(),
            final(self).spec_grid().spec_width() == width,
            final(self).spec_grid().spec_height() == height,
            forall|r: int, c: int|
                0 <= r < height && 0 <= c < width ==> final(self).spec_grid().cell(r, c)
                    == spec_default_cell(),
            final(self).spec_grid().hl_map() == old(self).spec_grid().hl_map(),
            final(self).spec_bridge() == old(self).spec_bridge(),
            final(self).spec_active() == old(self).spec_active(),
            final(self).spec_buffer_last_line() == old(self).spec_buffer_last_line(),
    {
        self.grid.resize(width, height);
    }

    /// The scroll region currently being animated.
    pub fn active_scroll_region(&self) -> (r: Option<(i64, i64)>)
        ensures
            r == self.spec_bridge().spec_active_scroll_region(),
    {
        self.renderer_bridge.active_scroll_region()
    }

    /// Forget the animated scroll region (on resize).
    pub fn clear_scroll_region(&mut self)
        ensures
            final(self).spec_bridge().spec_active_scroll_region() is None,
            final(self).spec_grid() == old(self).spec_grid(),
            final(self).spec_active() == old(self).spec_active(),
            final(self).spec_buffer_last_line() == old(self).spec_buffer_last_line(),
    {
        self.renderer_bridge.clear_scroll_region();
    }

    /// Whether the view is likely at a scroll boundary.
    pub fn at_scroll_boundary(&self) -> (r: bool)
        ensures
            r == (self.spec_bridge().spec_cursor_row() <= 1),
    {
        self.renderer_bridge.at_scroll_boundary()
    }

    /// Whether a scroll event arrived this frame.
    pub fn did_grid_scroll(&self) -> (r: bool)
        ensures
            r == self.spec_bridge().spec_received_grid_scroll(),
    {
        self.renderer_bridge.did_grid_scroll()
    }

    /// Reset the scroll-event flag after the frame.
    pub fn reset_grid_scroll_flag(&mut self)
        ensures
            !final(self).spec_bridge().spec_received_grid_scroll(),
            final(self).spec_grid() == old(self).spec_grid(),
            final(self).spec_active() == old(self).spec_active(),
            final(self).spec_buffer_last_line() == old(self).spec_buffer_last_line(),
    {
        self.renderer_bridge.reset_grid_scroll_flag();
    }

    /// The top visible line number read from the grid.
    pub fn get_top_line_number(&self) -> (r: Option<u32>)
        requires
            self.wf(),
        ensures
            r == if self.spec_grid().spec_height() == 0 || self.spec_grid().spec_width() < 5 {
                None::<u32>
            } else {
                self.spec_grid().spec_row_number(0)
            },
    {
        self.grid.get_top_line_number()
    }

    /// The bottom visible line number read from the grid.
    pub fn get_bottom_line_number(&self) -> (r: Option<u32>)
        requires
            self.wf(),
        ensures
            r == if self.spec_grid().spec_height() < 3 || self.spec_grid().spec_width() < 5 {
                None::<u32>
            } else {
                self.spec_grid().spec_row_number(self.spec_grid().spec_height() - 3)
            },
    {
        self.grid.get_bottom_line_number()
    }

    /// Record whether the view sits at the bottom boundary.
    pub fn set_at_bottom_boundary(&mut self, at_bottom: bool)
        ensures
            final(self).spec_bridge().spec_at_bottom_boundary() == at_bottom,
            final(self).spec_grid() == old(self).spec_grid(),
            final(self).spec_active() == old(self).spec_active(),
            final(self).spec_buffer_last_line() == old(self).spec_buffer_last_line(),
    {
        self.renderer_bridge.set_at_bottom_boundary(at_bottom);
    }

    /// Whether the view sits at the bottom boundary.
    pub fn is_at_bottom_boundary(&self) -> (r: bool)
        ensures
            r == self.spec_bridge().spec_at_bottom_boundary(),
    {
        self.renderer_bridge.is_at_bottom_boundary()
    }

    /// Whether the last row shows no line number.
    pub fn last_row_is_empty(&self) -> (r: bool)
        requires
            self.wf(),
        ensures
            r == if self.spec_grid().spec_height() < 1 {
                false
            } else {
                self.spec_grid().spec_row_number(self.spec_grid().spec_height() - 1) is None
            },
    {
        self.grid.last_row_is_empty()
    }

    /// The last recorded top line.
    pub fn get_last_top_line(&self) -> (r: Option<u32>)
        ensures
            r == self.spec_bridge().spec_last_top_line(),
    {
        self.renderer_bridge.get_last_top_line()
    }

    /// Record the top line for stuck-scroll detection.
    pub fn set_last_top_line(&mut self, line: Option<u32>)
        ensures
            final(self).spec_bridge().spec_last_top_line() == line,
            final(self).spec_grid() == old(self).spec_grid(),
            final(self).spec_active() == old(self).spec_active(),
            final(self).spec_buffer_last_line() == old(self).spec_buffer_last_line(),
    {
        self.renderer_bridge.set_last_top_line(line);
    }

    /// Whether the view has reached the bottom of the buffer: the policy
    /// compares the visible top line against the buffer's queried last
    /// line, and an unreadable top row also counts as the bottom.
    pub fn is_at_buffer_bottom(&self) -> (r: bool)
        requires
            self.wf(),
        ensures
            r == {
                let visible_top = if self.spec_grid().spec_height() == 0
                    || self.spec_grid().spec_width() < 5 {
                    None::<u32>
                } else {
                    self.spec_grid().spec_row_number(0)
                };
                match (self.spec_buffer_last_line(), visible_top) {
                    (Some(last), Some(top)) => top >= last,
                    (_, None) => true,
                    _ => false,
                }
            },
    {
        let visible_top = self.grid.get_top_line_number();
        match (self.buffer_last_line, visible_top) {
            (Some(last), Some(top)) => top >= last,
            (_, None) => true,
            _ => false,
        }
    }
}

} // verus!