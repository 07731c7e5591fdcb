//! The character-grid state driven by the editor's redraw events.
//!
//! The grid owns a flat row-major cell array of `width * height` cells,
//! cursor coordinates, the session default colours, and the highlight
//! attribute table. Every update addressing cells outside the current bounds
//! is dropped, never an error.

use vstd::prelude::*;

use std::collections::HashMap;

use crate::color::Rgb;
use crate::protocol::{GridCell as ProtoCell, HighlightAttrs, spec_default_attrs};

verus! {

broadcast use vstd::std_specs::hash::group_hash_axioms;

/// One rendered cell: a glyph with its resolved colours and style flags.
#[derive(Debug, Clone, Copy, PartialEq, Eq, Structural)]
pub struct GridCell {
    pub character: char,
    pub fg: Rgb,
    pub bg: Rgb,
    pub sp: Rgb,
    pub bold: bool,
    pub italic: bool,
    pub underline: bool,
}

/// The default cell: a space, white on black, red special colour, no styles.
pub open spec fn spec_default_cell() -> GridCell {
    GridCell {
        character: ' ',
        fg: Rgb { r: 255, g: 255, b: 255 },
        bg: Rgb { r: 0, g: 0, b: 0 },
        sp: Rgb { r: 255, g: 0, b: 0 },
        bold: false,
        italic: false,
        underline: false,
    }
}

impl Default for GridCell {
    /// The cell every position holds after a resize or clear.
    fn default() -> (r: Self)
        ensures
            r == spec_default_cell(),
    {
        GridCell {
            character: ' ',
            fg: Rgb { r: 255, g: 255, b: 255 },
            bg: Rgb { r: 0, g: 0, b: 0 },
            sp: Rgb { r: 255, g: 0, b: 0 },
            bold: false,
            italic: false,
            underline: false,
        }
    }
}

/// A run sequence expanded cell-by-cell: each run repeated `repeat` times,
/// in order.
pub open spec fn spec_expand(runs: Seq<ProtoCell>) -> Seq<ProtoCell>
    decreases runs.len(),
{
    if runs.len() == 0 {
        Seq::empty()
    } else {
        spec_expand(runs.drop_last()) + Seq::new(
            runs.last().repeat as nat,
            |i: int| runs.last(),
        )
    }
}

/// Where the write cursor of a line update stands after `e` expanded cells:
/// it advances one column per cell but never past the row's width, and never
/// moves at all when it starts beyond the width.
pub open spec fn col_coherent(col: int, col_start: int, width: int, e: int) -> bool {
    col == if col_start >= width {
        col_start
    } else if col_start + e <= width {
        col_start + e
    } else {
        width
    }
}

/// The grid `g` is `g0` with the expanded cells `exp` written into `row`
/// starting at `col_start` (truncated at the row's width), and no other cell
/// changed.
pub open spec fn cells_updated_to(
    g0: &Grid,
    g: &Grid,
    row: int,
    col_start: int,
    exp: Seq<ProtoCell>,
) -> bool {
    forall|r: int, c: int|
        0 <= r < g0.spec_height() && 0 <= c < g0.spec_width() ==> #[trigger] g.cell(r, c) == if r
            == row && col_start <= c < col_start + exp.len() {
            g0.spec_resolve(exp[c - col_start])
        } else {
            g0.cell(r, c)
        }
}

/// The bottom bound of a scroll region, clamped to the grid height.
pub open spec fn clamped_bottom(g: &Grid, bottom: int) -> int {
    if bottom < g.spec_height() {
        bottom
    } else {
        g.spec_height()
    }
}

/// The top bound of a scroll region, clamped to its (clamped) bottom.
pub open spec fn clamped_top(g: &Grid, top: int, bottom: int) -> int {
    let b = clamped_bottom(g, bottom);
    if top < b {
        top
    } else {
        b
    }
}

/// The right bound of a scroll region, clamped to the grid width.
pub open spec fn clamped_right(g: &Grid, right: int) -> int {
    if right < g.spec_width() {
        right
    } else {
        g.spec_width()
    }
}

/// The left bound of a scroll region, clamped to its (clamped) right.
pub open spec fn clamped_left(g: &Grid, left: int, right: int) -> int {
    let r = clamped_right(g, right);
    if left < r {
        left
    } else {
        r
    }
}

/// The cell at `(row, col)` after scrolling the region `[t, b) x [l, r)` of
/// `g0` by `d` rows: an in-region cell takes the cell `d` rows further down
/// when that source lies in the region, becomes the default cell when the
/// shift exposes it, and every cell outside the region is untouched.
pub open spec fn spec_scrolled_cell(
    g0: &Grid,
    t: int,
    b: int,
    l: int,
    r: int,
    d: int,
    row: int,
    col: int,
) -> GridCell {
    if t <= row < b && l <= col < r {
        if t <= row + d < b {
            g0.cell(row + d, col)
        } else {
            spec_default_cell()
        }
    } else {
        g0.cell(row, col)
    }
}

/// The grid `g` is `g0` with the region `[t, b) x [l, r)` scrolled by `d`
/// rows and nothing else changed.
pub open spec fn scroll_rel(g0: &Grid, g: &Grid, t: int, b: int, l: int, r: int, d: int) -> bool {
    &&& g.same_meta(g0)
    &&& forall|row: int, col: int|
        0 <= row < g0.spec_height() && 0 <= col < g0.spec_width() ==> #[trigger] g.cell(row, col)
            == spec_scrolled_cell(g0, t, b, l, r, d, row, col)
}

/// Whether a character is an ASCII decimal digit or a space: the only
/// characters the line-number heuristic keeps from a row prefix.
pub open spec fn is_digit_or_space(ch: char) -> bool {
    (48 <= ch as int <= 57) || ch == ' '
}

/// The heuristic's filter predicate, as a function value for `Seq::filter`.
pub open spec fn digit_or_space_pred() -> spec_fn(char) -> bool {
    |ch: char| is_digit_or_space(ch)
}

/// The code point of a character.
pub(crate) fn char_code(c: char) -> (u: u32)
    ensures
        u as int == c as int,
{
    c as u32
}

/// Leading spaces removed.
pub open spec fn spec_trim_start(s: Seq<char>) -> Seq<char>
    decreases s.len(),
{
    if s.len() > 0 && s[0] == ' ' {
        spec_trim_start(s.drop_first())
    } else {
        s
    }
}

/// Trailing spaces removed.
pub open spec fn spec_trim_end(s: Seq<char>) -> Seq<char>
    decreases s.len(),
{
    if s.len() > 0 && s.last() == ' ' {
        spec_trim_end(s.drop_last())
    } else {
        s
    }
}

/// Surrounding spaces removed.
pub open spec fn spec_trim(s: Seq<char>) -> Seq<char> {
    spec_trim_end(spec_trim_start(s))
}

/// Whether a character is an ASCII decimal digit.
pub open spec fn is_digit(c: char) -> bool {
    48 <= c as int <= 57
}

/// Every character is an ASCII decimal digit.
pub open spec fn all_digits(s: Seq<char>) -> bool {
    forall|i: int| 0 <= i < s.len() ==> is_digit(#[trigger] s[i])
}

/// The value of a digit string read as a decimal number.
pub open spec fn digits_val(s: Seq<char>) -> int
    decreases s.len(),
{
    if s.len() == 0 {
        0
    } else {
        digits_val(s.drop_last()) * 10 + (s.last() as int - 48)
    }
}

/// Ten to the `n`.
pub open spec fn pow10(n: nat) -> int
    decreases n,
{
    if n == 0 {
        1int
    } else {
        10 * pow10((n - 1) as nat)
    }
}

/// What parsing a digits-and-spaces string as a decimal number yields:
/// the value of the digit run left after trimming spaces, or nothing when
/// the trimmed text is empty, holds a stray character, or overflows.
pub open spec fn spec_parse_u32(s: Seq<char>) -> Option<u32> {
    let t = spec_trim(s);
    if t.len() > 0 && all_digits(t) && digits_val(t) <= u32::MAX {
        Some(digits_val(t) as u32)
    } else {
        None
    }
}

/// The grid state.
pub struct Grid {
    width: usize,
    height: usize,
    /// Cells in row-major order; always exactly `width * height` of them.
    cells: Vec<GridCell>,
    cursor_row: usize,
    cursor_col: usize,
    default_fg: Rgb,
    default_bg: Rgb,
    default_sp: Rgb,
    /// Highlight attribute table: append or overwrite only, never cleared by
    /// grid resize or clear.
    hl_attrs: HashMap<u64, HighlightAttrs>,
}

impl Grid {
    /// The grid's width in columns.
    pub closed spec fn spec_width(&self) -> int {
        self.width as int
    }

    /// The grid's height in rows.
    pub closed spec fn spec_height(&self) -> int {
        self.height as int
    }

    /// The flat row-major cell array.
    pub closed spec fn cells_seq(&self) -> Seq<GridCell> {
        self.cells@
    }

    /// The cell at `(row, col)`, for in-bounds coordinates.
    pub open spec fn cell(&self, row: int, col: int) -> GridCell {
        self.cells_seq()[row * self.spec_width() + col]
    }

    /// Cursor position as `(row, col)`.
    pub closed spec fn spec_cursor(&self) -> (int, int) {
        (self.cursor_row as int, self.cursor_col as int)
    }

    /// The session default foreground colour.
    pub closed spec fn spec_default_fg(&self) -> Rgb {
        self.default_fg
    }

    /// The session default background colour.
    pub closed spec fn spec_default_bg(&self) -> Rgb {
        self.default_bg
    }

    /// The session default special colour.
    pub closed spec fn spec_default_sp(&self) -> Rgb {
        self.default_sp
    }

    /// The highlight table as a map from id to attribute record.
    pub closed spec fn hl_map(&self) -> Map<u64, HighlightAttrs> {
        self.hl_attrs@
    }

    /// Well-formedness: the cell array covers exactly the advertised bounds.
    pub closed spec fn wf(&self) -> bool {
        self.cells@.len() == self.spec_width() * self.spec_height()
    }

    /// Everything but the cell array: dimensions, cursor, defaults and
    /// highlight table agree between two grids.
    pub open spec fn same_meta(&self, other: &Grid) -> bool {
        &&& self.spec_width() == other.spec_width()
        &&& self.spec_height() == other.spec_height()
        &&& self.spec_cursor() == other.spec_cursor()
        &&& self.spec_default_fg() == other.spec_default_fg()
        &&& self.spec_default_bg() == other.spec_default_bg()
        &&& self.spec_default_sp() == other.spec_default_sp()
        &&& self.hl_map() == other.hl_map()
    }

    /// Create a grid of the given dimensions, every cell default.
    pub fn new(width: usize, height: usize) -> (g: Grid)
        requires
            width * height <= usize::MAX,
        ensures
            g.wf(),
            g.spec_width() == width,
            g.spec_height() == height,
            g.spec_cursor() == (0int, 0int),
            g.spec_default_fg() == (Rgb { r: 255, g: 255, b: 255 }),
            g.spec_default_bg() == (Rgb { r: 0, g: 0, b: 0 }),
            g.spec_default_sp() == (Rgb { r: 255, g: 0, b: 0 }),
            g.hl_map() == Map::<u64, HighlightAttrs>::empty(),
            forall|r: int, c: int|
                0 <= r < height && 0 <= c < width ==> g.cell(r, c) == spec_default_cell(),
    {
        let cells = filled_default(width * height);
        let g = Grid {
            width,
            height,
            cells,
            cursor_row: 0,
            cursor_col: 0,
            default_fg: Rgb { r: 255, g: 255, b: 255 },
            default_bg: Rgb { r: 0, g: 0, b: 0 },
            default_sp: Rgb { r: 255, g: 0, b: 0 },
            hl_attrs: HashMap::new(),
        };
        proof {
            assert forall|r: int, c: int|
                0 <= r < height && 0 <= c < width implies g.cell(r, c) == spec_default_cell() by {
                lemma_flat_index_bounds(width as int, height as int, r, c);
            }
        }
        g
    }

    /// Reallocate the cell array to the new dimensions, default-initialising
    /// all cells; old content is not preserved.
    pub fn resize(&mut self, width: usize, height: usize)
        requires
            width * height <= usize::MAX,
        ensures
            final(self).wf(),
            final(self).spec_width() == width,
            final(self).spec_height() == height,
            final(self).spec_cursor() == old(self).spec_cursor(),
            final(self).spec_default_fg() == old(self).spec_default_fg(),
            final(self).spec_default_bg() == old(self).spec_default_bg(),
            final(self).spec_default_sp() == old(self).spec_default_sp(),
            final(self).hl_map() == old(self).hl_map(),
            forall|r: int, c: int|
                0 <= r < height && 0 <= c < width ==> final(self).cell(r, c)
                    == spec_default_cell(),
    {
        self.width = width;
        self.height = height;
        self.cells = filled_default(width * height);
        proof {
            assert forall|r: int, c: int|
                0 <= r < height && 0 <= c < width implies self.cell(r, c) == spec_default_cell() by {
                lemma_flat_index_bounds(width as int, height as int, r, c);
            }
        }
    }

    /// Reset every cell to the default without changing dimensions.
    pub fn clear(&mut self)
        requires
            old(self).wf(),
        ensures
            final(self).wf(),
            final(self).same_meta(old(self)),
            forall|r: int, c: int|
                0 <= r < final(self).spec_height() && 0 <= c < final(self).spec_width()
                    ==> final(self).cell(r, c) == spec_default_cell(),
    {
        let n = self.cells.len();
        self.cells = filled_default(n);
        proof {
            assert forall|r: int, c: int|
                0 <= r < self.spec_height() && 0 <= c < self.spec_width() implies self.cell(r, c)
                == spec_default_cell() by {
                lemma_flat_index_bounds(self.spec_width(), self.spec_height(), r, c);
            }
        }
    }

    /// Replace whichever default colours are given; absent fields keep their
    /// previous value.
    pub fn set_default_colors(&mut self, fg: Option<Rgb>, bg: Option<Rgb>, sp: Option<Rgb>)
        ensures
            final(self).spec_default_fg() == if fg is Some {
                fg->0
            } else {
                old(self).spec_default_fg()
            },
            final(self).spec_default_bg() == if bg is Some {
                bg->0
            } else {
                old(self).spec_default_bg()
            },
            final(self).spec_default_sp() == if sp is Some {
                sp->0
            } else {
                old(self).spec_default_sp()
            },
            final(self).spec_width() == old(self).spec_width(),
            final(self).spec_height() == old(self).spec_height(),
            final(self).spec_cursor() == old(self).spec_cursor(),
            final(self).hl_map() == old(self).hl_map(),
            final(self).cells_seq() == old(self).cells_seq(),
            old(self).wf() ==> final(self).wf(),
    {
        if let Some(fg) = fg {
            self.default_fg = fg;
        }
        if let Some(bg) = bg {
            self.default_bg = bg;
        }
        if let Some(sp) = sp {
            self.default_sp = sp;
        }
    }

    /// Define or overwrite a highlight attribute record; entries are never
    /// evicted automatically.
    pub fn define_hl_attr(&mut self, id: u64, attrs: HighlightAttrs)
        ensures
            final(self).hl_map() == old(self).hl_map().insert(id, attrs),
            final(self).spec_width() == old(self).spec_width(),
            final(self).spec_height() == old(self).spec_height(),
            final(self).spec_cursor() == old(self).spec_cursor(),
            final(self).spec_default_fg() == old(self).spec_default_fg(),
            final(self).spec_default_bg() == old(self).spec_default_bg(),
            final(self).spec_default_sp() == old(self).spec_default_sp(),
            final(self).cells_seq() == old(self).cells_seq(),
            old(self).wf() ==> final(self).wf(),
    {
        self.hl_attrs.insert(id, attrs);
    }

    /// Set the cursor position; not bounds-checked against the dimensions.
    pub fn set_cursor(&mut self, row: usize, col: usize)
        ensures
            final(self).spec_cursor() == (row as int, col as int),
            final(self).spec_width() == old(self).spec_width(),
            final(self).spec_height() == old(self).spec_height(),
            final(self).spec_default_fg() == old(self).spec_default_fg(),
            final(self).spec_default_bg() == old(self).spec_default_bg(),
            final(self).spec_default_sp() == old(self).spec_default_sp(),
            final(self).hl_map() == old(self).hl_map(),
            final(self).cells_seq() == old(self).cells_seq(),
            old(self).wf() ==> final(self).wf(),
    {
        self.cursor_row = row;
        self.cursor_col = col;
    }

    /// Get the cursor position as `(row, col)`.
    pub fn cursor(&self) -> (r: (usize, usize))
        ensures
            (r.0 as int, r.1 as int) == self.spec_cursor(),
    {
        (self.cursor_row, self.cursor_col)
    }

    /// Get the cell at `(row, col)`, or `None` outside the current bounds.
    pub fn get_cell(&self, row: usize, col: usize) -> (r: Option<GridCell>)
        requires
            self.wf(),
        ensures
            r == if row < self.spec_height() && col < self.spec_width() {
                Some(self.cell(row as int, col as int))
            } else {
                None::<GridCell>
            },
    {
        if row >= self.height || col >= self.width {
            return None;
        }
        let idx = self.flat_index(row, col);
        Some(self.cells[idx])
    }

    /// All cells in row-major order, for rendering.
    pub fn cells(&self) -> (r: &Vec<GridCell>)
        ensures
            r@ == self.cells_seq(),
    {
        &self.cells
    }

    /// The grid dimensions as `(width, height)`.
    pub fn dimensions(&self) -> (r: (usize, usize))
        ensures
            r.0 == self.spec_width(),
            r.1 == self.spec_height(),
    {
        (self.width, self.height)
    }

    /// The cell a run resolves to: the run's first glyph (a space when the
    /// text is empty) styled by the run's highlight record, with the session
    /// default colours filling unset fields.
    pub open spec fn spec_resolve(&self, run: ProtoCell) -> GridCell {
        let attrs = match run.hl_id {
            Some(id) => if self.hl_map().contains_key(id) {
                self.hl_map()[id]
            } else {
                spec_default_attrs()
            },
            None => spec_default_attrs(),
        };
        GridCell {
            character: if run.text@.len() > 0 {
                run.text@[0]
            } else {
                ' '
            },
            fg: match attrs.foreground {
                Some(c) => c,
                None => self.spec_default_fg(),
            },
            bg: match attrs.background {
                Some(c) => c,
                None => self.spec_default_bg(),
            },
            sp: match attrs.special {
                Some(c) => c,
                None => self.spec_default_sp(),
            },
            bold: attrs.bold,
            italic: attrs.italic,
            underline: attrs.underline || attrs.undercurl,
        }
    }

    /// Write a sequence of runs into one row, starting at `col_start`: each
    /// run's resolved cell is written `repeat` times, advancing one column
    /// per repetition. Writes beyond the row's width are truncated, and a
    /// nonexistent row is ignored.
    pub fn update_line(&mut self, row: usize, col_start: usize, cells: &[ProtoCell])
        requires
            old(self).wf(),
        ensures
            final(self).wf(),
            final(self).same_meta(old(self)),
            row >= old(self).spec_height() ==> final(self).cells_seq() == old(self).cells_seq(),
            row < old(self).spec_height() ==> {
                let exp = spec_expand(cells@);
                forall|r: int, c: int|
                    0 <= r < old(self).spec_height() && 0 <= c < old(self).spec_width()
                        ==> #[trigger] final(self).cell(r, c) == if r == row && col_start <= c
                        < col_start + exp.len() {
                        old(self).spec_resolve(exp[c - col_start])
                    } else {
                        old(self).cell(r, c)
                    }
            },
    {
        if row >= self.height {
            return ;
        }
        let ghost g0 = *self;
        let width = self.width;
        let mut col = col_start;
        let mut run_i: usize = 0;
        while run_i < cells.len()
            invariant
                self.wf(),
                self.same_meta(&g0),
                self.spec_width() == g0.spec_width(),
                self.spec_height() == g0.spec_height(),
                width == g0.spec_width(),
                row < g0.spec_height(),
                run_i <= cells.len(),
                col_coherent(col as int, col_start as int, width as int, spec_expand(
                    cells@.take(run_i as int),
                ).len() as int),
                cells_updated_to(
                    &g0,
                    self,
                    row as int,
                    col_start as int,
                    spec_expand(cells@.take(run_i as int)),
                ),
            decreases cells.len() - run_i,
        {
            let run = &cells[run_i];
            let attrs: HighlightAttrs = match run.hl_id {
                Some(id) => match self.hl_attrs.get(&id) {
                    Some(a) => *a,
                    None => HighlightAttrs::default(),
                },
                None => HighlightAttrs::default(),
            };
            let character: char = if run.text.as_str().unicode_len() > 0 {
                run.text.as_str().get_char(0)
            } else {
                ' '
            };
            let cv = GridCell {
                character,
                fg: match attrs.foreground {
                    Some(c) => c,
                    None => self.default_fg,
                },
                bg: match attrs.background {
                    Some(c) => c,
                    None => self.default_bg,
                },
                sp: match attrs.special {
                    Some(c) => c,
                    None => self.default_sp,
                },
                bold: attrs.bold,
                italic: attrs.italic,
                underline: attrs.underline || attrs.undercurl,
            };
            proof {
                assert(cv == g0.spec_resolve(cells@[run_i as int]));
            }
            let repeat = run.repeat;
            let ghost e0 = spec_expand(cells@.take(run_i as int));
            let mut k: u64 = 0;
            while k < repeat
                invariant
                    self.wf(),
                    self.same_meta(&g0),
                    self.spec_width() == g0.spec_width(),
                    self.spec_height() == g0.spec_height(),
                    width == g0.spec_width(),
                    row < g0.spec_height(),
                    k <= repeat,
                    run_i < cells.len(),
                    cv == g0.spec_resolve(cells@[run_i as int]),
                    col_coherent(
                        col as int,
                        col_start as int,
                        width as int,
                        e0.len() + k as int,
                    ),
                    cells_updated_to(
                        &g0,
                        self,
                        row as int,
                        col_start as int,
                        e0 + Seq::new(k as nat, |i: int| cells@[run_i as int]),
                    ),
                decreases repeat - k,
            {
                let ghost cur = e0 + Seq::new(k as nat, |i: int| cells@[run_i as int]);
                if col < width {
                    let idx = self.flat_index(row, col);
                    let ghost pre = *self;
                    self.cells.set(idx, cv);
                    proof {
                        assert(col == col_start + cur.len());
                        let cur2 = e0 + Seq::new((k + 1) as nat, |i: int| cells@[run_i as int]);
                        assert(cur2 =~= cur.push(cells@[run_i as int]));
                        assert forall|r: int, c: int|
                            0 <= r < g0.spec_height() && 0 <= c < g0.spec_width()
                                implies #[trigger] self.cell(r, c) == if r == row && col_start <= c
                                < col_start + cur2.len() {
                                g0.spec_resolve(cur2[c - col_start])
                            } else {
                                g0.cell(r, c)
                            } by {
                            lemma_flat_index_bounds(
                                g0.spec_width(),
                                g0.spec_height(),
                                r,
                                c,
                            );
                            if r * g0.spec_width() + c == idx {
                                lemma_flat_index_injective(
                                    g0.spec_width(),
                                    r,
                                    c,
                                    row as int,
                                    col as int,
                                );
                            } else {
                                assert(self.cell(r, c) == pre.cell(r, c));
                            }
                        }
                    }
                    col = col + 1;
                } else {
                    proof {
                        let cur2 = e0 + Seq::new((k + 1) as nat, |i: int| cells@[run_i as int]);
                        assert forall|r: int, c: int|
                            0 <= r < g0.spec_height() && 0 <= c < g0.spec_width()
                                implies #[trigger] self.cell(r, c) == if r == row && col_start <= c
                                < col_start + cur2.len() {
                                g0.spec_resolve(cur2[c - col_start])
                            } else {
                                g0.cell(r, c)
                            } by {
                            if r == row && col_start <= c < col_start + cur2.len() {
                                if c < col_start + cur.len() {
                                    assert(cur2[c - col_start] == cur[c - col_start]);
                                } else {
                                    assert(c >= width);
                                }
                            }
                        }
                    }
                }
                k = k + 1;
            }
            proof {
                let cur_end = e0 + Seq::new(repeat as nat, |i: int| cells@[run_i as int]);
                assert(spec_expand(cells@.take(run_i + 1)) =~= cur_end) by {
                    assert(cells@.take(run_i + 1).drop_last() =~= cells@.take(run_i as int));
                    assert(cells@.take(run_i + 1).last() == cells@[run_i as int]);
                }
            }
            run_i = run_i + 1;
        }
        proof {
            assert(cells@.take(cells@.len() as int) =~= cells@);
        }
    }

    /// Move cell content within the rectangle `[top, bottom) x [left, right)`
    /// by `rows` rows: positive `rows` moves content toward row 0, negative
    /// away from it. Rows exposed by the shift are reset to default cells.
    /// Region coordinates outside the grid are clamped to its extent.
    pub fn scroll_region(
        &mut self,
        top: usize,
        bottom: usize,
        left: usize,
        right: usize,
        rows: i64,
        _cols: i64,
    )
        requires
            old(self).wf(),
        ensures
            final(self).wf(),
            final(self).same_meta(old(self)),
            scroll_rel(
                old(self),
                final(self),
                clamped_top(old(self), top as int, bottom as int),
                clamped_bottom(old(self), bottom as int),
                clamped_left(old(self), left as int, right as int),
                clamped_right(old(self), right as int),
                rows as int,
            ),
    {
        let ghost g0 = *self;
        let b = if bottom < self.height {
            bottom
        } else {
            self.height
        };
        let t = if top < b {
            top
        } else {
            b
        };
        let r = if right < self.width {
            right
        } else {
            self.width
        };
        let l = if left < r {
            left
        } else {
            r
        };
        let ghost d = rows as int;
        if rows == 0 {
            return ;
        }
        let span = b - t;
        if rows > 0 {
            let shift: usize = if span as u64 <= rows as u64 {
                span
            } else {
                rows as usize
            };
            if shift > 0 {
                self.copy_rows_up(t, b, l, r, shift);
                self.clear_rows(b - shift, b, l, r);
            }
            proof {
                assert forall|row: int, col: int|
                    0 <= row < g0.spec_height() && 0 <= col < g0.spec_width()
                        implies #[trigger] self.cell(row, col) == spec_scrolled_cell(
                        &g0,
                        t as int,
                        b as int,
                        l as int,
                        r as int,
                        d,
                        row,
                        col,
                    ) by {}
            }
        } else {
            let mag64: u64 = ((-(rows + 1)) as u64) + 1;
            let shift: usize = if span as u64 <= mag64 {
                span
            } else {
                mag64 as usize
            };
            if shift > 0 {
                self.copy_rows_down(t, b, l, r, shift);
                self.clear_rows(t, t + shift, l, r);
            }
            proof {
                assert forall|row: int, col: int|
                    0 <= row < g0.spec_height() && 0 <= col < g0.spec_width()
                        implies #[trigger] self.cell(row, col) == spec_scrolled_cell(
                        &g0,
                        t as int,
                        b as int,
                        l as int,
                        r as int,
                        d,
                        row,
                        col,
                    ) by {}
            }
        }
    }

    /// Copy pass for a forward scroll: each destination row in
    /// `[t, b - shift)` takes the content of the row `shift` below it,
    /// reading every source before it is overwritten.
    fn copy_rows_up(&mut self, t: usize, b: usize, l: usize, r: usize, shift: usize)
        requires
            old(self).wf(),
            t <= b <= old(self).spec_height(),
            l <= r <= old(self).spec_width(),
            1 <= shift <= b - t,
        ensures
            final(self).wf(),
            final(self).same_meta(old(self)),
            forall|row: int, col: int|
                0 <= row < old(self).spec_height() && 0 <= col < old(self).spec_width()
                    ==> #[trigger] final(self).cell(row, col) == if t <= row < b - shift && l <= col
                    < r {
                    old(self).cell(row + shift, col)
                } else {
                    old(self).cell(row, col)
                },
    {
        let ghost g0 = *self;
        let mut row = t;
        while row < b - shift
            invariant
                self.wf(),
                self.same_meta(&g0),
                t <= row <= b - shift,
                b <= g0.spec_height(),
                l <= r <= g0.spec_width(),
                1 <= shift <= b - t,
                forall|rr: int, cc: int|
                    0 <= rr < g0.spec_height() && 0 <= cc < g0.spec_width()
                        ==> #[trigger] self.cell(rr, cc) == if t <= rr < row && l <= cc < r {
                        g0.cell(rr + shift, cc)
                    } else {
                        g0.cell(rr, cc)
                    },
            decreases b - shift - row,
        {
            let mut col = l;
            while col < r
                invariant
                    self.wf(),
                    self.same_meta(&g0),
                    t <= row < b - shift,
                    b <= g0.spec_height(),
                    l <= col <= r,
                    r <= g0.spec_width(),
                    1 <= shift <= b - t,
                    forall|rr: int, cc: int|
                        0 <= rr < g0.spec_height() && 0 <= cc < g0.spec_width()
                            ==> #[trigger] self.cell(rr, cc) == if (t <= rr < row && l <= cc < r)
                            || (rr == row && l <= cc < col) {
                            g0.cell(rr + shift, cc)
                        } else {
                            g0.cell(rr, cc)
                        },
                decreases r - col,
            {
                let src = self.flat_index(row + shift, col);
                let dst = self.flat_index(row, col);
                let v = self.cells[src];
                let ghost pre = *self;
                self.cells.set(dst, v);
                proof {
                    assert(pre.cell(row as int + shift as int, col as int) == g0.cell(
                        row as int + shift as int,
                        col as int,
                    ));
                    assert(v == pre.cell(row as int + shift as int, col as int));
                    assert forall|rr: int, cc: int|
                        0 <= rr < g0.spec_height() && 0 <= cc < g0.spec_width()
                            implies #[trigger] self.cell(rr, cc) == if (t <= rr < row && l <= cc
                            < r) || (rr == row && l <= cc < col + 1) {
                            g0.cell(rr + shift, cc)
                        } else {
                            g0.cell(rr, cc)
                        } by {
                        lemma_flat_index_bounds(g0.spec_width(), g0.spec_height(), rr, cc);
                        if rr * g0.spec_width() + cc == dst {
                            lemma_flat_index_injective(
                                g0.spec_width(),
                                rr,
                                cc,
                                row as int,
                                col as int,
                            );
                        } else {
                            assert(self.cell(rr, cc) == pre.cell(rr, cc));
                        }
                    }
                }
                col = col + 1;
            }
            row = row + 1;
        }
    }

    /// Copy pass for a backward scroll: each destination row in `[t + shift, b)`
    /// takes the content of the row `shift` above it, walking bottom-to-top so
    /// every source is read before it is overwritten.
    fn copy_rows_down(&mut self, t: usize, b: usize, l: usize, r: usize, shift: usize)
        requires
            old(self).wf(),
            t <= b <= old(self).spec_height(),
            l <= r <= old(self).spec_width(),
            1 <= shift <= b - t,
        ensures
            final(self).wf(),
            final(self).same_meta(old(self)),
            forall|row: int, col: int|
                0 <= row < old(self).spec_height() && 0 <= col < old(self).spec_width()
                    ==> #[trigger] final(self).cell(row, col) == if t + shift <= row < b && l <= col
                    < r {
                    old(self).cell(row - shift, col)
                } else {
                    old(self).cell(row, col)
                },
    {
        let ghost g0 = *self;
        let mut row = b;
        while row > t + shift
            invariant
                self.wf(),
                self.same_meta(&g0),
                t + shift <= row <= b,
                b <= g0.spec_height(),
                l <= r <= g0.spec_width(),
                1 <= shift <= b - t,
                forall|rr: int, cc: int|
                    0 <= rr < g0.spec_height() && 0 <= cc < g0.spec_width()
                        ==> #[trigger] self.cell(rr, cc) == if row <= rr < b && l <= cc < r {
                        g0.cell(rr - shift, cc)
                    } else {
                        g0.cell(rr, cc)
                    },
            decreases row,
        {
            row = row - 1;
            let mut col = l;
            while col < r
                invariant
                    self.wf(),
                    self.same_meta(&g0),
                    t + shift <= row < b,
                    b <= g0.spec_height(),
                    l <= col <= r,
                    r <= g0.spec_width(),
                    1 <= shift <= b - t,
                    forall|rr: int, cc: int|
                        0 <= rr < g0.spec_height() && 0 <= cc < g0.spec_width()
                            ==> #[trigger] self.cell(rr, cc) == if (row + 1 <= rr < b && l <= cc
                            < r) || (rr == row && l <= cc < col) {
                            g0.cell(rr - shift, cc)
                        } else {
                            g0.cell(rr, cc)
                        },
                decreases r - col,
            {
                let src = self.flat_index(row - shift, col);
                let dst = self.flat_index(row, col);
                let v = self.cells[src];
                let ghost pre = *self;
                self.cells.set(dst, v);
                proof {
                    assert(pre.cell(row as int - shift as int, col as int) == g0.cell(
                        row as int - shift as int,
                        col as int,
                    ));
                    assert(v == pre.cell(row as int - shift as int, col as int));
                    assert forall|rr: int, cc: int|
                        0 <= rr < g0.spec_height() && 0 <= cc < g0.spec_width()
                            implies #[trigger] self.cell(rr, cc) == if (row + 1 <= rr < b && l <= cc
                            < r) || (rr == row && l <= cc < col + 1) {
                            g0.cell(rr - shift, cc)
                        } else {
                            g0.cell(rr, cc)
                        } by {
                        lemma_flat_index_bounds(g0.spec_width(), g0.spec_height(), rr, cc);
                        if rr * g0.spec_width() + cc == dst {
                            lemma_flat_index_injective(
                                g0.spec_width(),
                                rr,
                                cc,
                                row as int,
                                col as int,
                            );
                        } else {
                            assert(self.cell(rr, cc) == pre.cell(rr, cc));
                        }
                    }
                }
                col = col + 1;
            }
        }
    }

    /// Reset the rectangle `[t0, t1) x [l, r)` to default cells.
    fn clear_rows(&mut self, t0: usize, t1: usize, l: usize, r: usize)
        requires
            old(self).wf(),
            t0 <= t1 <= old(self).spec_height(),
            l <= r <= old(self).spec_width(),
        ensures
            final(self).wf(),
            final(self).same_meta(old(self)),
            forall|row: int, col: int|
                0 <= row < old(self).spec_height() && 0 <= col < old(self).spec_width()
                    ==> #[trigger] final(self).cell(row, col) == if t0 <= row < t1 && l <= col
                    < r {
                    spec_default_cell()
                } else {
                    old(self).cell(row, col)
                },
    {
        let ghost g0 = *self;
        let mut row = t0;
        while row < t1
            invariant
                self.wf(),
                self.same_meta(&g0),
                t0 <= row <= t1,
                t1 <= g0.spec_height(),
                l <= r <= g0.spec_width(),
                forall|rr: int, cc: int|
                    0 <= rr < g0.spec_height() && 0 <= cc < g0.spec_width()
                        ==> #[trigger] self.cell(rr, cc) == if t0 <= rr < row && l <= cc < r {
                        spec_default_cell()
                    } else {
                        g0.cell(rr, cc)
                    },
            decreases t1 - row,
        {
            let mut col = l;
            while col < r
                invariant
                    self.wf(),
                    self.same_meta(&g0),
                    t0 <= row < t1,
                    t1 <= g0.spec_height(),
                    l <= col <= r,
                    r <= g0.spec_width(),
                    forall|rr: int, cc: int|
                        0 <= rr < g0.spec_height() && 0 <= cc < g0.spec_width()
                            ==> #[trigger] self.cell(rr, cc) == if (t0 <= rr < row && l <= cc < r)
                            || (rr == row && l <= cc < col) {
                            spec_default_cell()
                        } else {
                            g0.cell(rr, cc)
                        },
                decreases r - col,
            {
                let dst = self.flat_index(row, col);
                let ghost pre = *self;
                self.cells.set(dst, GridCell::default());
                proof {
                    assert forall|rr: int, cc: int|
                        0 <= rr < g0.spec_height() && 0 <= cc < g0.spec_width()
                            implies #[trigger] self.cell(rr, cc) == if (t0 <= rr < row && l <= cc
                            < r) || (rr == row && l <= cc < col + 1) {
                            spec_default_cell()
                        } else {
                            g0.cell(rr, cc)
                        } by {
                        lemma_flat_index_bounds(g0.spec_width(), g0.spec_height(), rr, cc);
                        if rr * g0.spec_width() + cc == dst {
                            lemma_flat_index_injective(
                                g0.spec_width(),
                                rr,
                                cc,
                                row as int,
                                col as int,
                            );
                        } else {
                            assert(self.cell(rr, cc) == pre.cell(rr, cc));
                        }
                    }
                }
                col = col + 1;
            }
            row = row + 1;
        }
    }

    /// Characters the heuristic scans from a row: the first five columns (or
    /// as many as the grid has), keeping only digits and spaces.
    pub open spec fn filtered_prefix(&self, row: int) -> Seq<char> {
        Seq::new(
            if self.spec_width() < 5 {
                self.spec_width() as nat
            } else {
                5nat
            },
            |c: int| self.cell(row, c).character,
        ).filter(digit_or_space_pred())
    }

    /// The line number the heuristic reads from a row: the row's scanned
    /// prefix parsed as a decimal, or nothing when it is not a clean integer.
    pub open spec fn spec_row_number(&self, row: int) -> Option<u32> {
        spec_parse_u32(self.filtered_prefix(row))
    }

    /// Scan a row's prefix and parse it as a line number.
    fn row_prefix_number(&self, row: usize) -> (r: Option<u32>)
        requires
            self.wf(),
            row < self.spec_height(),
        ensures
            r == self.spec_row_number(row as int),
    {
        let limit: usize = if self.width < 5 {
            self.width
        } else {
            5
        };
        let ghost prefix = Seq::new(
            limit as nat,
            |c: int| self.cell(row as int, c).character,
        );
        let ghost pred = digit_or_space_pred();
        let mut chars: Vec<char> = Vec::new();
        let mut c: usize = 0;
        while c < limit
            invariant
                self.wf(),
                row < self.spec_height(),
                limit <= self.spec_width(),
                limit <= 5,
                c <= limit,
                prefix == Seq::new(limit as nat, |cc: int| self.cell(row as int, cc).character),
                pred == digit_or_space_pred(),
                chars@ == prefix.take(c as int).filter(pred),
            decreases limit - c,
        {
            let idx = self.flat_index(row, c);
            let ch = self.cells[idx].character;
            let u = char_code(ch);
            proof {
                assert(prefix.take(c + 1).drop_last() =~= prefix.take(c as int));
                assert(prefix.take(c + 1).last() == ch);
                assert(pred(ch) == is_digit_or_space(ch));
            }
            if (48 <= u && u <= 57) || ch == ' ' {
                chars.push(ch);
            }
            proof {
                reveal_with_fuel(Seq::filter, 2);
                assert(prefix.take(c + 1).filter(pred) == if pred(ch) {
                    prefix.take(c as int).filter(pred).push(ch)
                } else {
                    prefix.take(c as int).filter(pred)
                });
                assert(chars@ == prefix.take(c + 1).filter(pred));
            }
            c = c + 1;
        }
        proof {
            assert(prefix.take(limit as int) =~= prefix);
            prefix.lemma_filter_len(pred);
        }
        parse_trimmed_digits(&chars)
    }

    /// Read the top visible line number from the grid, assuming the editor
    /// renders line numbers in the left margin. A heuristic diagnostic aid:
    /// it returns nothing whenever the first row's prefix is not a clean
    /// decimal, and breaks if line numbering is disabled.
    pub fn get_top_line_number(&self) -> (r: Option<u32>)
        requires
            self.wf(),
        ensures
            r == if self.spec_height() == 0 || self.spec_width() < 5 {
                None::<u32>
            } else {
                self.spec_row_number(0)
            },
    {
        if self.height == 0 || self.width < 5 {
            return None;
        }
        self.row_prefix_number(0)
    }

    /// Read the bottom visible line number: the heuristic scans the last
    /// visible row before the two extra buffer rows, at index `height - 3`.
    pub fn get_bottom_line_number(&self) -> (r: Option<u32>)
        requires
            self.wf(),
        ensures
            r == if self.spec_height() < 3 || self.spec_width() < 5 {
                None::<u32>
            } else {
                self.spec_row_number(self.spec_height() - 3)
            },
    {
        if self.height < 3 || self.width < 5 {
            return None;
        }
        self.row_prefix_number(self.height - 3)
    }

    /// Whether the last row shows no line number, meaning the view is past
    /// the end of the content. Heuristic, like the line-number queries.
    pub fn last_row_is_empty(&self) -> (r: bool)
        requires
            self.wf(),
        ensures
            r == if self.spec_height() < 1 {
                false
            } else {
                self.spec_row_number(self.spec_height() - 1) is None
            },
    {
        if self.height < 1 {
            return false;
        }
        self.row_prefix_number(self.height - 1).is_none()
    }

    /// Flat index of an in-bounds coordinate pair.
    fn flat_index(&self, row: usize, col: usize) -> (i: usize)
        requires
            self.wf(),
            row < self.spec_height(),
            col < self.spec_width(),
        ensures
            i == row * self.spec_width() + col,
            i < self.cells_seq().len(),
    {
        let n = self.cells.len();
        proof {
            lemma_flat_index_bounds(self.spec_width(), self.spec_height(), row as int, col as int);
            assert(row * self.spec_width() + col < n);
        }
        row * self.width + col
    }
}

/// A vector of `n` default cells.
fn filled_default(n: usize) -> (v: Vec<GridCell>)
    ensures
        v@.len() == n,
        forall|i: int| 0 <= i < n ==> v@[i] == spec_default_cell(),
{
    let mut v: Vec<GridCell> = Vec::new();
    let mut i: usize = 0;
    while i < n
        invariant
            i <= n,
            v@.len() == i,
            forall|j: int| 0 <= j < i ==> v@[j] == spec_default_cell(),
        decreases n - i,
    {
        v.push(GridCell::default());
        i = i + 1;
    }
    v
}

/// Row-major indices of in-bounds coordinates stay within the array.
pub proof fn lemma_flat_index_bounds(w: int, h: int, r: int, c: int)
    requires
        0 <= r < h,
        0 <= c < w,
    ensures
        0 <= r * w + c < h * w,
        w * h == h * w,
{
    assert(0 <= r * w + c < h * w && w * h == h * w) by (nonlinear_arith)
        requires
            0 <= r < h,
            0 <= c < w,
    ;
}

/// Row-major indexing is injective on in-bounds coordinates.
pub proof fn lemma_flat_index_injective(w: int, r1: int, c1: int, r2: int, c2: int)
    requires
        0 <= c1 < w,
        0 <= c2 < w,
        r1 * w + c1 == r2 * w + c2,
    ensures
        r1 == r2 && c1 == c2,
{
    assert(r1 == r2 && c1 == c2) by (nonlinear_arith)
        requires
            0 <= c1 < w,
            0 <= c2 < w,
            r1 * w + c1 == r2 * w + c2,
    ;
}

/// Parse a short digits-and-spaces string as a decimal number, as the
/// line-number heuristic does: trim surrounding spaces, then accept only a
/// non-empty run of digits.
fn parse_trimmed_digits(v: &Vec<char>) -> (r: Option<u32>)
    requires
        v@.len() <= 5,
    ensures
        r == spec_parse_u32(v@),
{
    let n = v.len();
    let mut i0: usize = 0;
    while i0 < n && v[i0] == ' '
        invariant
            i0 <= n,
            n == v@.len(),
            forall|j: int| 0 <= j < i0 ==> v@[j] == ' ',
        decreases n - i0,
    {
        i0 = i0 + 1;
    }
    proof {
        lemma_trim_start_idx(v@, i0 as int);
    }
    if i0 == n {
        proof {
            assert(spec_trim_start(v@) =~= Seq::<char>::empty());
        }
        return None;
    }
    let mut i1: usize = n;
    while v[i1 - 1] == ' '
        invariant
            i0 < i1 <= n,
            n == v@.len(),
            v@[i0 as int] != ' ',
            forall|j: int| i1 <= j < n ==> v@[j] == ' ',
        decreases i1,
    {
        i1 = i1 - 1;
    }
    proof {
        lemma_trim_end_idx(v@.subrange(i0 as int, n as int), i1 - i0 as int);
        assert(v@.subrange(i0 as int, n as int).subrange(0, i1 - i0 as int) =~= v@.subrange(
            i0 as int,
            i1 as int,
        ));
        assert(spec_trim(v@) == v@.subrange(i0 as int, i1 as int));
    }
    let ghost core = v@.subrange(i0 as int, i1 as int);
    let mut val: u32 = 0;
    let mut k: usize = i0;
    while k < i1
        invariant
            i0 <= k <= i1 <= n,
            n == v@.len(),
            n <= 5,
            core == v@.subrange(i0 as int, i1 as int),
            spec_trim(v@) == core,
            all_digits(core.take(k - i0 as int)),
            val == digits_val(core.take(k - i0 as int)),
            val < pow10((k - i0) as nat),
        decreases i1 - k,
    {
        let u = char_code(v[k]);
        if u < 48 || u > 57 {
            proof {
                assert(core[k - i0 as int] == v@[k as int]);
                assert(!is_digit(core[k - i0 as int]));
                assert(!all_digits(core));
            }
            return None;
        }
        proof {
            let m = k - i0 as int;
            assert(core.take(m + 1).drop_last() =~= core.take(m));
            assert(core.take(m + 1).last() == v@[k as int]);
            assert(digits_val(core.take(m + 1)) == digits_val(core.take(m)) * 10 + (
            v@[k as int] as int - 48));
            assert(is_digit(v@[k as int]));
            assert(all_digits(core.take(m + 1))) by {
                assert forall|i: int| 0 <= i < m + 1 implies is_digit(
                    #[trigger] core.take(m + 1)[i],
                ) by {
                    if i < m {
                        assert(core.take(m + 1)[i] == core.take(m)[i]);
                        assert(is_digit(core.take(m)[i]));
                    } else {
                        assert(core.take(m + 1)[i] == v@[k as int]);
                    }
                }
            }
            lemma_pow10_mono((m + 1) as nat, 5nat);
            assert(pow10(5nat) == 100000) by {
                reveal_with_fuel(pow10, 6);
            }
        }
        val = val * 10 + (u - 48);
        k = k + 1;
    }
    proof {
        assert(core.take(i1 - i0 as int) =~= core);
        assert(core.len() > 0);
    }
    Some(val)
}

/// When the first `i0` characters are spaces and the next one is not,
/// trimming leading spaces keeps exactly the tail from `i0` on.
proof fn lemma_trim_start_idx(s: Seq<char>, i0: int)
    requires
        0 <= i0 <= s.len(),
        forall|j: int| 0 <= j < i0 ==> s[j] == ' ',
        i0 == s.len() || s[i0] != ' ',
    ensures
        spec_trim_start(s) == s.subrange(i0, s.len() as int),
    decreases i0,
{
    if i0 == 0 {
        assert(s.subrange(0, s.len() as int) =~= s);
    } else {
        assert(s[0] == ' ');
        lemma_trim_start_idx(s.drop_first(), i0 - 1);
        assert(s.drop_first().subrange(i0 - 1, s.drop_first().len() as int) =~= s.subrange(
            i0,
            s.len() as int,
        ));
    }
}

/// When the last `len - m` characters are spaces and the one before them is
/// not, trimming trailing spaces keeps exactly the head up to `m`.
proof fn lemma_trim_end_idx(s: Seq<char>, m: int)
    requires
        0 <= m <= s.len(),
        forall|j: int| m <= j < s.len() ==> s[j] == ' ',
        m == 0 || s[m - 1] != ' ',
    ensures
        spec_trim_end(s) == s.subrange(0, m),
    decreases s.len() - m,
{
    if m == s.len() {
        assert(s.subrange(0, m) =~= s);
    } else {
        assert(s.last() == ' ');
        lemma_trim_end_idx(s.drop_last(), m);
        assert(s.drop_last().subrange(0, m) =~= s.subrange(0, m));
    }
}

/// Powers of ten are positive and monotone.
proof fn lemma_pow10_mono(a: nat, b: nat)
    requires
        a <= b,
    ensures
        1 <= pow10(a) <= pow10(b),
    decreases b,
{
    if b > 0 {
        if a == b {
            lemma_pow10_mono((a - 1) as nat, (b - 1) as nat);
        } else {
            lemma_pow10_mono(a, (b - 1) as nat);
        }
    }
}

/// Scrolling a region by `d` rows and then by `-d` rows with the same bounds
/// restores every region cell whose intermediate source stayed inside the
/// region; region cells the shifts exposed end as default cells, and cells
/// outside the region never change.
pub proof fn lemma_scroll_round_trip(
    g0: &Grid,
    g1: &Grid,
    g2: &Grid,
    t: int,
    b: int,
    l: int,
    r: int,
    d: int,
)
    requires
        0 <= t,
        b <= g0.spec_height(),
        0 <= l,
        r <= g0.spec_width(),
        scroll_rel(g0, g1, t, b, l, r, d),
        scroll_rel(g1, g2, t, b, l, r, -d),
    ensures
        forall|row: int, col: int|
            0 <= row < g0.spec_height() && 0 <= col < g0.spec_width() ==> #[trigger] g2.cell(
                row,
                col,
            ) == if t <= row < b && l <= col < r {
                if t <= row - d < b {
                    g0.cell(row, col)
                } else {
                    spec_default_cell()
                }
            } else {
                g0.cell(row, col)
            },
{
    assert forall|row: int, col: int|
        0 <= row < g0.spec_height() && 0 <= col < g0.spec_width() implies #[trigger] g2.cell(
        row,
        col,
    ) == if t <= row < b && l <= col < r {
        if t <= row - d < b {
            g0.cell(row, col)
        } else {
            spec_default_cell()
        }
    } else {
        g0.cell(row, col)
    } by {
        assert(g1.cell(row, col) == spec_scrolled_cell(g0, t, b, l, r, d, row, col));
        if t <= row < b && l <= col < r && t <= row - d < b {
            assert(g1.cell(row - d, col) == spec_scrolled_cell(g0, t, b, l, r, d, row - d, col));
        }
    }
}

} // verus!
