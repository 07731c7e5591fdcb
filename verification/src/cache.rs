//! The render content cache: a bounded, least-recently-used store of
//! pre-computed renderable line ranges, plus the render-range arithmetic
//! that decides which lines around the viewport are worth pre-rendering.
//!
//! Recency is a logical clock: every insertion and every hit stamps the
//! chunk with a fresh tick, so the chunk with the smallest stamp is the
//! least recently touched one.

use vstd::prelude::*;

use crate::render::RenderableCell;
use crate::scroll::{MAX_CELL_HEIGHT_PX, MAX_LINES, MAX_PIXELS, clamp_i, spec_trunc_div};

verus! {

/// Extra lines rendered above and below the viewport for smooth scrolling.
pub const CHUNK_BUFFER_LINES: usize = 100;

/// Most chunks kept resident at once.
pub const MAX_CHUNKS: usize = 30;

/// A rendered section of terminal content.
#[derive(Debug)]
pub struct RenderChunk {
    /// First line of this chunk, in terminal coordinates.
    pub start_line: i64,
    /// Number of lines in this chunk.
    pub lines: usize,
    /// The rendered cells for this chunk.
    pub cells: Vec<RenderableCell>,
    /// Recency stamp of the last access, for eviction.
    pub last_accessed: u64,
}

/// Whether a chunk covers the given line.
pub open spec fn spec_chunk_contains(c: &RenderChunk, line: int) -> bool {
    c.start_line <= line < c.start_line + c.lines
}

impl RenderChunk {
    /// A chunk over `lines` lines from `start_line`, not yet stamped: the
    /// cache stamps it on insertion.
    pub fn new(start_line: i64, lines: usize, cells: Vec<RenderableCell>) -> (r: RenderChunk)
        ensures
            r.start_line == start_line,
            r.lines == lines,
            r.cells@ == cells@,
            r.last_accessed == 0,
    {
        RenderChunk { start_line, lines, cells, last_accessed: 0 }
    }

    /// Whether this chunk covers the given line.
    pub fn contains_line(&self, line: i64) -> (r: bool)
        ensures
            r == spec_chunk_contains(self, line as int),
    {
        line >= self.start_line && (line as i128) < self.start_line as i128 + self.lines as i128
    }

    /// The last line this chunk covers.
    pub fn end_line(&self) -> (r: i64)
        requires
            self.lines >= 1,
            self.lines <= i64::MAX,
            self.start_line + self.lines <= i64::MAX,
        ensures
            r == self.start_line + self.lines - 1,
    {
        self.start_line + (self.lines as i64 - 1)
    }

    /// Refresh this chunk's recency stamp.
    pub fn touch(&mut self, stamp: u64)
        ensures
            final(self).start_line == old(self).start_line,
            final(self).lines == old(self).lines,
            final(self).cells@ == old(self).cells@,
            final(self).last_accessed == stamp,
    {
        self.last_accessed = stamp;
    }
}

/// Index of the least recently touched chunk: its stamp is minimal, and it
/// is the first chunk with that stamp.
pub open spec fn is_oldest_idx(s: Seq<RenderChunk>, k: int) -> bool {
    &&& 0 <= k < s.len()
    &&& forall|j: int| 0 <= j < s.len() ==> s[k].last_accessed <= #[trigger] s[j].last_accessed
    &&& forall|j: int| 0 <= j < k ==> #[trigger] s[j].last_accessed > s[k].last_accessed
}

/// A chunk stamped more recently than every other resident chunk cannot
/// be the least recently touched one, so the next eviction spares it: a
/// hit protects its chunk.
pub proof fn lemma_freshest_chunk_survives(s: Seq<RenderChunk>, i: int)
    requires
        0 <= i < s.len(),
        s.len() >= 2,
        forall|j: int|
            0 <= j < s.len() && j != i ==> #[trigger] s[j].last_accessed < s[i].last_accessed,
    ensures
        !is_oldest_idx(s, i),
{
    let j: int = if i == 0 {
        1
    } else {
        0
    };
    assert(s[j].last_accessed < s[i].last_accessed);
}

/// The chunk `c` stamped with `stamp`.
pub open spec fn spec_stamped(c: &RenderChunk, stamp: u64) -> RenderChunk {
    RenderChunk { start_line: c.start_line, lines: c.lines, cells: c.cells, last_accessed: stamp }
}

/// What lines to pre-render: starting `CHUNK_BUFFER_LINES` above the
/// viewport's first line (bounded by the available history), spanning the
/// viewport plus the buffer on both sides (bounded by the terminal's last
/// line).
pub open spec fn spec_render_range(
    history: int,
    max_lines: int,
    viewport: int,
    display_offset: int,
) -> (int, int) {
    let desired_start = -display_offset - 100;
    let bounded_start = if desired_start >= -history {
        desired_start
    } else {
        -history
    };
    let desired_total = viewport + 200;
    let actual_end = if bounded_start + desired_total <= max_lines {
        bounded_start + desired_total
    } else {
        max_lines
    };
    let total = if actual_end - bounded_start >= 0 {
        actual_end - bounded_start
    } else {
        0
    };
    (bounded_start, total)
}

/// Keep a cell whose line exists in the terminal and lies in the render
/// range.
pub open spec fn spec_visible_pred(limit: int, start: int, end: int) -> spec_fn(
    RenderableCell,
) -> bool {
    |c: RenderableCell| c.line < limit && start <= c.line < end
}

/// The chunk cache and the render-range state it depends on.
pub struct ChunkedRenderer {
    /// Resident chunks, at most `MAX_CHUNKS` of them.
    chunks: Vec<RenderChunk>,
    /// The pending smooth-scroll offset in pixels; input deltas settle into
    /// it immediately, and whole lines are consumed back out of it.
    position_px: i64,
    /// Cell height in pixels.
    cell_height: i64,
    /// Lines on the terminal screen.
    max_terminal_lines: usize,
    /// Lines of scrollback history.
    terminal_history: usize,
    /// The next recency stamp to hand out.
    next_stamp: u64,
}

impl ChunkedRenderer {
    /// The resident chunks in insertion order.
    pub closed spec fn spec_chunks(&self) -> Seq<RenderChunk> {
        self.chunks@
    }

    /// The pending scroll offset in pixels.
    pub closed spec fn spec_position(&self) -> int {
        self.position_px as int
    }

    /// The cell height in pixels.
    pub closed spec fn spec_cell_height(&self) -> int {
        self.cell_height as int
    }

    /// Lines on the terminal screen.
    pub closed spec fn spec_max_terminal_lines(&self) -> int {
        self.max_terminal_lines as int
    }

    /// Lines of scrollback history.
    pub closed spec fn spec_terminal_history(&self) -> int {
        self.terminal_history as int
    }

    /// The next recency stamp.
    pub closed spec fn spec_next_stamp(&self) -> u64 {
        self.next_stamp
    }

    /// Bounds and recency discipline: the cache is within capacity, every
    /// stamp was handed out before the next one, and no stamp repeats.
    pub open spec fn wf(&self) -> bool {
        &&& self.spec_chunks().len() <= MAX_CHUNKS
        &&& 0 <= self.spec_cell_height() <= MAX_CELL_HEIGHT_PX
        &&& self.spec_max_terminal_lines() <= MAX_LINES
        &&& self.spec_terminal_history() <= MAX_LINES
        &&& -MAX_PIXELS <= self.spec_position() <= MAX_PIXELS
        &&& forall|j: int|
            0 <= j < self.spec_chunks().len() ==> #[trigger] self.spec_chunks()[j].last_accessed
                < self.spec_next_stamp()
        &&& forall|j1: int, j2: int|
            0 <= j1 < j2 < self.spec_chunks().len() ==> #[trigger] self.spec_chunks()[j1].last_accessed
                != #[trigger] self.spec_chunks()[j2].last_accessed
    }

    /// Fields the chunk operations never touch.
    pub open spec fn same_bounds(&self, other: &Self) -> bool {
        &&& self.spec_position() == other.spec_position()
        &&& self.spec_cell_height() == other.spec_cell_height()
        &&& self.spec_max_terminal_lines() == other.spec_max_terminal_lines()
        &&& self.spec_terminal_history() == other.spec_terminal_history()
    }

    /// An empty cache.
    pub fn new() -> (r: ChunkedRenderer)
        ensures
            r.wf(),
            r.spec_chunks().len() == 0,
            r.spec_position() == 0,
            r.spec_cell_height() == 0,
            r.spec_max_terminal_lines() == 0,
            r.spec_terminal_history() == 0,
    {
        ChunkedRenderer {
            chunks: Vec::new(),
            position_px: 0,
            cell_height: 0,
            max_terminal_lines: 0,
            terminal_history: 0,
            next_stamp: 1,
        }
    }

    /// Update the cell height when the font changes.
    pub fn update_cell_height(&mut self, cell_height_px: i64)
        requires
            old(self).wf(),
            0 <= cell_height_px <= MAX_CELL_HEIGHT_PX,
        ensures
            final(self).wf(),
            final(self).spec_cell_height() == cell_height_px,
            final(self).spec_chunks() == old(self).spec_chunks(),
            final(self).spec_position() == old(self).spec_position(),
            final(self).spec_max_terminal_lines() == old(self).spec_max_terminal_lines(),
            final(self).spec_terminal_history() == old(self).spec_terminal_history(),
            final(self).spec_next_stamp() == old(self).spec_next_stamp(),
    {
        self.cell_height = cell_height_px;
    }

    /// Update the terminal bounds used for range clamping.
    pub fn update_terminal_bounds(&mut self, screen_lines: usize, history_size: usize)
        requires
            old(self).wf(),
            screen_lines <= MAX_LINES,
            history_size <= MAX_LINES,
        ensures
            final(self).wf(),
            final(self).spec_max_terminal_lines() == screen_lines,
            final(self).spec_terminal_history() == history_size,
            final(self).spec_chunks() == old(self).spec_chunks(),
            final(self).spec_position() == old(self).spec_position(),
            final(self).spec_cell_height() == old(self).spec_cell_height(),
            final(self).spec_next_stamp() == old(self).spec_next_stamp(),
    {
        self.max_terminal_lines = screen_lines;
        self.terminal_history = history_size;
    }

    /// Set the pixel-level viewport offset directly.
    pub fn set_viewport_offset(&mut self, offset: i64)
        requires
            old(self).wf(),
            -MAX_PIXELS <= offset <= MAX_PIXELS,
        ensures
            final(self).wf(),
            final(self).spec_position() == offset,
            final(self).spec_chunks() == old(self).spec_chunks(),
            final(self).same_meta_but_position(old(self)),
    {
        self.position_px = offset;
    }

    /// Fields a position change never touches.
    pub open spec fn same_meta_but_position(&self, other: &Self) -> bool {
        &&& self.spec_cell_height() == other.spec_cell_height()
        &&& self.spec_max_terminal_lines() == other.spec_max_terminal_lines()
        &&& self.spec_terminal_history() == other.spec_terminal_history()
        &&& self.spec_next_stamp() == other.spec_next_stamp()
    }

    /// The current viewport offset; input deltas settle into the offset
    /// immediately, so reading it is the whole animation update.
    pub fn viewport_offset(&mut self) -> (r: i64)
        ensures
            *final(self) == *old(self),
            r == final(self).spec_position(),
    {
        self.position_px
    }

    /// The current viewport offset without updating the animation.
    pub fn viewport_offset_current(&self) -> (r: i64)
        ensures
            r == self.spec_position(),
    {
        self.position_px
    }

    /// Whether a scroll offset is pending presentation.
    pub fn is_animating(&self) -> (r: bool)
        ensures
            r == (self.spec_position() != 0),
    {
        self.position_px != 0
    }

    /// Whether the next frame must be redrawn for the animation.
    pub fn needs_redraw(&self) -> (r: bool)
        ensures
            r == (self.spec_position() != 0),
    {
        self.position_px != 0
    }

    /// Consume any full-line movement from the offset into whole lines.
    /// Returns how many lines the terminal must scroll by so the residual
    /// pixel offset stays within one cell height.
    pub fn normalize_and_consume_lines(&mut self) -> (r: i64)
        requires
            old(self).wf(),
        ensures
            final(self).wf(),
            final(self).spec_chunks() == old(self).spec_chunks(),
            final(self).same_meta_but_position(old(self)),
            old(self).spec_cell_height() <= 0 ==> r == 0 && final(self).spec_position() == old(
                self,
            ).spec_position(),
            old(self).spec_cell_height() > 0 ==> {
                &&& r == spec_trunc_div(old(self).spec_position(), old(self).spec_cell_height())
                &&& final(self).spec_position() == old(self).spec_position() - r * old(
                    self,
                ).spec_cell_height()
                &&& -old(self).spec_cell_height() < final(self).spec_position() < old(
                    self,
                ).spec_cell_height()
            },
    {
        if self.cell_height <= 0 {
            return 0;
        }
        proof {
            crate::scroll::lemma_trunc_div_props(self.spec_position(), self.spec_cell_height());
        }
        let lines = crate::scroll::trunc_div_pixels(self.position_px, self.cell_height);
        if lines != 0 {
            self.position_px = self.position_px - lines * self.cell_height;
        }
        lines
    }

    /// Which lines to render for the current viewport, as a start line (in
    /// terminal coordinates, negative for history) and a line count.
    pub fn calculate_render_range(&self, viewport_lines: usize, display_offset: usize) -> (r: (
        i64,
        usize,
    ))
        requires
            self.wf(),
            viewport_lines <= MAX_LINES,
            display_offset <= MAX_LINES,
        ensures
            (r.0 as int, r.1 as int) == spec_render_range(
                self.spec_terminal_history(),
                self.spec_max_terminal_lines(),
                viewport_lines as int,
                display_offset as int,
            ),
    {
        let desired_start: i64 = -(display_offset as i64) - (CHUNK_BUFFER_LINES as i64);
        let max_history_line: i64 = -(self.terminal_history as i64);
        let bounded_start: i64 = if desired_start >= max_history_line {
            desired_start
        } else {
            max_history_line
        };
        let desired_total: i64 = viewport_lines as i64 + 2 * (CHUNK_BUFFER_LINES as i64);
        let max_end: i64 = self.max_terminal_lines as i64;
        let actual_end: i64 = if bounded_start + desired_total <= max_end {
            bounded_start + desired_total
        } else {
            max_end
        };
        let actual_total: i64 = if actual_end - bounded_start >= 0 {
            actual_end - bounded_start
        } else {
            0
        };
        (bounded_start, actual_total as usize)
    }

    /// Whether a line exists in the terminal, within screen or history.
    pub fn line_exists(&self, line: usize) -> (r: bool)
        requires
            self.wf(),
        ensures
            r == (line < self.spec_max_terminal_lines() + self.spec_terminal_history()),
    {
        line < self.max_terminal_lines + self.terminal_history
    }

    /// Find the resident chunk covering the given line and refresh its
    /// recency; the result is its index, or nothing on a miss (the caller
    /// must materialise and insert).
    pub fn get_chunk(&mut self, start_line: i64, _lines: usize) -> (r: Option<usize>)
        requires
            old(self).wf(),
            old(self).spec_next_stamp() < u64::MAX,
        ensures
            final(self).wf(),
            final(self).same_bounds(old(self)),
            match r {
                Some(i) => {
                    &&& 0 <= i < old(self).spec_chunks().len()
                    &&& spec_chunk_contains(&old(self).spec_chunks()[i as int], start_line as int)
                    &&& forall|j: int|
                        0 <= j < i ==> !spec_chunk_contains(
                            &old(self).spec_chunks()[j],
                            start_line as int,
                        )
                    &&& final(self).spec_chunks() == old(self).spec_chunks().update(
                        i as int,
                        spec_stamped(
                            &old(self).spec_chunks()[i as int],
                            old(self).spec_next_stamp(),
                        ),
                    )
                    &&& final(self).spec_next_stamp() == old(self).spec_next_stamp() + 1
                },
                None => {
                    &&& forall|j: int|
                        0 <= j < old(self).spec_chunks().len() ==> !spec_chunk_contains(
                            &old(self).spec_chunks()[j],
                            start_line as int,
                        )
                    &&& *final(self) == *old(self)
                },
            },
    {
        let ghost orig = *self;
        let mut i: usize = 0;
        let n = self.chunks.len();
        while i < n
            invariant
                *self == orig,
                orig == *old(self),
                orig.wf(),
                orig.spec_next_stamp() < u64::MAX,
                i <= n,
                n == self.chunks@.len(),
                forall|j: int|
                    0 <= j < i ==> !spec_chunk_contains(&self.chunks@[j], start_line as int),
            decreases n - i,
        {
            if self.chunks[i].contains_line(start_line) {
                let stamp = self.next_stamp;
                set_chunk_stamp(&mut self.chunks, i, stamp);
                self.next_stamp = self.next_stamp + 1;
                proof {
                    let s0 = orig.spec_chunks();
                    let s1 = self.spec_chunks();
                    assert(s1 == s0.update(i as int, spec_stamped(&s0[i as int], stamp)));
                    assert forall|j: int|
                        0 <= j < s1.len() implies #[trigger] s1[j].last_accessed
                        < self.spec_next_stamp() by {
                        if j != i {
                            assert(s1[j] == s0[j]);
                        }
                    }
                    assert forall|j1: int, j2: int|
                        0 <= j1 < j2 < s1.len() implies #[trigger] s1[j1].last_accessed
                        != #[trigger] s1[j2].last_accessed by {
                        if j1 != i {
                            assert(s1[j1] == s0[j1]);
                        }
                        if j2 != i {
                            assert(s1[j2] == s0[j2]);
                        }
                    }
                }
                return Some(i);
            }
            i = i + 1;
        }
        None
    }

    /// Read a resident chunk.
    pub fn chunk_at(&self, i: usize) -> (r: &RenderChunk)
        requires
            i < self.spec_chunks().len(),
        ensures
            *r == self.spec_chunks()[i as int],
    {
        &self.chunks[i]
    }

    /// How many chunks are resident.
    pub fn chunk_count(&self) -> (r: usize)
        ensures
            r == self.spec_chunks().len(),
    {
        self.chunks.len()
    }

    /// Insert a chunk, stamping it as most recently touched; when the cache
    /// is full, the least recently touched chunk is evicted first.
    pub fn add_chunk(&mut self, chunk: RenderChunk)
        requires
            old(self).wf(),
            old(self).spec_next_stamp() < u64::MAX,
        ensures
            final(self).wf(),
            final(self).same_bounds(old(self)),
            final(self).spec_next_stamp() == old(self).spec_next_stamp() + 1,
            old(self).spec_chunks().len() < MAX_CHUNKS ==> final(self).spec_chunks() == old(
                self,
            ).spec_chunks().push(spec_stamped(&chunk, old(self).spec_next_stamp())),
            old(self).spec_chunks().len() >= MAX_CHUNKS ==> exists|k: int|
                {
                    &&& #[trigger] is_oldest_idx(old(self).spec_chunks(), k)
                    &&& final(self).spec_chunks() == old(self).spec_chunks().remove(k).push(
                        spec_stamped(&chunk, old(self).spec_next_stamp()),
                    )
                },
    {
        while self.chunks.len() >= MAX_CHUNKS
            invariant
                self.wf(),
                self.same_bounds(old(self)),
                self.spec_next_stamp() == old(self).spec_next_stamp(),
                old(self).wf(),
                self.spec_chunks() == old(self).spec_chunks() || (old(
                    self,
                ).spec_chunks().len() >= MAX_CHUNKS && exists|k: int|
                    {
                        &&& #[trigger] is_oldest_idx(old(self).spec_chunks(), k)
                        &&& self.spec_chunks() == old(self).spec_chunks().remove(k)
                    }),
            decreases self.spec_chunks().len(),
        {
            proof {
                assert(self.spec_chunks() == old(self).spec_chunks());
            }
            let ghost mid0 = *self;
            self.evict_oldest_chunk();
            proof {
                let k = choose|k: int|
                    {
                        &&& #[trigger] is_oldest_idx(mid0.spec_chunks(), k)
                        &&& self.spec_chunks() == mid0.spec_chunks().remove(k)
                    };
                assert(is_oldest_idx(old(self).spec_chunks(), k) && self.spec_chunks() == old(
                    self,
                ).spec_chunks().remove(k));
            }
        }
        let ghost pre = *self;
        let mut c = chunk;
        c.last_accessed = self.next_stamp;
        self.chunks.push(c);
        self.next_stamp = self.next_stamp + 1;
        proof {
            let s1 = self.spec_chunks();
            let s0 = pre.spec_chunks();
            assert(s1 == s0.push(spec_stamped(&chunk, old(self).spec_next_stamp())));
            assert forall|j: int|
                0 <= j < s1.len() implies #[trigger] s1[j].last_accessed
                < self.spec_next_stamp() by {
                if j < s0.len() {
                    assert(s1[j] == s0[j]);
                }
            }
            assert forall|j1: int, j2: int|
                0 <= j1 < j2 < s1.len() implies #[trigger] s1[j1].last_accessed
                != #[trigger] s1[j2].last_accessed by {
                if j2 < s0.len() {
                    assert(s1[j1] == s0[j1] && s1[j2] == s0[j2]);
                } else {
                    assert(s1[j1] == s0[j1]);
                }
            }
        }
    }

    /// Evict the least recently touched chunk, if any.
    fn evict_oldest_chunk(&mut self)
        requires
            old(self).wf(),
        ensures
            final(self).wf(),
            final(self).same_bounds(old(self)),
            final(self).spec_next_stamp() == old(self).spec_next_stamp(),
            old(self).spec_chunks().len() == 0 ==> *final(self) == *old(self),
            old(self).spec_chunks().len() > 0 ==> exists|k: int|
                {
                    &&& #[trigger] is_oldest_idx(old(self).spec_chunks(), k)
                    &&& final(self).spec_chunks() == old(self).spec_chunks().remove(k)
                },
    {
        let r = self.find_oldest_chunk();
        match r {
            Some(idx) => {
                let ghost s0 = self.chunks@;
                self.chunks.remove(idx);
                proof {
                    assert(is_oldest_idx(s0, idx as int) && self.chunks@ == s0.remove(idx as int));
                    assert forall|j: int|
                        0 <= j < self.chunks@.len() implies #[trigger] self.chunks@[j].last_accessed
                        < self.spec_next_stamp() by {
                        if j < idx {
                            assert(self.chunks@[j] == s0[j]);
                        } else {
                            assert(self.chunks@[j] == s0[j + 1]);
                        }
                    }
                    assert forall|j1: int, j2: int|
                        0 <= j1 < j2 < self.chunks@.len() implies #[trigger] self.chunks@[j1].last_accessed
                        != #[trigger] self.chunks@[j2].last_accessed by {
                        if j1 < idx {
                            assert(self.chunks@[j1] == s0[j1]);
                        } else {
                            assert(self.chunks@[j1] == s0[j1 + 1]);
                        }
                        if j2 < idx {
                            assert(self.chunks@[j2] == s0[j2]);
                        } else {
                            assert(self.chunks@[j2] == s0[j2 + 1]);
                        }
                    }
                }
            },
            None => {},
        }
    }

    /// Index of the least recently touched chunk, or nothing when empty.
    fn find_oldest_chunk(&self) -> (r: Option<usize>)
        ensures
            match r {
                Some(i) => is_oldest_idx(self.spec_chunks(), i as int),
                None => self.spec_chunks().len() == 0,
            },
    {
        let n = self.chunks.len();
        if n == 0 {
            return None;
        }
        let mut best: usize = 0;
        let mut j: usize = 1;
        while j < n
            invariant
                n == self.chunks@.len(),
                best < j <= n,
                forall|t: int|
                    0 <= t < j ==> self.chunks@[best as int].last_accessed
                        <= #[trigger] self.chunks@[t].last_accessed,
                forall|t: int|
                    0 <= t < best ==> #[trigger] self.chunks@[t].last_accessed
                        > self.chunks@[best as int].last_accessed,
            decreases n - j,
        {
            if self.chunks[j].last_accessed < self.chunks[best].last_accessed {
                best = j;
            }
            j = j + 1;
        }
        Some(best)
    }

    /// Drop every chunk (on a major content change, such as a buffer
    /// switch).
    pub fn clear_chunks(&mut self)
        requires
            old(self).wf(),
        ensures
            final(self).wf(),
            final(self).same_bounds(old(self)),
            final(self).spec_next_stamp() == old(self).spec_next_stamp(),
            final(self).spec_chunks().len() == 0,
    {
        self.chunks.clear();
    }

    /// Filter the given cells down to those whose lines exist in the
    /// terminal and lie within the render range for the current viewport.
    pub fn get_renderable_cells_with_offset(
        &mut self,
        cells: &Vec<RenderableCell>,
        viewport_lines: usize,
        display_offset: usize,
        _pixel_offset: i64,
        line_offset: usize,
    ) -> (r: Vec<RenderableCell>)
        requires
            old(self).wf(),
            viewport_lines <= MAX_LINES,
            display_offset <= MAX_LINES,
        ensures
            *final(self) == *old(self),
            ({
                let ado = if display_offset >= line_offset {
                    display_offset - line_offset
                } else {
                    0
                };
                let range = spec_render_range(
                    old(self).spec_terminal_history(),
                    old(self).spec_max_terminal_lines(),
                    viewport_lines as int,
                    ado,
                );
                r@ == cells@.filter(
                    spec_visible_pred(
                        old(self).spec_max_terminal_lines() + old(self).spec_terminal_history(),
                        range.0,
                        range.0 + range.1,
                    ),
                )
            }),
    {
        let actual_display_offset = if display_offset >= line_offset {
            display_offset - line_offset
        } else {
            0
        };
        let (start_line, total_lines) = self.calculate_render_range(
            viewport_lines,
            actual_display_offset,
        );
        let limit = self.max_terminal_lines + self.terminal_history;
        let end: i64 = start_line + total_lines as i64;
        let ghost pred = spec_visible_pred(limit as int, start_line as int, end as int);
        let mut out: Vec<RenderableCell> = Vec::new();
        let mut i: usize = 0;
        let n = cells.len();
        while i < n
            invariant
                i <= n,
                n == cells@.len(),
                pred == spec_visible_pred(limit as int, start_line as int, end as int),
                limit <= 20_000_000,
                end == start_line + total_lines as int,
                out@ == cells@.take(i as int).filter(pred),
            decreases n - i,
        {
            let cell = cells[i];
            let ghost out0 = out@;
            proof {
                assert(cells@.take(i + 1).drop_last() =~= cells@.take(i as int));
                assert(cells@.take(i + 1).last() == cell);
            }
            if cell.line < limit && start_line <= cell.line as i64 && (cell.line as i64) < end {
                out.push(cell);
            }
            proof {
                reveal_with_fuel(Seq::filter, 2);
                assert(pred(cell) == (cell.line < limit && start_line as int <= cell.line
                    && cell.line < end as int));
                assert(out@ == cells@.take(i + 1).filter(pred));
            }
            i = i + 1;
        }
        proof {
            assert(cells@.take(n as int) =~= cells@);
        }
        out
    }

    /// Accumulate a scroll delta, given in lines, onto the pending offset.
    pub fn update_scroll(&mut self, scroll_delta_lines: i64)
        requires
            old(self).wf(),
            -(MAX_LINES as i64) <= scroll_delta_lines <= MAX_LINES as i64,
        ensures
            final(self).wf(),
            final(self).spec_chunks() == old(self).spec_chunks(),
            final(self).same_meta_but_position(old(self)),
            final(self).spec_position() == clamp_i(
                old(self).spec_position() + scroll_delta_lines * old(self).spec_cell_height(),
                -MAX_PIXELS as int,
                MAX_PIXELS as int,
            ),
    {
        proof {
            assert(-MAX_PIXELS <= scroll_delta_lines * self.spec_cell_height()
                <= MAX_PIXELS) by (nonlinear_arith)
                requires
                    -10_000_000 <= scroll_delta_lines <= 10_000_000,
                    0 <= self.spec_cell_height() <= 100_000,
            ;
        }
        let pixel_delta = scroll_delta_lines * self.cell_height;
        let next = self.position_px + pixel_delta;
        self.position_px = if next > MAX_PIXELS {
            MAX_PIXELS
        } else if next < -MAX_PIXELS {
            -MAX_PIXELS
        } else {
            next
        };
    }

    /// Cancel a whole-line scroll of the terminal grid out of the pending
    /// offset, keeping the residual pixel offset stable.
    pub fn consume_scrolled_lines(&mut self, lines: i64)
        requires
            old(self).wf(),
            -(MAX_LINES as i64) <= lines <= MAX_LINES as i64,
        ensures
            final(self).wf(),
            final(self).spec_chunks() == old(self).spec_chunks(),
            final(self).same_meta_but_position(old(self)),
            final(self).spec_position() == clamp_i(
                old(self).spec_position() - lines * old(self).spec_cell_height(),
                -MAX_PIXELS as int,
                MAX_PIXELS as int,
            ),
    {
        proof {
            assert(-MAX_PIXELS <= lines * self.spec_cell_height() <= MAX_PIXELS) by (nonlinear_arith)
                requires
                    -10_000_000 <= lines <= 10_000_000,
                    0 <= self.spec_cell_height() <= 100_000,
            ;
        }
        let pixel_delta = lines * self.cell_height;
        let next = self.position_px - pixel_delta;
        self.position_px = if next > MAX_PIXELS {
            MAX_PIXELS
        } else if next < -MAX_PIXELS {
            -MAX_PIXELS
        } else {
            next
        };
    }

    /// Jump the pending offset to a target, given in lines; reports whether
    /// an offset is now pending presentation.
    pub fn animate_scroll(&mut self, target_offset_lines: i64, _animation_speed: i64) -> (r: bool)
        requires
            old(self).wf(),
            -(MAX_LINES as i64) <= target_offset_lines <= MAX_LINES as i64,
        ensures
            final(self).wf(),
            final(self).spec_chunks() == old(self).spec_chunks(),
            final(self).same_meta_but_position(old(self)),
            final(self).spec_position() == target_offset_lines * old(self).spec_cell_height(),
            r == (final(self).spec_position() != 0),
    {
        proof {
            assert(-MAX_PIXELS <= target_offset_lines * self.spec_cell_height()
                <= MAX_PIXELS) by (nonlinear_arith)
                requires
                    -10_000_000 <= target_offset_lines <= 10_000_000,
                    0 <= self.spec_cell_height() <= 100_000,
            ;
        }
        self.position_px = target_offset_lines * self.cell_height;
        self.position_px != 0
    }

    /// Drop any pending scroll offset.
    pub fn stop_animation(&mut self)
        requires
            old(self).wf(),
        ensures
            final(self).wf(),
            final(self).spec_chunks() == old(self).spec_chunks(),
            final(self).same_meta_but_position(old(self)),
            final(self).spec_position() == 0,
    {
        self.position_px = 0;
    }

    /// The rows that actually exist within the render range: the range's
    /// start clamped to the screen, and how many consecutive lines from it
    /// exist in the terminal.
    pub fn get_effective_render_area(&self, viewport_lines: usize, display_offset: usize) -> (r: (
        usize,
        usize,
    ))
        requires
            self.wf(),
            viewport_lines <= MAX_LINES,
            display_offset <= MAX_LINES,
        ensures
            ({
                let range = spec_render_range(
                    self.spec_terminal_history(),
                    self.spec_max_terminal_lines(),
                    viewport_lines as int,
                    display_offset as int,
                );
                let limit = self.spec_max_terminal_lines() + self.spec_terminal_history();
                &&& r.0 == if range.0 >= 0 {
                    range.0
                } else {
                    0
                }
                &&& r.1 == if range.0 < 0 {
                    0int
                } else if limit - range.0 < 0 {
                    0int
                } else if range.1 <= limit - range.0 {
                    range.1
                } else {
                    limit - range.0
                }
            }),
    {
        let (start_line, total_lines) = self.calculate_render_range(
            viewport_lines,
            display_offset,
        );
        if start_line < 0 {
            return (0, 0);
        }
        let start = start_line as usize;
        let limit = self.max_terminal_lines + self.terminal_history;
        let existing: usize = if start >= limit {
            0
        } else if total_lines <= limit - start {
            total_lines
        } else {
            limit - start
        };
        (start, existing)
    }
}

impl Default for ChunkedRenderer {
    /// Same as `new`.
    fn default() -> (r: Self)
        ensures
            r.wf(),
            r.spec_chunks().len() == 0,
            r.spec_position() == 0,
            r.spec_cell_height() == 0,
            r.spec_max_terminal_lines() == 0,
            r.spec_terminal_history() == 0,
    {
        Self::new()
    }
}

/// Stamp one chunk of a chunk vector.
fn set_chunk_stamp(chunks: &mut Vec<RenderChunk>, i: usize, stamp: u64)
    requires
        i < old(chunks)@.len(),
    ensures
        final(chunks)@ == old(chunks)@.update(
            i as int,
            spec_stamped(&old(chunks)@[i as int], stamp),
        ),
{
    let ghost s0 = chunks@;
    let mut c = chunks.remove(i);
    c.last_accessed = stamp;
    chunks.insert(i, c);
    proof {
        assert(chunks@ =~= s0.update(i as int, spec_stamped(&s0[i as int], stamp)));
    }
}

} // verus!
