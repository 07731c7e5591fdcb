//! Pixel-level scroll reconciliation.
//!
//! The engine converts raw pointer pixel deltas and momentum into a
//! continuous pixel offset, clamps it to the pixel-equivalent of the
//! available history above and scrolled-back lines below, and quantizes
//! consumed whole lines back out so the sub-line residual always stays
//! within one cell height. All quantities are whole pixels; timestamps are
//! milliseconds supplied by the caller.
//!
//! The engine has two modes: direct, where the offset follows input deltas
//! one to one, and momentum, where a velocity decays under exponential
//! friction. A conservative session starts in direct mode and only enters
//! momentum once a physically derived velocity has been computed; ticks with
//! a negligible velocity fall back to direct mode.

use vstd::prelude::*;

verus! {

/// Largest cell height in pixels the engine accepts.
pub const MAX_CELL_HEIGHT_PX: i64 = 100_000;

/// Largest line count (history, screen or offset) the engine accepts.
pub const MAX_LINES: usize = 10_000_000;

/// Largest pixel magnitude the engine tracks; the product of the two bounds
/// above, so every clamped offset fits.
pub const MAX_PIXELS: i64 = 1_000_000_000_000;

/// `v` clamped into `[lo, hi]`.
pub open spec fn clamp_i(v: int, lo: int, hi: int) -> int {
    if v > hi {
        hi
    } else if v < lo {
        lo
    } else {
        v
    }
}

/// Division truncating toward zero, for a positive divisor: how many whole
/// cells a pixel offset contains.
pub open spec fn spec_trunc_div(a: int, b: int) -> int {
    if a >= 0 {
        a / b
    } else {
        -((-a) / b)
    }
}

/// The truncated quotient lies within one divisor of the dividend, on the
/// dividend's side of zero.
pub proof fn lemma_trunc_div_props(a: int, b: int)
    requires
        b > 0,
    ensures
        a >= 0 ==> spec_trunc_div(a, b) >= 0 && spec_trunc_div(a, b) * b <= a < spec_trunc_div(
            a,
            b,
        ) * b + b,
        a < 0 ==> spec_trunc_div(a, b) <= 0 && spec_trunc_div(a, b) * b - b < a <= spec_trunc_div(
            a,
            b,
        ) * b,
{
    if a >= 0 {
        vstd::arithmetic::div_mod::lemma_remainder(a, b);
        vstd::arithmetic::div_mod::lemma_div_pos_is_pos(a, b);
    } else {
        let m = -a;
        vstd::arithmetic::div_mod::lemma_remainder(m, b);
        vstd::arithmetic::div_mod::lemma_div_pos_is_pos(m, b);
        vstd::arithmetic::mul::lemma_mul_unary_negation(m / b, b);
    }
}

/// A quotient of a bounded dividend is bounded by the matching line count.
pub proof fn lemma_trunc_div_within(a: int, b: int, lo_lines: int, hi_lines: int)
    requires
        b > 0,
        -(lo_lines * b) <= a <= hi_lines * b,
        lo_lines >= 0,
        hi_lines >= 0,
    ensures
        -lo_lines <= spec_trunc_div(a, b) <= hi_lines,
{
    lemma_trunc_div_props(a, b);
    let q = spec_trunc_div(a, b);
    if a >= 0 {
        assert(q <= hi_lines) by (nonlinear_arith)
            requires
                b > 0,
                q * b <= a,
                a <= hi_lines * b,
        ;
    } else {
        assert(-lo_lines <= q) by (nonlinear_arith)
            requires
                b > 0,
                a <= q * b,
                -(lo_lines * b) <= a,
        ;
    }
}

/// Truncating division toward zero on machine integers.
pub(crate) fn trunc_div_pixels(a: i64, b: i64) -> (q: i64)
    requires
        0 < b,
        -1_000_000_000_000_000_000 <= a <= 1_000_000_000_000_000_000,
    ensures
        q == spec_trunc_div(a as int, b as int),
{
    if a >= 0 {
        (a as u64 / b as u64) as i64
    } else {
        proof {
            vstd::arithmetic::div_mod::lemma_div_pos_is_pos(-a as int, b as int);
            vstd::arithmetic::div_mod::lemma_div_is_ordered_by_denominator(-a as int, 1, b as int);
            vstd::arithmetic::div_mod::lemma_div_by_self(1);
        }
        -(((-a) as u64 / b as u64) as i64)
    }
}

/// The smooth-scroll state: residual pixels, momentum velocity, the direct
/// accumulator, cached cell height, tick timestamps, and the terminal
/// bounds the clamps derive from.
pub struct ScrollState {
    /// Sub-line pixel residual; within one cell height after a tick.
    residual_px: i64,
    /// Momentum velocity in pixels per second.
    velocity_px_s: i64,
    /// Whether ticks integrate momentum rather than direct input.
    in_momentum: bool,
    /// Direct-mode accumulated pixel offset.
    direct_total_px: i64,
    /// Cached cell height in pixels.
    cell_height_px: i64,
    /// Timestamp of the last tick, in milliseconds.
    last_tick_ms: Option<u64>,
    /// Timestamp of the last input, in milliseconds.
    last_input_ms: Option<u64>,
    /// Viewport height in lines.
    screen_lines: usize,
    /// Scrollback history length in lines.
    history_size: usize,
    /// How far the view is currently scrolled back, in lines.
    display_offset: usize,
}

impl ScrollState {
    /// The sub-line pixel residual.
    pub closed spec fn spec_residual(&self) -> int {
        self.residual_px as int
    }

    /// The momentum velocity in pixels per second.
    pub closed spec fn spec_velocity(&self) -> int {
        self.velocity_px_s as int
    }

    /// Whether the engine is in momentum mode.
    pub closed spec fn spec_in_momentum(&self) -> bool {
        self.in_momentum
    }

    /// The direct-mode accumulated offset in pixels.
    pub closed spec fn spec_direct_total(&self) -> int {
        self.direct_total_px as int
    }

    /// The cached cell height in pixels.
    pub closed spec fn spec_cell_height(&self) -> int {
        self.cell_height_px as int
    }

    /// The last tick timestamp.
    pub closed spec fn spec_last_tick(&self) -> Option<u64> {
        self.last_tick_ms
    }

    /// The last input timestamp.
    pub closed spec fn spec_last_input(&self) -> Option<u64> {
        self.last_input_ms
    }

    /// The viewport height in lines.
    pub closed spec fn spec_screen_lines(&self) -> int {
        self.screen_lines as int
    }

    /// The scrollback history length in lines.
    pub closed spec fn spec_history_size(&self) -> int {
        self.history_size as int
    }

    /// How far the view is scrolled back, in lines.
    pub closed spec fn spec_display_offset(&self) -> int {
        self.display_offset as int
    }

    /// Lines of scrolled-back content below the view: the current display
    /// offset.
    pub open spec fn spec_max_down_lines(&self) -> int {
        self.spec_display_offset()
    }

    /// Lines of history still above the view.
    pub open spec fn spec_max_up_lines(&self) -> int {
        if self.spec_history_size() >= self.spec_display_offset() {
            self.spec_history_size() - self.spec_display_offset()
        } else {
            0
        }
    }

    /// All tracked quantities stay within the engine's machine bounds.
    pub open spec fn wf(&self) -> bool {
        &&& 0 <= self.spec_cell_height() <= MAX_CELL_HEIGHT_PX
        &&& 0 <= self.spec_screen_lines() <= MAX_LINES
        &&& 0 <= self.spec_history_size() <= MAX_LINES
        &&& 0 <= self.spec_display_offset() <= MAX_LINES
        &&& -MAX_PIXELS <= self.spec_residual() <= MAX_PIXELS
        &&& -MAX_PIXELS <= self.spec_direct_total() <= MAX_PIXELS
        &&& -MAX_PIXELS <= self.spec_velocity() <= MAX_PIXELS
    }

    /// A fresh engine: direct mode, everything zero.
    pub fn new() -> (r: ScrollState)
        ensures
            r.wf(),
            r.spec_residual() == 0,
            r.spec_velocity() == 0,
            !r.spec_in_momentum(),
            r.spec_direct_total() == 0,
            r.spec_cell_height() == 0,
            r.spec_last_tick() is None,
            r.spec_last_input() is None,
            r.spec_screen_lines() == 0,
            r.spec_history_size() == 0,
            r.spec_display_offset() == 0,
    {
        ScrollState {
            residual_px: 0,
            velocity_px_s: 0,
            in_momentum: false,
            direct_total_px: 0,
            cell_height_px: 0,
            last_tick_ms: None,
            last_input_ms: None,
            screen_lines: 0,
            history_size: 0,
            display_offset: 0,
        }
    }

    /// Cache the cell height from new font metrics.
    pub fn update_smooth_scroll_metrics(&mut self, cell_height_px: i64)
        requires
            old(self).wf(),
            0 <= cell_height_px <= MAX_CELL_HEIGHT_PX,
        ensures
            final(self).wf(),
            final(self).spec_cell_height() == cell_height_px,
            final(self).spec_residual() == old(self).spec_residual(),
            final(self).spec_velocity() == old(self).spec_velocity(),
            final(self).spec_in_momentum() == old(self).spec_in_momentum(),
            final(self).spec_direct_total() == old(self).spec_direct_total(),
            final(self).spec_screen_lines() == old(self).spec_screen_lines(),
            final(self).spec_history_size() == old(self).spec_history_size(),
            final(self).spec_display_offset() == old(self).spec_display_offset(),
    {
        self.cell_height_px = cell_height_px;
    }

    /// Record the terminal bounds the clamps derive from.
    pub fn update_smooth_scroll_bounds(&mut self, screen_lines: usize, history_size: usize)
        requires
            old(self).wf(),
            screen_lines <= MAX_LINES,
            history_size <= MAX_LINES,
        ensures
            final(self).wf(),
            final(self).spec_screen_lines() == screen_lines,
            final(self).spec_history_size() == history_size,
            final(self).spec_residual() == old(self).spec_residual(),
            final(self).spec_velocity() == old(self).spec_velocity(),
            final(self).spec_in_momentum() == old(self).spec_in_momentum(),
            final(self).spec_direct_total() == old(self).spec_direct_total(),
            final(self).spec_cell_height() == old(self).spec_cell_height(),
            final(self).spec_display_offset() == old(self).spec_display_offset(),
    {
        self.screen_lines = screen_lines;
        self.history_size = history_size;
    }

    /// Record how far the view is currently scrolled back.
    pub fn set_display_offset(&mut self, display_offset: usize)
        requires
            old(self).wf(),
            display_offset <= MAX_LINES,
        ensures
            final(self).wf(),
            final(self).spec_display_offset() == display_offset,
            final(self).spec_residual() == old(self).spec_residual(),
            final(self).spec_velocity() == old(self).spec_velocity(),
            final(self).spec_in_momentum() == old(self).spec_in_momentum(),
            final(self).spec_direct_total() == old(self).spec_direct_total(),
            final(self).spec_cell_height() == old(self).spec_cell_height(),
            final(self).spec_screen_lines() == old(self).spec_screen_lines(),
            final(self).spec_history_size() == old(self).spec_history_size(),
    {
        self.display_offset = display_offset;
    }

    /// Accumulate a raw pointer pixel delta in direct mode (positive deltas
    /// scroll up) and clamp the total to the pixel-equivalent of the
    /// available history above and scrolled-back lines below.
    pub fn update_smooth_scroll_pixels(&mut self, pixel_delta: i64, now_ms: u64)
        requires
            old(self).wf(),
            -MAX_PIXELS <= pixel_delta <= MAX_PIXELS,
        ensures
            final(self).wf(),
            !final(self).spec_in_momentum(),
            final(self).spec_velocity() == 0,
            final(self).spec_direct_total() == clamp_i(
                old(self).spec_direct_total() + (-pixel_delta as int),
                -(old(self).spec_max_down_lines() * old(self).spec_cell_height()),
                old(self).spec_max_up_lines() * old(self).spec_cell_height(),
            ),
            -(final(self).spec_max_down_lines() * final(self).spec_cell_height()) <= final(self).spec_direct_total() <= final(self).spec_max_up_lines() * final(self).spec_cell_height(),
            final(self).spec_residual() == final(self).spec_direct_total(),
            final(self).spec_last_input() == Some(now_ms),
            final(self).spec_last_tick() == old(self).spec_last_tick(),
            final(self).spec_cell_height() == old(self).spec_cell_height(),
            final(self).spec_screen_lines() == old(self).spec_screen_lines(),
            final(self).spec_history_size() == old(self).spec_history_size(),
            final(self).spec_display_offset() == old(self).spec_display_offset(),
    {
        let delta = -pixel_delta;
        let max_down_lines = self.display_offset;
        let max_up_lines = if self.history_size >= self.display_offset {
            self.history_size - self.display_offset
        } else {
            0
        };
        proof {
            lemma_lines_px_bound(max_up_lines as int, self.spec_cell_height());
            lemma_lines_px_bound(max_down_lines as int, self.spec_cell_height());
        }
        let max_up_px = max_up_lines as i64 * self.cell_height_px;
        let max_down_px = max_down_lines as i64 * self.cell_height_px;

        self.in_momentum = false;
        self.velocity_px_s = 0;

        let potential = self.direct_total_px + delta;
        if potential <= max_up_px && potential >= -max_down_px {
            self.direct_total_px = potential;
        } else if potential > max_up_px {
            self.direct_total_px = max_up_px;
        } else {
            self.direct_total_px = -max_down_px;
        }
        self.residual_px = self.direct_total_px;
        self.last_input_ms = Some(now_ms);
    }

    /// Line-based input: the delta is converted to pixels with the cached
    /// cell height (falling back to a nominal height when none is cached
    /// yet) and accumulated as a pixel delta.
    pub fn update_smooth_scroll(&mut self, line_delta: i64, now_ms: u64)
        requires
            old(self).wf(),
            -(MAX_LINES as i64) <= line_delta <= MAX_LINES as i64,
        ensures
            final(self).wf(),
            !final(self).spec_in_momentum(),
            final(self).spec_velocity() == 0,
            final(self).spec_residual() == final(self).spec_direct_total(),
            -(final(self).spec_max_down_lines() * final(self).spec_cell_height()) <= final(self).spec_direct_total() <= final(self).spec_max_up_lines() * final(self).spec_cell_height(),
            final(self).spec_cell_height() == if old(self).spec_cell_height() <= 0 {
                20int
            } else {
                old(self).spec_cell_height()
            },
            final(self).spec_direct_total() == clamp_i(
                old(self).spec_direct_total() + (-line_delta as int) * final(self).spec_cell_height(),
                -(final(self).spec_max_down_lines() * final(self).spec_cell_height()),
                final(self).spec_max_up_lines() * final(self).spec_cell_height(),
            ),
    {
        if self.cell_height_px <= 0 {
            self.cell_height_px = 20;
        }
        proof {
            assert(-1_000_000_000_000 <= line_delta as int * self.spec_cell_height()
                <= 1_000_000_000_000) by (nonlinear_arith)
                requires
                    -10_000_000 <= line_delta as int <= 10_000_000,
                    0 <= self.spec_cell_height() <= 100_000,
            ;
        }
        let pixel_delta = line_delta * self.cell_height_px;
        proof {
            vstd::arithmetic::mul::lemma_mul_unary_negation(
                line_delta as int,
                self.spec_cell_height(),
            );
        }
        self.update_smooth_scroll_pixels(pixel_delta, now_ms);
    }

    /// What one momentum tick does before quantization: with elapsed time
    /// and a live velocity it integrates `velocity * dt`; hitting a bound
    /// while moving toward it pins the position there and kills the
    /// velocity; otherwise friction decays the velocity.
    pub open spec fn spec_momentum_pre(&self, now_ms: u64, maxdown_px: int, maxup_px: int) -> (
        int,
        int,
    ) {
        let dt = spec_dt_ms(self.spec_last_tick(), now_ms);
        let act = dt > 0 && self.spec_velocity() != 0;
        let pot = if act {
            self.spec_residual() + spec_trunc_div(self.spec_velocity() * dt, 1000)
        } else {
            self.spec_residual()
        };
        if act && pot >= maxup_px && self.spec_velocity() > 0 {
            (maxup_px, 0int)
        } else if act && pot <= -maxdown_px && self.spec_velocity() < 0 {
            (-maxdown_px, 0int)
        } else if act {
            (pot, spec_shrink_iter(self.spec_velocity(), 92, 100, spec_frames(dt)))
        } else {
            (pot, self.spec_velocity())
        }
    }

    /// Advance the animation for this frame: integrate momentum or clamp
    /// the direct accumulator to the given line bounds, then quantize whole
    /// cells out of the offset. Returns the sub-line pixel residual and the
    /// number of whole lines the caller must scroll the content model by.
    /// A non-positive cell height is a no-op tick.
    pub fn advance_smooth_scroll(
        &mut self,
        now_ms: u64,
        cell_height_px: i64,
        max_down_lines: usize,
        max_up_lines: usize,
    ) -> (r: (i64, i64))
        requires
            old(self).wf(),
            -MAX_PIXELS <= cell_height_px <= MAX_CELL_HEIGHT_PX,
            max_down_lines <= MAX_LINES,
            max_up_lines <= MAX_LINES,
        ensures
            final(self).wf(),
            cell_height_px <= 0 ==> *final(self) == *old(self) && r == (0i64, 0i64),
            cell_height_px > 0 ==> {
                let ch = cell_height_px as int;
                let maxup_px = max_up_lines * ch;
                let maxdown_px = max_down_lines * ch;
                &&& final(self).spec_cell_height() == ch
                &&& final(self).spec_last_tick() == Some(now_ms)
                &&& final(self).spec_last_input() == old(self).spec_last_input()
                &&& final(self).spec_screen_lines() == old(self).spec_screen_lines()
                &&& final(self).spec_history_size() == old(self).spec_history_size()
                &&& final(self).spec_display_offset() == old(self).spec_display_offset()
                &&& r.0 == final(self).spec_residual()
                &&& -ch < final(self).spec_residual() < ch
                &&& (!old(self).spec_in_momentum() ==> {
                    let clamped = clamp_i(
                        old(self).spec_direct_total(),
                        -maxdown_px,
                        maxup_px,
                    );
                    &&& r.1 == spec_trunc_div(clamped, ch)
                    &&& -(max_down_lines as int) <= r.1 <= max_up_lines as int
                    &&& final(self).spec_direct_total() == clamped - r.1 * ch
                    &&& final(self).spec_residual() == final(self).spec_direct_total()
                    &&& -maxdown_px <= final(self).spec_residual() + r.1 * ch <= maxup_px
                    &&& !final(self).spec_in_momentum()
                    &&& final(self).spec_velocity() == old(self).spec_velocity()
                })
                &&& (old(self).spec_in_momentum() ==> {
                    let pre = old(self).spec_momentum_pre(now_ms, maxdown_px, maxup_px);
                    &&& r.1 == spec_trunc_div(pre.0, ch)
                    &&& final(self).spec_residual() == pre.0 - r.1 * ch
                    &&& final(self).spec_velocity() == pre.1
                    &&& final(self).spec_in_momentum() == (pre.1 != 0)
                    &&& (pre.1 == 0 ==> final(self).spec_direct_total() == final(self).spec_residual())
                })
            },
    {
        if cell_height_px <= 0 {
            return (0, 0);
        }
        self.cell_height_px = cell_height_px;
        let ch = cell_height_px;
        proof {
            lemma_lines_px_bound(max_up_lines as int, ch as int);
            lemma_lines_px_bound(max_down_lines as int, ch as int);
        }
        let max_up_px = max_up_lines as i64 * ch;
        let max_down_px = max_down_lines as i64 * ch;
        let lines: i64;

        if self.in_momentum {
            let mut dt_ms: u64 = 0;
            if let Some(prev) = self.last_tick_ms {
                if now_ms >= prev {
                    let d = now_ms - prev;
                    dt_ms = if d > 10_000 {
                        10_000
                    } else {
                        d
                    };
                }
            }
            if dt_ms > 0 && self.velocity_px_s != 0 {
                proof {
                    assert(-10_000_000_000_000_000 <= self.spec_velocity() * (dt_ms as int)
                        <= 10_000_000_000_000_000) by (nonlinear_arith)
                        requires
                            -1_000_000_000_000 <= self.spec_velocity() <= 1_000_000_000_000,
                            0 <= dt_ms as int <= 10_000,
                    ;
                }
                let vdt = self.velocity_px_s * (dt_ms as i64);
                let step = trunc_div_pixels(vdt, 1000);
                proof {
                    lemma_trunc_div_props(vdt as int, 1000);
                }
                let pot = self.residual_px + step;
                if pot >= max_up_px && self.velocity_px_s > 0 {
                    self.residual_px = max_up_px;
                    self.velocity_px_s = 0;
                    self.direct_total_px = max_up_px;
                } else if pot <= -max_down_px && self.velocity_px_s < 0 {
                    self.residual_px = -max_down_px;
                    self.velocity_px_s = 0;
                    self.direct_total_px = -max_down_px;
                } else {
                    self.residual_px = pot;
                    let frames64: u64 = dt_ms * 60 / 1000;
                    let frames: u64 = if frames64 > 600 {
                        600
                    } else {
                        frames64
                    };
                    self.velocity_px_s = shrink_iter_i64(self.velocity_px_s, 92, 100, frames);
                }
            }
            proof {
                lemma_trunc_div_props(self.spec_residual(), ch as int);
            }
            lines = trunc_div_pixels(self.residual_px, ch);
            if lines != 0 {
                self.residual_px = self.residual_px - lines * ch;
            }
            if self.velocity_px_s == 0 {
                self.in_momentum = false;
                self.direct_total_px = self.residual_px;
            }
        } else {
            if self.direct_total_px > max_up_px {
                self.direct_total_px = max_up_px;
            } else if self.direct_total_px < -max_down_px {
                self.direct_total_px = -max_down_px;
            }
            self.residual_px = self.direct_total_px;
            proof {
                lemma_trunc_div_props(self.spec_residual(), ch as int);
                lemma_trunc_div_within(
                    self.spec_residual(),
                    ch as int,
                    max_down_lines as int,
                    max_up_lines as int,
                );
            }
            let mut l = trunc_div_pixels(self.residual_px, ch);
            if l > 0 {
                if l > max_up_lines as i64 {
                    l = max_up_lines as i64;
                }
            } else if l < 0 {
                if l < -(max_down_lines as i64) {
                    l = -(max_down_lines as i64);
                }
            }
            lines = l;
            if lines != 0 {
                proof {
                    assert(-MAX_PIXELS <= lines * ch <= MAX_PIXELS) by (nonlinear_arith)
                        requires
                            -10_000_000 <= lines <= 10_000_000,
                            0 < ch <= 100_000,
                    ;
                }
                self.direct_total_px = self.direct_total_px - lines * ch;
                self.residual_px = self.direct_total_px;
            }
        }
        self.last_tick_ms = Some(now_ms);
        (self.residual_px, lines)
    }

    /// Whether a smooth scroll or momentum animation is in progress.
    pub fn is_smooth_scroll_animating(&self) -> (r: bool)
        ensures
            r == (self.spec_velocity() != 0 || self.spec_residual() != 0),
    {
        self.velocity_px_s != 0 || self.residual_px != 0
    }

    /// Set the scroll offset directly, bypassing bounds: used when the
    /// editor has already scrolled the content and the view should show it
    /// at the old position, then animate to zero.
    pub fn set_nvim_scroll_offset(&mut self, pixel_offset: i64)
        requires
            old(self).wf(),
            -MAX_PIXELS <= pixel_offset <= MAX_PIXELS,
        ensures
            final(self).wf(),
            final(self).spec_residual() == pixel_offset,
            final(self).spec_direct_total() == pixel_offset,
            final(self).spec_velocity() == old(self).spec_velocity(),
            final(self).spec_in_momentum() == old(self).spec_in_momentum(),
            final(self).spec_cell_height() == old(self).spec_cell_height(),
            final(self).spec_last_tick() == old(self).spec_last_tick(),
            final(self).spec_last_input() == old(self).spec_last_input(),
            final(self).spec_screen_lines() == old(self).spec_screen_lines(),
            final(self).spec_history_size() == old(self).spec_history_size(),
            final(self).spec_display_offset() == old(self).spec_display_offset(),
    {
        self.residual_px = pixel_offset;
        self.direct_total_px = pixel_offset;
    }

    /// Animate the offset toward zero by exponential decay, one
    /// three-quarters step per frame of elapsed time (no line scrolling:
    /// pure pixel animation). Returns the new residual.
    pub fn advance_nvim_smooth_scroll(&mut self, dt_ms: u64) -> (r: i64)
        requires
            old(self).wf(),
        ensures
            final(self).wf(),
            r == final(self).spec_residual(),
            final(self).spec_residual() == spec_shrink_iter(
                old(self).spec_residual(),
                3,
                4,
                spec_frames(
                    if dt_ms > 10_000 {
                        10_000int
                    } else {
                        dt_ms as int
                    },
                ),
            ),
            old(self).spec_residual() >= 0 ==> 0 <= final(self).spec_residual() <= old(self).spec_residual(),
            old(self).spec_residual() < 0 ==> old(self).spec_residual() <= final(self).spec_residual() <= 0,
            final(self).spec_velocity() == old(self).spec_velocity(),
            final(self).spec_in_momentum() == old(self).spec_in_momentum(),
            final(self).spec_direct_total() == old(self).spec_direct_total(),
            final(self).spec_cell_height() == old(self).spec_cell_height(),
            final(self).spec_last_tick() == old(self).spec_last_tick(),
            final(self).spec_last_input() == old(self).spec_last_input(),
    {
        let capped: u64 = if dt_ms > 10_000 {
            10_000
        } else {
            dt_ms
        };
        let frames64: u64 = capped * 60 / 1000;
        let frames: u64 = if frames64 > 600 {
            600
        } else {
            frames64
        };
        self.residual_px = shrink_iter_i64(self.residual_px, 3, 4, frames);
        self.residual_px
    }

    /// Whether the editor-driven scroll animation is still in progress.
    pub fn is_nvim_scroll_animating(&self) -> (r: bool)
        ensures
            r == (self.spec_residual() != 0),
    {
        self.residual_px != 0
    }

    /// Stop momentum and, when `snap_to_line` is set, snap the residual to
    /// exactly zero. Idempotent.
    pub fn stop_smooth_scroll(&mut self, snap_to_line: bool, now_ms: u64)
        requires
            old(self).wf(),
        ensures
            final(self).wf(),
            final(self).spec_velocity() == 0,
            final(self).spec_residual() == if snap_to_line {
                0int
            } else {
                old(self).spec_residual()
            },
            final(self).spec_direct_total() == old(self).spec_direct_total(),
            final(self).spec_in_momentum() == old(self).spec_in_momentum(),
            final(self).spec_last_tick() == Some(now_ms),
            final(self).spec_last_input() == Some(now_ms),
            final(self).spec_cell_height() == old(self).spec_cell_height(),
            final(self).spec_screen_lines() == old(self).spec_screen_lines(),
            final(self).spec_history_size() == old(self).spec_history_size(),
            final(self).spec_display_offset() == old(self).spec_display_offset(),
    {
        self.velocity_px_s = 0;
        if snap_to_line {
            self.residual_px = 0;
        }
        self.last_tick_ms = Some(now_ms);
        self.last_input_ms = Some(now_ms);
    }
}

/// The elapsed time of a tick: the distance to the previous tick timestamp,
/// zero without one, capped at ten seconds.
pub open spec fn spec_dt_ms(last: Option<u64>, now: u64) -> int {
    match last {
        Some(prev) => if now >= prev {
            if now - prev <= 10_000 {
                now - prev
            } else {
                10_000
            }
        } else {
            0
        },
        None => 0,
    }
}

/// How many friction frames an elapsed time covers: sixty per second,
/// capped at six hundred.
pub open spec fn spec_frames(dt: int) -> nat {
    let f = dt * 60 / 1000;
    if f > 600 {
        600nat
    } else if f >= 0 {
        f as nat
    } else {
        0nat
    }
}

/// `n` applications of the shrinking step `v -> trunc(k * v / m)`: the
/// integer form of one exponential-decay factor per frame.
pub open spec fn spec_shrink_iter(v: int, k: int, m: int, n: nat) -> int
    decreases n,
{
    if n == 0 {
        v
    } else {
        spec_shrink_iter(spec_trunc_div(k * v, m), k, m, (n - 1) as nat)
    }
}

/// One shrinking step keeps the sign and never grows the magnitude.
pub proof fn lemma_shrink_step(v: int, k: int, m: int)
    requires
        0 <= k <= m,
        0 < m,
    ensures
        v >= 0 ==> 0 <= spec_trunc_div(k * v, m) <= v,
        v < 0 ==> v <= spec_trunc_div(k * v, m) <= 0,
{
    lemma_trunc_div_props(k * v, m);
    let q = spec_trunc_div(k * v, m);
    if v >= 0 {
        assert(0 <= k * v) by (nonlinear_arith)
            requires
                0 <= k,
                0 <= v,
        ;
        assert(q <= v) by (nonlinear_arith)
            requires
                q * m <= k * v,
                0 <= k <= m,
                0 < m,
                0 <= v,
                0 <= q,
        ;
    } else {
        assert(k * v <= 0) by (nonlinear_arith)
            requires
                0 <= k,
                v < 0,
        ;
        assert(v <= q) by (nonlinear_arith)
            requires
                k * v <= q * m,
                0 <= k <= m,
                0 < m,
                v < 0,
                q <= 0,
        ;
    }
}

/// Unfolding the shrink iteration from the other end.
pub proof fn lemma_shrink_iter_snoc(v: int, k: int, m: int, n: nat)
    ensures
        spec_shrink_iter(v, k, m, n + 1) == spec_trunc_div(k * spec_shrink_iter(v, k, m, n), m),
    decreases n,
{
    reveal_with_fuel(spec_shrink_iter, 3);
    if n > 0 {
        lemma_shrink_iter_snoc(spec_trunc_div(k * v, m), k, m, (n - 1) as nat);
    }
}

/// The shrink iteration keeps the sign and never grows the magnitude.
pub proof fn lemma_shrink_iter_bound(v: int, k: int, m: int, n: nat)
    requires
        0 <= k <= m,
        0 < m,
    ensures
        v >= 0 ==> 0 <= spec_shrink_iter(v, k, m, n) <= v,
        v < 0 ==> v <= spec_shrink_iter(v, k, m, n) <= 0,
    decreases n,
{
    if n > 0 {
        lemma_shrink_step(v, k, m);
        lemma_shrink_iter_bound(spec_trunc_div(k * v, m), k, m, (n - 1) as nat);
    }
}

/// Apply `n` shrinking steps on machine integers.
fn shrink_iter_i64(v0: i64, k: i64, m: i64, n: u64) -> (r: i64)
    requires
        0 <= k <= m,
        0 < m <= 1000,
        -MAX_PIXELS <= v0 <= MAX_PIXELS,
        n <= 600,
    ensures
        r == spec_shrink_iter(v0 as int, k as int, m as int, n as nat),
        v0 >= 0 ==> 0 <= r <= v0,
        v0 < 0 ==> v0 <= r <= 0,
{
    let mut v = v0;
    let mut i: u64 = 0;
    while i < n
        invariant
            i <= n,
            0 <= k <= m,
            0 < m <= 1000,
            -MAX_PIXELS <= v0 <= MAX_PIXELS,
            v == spec_shrink_iter(v0 as int, k as int, m as int, i as nat),
            v0 >= 0 ==> 0 <= v <= v0,
            v0 < 0 ==> v0 <= v <= 0,
        decreases n - i,
    {
        proof {
            lemma_shrink_step(v as int, k as int, m as int);
            lemma_shrink_iter_snoc(v0 as int, k as int, m as int, i as nat);
            assert(-1_000_000_000_000_000 <= k * v <= 1_000_000_000_000_000) by (nonlinear_arith)
                requires
                    0 <= k <= 1000,
                    -1_000_000_000_000 <= v <= 1_000_000_000_000,
            ;
        }
        v = trunc_div_pixels(k * v, m);
        i = i + 1;
    }
    v
}

/// Once the accumulated offset is within the clamp bounds and smaller than
/// one cell, a tick with no input consumes no line and leaves the offset
/// exactly where it was: repeated idle ticks do not drift.
pub proof fn lemma_direct_tick_no_drift(total: int, ch: int, maxdown_px: int, maxup_px: int)
    requires
        0 < ch,
        -maxdown_px <= total <= maxup_px,
        -ch < total < ch,
    ensures
        clamp_i(total, -maxdown_px, maxup_px) == total,
        spec_trunc_div(total, ch) == 0,
        total - spec_trunc_div(total, ch) * ch == total,
{
    if total >= 0 {
        vstd::arithmetic::div_mod::lemma_basic_div(total, ch);
    } else {
        vstd::arithmetic::div_mod::lemma_basic_div(-total, ch);
    }
}

/// A line count times a cell height stays within the pixel bound.
pub proof fn lemma_lines_px_bound(lines: int, ch: int)
    requires
        0 <= lines <= MAX_LINES,
        0 <= ch <= MAX_CELL_HEIGHT_PX,
    ensures
        0 <= lines * ch <= MAX_PIXELS,
{
    assert(0 <= lines * ch <= 1_000_000_000_000) by (nonlinear_arith)
        requires
            0 <= lines <= 10_000_000,
            0 <= ch <= 100_000,
    ;
}

} // verus!
