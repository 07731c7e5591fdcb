//! Scroll-event bookkeeping between the editor's redraw stream and the
//! renderer.
//!
//! The bridge watches the redraw events for scrolls and cursor motion and
//! keeps the flags the presentation tick reads to decide when a smooth
//! scroll animation is warranted and when a boundary was hit. Scroll events
//! update the grid content in the background while the pointer controls the
//! visual offset, so the bridge only records the scroll region and row delta.

use vstd::prelude::*;

use crate::protocol::RedrawEvent;

verus! {

/// State the renderer consults about recent scroll activity.
pub struct NvimRendererBridge {
    smooth_scroll_enabled: bool,
    last_scroll_rows: i64,
    active_scroll_region: Option<(i64, i64)>,
    cursor_row: u64,
    prev_cursor_row: u64,
    received_grid_scroll: bool,
    at_bottom_boundary: bool,
    last_top_line: Option<u32>,
}

impl NvimRendererBridge {
    /// Whether smooth scrolling is enabled.
    pub closed spec fn spec_smooth_scroll_enabled(&self) -> bool {
        self.smooth_scroll_enabled
    }

    /// The row delta of the last scroll event, zeroed at each flush.
    pub closed spec fn spec_last_scroll_rows(&self) -> i64 {
        self.last_scroll_rows
    }

    /// The region bounds of the scroll currently being animated.
    pub closed spec fn spec_active_scroll_region(&self) -> Option<(i64, i64)> {
        self.active_scroll_region
    }

    /// The cursor row of the latest cursor event.
    pub closed spec fn spec_cursor_row(&self) -> u64 {
        self.cursor_row
    }

    /// The cursor row before the latest cursor event.
    pub closed spec fn spec_prev_cursor_row(&self) -> u64 {
        self.prev_cursor_row
    }

    /// Whether a scroll event arrived since the flag was last reset.
    pub closed spec fn spec_received_grid_scroll(&self) -> bool {
        self.received_grid_scroll
    }

    /// Whether the view is currently held at the bottom boundary.
    pub closed spec fn spec_at_bottom_boundary(&self) -> bool {
        self.at_bottom_boundary
    }

    /// The top line number last seen, for detecting a stuck scroll.
    pub closed spec fn spec_last_top_line(&self) -> Option<u32> {
        self.last_top_line
    }

    /// Fields process_event never touches.
    pub open spec fn same_settings(&self, other: &Self) -> bool {
        &&& self.spec_smooth_scroll_enabled() == other.spec_smooth_scroll_enabled()
        &&& self.spec_at_bottom_boundary() == other.spec_at_bottom_boundary()
        &&& self.spec_last_top_line() == other.spec_last_top_line()
    }

    /// A fresh bridge: smooth scrolling on, no scroll activity recorded.
    pub fn new() -> (r: Self)
        ensures
            r.spec_smooth_scroll_enabled(),
            r.spec_last_scroll_rows() == 0,
            r.spec_active_scroll_region() is None,
            r.spec_cursor_row() == 0,
            r.spec_prev_cursor_row() == 0,
            !r.spec_received_grid_scroll(),
            !r.spec_at_bottom_boundary(),
            r.spec_last_top_line() is None,
    {
        NvimRendererBridge {
            smooth_scroll_enabled: true,
            last_scroll_rows: 0,
            active_scroll_region: None,
            cursor_row: 0,
            prev_cursor_row: 0,
            received_grid_scroll: false,
            at_bottom_boundary: false,
            last_top_line: None,
        }
    }

    /// Record what a redraw event means for scrolling: a scroll event sets
    /// the received flag and the active region, a cursor event shifts the
    /// cursor history, and a flush resets the scroll-delta aggregation.
    pub fn process_event(&mut self, event: &RedrawEvent)
        ensures
            final(self).same_settings(old(self)),
            match *event {
                RedrawEvent::GridScroll { top, bottom, rows, .. } => {
                    &&& final(self).spec_received_grid_scroll()
                    &&& final(self).spec_active_scroll_region() == Some((top, bottom))
                    &&& final(self).spec_last_scroll_rows() == rows
                    &&& final(self).spec_cursor_row() == old(self).spec_cursor_row()
                    &&& final(self).spec_prev_cursor_row() == old(self).spec_prev_cursor_row()
                },
                RedrawEvent::GridCursorGoto { row, .. } => {
                    &&& final(self).spec_prev_cursor_row() == old(self).spec_cursor_row()
                    &&& final(self).spec_cursor_row() == row
                    &&& final(self).spec_received_grid_scroll() == old(
                        self,
                    ).spec_received_grid_scroll()
                    &&& final(self).spec_active_scroll_region() == old(
                        self,
                    ).spec_active_scroll_region()
                    &&& final(self).spec_last_scroll_rows() == old(self).spec_last_scroll_rows()
                },
                RedrawEvent::Flush => {
                    &&& final(self).spec_last_scroll_rows() == 0
                    &&& final(self).spec_received_grid_scroll() == old(
                        self,
                    ).spec_received_grid_scroll()
                    &&& final(self).spec_active_scroll_region() == old(
                        self,
                    ).spec_active_scroll_region()
                    &&& final(self).spec_cursor_row() == old(self).spec_cursor_row()
                    &&& final(self).spec_prev_cursor_row() == old(self).spec_prev_cursor_row()
                },
                _ => *final(self) == *old(self),
            },
    {
        match event {
            RedrawEvent::GridScroll { grid, top, bottom, left, right, rows, cols } => {
                self.received_grid_scroll = true;
                self.handle_scroll(*grid, *top, *bottom, *left, *right, *rows, *cols);
            },
            RedrawEvent::GridCursorGoto { row, .. } => {
                self.prev_cursor_row = self.cursor_row;
                self.cursor_row = *row;
            },
            RedrawEvent::Flush => {
                self.last_scroll_rows = 0;
            },
            _ => {},
        }
    }

    /// Track a scroll event's region and row delta. Scroll events update the
    /// grid content in the background; the pointer keeps the visual offset.
    fn handle_scroll(
        &mut self,
        _grid: u64,
        top: i64,
        bottom: i64,
        _left: i64,
        _right: i64,
        rows: i64,
        _cols: i64,
    )
        ensures
            final(self).same_settings(old(self)),
            final(self).spec_active_scroll_region() == Some((top, bottom)),
            final(self).spec_last_scroll_rows() == rows,
            final(self).spec_cursor_row() == old(self).spec_cursor_row(),
            final(self).spec_prev_cursor_row() == old(self).spec_prev_cursor_row(),
            final(self).spec_received_grid_scroll() == old(self).spec_received_grid_scroll(),
    {
        self.active_scroll_region = Some((top, bottom));
        self.last_scroll_rows = rows;
    }

    /// Enable or disable smooth scrolling.
    pub fn set_smooth_scroll(&mut self, enabled: bool)
        ensures
            final(self).spec_smooth_scroll_enabled() == enabled,
            final(self).spec_last_scroll_rows() == old(self).spec_last_scroll_rows(),
            final(self).spec_active_scroll_region() == old(self).spec_active_scroll_region(),
            final(self).spec_cursor_row() == old(self).spec_cursor_row(),
            final(self).spec_prev_cursor_row() == old(self).spec_prev_cursor_row(),
            final(self).spec_received_grid_scroll() == old(self).spec_received_grid_scroll(),
            final(self).spec_at_bottom_boundary() == old(self).spec_at_bottom_boundary(),
            final(self).spec_last_top_line() == old(self).spec_last_top_line(),
    {
        self.smooth_scroll_enabled = enabled;
    }

    /// Whether smooth scrolling is enabled.
    pub fn is_smooth_scroll_enabled(&self) -> (r: bool)
        ensures
            r == self.spec_smooth_scroll_enabled(),
    {
        self.smooth_scroll_enabled
    }

    /// The scroll region currently being animated, as `(top row, bottom row)`.
    pub fn active_scroll_region(&self) -> (r: Option<(i64, i64)>)
        ensures
            r == self.spec_active_scroll_region(),
    {
        self.active_scroll_region
    }

    /// Forget the active scroll region (on animation end or window resize).
    pub fn clear_scroll_region(&mut self)
        ensures
            final(self).spec_active_scroll_region() is None,
            final(self).same_settings(old(self)),
            final(self).spec_last_scroll_rows() == old(self).spec_last_scroll_rows(),
            final(self).spec_cursor_row() == old(self).spec_cursor_row(),
            final(self).spec_prev_cursor_row() == old(self).spec_prev_cursor_row(),
            final(self).spec_received_grid_scroll() == old(self).spec_received_grid_scroll(),
    {
        self.active_scroll_region = None;
    }

    /// The current cursor row.
    pub fn cursor_row(&self) -> (r: u64)
        ensures
            r == self.spec_cursor_row(),
    {
        self.cursor_row
    }

    /// Whether the view is likely at a scroll boundary: the cursor sits in
    /// the top two rows, which is where it stays when scrolling hits the top
    /// of the file.
    pub fn at_scroll_boundary(&self) -> (r: bool)
        ensures
            r == (self.spec_cursor_row() <= 1),
    {
        self.cursor_row <= 1
    }

    /// Whether a scroll event arrived this frame.
    pub fn did_grid_scroll(&self) -> (r: bool)
        ensures
            r == self.spec_received_grid_scroll(),
    {
        self.received_grid_scroll
    }

    /// Reset the scroll-event flag after a frame is processed.
    pub fn reset_grid_scroll_flag(&mut self)
        ensures
            !final(self).spec_received_grid_scroll(),
            final(self).same_settings(old(self)),
            final(self).spec_last_scroll_rows() == old(self).spec_last_scroll_rows(),
            final(self).spec_active_scroll_region() == old(self).spec_active_scroll_region(),
            final(self).spec_cursor_row() == old(self).spec_cursor_row(),
            final(self).spec_prev_cursor_row() == old(self).spec_prev_cursor_row(),
    {
        self.received_grid_scroll = false;
    }

    /// Record whether the view is held at the bottom boundary.
    pub fn set_at_bottom_boundary(&mut self, at_bottom: bool)
        ensures
            final(self).spec_at_bottom_boundary() == at_bottom,
            final(self).spec_smooth_scroll_enabled() == old(self).spec_smooth_scroll_enabled(),
            final(self).spec_last_top_line() == old(self).spec_last_top_line(),
            final(self).spec_last_scroll_rows() == old(self).spec_last_scroll_rows(),
            final(self).spec_active_scroll_region() == old(self).spec_active_scroll_region(),
            final(self).spec_cursor_row() == old(self).spec_cursor_row(),
            final(self).spec_prev_cursor_row() == old(self).spec_prev_cursor_row(),
            final(self).spec_received_grid_scroll() == old(self).spec_received_grid_scroll(),
    {
        self.at_bottom_boundary = at_bottom;
    }

    /// Whether the view is held at the bottom boundary.
    pub fn is_at_bottom_boundary(&self) -> (r: bool)
        ensures
            r == self.spec_at_bottom_boundary(),
    {
        self.at_bottom_boundary
    }

    /// The last top line number recorded.
    pub fn get_last_top_line(&self) -> (r: Option<u32>)
        ensures
            r == self.spec_last_top_line(),
    {
        self.last_top_line
    }

    /// Record the top line number for stuck-scroll detection.
    pub fn set_last_top_line(&mut self, line: Option<u32>)
        ensures
            final(self).spec_last_top_line() == line,
            final(self).spec_smooth_scroll_enabled() == old(self).spec_smooth_scroll_enabled(),
            final(self).spec_at_bottom_boundary() == old(self).spec_at_bottom_boundary(),
            final(self).spec_last_scroll_rows() == old(self).spec_last_scroll_rows(),
            final(self).spec_active_scroll_region() == old(self).spec_active_scroll_region(),
            final(self).spec_cursor_row() == old(self).spec_cursor_row(),
            final(self).spec_prev_cursor_row() == old(self).spec_prev_cursor_row(),
            final(self).spec_received_grid_scroll() == old(self).spec_received_grid_scroll(),
    {
        self.last_top_line = line;
    }
}

impl Default for NvimRendererBridge {
    /// Same as `new`.
    fn default() -> (r: Self)
        ensures
            r.spec_smooth_scroll_enabled(),
            r.spec_last_scroll_rows() == 0,
            r.spec_active_scroll_region() is None,
            r.spec_cursor_row() == 0,
            r.spec_prev_cursor_row() == 0,
            !r.spec_received_grid_scroll(),
            !r.spec_at_bottom_boundary(),
            r.spec_last_top_line() is None,
    {
        Self::new()
    }
}

} // verus!
