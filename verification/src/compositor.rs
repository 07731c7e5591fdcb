//! Offscreen compositor bookkeeping.
//!
//! The compositor owns a render target taller than the viewport (twice its
//! height) so the presentation blit can slide sub-pixel offsets in both
//! directions without re-rendering every frame. The GPU resources
//! themselves belong to the rendering collaborator; this module tracks the
//! decisions: the target's size, whether it is initialised, when its
//! content must be refreshed, and where the blit reads from.

use vstd::prelude::*;

use crate::scroll::{MAX_PIXELS, spec_trunc_div, trunc_div_pixels};

verus! {

/// Largest pixel dimension of the offscreen target.
pub const MAX_SURFACE_PX: i64 = 1_000_000_000;

/// How many lines the display offset may drift before the content is
/// refreshed.
pub const OFFSET_REFRESH_THRESHOLD_LINES: usize = 10;

/// Whether the offscreen content must be refreshed: always before the
/// first allocation, when the display offset has drifted more than the
/// threshold number of lines since the last refresh, or when the scroll
/// offset has passed a quarter of the target height.
pub open spec fn spec_needs_update(
    c: &OffscreenCompositor,
    display_offset: int,
    scroll_offset: int,
) -> bool {
    let drift = if display_offset >= c.spec_last_display_offset() {
        display_offset - c.spec_last_display_offset()
    } else {
        c.spec_last_display_offset() - display_offset
    };
    let magnitude = if scroll_offset >= 0 {
        scroll_offset
    } else {
        -scroll_offset
    };
    !c.spec_initialized() || drift > OFFSET_REFRESH_THRESHOLD_LINES || magnitude > c.spec_height()
        / 4
}

/// The compositor's tracking state.
pub struct OffscreenCompositor {
    width: i64,
    height: i64,
    /// Where in the virtual scrollable space the content was rendered.
    virtual_offset: i64,
    /// The terminal display offset at the last content refresh.
    last_display_offset: usize,
    initialized: bool,
}

impl OffscreenCompositor {
    /// The target's width in pixels.
    pub closed spec fn spec_width(&self) -> int {
        self.width as int
    }

    /// The target's height in pixels: twice the viewport height.
    pub closed spec fn spec_height(&self) -> int {
        self.height as int
    }

    /// The virtual scroll offset recorded at the last refresh.
    pub closed spec fn spec_virtual_offset(&self) -> int {
        self.virtual_offset as int
    }

    /// The display offset recorded at the last refresh.
    pub closed spec fn spec_last_display_offset(&self) -> int {
        self.last_display_offset as int
    }

    /// Whether backing resources are currently allocated.
    pub closed spec fn spec_initialized(&self) -> bool {
        self.initialized
    }

    /// Dimension bounds.
    pub open spec fn wf(&self) -> bool {
        &&& 0 <= self.spec_width() <= MAX_SURFACE_PX
        &&& 0 <= self.spec_height() <= MAX_SURFACE_PX
        &&& -MAX_PIXELS <= self.spec_virtual_offset() <= MAX_PIXELS
    }

    /// A fresh compositor: created empty, nothing allocated.
    pub fn new() -> (r: OffscreenCompositor)
        ensures
            r.wf(),
            !r.spec_initialized(),
            r.spec_width() == 0,
            r.spec_height() == 0,
            r.spec_virtual_offset() == 0,
            r.spec_last_display_offset() == 0,
    {
        OffscreenCompositor {
            width: 0,
            height: 0,
            virtual_offset: 0,
            last_display_offset: 0,
            initialized: false,
        }
    }

    /// Size the target for a viewport: the old backing resources must be
    /// released by the collaborator before this reallocation is recorded.
    /// The target matches the viewport's width and doubles its height.
    pub fn resize(&mut self, viewport_width: i64, viewport_height: i64)
        requires
            old(self).wf(),
            0 <= viewport_width <= MAX_SURFACE_PX,
            0 <= viewport_height,
            2 * viewport_height <= MAX_SURFACE_PX,
        ensures
            final(self).wf(),
            final(self).spec_width() == viewport_width,
            final(self).spec_height() == 2 * viewport_height,
            final(self).spec_initialized(),
            final(self).spec_virtual_offset() == old(self).spec_virtual_offset(),
            final(self).spec_last_display_offset() == old(self).spec_last_display_offset(),
    {
        self.width = viewport_width;
        self.height = viewport_height * 2;
        self.initialized = true;
    }

    /// Release the backing resources (on teardown, and before every
    /// reallocation).
    pub fn teardown(&mut self)
        requires
            old(self).wf(),
        ensures
            final(self).wf(),
            !final(self).spec_initialized(),
            final(self).spec_width() == 0,
            final(self).spec_height() == 0,
            final(self).spec_virtual_offset() == old(self).spec_virtual_offset(),
            final(self).spec_last_display_offset() == old(self).spec_last_display_offset(),
    {
        self.width = 0;
        self.height = 0;
        self.initialized = false;
    }

    /// Whether the offscreen content must be refreshed: always before the
    /// first allocation, when the display offset has drifted more than the
    /// threshold number of lines since the last refresh, or when the scroll
    /// offset has passed a quarter of the target height (the edge of the
    /// pre-rendered content is near).
    pub fn needs_update(
        &self,
        display_offset: usize,
        scroll_offset: i64,
        _cell_height_px: i64,
    ) -> (r: bool)
        requires
            self.wf(),
            display_offset <= crate::scroll::MAX_LINES,
            -MAX_PIXELS <= scroll_offset <= MAX_PIXELS,
            self.spec_last_display_offset() <= crate::scroll::MAX_LINES,
        ensures
            r == spec_needs_update(self, display_offset as int, scroll_offset as int),
    {
        if !self.initialized {
            return true;
        }
        let drift: usize = if display_offset >= self.last_display_offset {
            display_offset - self.last_display_offset
        } else {
            self.last_display_offset - display_offset
        };
        let offset_changed = drift > OFFSET_REFRESH_THRESHOLD_LINES;
        let magnitude: i64 = if scroll_offset >= 0 {
            scroll_offset
        } else {
            -scroll_offset
        };
        let quarter = self.height / 4;
        proof {
            assert(self.height as int / 4 == self.spec_height() / 4);
        }
        let scroll_near_edge = magnitude > quarter;
        offset_changed || scroll_near_edge
    }

    /// Record a refresh point after the offscreen content was re-rendered.
    pub fn mark_updated(&mut self, display_offset: usize, scroll_offset: i64)
        requires
            old(self).wf(),
            display_offset <= crate::scroll::MAX_LINES,
            -MAX_PIXELS <= scroll_offset <= MAX_PIXELS,
        ensures
            final(self).wf(),
            final(self).spec_last_display_offset() == display_offset,
            final(self).spec_virtual_offset() == scroll_offset,
            final(self).spec_width() == old(self).spec_width(),
            final(self).spec_height() == old(self).spec_height(),
            final(self).spec_initialized() == old(self).spec_initialized(),
    {
        self.last_display_offset = display_offset;
        self.virtual_offset = scroll_offset;
    }

    /// Whether the compositor is ready for use.
    pub fn is_initialized(&self) -> (r: bool)
        ensures
            r == self.spec_initialized(),
    {
        self.initialized
    }
}

/// Where the presentation blit reads from, in thousandths of the target
/// height: the viewport sits centred a quarter of the way into the doubled
/// target, shifted by the pixel offset's share of the target height.
pub fn blit_offset_per_mille(pixel_offset: i64, viewport_height: i64) -> (r: i64)
    requires
        0 < viewport_height <= MAX_SURFACE_PX,
        -MAX_PIXELS <= pixel_offset <= MAX_PIXELS,
    ensures
        r == 250 + spec_trunc_div(
            pixel_offset * 1000,
            2 * viewport_height,
        ),
{
    proof {
        assert(-1_000_000_000_000_000 <= pixel_offset * 1000 <= 1_000_000_000_000_000)
            by (nonlinear_arith)
            requires
                -1_000_000_000_000 <= pixel_offset <= 1_000_000_000_000,
        ;
        crate::scroll::lemma_trunc_div_props(pixel_offset as int * 1000, 2 * viewport_height);
    }
    let texture_offset = trunc_div_pixels(pixel_offset * 1000, 2 * viewport_height);
    250 + texture_offset
}

} // verus!
