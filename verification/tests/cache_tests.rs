//! Render-content cache tests: LRU eviction, recency refresh, and the
//! render-range arithmetic.

use nvim_ui::cache::{CHUNK_BUFFER_LINES, ChunkedRenderer, MAX_CHUNKS, RenderChunk};
use nvim_ui::color::Rgb;
use nvim_ui::render::{CellFlags, RenderableCell};

fn chunk(start: i64) -> RenderChunk {
    RenderChunk::new(start, 10, Vec::new())
}

#[test]
fn capacity_overflow_evicts_least_recently_touched() {
    let mut cache = ChunkedRenderer::new();
    for i in 0..MAX_CHUNKS {
        cache.add_chunk(chunk(i as i64 * 10));
    }
    assert_eq!(cache.chunk_count(), MAX_CHUNKS);
    // one more distinct chunk: exactly the oldest (start line 0) leaves
    cache.add_chunk(chunk(9_000));
    assert_eq!(cache.chunk_count(), MAX_CHUNKS);
    assert_eq!(cache.get_chunk(5, 1), None, "the oldest chunk was evicted");
    assert!(cache.get_chunk(15, 1).is_some(), "the second-oldest survived");
    assert!(cache.get_chunk(9_005, 1).is_some(), "the new chunk is resident");
}

#[test]
fn get_protects_a_chunk_from_the_next_eviction() {
    let mut cache = ChunkedRenderer::new();
    for i in 0..MAX_CHUNKS {
        cache.add_chunk(chunk(i as i64 * 10));
    }
    // touch the oldest chunk; the next insertion must evict the second-oldest
    assert!(cache.get_chunk(5, 1).is_some());
    cache.add_chunk(chunk(9_000));
    assert!(cache.get_chunk(5, 1).is_some(), "the touched chunk survived");
    assert_eq!(cache.get_chunk(15, 1), None, "the untouched oldest was evicted");
}

#[test]
fn get_chunk_finds_covering_range() {
    let mut cache = ChunkedRenderer::new();
    cache.add_chunk(chunk(-20));
    cache.add_chunk(chunk(40));
    let hit = cache.get_chunk(-11, 1).expect("line in first chunk");
    let c = cache.chunk_at(hit);
    assert_eq!(c.start_line, -20);
    assert_eq!(c.lines, 10);
    assert_eq!(cache.get_chunk(30, 1), None);
}

#[test]
fn clear_chunks_drops_everything() {
    let mut cache = ChunkedRenderer::new();
    cache.add_chunk(chunk(0));
    cache.add_chunk(chunk(10));
    cache.clear_chunks();
    assert_eq!(cache.chunk_count(), 0);
    assert_eq!(cache.get_chunk(5, 1), None);
}

#[test]
fn chunk_line_queries() {
    let c = chunk(100);
    assert!(c.contains_line(100));
    assert!(c.contains_line(109));
    assert!(!c.contains_line(110));
    assert!(!c.contains_line(99));
    assert_eq!(c.end_line(), 109);
}

#[test]
fn render_range_extends_into_history_and_clamps() {
    let mut cache = ChunkedRenderer::new();
    cache.update_terminal_bounds(40, 500);
    // scrolled back 30 lines: start 130 lines up, total viewport + buffers
    let (start, total) = cache.calculate_render_range(40, 30);
    assert_eq!(start, -(30 + CHUNK_BUFFER_LINES as i64));
    // the end is clamped to the terminal's last line (40)
    assert_eq!(total, (40 - start) as usize);

    // little history: the start is bounded by what exists
    cache.update_terminal_bounds(40, 50);
    let (start, total) = cache.calculate_render_range(40, 30);
    assert_eq!(start, -50);
    assert_eq!(total, 90);
}

#[test]
fn effective_render_area_counts_existing_lines() {
    let mut cache = ChunkedRenderer::new();
    cache.update_terminal_bounds(40, 0);
    let (start, existing) = cache.get_effective_render_area(40, 0);
    // with no history the range starts at the top of the screen and every
    // screen line exists
    assert_eq!(start, 0);
    assert_eq!(existing, 40);
}

#[test]
fn offset_quantizes_into_whole_lines() {
    let mut cache = ChunkedRenderer::new();
    cache.update_cell_height(20);
    cache.set_viewport_offset(47);
    let lines = cache.normalize_and_consume_lines();
    assert_eq!(lines, 2);
    assert_eq!(cache.viewport_offset_current(), 7);
}

#[test]
fn consume_scrolled_lines_keeps_residual_stable() {
    let mut cache = ChunkedRenderer::new();
    cache.update_cell_height(20);
    cache.update_scroll(3);
    assert_eq!(cache.viewport_offset_current(), 60);
    cache.consume_scrolled_lines(3);
    assert_eq!(cache.viewport_offset_current(), 0);
    assert!(!cache.is_animating());
}

#[test]
fn visible_cell_filter_keeps_range_only() {
    let mut cache = ChunkedRenderer::new();
    cache.update_terminal_bounds(10, 0);
    let white = Rgb { r: 255, g: 255, b: 255 };
    let flags = CellFlags { bold: false, italic: false, underline: false, wide_char: false };
    let mk = |line: usize| RenderableCell {
        line,
        column: 0,
        character: 'x',
        flags,
        fg: white,
        bg: white,
        underline: white,
    };
    let cells = vec![mk(0), mk(5), mk(9), mk(10), mk(300)];
    let kept = cache.get_renderable_cells_with_offset(&cells, 10, 0, 0, 0);
    let lines: Vec<usize> = kept.iter().map(|c| c.line).collect();
    assert_eq!(lines, vec![0, 5, 9]);
}
