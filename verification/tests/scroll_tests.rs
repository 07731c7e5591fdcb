//! Scroll reconciliation tests: clamping, quantization, idle convergence.

use nvim_ui::scroll::ScrollState;

fn engine(cell_h: i64, screen: usize, history: usize, offset: usize) -> ScrollState {
    let mut s = ScrollState::new();
    s.update_smooth_scroll_metrics(cell_h);
    s.update_smooth_scroll_bounds(screen, history);
    s.set_display_offset(offset);
    s
}

#[test]
fn direct_input_accumulates_and_clamps_up() {
    // 100 lines of history above, nothing scrolled back: up bound 2000 px.
    let mut s = engine(20, 40, 100, 0);
    s.update_smooth_scroll_pixels(-500, 1);
    let (residual, lines) = s.advance_smooth_scroll(2, 20, 0, 100);
    assert_eq!(lines, 25);
    assert_eq!(residual, 0);

    // push far past the bound: the accumulator clamps at 2000 px
    s.update_smooth_scroll_pixels(-1_000_000, 3);
    let (residual, lines) = s.advance_smooth_scroll(4, 20, 0, 100);
    assert_eq!(lines, 100);
    assert_eq!(residual, 0);
}

#[test]
fn direct_input_clamps_down_to_scrolled_back_lines() {
    // scrolled back 5 lines: at most 100 px of downward offset.
    let mut s = engine(20, 40, 100, 5);
    s.update_smooth_scroll_pixels(1_000_000, 1);
    let (residual, lines) = s.advance_smooth_scroll(2, 20, 5, 95);
    assert_eq!(lines, -5);
    assert_eq!(residual, 0);
}

#[test]
fn residual_stays_below_cell_height() {
    let mut s = engine(20, 40, 100, 0);
    s.update_smooth_scroll_pixels(-33, 1);
    let (residual, lines) = s.advance_smooth_scroll(2, 20, 0, 100);
    assert_eq!(lines, 1);
    assert_eq!(residual, 13);
    assert!(residual.abs() < 20);
}

#[test]
fn idle_ticks_do_not_drift() {
    let mut s = engine(20, 40, 100, 0);
    s.update_smooth_scroll_pixels(-7, 1);
    let (r1, l1) = s.advance_smooth_scroll(2, 20, 0, 100);
    assert_eq!((r1, l1), (7, 0));
    for t in 3..10u64 {
        let (r, l) = s.advance_smooth_scroll(t, 20, 0, 100);
        assert_eq!((r, l), (7, 0), "no drift on idle ticks");
    }
}

#[test]
fn zero_cell_height_tick_is_a_no_op() {
    let mut s = engine(0, 40, 100, 0);
    s.update_smooth_scroll_pixels(-50, 1);
    let (residual, lines) = s.advance_smooth_scroll(2, 0, 0, 100);
    assert_eq!((residual, lines), (0, 0));
}

#[test]
fn line_based_input_uses_cell_height() {
    let mut s = engine(10, 40, 100, 0);
    s.update_smooth_scroll(-3, 1);
    let (residual, lines) = s.advance_smooth_scroll(2, 10, 0, 100);
    assert_eq!(lines, 3);
    assert_eq!(residual, 0);
}

#[test]
fn stop_with_snap_zeroes_residual_idempotently() {
    let mut s = engine(20, 40, 100, 0);
    s.update_smooth_scroll_pixels(-15, 1);
    s.stop_smooth_scroll(true, 2);
    assert!(!s.is_smooth_scroll_animating());
    s.stop_smooth_scroll(true, 3);
    assert!(!s.is_smooth_scroll_animating());
}

#[test]
fn stop_without_snap_keeps_residual() {
    let mut s = engine(20, 40, 100, 0);
    s.update_smooth_scroll_pixels(-15, 1);
    s.stop_smooth_scroll(false, 2);
    assert!(s.is_smooth_scroll_animating());
}

#[test]
fn editor_offset_decays_toward_zero() {
    let mut s = ScrollState::new();
    s.set_nvim_scroll_offset(100);
    assert!(s.is_nvim_scroll_animating());
    // one frame: 100 * 3/4
    let r = s.advance_nvim_smooth_scroll(17);
    assert_eq!(r, 75);
    let mut last = r;
    loop {
        let next = s.advance_nvim_smooth_scroll(17);
        assert!(next.abs() <= last.abs());
        if next == 0 {
            break;
        }
        last = next;
    }
    assert!(!s.is_nvim_scroll_animating());
}

#[test]
fn negative_editor_offset_decays_toward_zero() {
    let mut s = ScrollState::new();
    s.set_nvim_scroll_offset(-40);
    let r = s.advance_nvim_smooth_scroll(17);
    assert_eq!(r, -30);
}
