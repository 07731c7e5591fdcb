//! End-to-end session tests: wire notifications decoded and applied to the
//! grid, and the boundary policy.

use nvim_ui::color::Rgb;
use nvim_ui::mode::NvimMode;
use nvim_ui::protocol::{NvimEvent, NvimResponse, RedrawEvent, parse_notification};
use nvim_ui::wire::WireValue;

fn arr(items: Vec<WireValue>) -> WireValue {
    WireValue::Arr(items)
}

fn s(text: &str) -> WireValue {
    WireValue::Str(text.to_string())
}

fn u(v: u64) -> WireValue {
    WireValue::UInt(v)
}

fn apply_notification(state: &mut NvimMode, payload: WireValue) {
    match parse_notification("redraw", &payload).expect("payload decodes") {
        NvimEvent::Redraw(events) => {
            for ev in &events {
                state.apply_redraw_event(ev);
            }
        },
        _ => unreachable!(),
    }
}

fn row_string(state: &NvimMode, row: usize, width: usize) -> String {
    let cells = state.get_renderable_cells();
    (0..width).map(|c| cells[row * width + c].character).collect()
}

#[test]
fn resize_line_flush_shows_repeated_glyph() {
    let mut state = NvimMode::new(1, 1);

    // define highlight 1 first so the run resolves to its colours
    let hl_fg = Rgb { r: 9, g: 8, b: 7 };
    let hl_colour = (9u64 << 16) | (8 << 8) | 7;
    apply_notification(
        &mut state,
        arr(vec![arr(vec![
            s("hl_attr_define"),
            arr(vec![
                u(1),
                WireValue::Pairs(vec![nvim_ui::wire::WirePair {
                    key: s("foreground"),
                    val: u(hl_colour),
                }]),
            ]),
        ])]),
    );

    apply_notification(
        &mut state,
        arr(vec![arr(vec![s("grid_resize"), arr(vec![u(1), u(10), u(3)])])]),
    );
    apply_notification(
        &mut state,
        arr(vec![arr(vec![
            s("grid_line"),
            arr(vec![u(1), u(0), u(0), arr(vec![arr(vec![s("A"), u(1), u(3)])])]),
        ])]),
    );
    apply_notification(&mut state, arr(vec![arr(vec![s("flush"), arr(vec![])])]));

    assert_eq!(row_string(&state, 0, 10), "AAA       ");
    let cells = state.get_renderable_cells();
    for c in 0..3 {
        assert_eq!(cells[c].character, 'A');
        assert_eq!(cells[c].fg, hl_fg, "run carries highlight 1's colours");
    }
}

#[test]
fn scroll_shifts_row_three_into_row_two() {
    let mut state = NvimMode::new(10, 4);
    let rows = ["aaaaaaaaaa", "bbbbbbbbbb", "cccccccccc", "dddddddddd"];
    for (r, text) in rows.iter().enumerate() {
        let runs: Vec<WireValue> =
            text.chars().map(|ch| arr(vec![s(&ch.to_string())])).collect();
        apply_notification(
            &mut state,
            arr(vec![arr(vec![
                s("grid_line"),
                arr(vec![u(1), u(r as u64), u(0), arr(runs)]),
            ])]),
        );
    }
    let before_row3 = row_string(&state, 3, 10);

    apply_notification(
        &mut state,
        arr(vec![arr(vec![
            s("grid_scroll"),
            arr(vec![u(1), u(0), u(3), u(0), u(10), u(1), u(0)]),
        ])]),
    );

    assert_eq!(row_string(&state, 2, 10), "          ", "row 2 was exposed by the shift");
    // the region ends at row 3 exclusive, so row 1 now holds old row 2
    assert_eq!(row_string(&state, 1, 10), "cccccccccc");
    assert_eq!(row_string(&state, 3, 10), before_row3, "rows outside the region are untouched");
    assert!(state.did_grid_scroll());
    assert_eq!(state.active_scroll_region(), Some((0, 3)));
}

#[test]
fn full_height_scroll_moves_content_up_one_row() {
    let mut state = NvimMode::new(10, 4);
    let rows = ["0000000000", "1111111111", "2222222222", "3333333333"];
    for (r, text) in rows.iter().enumerate() {
        let runs: Vec<WireValue> =
            text.chars().map(|ch| arr(vec![s(&ch.to_string())])).collect();
        apply_notification(
            &mut state,
            arr(vec![arr(vec![
                s("grid_line"),
                arr(vec![u(1), u(r as u64), u(0), arr(runs)]),
            ])]),
        );
    }
    let before_row3 = row_string(&state, 3, 10);
    apply_notification(
        &mut state,
        arr(vec![arr(vec![
            s("grid_scroll"),
            arr(vec![u(1), u(0), u(4), u(0), u(10), u(1), u(0)]),
        ])]),
    );
    assert_eq!(row_string(&state, 2, 10), before_row3, "row 2 now shows what row 3 held");
}

#[test]
fn events_for_other_grids_are_ignored() {
    let mut state = NvimMode::new(4, 2);
    apply_notification(
        &mut state,
        arr(vec![arr(vec![
            s("grid_line"),
            arr(vec![u(2), u(0), u(0), arr(vec![arr(vec![s("Z"), WireValue::Nil, u(4)])])]),
        ])]),
    );
    assert_eq!(row_string(&state, 0, 4), "    ");
}

#[test]
fn cursor_events_feed_grid_and_bridge() {
    let mut state = NvimMode::new(4, 4);
    apply_notification(
        &mut state,
        arr(vec![arr(vec![s("grid_cursor_goto"), arr(vec![u(1), u(2), u(3)])])]),
    );
    assert_eq!(state.get_cursor(), (2, 3));
    assert!(!state.at_scroll_boundary());
    apply_notification(
        &mut state,
        arr(vec![arr(vec![s("grid_cursor_goto"), arr(vec![u(1), u(0), u(0)])])]),
    );
    assert!(state.at_scroll_boundary());
}

#[test]
fn selection_gap_is_filled_with_selection_blue() {
    let mut state = NvimMode::new(5, 1);
    let blue = (70u64 << 16) | (130 << 8) | 255;
    apply_notification(
        &mut state,
        arr(vec![arr(vec![
            s("hl_attr_define"),
            arr(vec![
                u(4),
                WireValue::Pairs(vec![nvim_ui::wire::WirePair {
                    key: s("background"),
                    val: u(blue),
                }]),
            ]),
        ])]),
    );
    // selected cells at columns 1 and 3; column 2 sits between them
    apply_notification(
        &mut state,
        arr(vec![arr(vec![
            s("grid_line"),
            arr(vec![
                u(1),
                u(0),
                u(1),
                arr(vec![
                    arr(vec![s("x"), u(4)]),
                    arr(vec![s("y")]),
                    arr(vec![s("z"), u(4)]),
                ]),
            ]),
        ])]),
    );
    let cells = state.get_renderable_cells();
    let sel = Rgb { r: 70, g: 130, b: 255 };
    assert_eq!(cells[1].bg, sel);
    assert_eq!(cells[2].bg, sel, "the gap between selections is filled");
    assert_eq!(cells[3].bg, sel);
    assert_eq!(cells[0].bg, Rgb { r: 0, g: 0, b: 0 });
    assert_eq!(cells[4].bg, Rgb { r: 0, g: 0, b: 0 });
}

#[test]
fn buffer_bottom_policy_compares_top_line() {
    let mut state = NvimMode::new(8, 3);
    // a numeric response caches the buffer's last line
    state.handle_response(&NvimResponse {
        id: 9,
        error: WireValue::Nil,
        result: Some(u(42)),
    });

    // top row shows line 41: not at the bottom yet
    let runs: Vec<WireValue> =
        "   41 x ".chars().map(|ch| arr(vec![s(&ch.to_string())])).collect();
    apply_notification(
        &mut state,
        arr(vec![arr(vec![s("grid_line"), arr(vec![u(1), u(0), u(0), arr(runs)])])]),
    );
    assert!(!state.is_at_buffer_bottom());

    // top row shows line 42: the buffer's last line reached the top
    let runs: Vec<WireValue> =
        "   42 x ".chars().map(|ch| arr(vec![s(&ch.to_string())])).collect();
    apply_notification(
        &mut state,
        arr(vec![arr(vec![s("grid_line"), arr(vec![u(1), u(0), u(0), arr(runs)])])]),
    );
    assert!(state.is_at_buffer_bottom());
    assert_eq!(state.get_top_line_number(), Some(42));
}

#[test]
fn unreadable_top_row_counts_as_bottom() {
    let state = NvimMode::new(8, 3);
    assert!(state.is_at_buffer_bottom(), "a blank top row reads as the bottom");
}

#[test]
fn flush_resets_scroll_aggregation_only() {
    let mut state = NvimMode::new(4, 4);
    apply_notification(
        &mut state,
        arr(vec![arr(vec![
            s("grid_scroll"),
            arr(vec![u(1), u(0), u(4), u(0), u(4), u(2), u(0)]),
        ])]),
    );
    assert!(state.did_grid_scroll());
    apply_notification(&mut state, arr(vec![arr(vec![s("flush"), arr(vec![])])]));
    assert!(state.did_grid_scroll(), "the flag survives until the frame resets it");
    state.reset_grid_scroll_flag();
    assert!(!state.did_grid_scroll());
}

#[test]
fn deactivate_marks_session_inactive() {
    let mut state = NvimMode::new(2, 2);
    assert!(state.is_active());
    state.deactivate();
    assert!(!state.is_active());
}

#[test]
fn malformed_occurrence_is_dropped_batch_survives() {
    let mut state = NvimMode::new(4, 2);
    // first occurrence lacks its row, second is fine
    apply_notification(
        &mut state,
        arr(vec![arr(vec![
            s("grid_line"),
            arr(vec![u(1)]),
            arr(vec![u(1), u(0), u(0), arr(vec![arr(vec![s("K"), WireValue::Nil, u(2)])])]),
        ])]),
    );
    assert_eq!(row_string(&state, 0, 4), "KK  ");
}
