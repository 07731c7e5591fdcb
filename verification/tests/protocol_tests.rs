//! Wire decoding and encoding tests: colours, event parsing, envelope
//! classification, and the request encoder.

use nvim_ui::color::{Rgb, parse_color};
use nvim_ui::protocol::{
    NvimEvent, RedrawEvent, parse_highlight_attrs, parse_notification, parse_single_event,
};
use nvim_ui::wire::{RequestEncoder, WirePair, WireValue, parse_message};

fn arr(items: Vec<WireValue>) -> WireValue {
    WireValue::Arr(items)
}

fn s(text: &str) -> WireValue {
    WireValue::Str(text.to_string())
}

fn u(v: u64) -> WireValue {
    WireValue::UInt(v)
}

#[test]
fn parse_color_unpacks_channels() {
    assert_eq!(parse_color(0xFF0000), Rgb { r: 255, g: 0, b: 0 });
    assert_eq!(parse_color(0x00FF00), Rgb { r: 0, g: 255, b: 0 });
    assert_eq!(parse_color(0x0000FF), Rgb { r: 0, g: 0, b: 255 });
    assert_eq!(parse_color(0x123456), Rgb { r: 0x12, g: 0x34, b: 0x56 });
}

#[test]
fn grid_line_event_keeps_repeat_and_highlight() {
    let params = arr(vec![
        u(1),
        u(2),
        u(5),
        arr(vec![arr(vec![s("ab"), u(3), u(4)]), arr(vec![s("c")])]),
    ]);
    match parse_single_event("grid_line", &params).unwrap() {
        RedrawEvent::GridLine { grid, row, col_start, cells } => {
            assert_eq!((grid, row, col_start), (1, 2, 5));
            assert_eq!(cells.len(), 2);
            assert_eq!(cells[0].text, "ab");
            assert_eq!(cells[0].hl_id, Some(3));
            assert_eq!(cells[0].repeat, 4, "repeat preserved, not expanded");
            assert_eq!(cells[1].hl_id, None);
            assert_eq!(cells[1].repeat, 1, "repeat defaults to one");
        },
        other => panic!("wrong event {:?}", other),
    }
}

#[test]
fn grid_line_without_text_fails() {
    let params = arr(vec![u(1), u(0), u(0), arr(vec![arr(vec![])])]);
    assert!(parse_single_event("grid_line", &params).is_err());
}

#[test]
fn grid_scroll_event_reads_signed_fields() {
    let params = arr(vec![
        u(1),
        WireValue::Int(-2),
        u(10),
        u(0),
        u(80),
        WireValue::Int(-3),
    ]);
    match parse_single_event("grid_scroll", &params).unwrap() {
        RedrawEvent::GridScroll { grid, top, bottom, left, right, rows, cols } => {
            assert_eq!((grid, top, bottom, left, right, rows), (1, -2, 10, 0, 80, -3));
            assert_eq!(cols, 0, "missing column delta defaults to zero");
        },
        other => panic!("wrong event {:?}", other),
    }
}

#[test]
fn missing_field_is_an_error() {
    let params = arr(vec![u(1), u(10)]);
    assert!(parse_single_event("grid_resize", &params).is_err());
}

#[test]
fn non_array_params_are_an_error() {
    assert!(parse_single_event("flush", &u(3)).is_err());
}

#[test]
fn unknown_event_name_is_passed_through() {
    let params = arr(vec![]);
    match parse_single_event("win_viewport", &params).unwrap() {
        RedrawEvent::Other(name) => assert_eq!(name, "win_viewport"),
        other => panic!("wrong event {:?}", other),
    }
}

#[test]
fn default_colors_decode_packed_rgb() {
    let params = arr(vec![WireValue::Int(0x102030), WireValue::Int(0x405060)]);
    match parse_single_event("default_colors_set", &params).unwrap() {
        RedrawEvent::DefaultColorsSet { fg, bg, sp } => {
            assert_eq!(fg, Some(Rgb { r: 0x10, g: 0x20, b: 0x30 }));
            assert_eq!(bg, Some(Rgb { r: 0x40, g: 0x50, b: 0x60 }));
            assert_eq!(sp, None);
        },
        other => panic!("wrong event {:?}", other),
    }
}

#[test]
fn highlight_map_decodes_fields() {
    let pairs = vec![
        WirePair { key: s("foreground"), val: u(0x010203) },
        WirePair { key: s("bold"), val: WireValue::Bool(true) },
        WirePair { key: s("undercurl"), val: WireValue::Bool(true) },
        WirePair { key: s("blend"), val: u(300) },
        WirePair { key: s("unknown_key"), val: u(1) },
    ];
    let attrs = parse_highlight_attrs(&pairs);
    assert_eq!(attrs.foreground, Some(Rgb { r: 1, g: 2, b: 3 }));
    assert!(attrs.bold && attrs.undercurl);
    assert!(!attrs.italic);
    assert_eq!(attrs.blend, Some(44), "blend keeps the low byte");
}

#[test]
fn later_map_entries_override_earlier_ones() {
    let pairs = vec![
        WirePair { key: s("bold"), val: WireValue::Bool(true) },
        WirePair { key: s("bold"), val: WireValue::Bool(false) },
    ];
    assert!(!parse_highlight_attrs(&pairs).bold);
}

#[test]
fn notification_on_another_channel_is_opaque() {
    match parse_notification("popupmenu_show", &WireValue::Nil).unwrap() {
        NvimEvent::Redraw(events) => {
            assert_eq!(events.len(), 1);
            match &events[0] {
                RedrawEvent::Other(name) => assert_eq!(name, "popupmenu_show"),
                other => panic!("wrong event {:?}", other),
            }
        },
        other => panic!("wrong event {:?}", other),
    }
}

#[test]
fn redraw_notification_with_bad_batch_fails() {
    let payload = arr(vec![u(3)]);
    assert!(parse_notification("redraw", &payload).is_err());
}

#[test]
fn message_notification_roundtrip() {
    let msg = arr(vec![u(2), s("redraw"), arr(vec![arr(vec![s("flush"), arr(vec![])])])]);
    match parse_message(msg).unwrap() {
        NvimEvent::Redraw(events) => {
            assert_eq!(events.len(), 1);
            assert!(matches!(events[0], RedrawEvent::Flush));
        },
        other => panic!("wrong event {:?}", other),
    }
}

#[test]
fn message_response_keeps_id_and_result() {
    let msg = arr(vec![u(1), u(7), WireValue::Nil, u(42)]);
    match parse_message(msg).unwrap() {
        NvimEvent::Response(resp) => {
            assert_eq!(resp.id, 7);
            assert!(matches!(resp.error, WireValue::Nil));
            assert!(matches!(resp.result, Some(WireValue::UInt(42))));
        },
        other => panic!("wrong event {:?}", other),
    }
}

#[test]
fn message_request_defaults_missing_params() {
    let msg = arr(vec![u(0), u(3), s("ping")]);
    match parse_message(msg).unwrap() {
        NvimEvent::Request(req) => {
            assert_eq!(req.id, 3);
            assert_eq!(req.method, "ping");
            assert!(matches!(req.params, WireValue::Nil));
        },
        other => panic!("wrong event {:?}", other),
    }
}

#[test]
fn malformed_envelopes_are_fatal() {
    assert!(parse_message(WireValue::Nil).is_err());
    assert!(parse_message(arr(vec![])).is_err());
    assert!(parse_message(arr(vec![u(9), u(1), s("x")])).is_err());
    assert!(parse_message(arr(vec![u(2), u(1)])).is_err());
    assert!(parse_message(arr(vec![u(2), u(5), WireValue::Nil])).is_err());
}

#[test]
fn request_ids_increase_and_never_repeat() {
    let mut enc = RequestEncoder::new();
    let (id1, _) = enc.input_request("ihello");
    let (id2, _) = enc.command_request("set number");
    let (id3, _) = enc.eval_expr_request("line('$')");
    assert_eq!((id1, id2, id3), (1, 2, 3));
}

#[test]
fn input_request_envelope_shape() {
    let mut enc = RequestEncoder::new();
    let (id, req) = enc.input_request(":q\n");
    match req {
        WireValue::Arr(items) => {
            assert_eq!(items.len(), 4);
            assert!(matches!(items[0], WireValue::UInt(0)));
            assert!(matches!(items[1], WireValue::UInt(i) if i == id));
            assert!(matches!(&items[2], WireValue::Str(m) if m == "nvim_input"));
            match &items[3] {
                WireValue::Arr(args) => {
                    assert_eq!(args.len(), 1);
                    assert!(matches!(&args[0], WireValue::Str(t) if t == ":q\n"));
                },
                other => panic!("wrong args {:?}", other),
            }
        },
        other => panic!("wrong envelope {:?}", other),
    }
}

#[test]
fn attach_request_adds_buffer_rows_and_capabilities() {
    let mut enc = RequestEncoder::new();
    let (_, req) = enc.attach_ui_request(80, 24);
    match req {
        WireValue::Arr(items) => {
            assert!(matches!(&items[2], WireValue::Str(m) if m == "nvim_ui_attach"));
            match &items[3] {
                WireValue::Arr(args) => {
                    assert!(matches!(args[0], WireValue::UInt(80)));
                    assert!(matches!(args[1], WireValue::UInt(26)), "two buffer rows added");
                    match &args[2] {
                        WireValue::Pairs(opts) => {
                            assert_eq!(opts.len(), 3);
                            assert!(matches!(&opts[0].key, WireValue::Str(k) if k == "rgb"));
                            assert!(matches!(opts[0].val, WireValue::Bool(true)));
                            assert!(
                                matches!(&opts[1].key, WireValue::Str(k) if k == "ext_linegrid")
                            );
                            assert!(matches!(opts[1].val, WireValue::Bool(true)));
                            assert!(
                                matches!(&opts[2].key, WireValue::Str(k) if k == "ext_multigrid")
                            );
                            assert!(matches!(opts[2].val, WireValue::Bool(false)));
                        },
                        other => panic!("wrong capability map {:?}", other),
                    }
                },
                other => panic!("wrong args {:?}", other),
            }
        },
        other => panic!("wrong envelope {:?}", other),
    }
}

#[test]
fn resize_request_adds_buffer_rows() {
    let mut enc = RequestEncoder::new();
    let (_, req) = enc.resize_request(120, 40);
    match req {
        WireValue::Arr(items) => {
            assert!(matches!(&items[2], WireValue::Str(m) if m == "nvim_ui_try_resize"));
            match &items[3] {
                WireValue::Arr(args) => {
                    assert!(matches!(args[0], WireValue::UInt(120)));
                    assert!(matches!(args[1], WireValue::UInt(42)));
                },
                other => panic!("wrong args {:?}", other),
            }
        },
        other => panic!("wrong envelope {:?}", other),
    }
}

#[test]
fn signed_integers_read_both_ways() {
    assert_eq!(WireValue::Int(-1).as_u64(), None);
    assert_eq!(WireValue::Int(5).as_u64(), Some(5));
    assert_eq!(WireValue::UInt(u64::MAX).as_i64(), None);
    assert_eq!(WireValue::UInt(12).as_i64(), Some(12));
    assert_eq!(WireValue::Nil.as_u64(), None);
}
