//! Typed events of the embedded editor's UI protocol.
//!
//! The editor batches grid mutations into `redraw` notifications; each batch
//! entry is decoded here into one member of a closed set of redraw events.

use vstd::prelude::*;

use crate::color::Rgb;
use crate::wire::{WireValue, WirePair, spec_as_u64, spec_as_bool, spec_get_u64, spec_get_i64, get_u64, get_i64};

verus! {

/// One run of a `grid_line` event: a glyph, an optional highlight id, and a
/// repeat count (defaulting to 1 when the wire omits it).
#[derive(Debug, Clone)]
pub struct GridCell {
    pub text: String,
    pub hl_id: Option<u64>,
    pub repeat: u64,
}

/// A named style record: colours, boolean style flags, and a blend level.
#[derive(Debug, Clone, Copy)]
pub struct HighlightAttrs {
    pub foreground: Option<Rgb>,
    pub background: Option<Rgb>,
    pub special: Option<Rgb>,
    pub reverse: bool,
    pub italic: bool,
    pub bold: bool,
    pub strikethrough: bool,
    pub underline: bool,
    pub undercurl: bool,
    pub blend: Option<u8>,
}

/// The attribute record with every field unset.
pub open spec fn spec_default_attrs() -> HighlightAttrs {
    HighlightAttrs {
        foreground: None,
        background: None,
        special: None,
        reverse: false,
        italic: false,
        bold: false,
        strikethrough: false,
        underline: false,
        undercurl: false,
        blend: None,
    }
}

impl Default for HighlightAttrs {
    /// The empty attribute record: no colours, no style flags, no blend.
    fn default() -> (r: Self)
        ensures
            r == spec_default_attrs(),
    {
        HighlightAttrs {
            foreground: None,
            background: None,
            special: None,
            reverse: false,
            italic: false,
            bold: false,
            strikethrough: false,
            underline: false,
            undercurl: false,
            blend: None,
        }
    }
}

/// Cursor-shape metadata delivered by `mode_info_set`.
#[derive(Debug, Clone)]
pub struct ModeInfo {
    pub cursor_shape: Option<String>,
    pub cell_percentage: Option<u64>,
    pub blinkwait: Option<u64>,
    pub blinkon: Option<u64>,
    pub blinkoff: Option<u64>,
}

/// One typed instruction from the editor describing a grid mutation.
#[derive(Debug, Clone)]
pub enum RedrawEvent {
    /// Update a run of cells within one row.
    GridLine { grid: u64, row: u64, col_start: u64, cells: Vec<GridCell> },
    /// Shift a rectangular region by a number of rows.
    GridScroll { grid: u64, top: i64, bottom: i64, left: i64, right: i64, rows: i64, cols: i64 },
    /// Replace the grid with a freshly cleared one of the given size.
    GridResize { grid: u64, width: u64, height: u64 },
    /// Reset every cell of the grid to the default cell.
    GridClear { grid: u64 },
    /// Move the cursor.
    GridCursorGoto { grid: u64, row: u64, col: u64 },
    /// Replace whichever default colours are present.
    DefaultColorsSet { fg: Option<Rgb>, bg: Option<Rgb>, sp: Option<Rgb> },
    /// Define or overwrite a highlight attribute record.
    HlAttrDefine { id: u64, attrs: HighlightAttrs },
    /// Cursor-style metadata.
    ModeInfoSet { cursor_style_enabled: bool, mode_info: Vec<ModeInfo> },
    /// The editor switched modes.
    ModeChange { mode_name: String, mode_idx: u64 },
    /// End of a redraw batch: accumulated state is now a coherent frame.
    Flush,
    /// A recognised envelope whose event name this client does not interpret.
    Other(String),
}

/// Whether two strings hold the same characters.
pub fn str_eq(a: &str, b: &str) -> (r: bool)
    ensures
        r == (a@ == b@),
{
    let na = a.unicode_len();
    let nb = b.unicode_len();
    if na != nb {
        proof {
            if a@ == b@ {
                assert(a@.len() == b@.len());
            }
        }
        return false;
    }
    let mut i: usize = 0;
    while i < na
        invariant
            i <= na,
            na as nat == a@.len(),
            na as nat == b@.len(),
            forall|j: int| 0 <= j < i ==> a@[j] == b@[j],
        decreases na - i,
    {
        if a.get_char(i) != b.get_char(i) {
            proof {
                assert(a@[i as int] != b@[i as int]);
            }
            return false;
        }
        i = i + 1;
    }
    proof {
        assert(a@ =~= b@);
    }
    true
}

/// The colour carried in an unsigned wire integer: its low 24 bits read as
/// `0xRRGGBB`.
pub open spec fn spec_color_from_u64(c: u64) -> Rgb {
    crate::color::spec_parse_color((c & 0xFFFFFF) as u32)
}

/// The colour carried in a signed wire integer: its low 24 bits read as
/// `0xRRGGBB`.
pub open spec fn spec_color_from_i64(c: i64) -> Rgb {
    crate::color::spec_parse_color((c & 0xFFFFFF) as u32)
}

/// Decode the colour of an unsigned wire integer.
fn color_from_u64(c: u64) -> (r: Rgb)
    ensures
        r == spec_color_from_u64(c),
{
    proof {
        assert(c & 0xFFFFFF <= 0xFFFFFF) by (bit_vector);
    }
    crate::color::parse_color((c & 0xFFFFFF) as u32)
}

/// Decode the colour of a signed wire integer.
fn color_from_i64(c: i64) -> (r: Rgb)
    ensures
        r == spec_color_from_i64(c),
{
    proof {
        assert(0 <= c & 0xFFFFFF && c & 0xFFFFFF <= 0xFFFFFF) by (bit_vector);
    }
    crate::color::parse_color((c & 0xFFFFFF) as u32)
}

/// A response correlating back to an earlier request id.
#[derive(Debug)]
pub struct NvimResponse {
    pub id: u64,
    pub error: WireValue,
    pub result: Option<crate::wire::WireValue>,
}

/// A request initiated by the editor (rare, server to client).
#[derive(Debug)]
pub struct NvimRequest {
    pub id: u64,
    pub method: String,
    pub params: WireValue,
}

/// An event received from the editor.
#[derive(Debug)]
pub enum NvimEvent {
    /// A batched UI redraw notification.
    Redraw(Vec<RedrawEvent>),
    /// A response to a request this client sent.
    Response(NvimResponse),
    /// A request from the editor.
    Request(NvimRequest),
}

/// One highlight map entry applied to an attribute record: known keys set
/// their field when the value has the right shape, everything else leaves
/// the record unchanged.
pub open spec fn spec_apply_attr(attrs: HighlightAttrs, p: WirePair) -> HighlightAttrs {
    match p.key {
        WireValue::Str(s) => if s@ == "foreground"@ {
            match spec_as_u64(p.val) {
                Some(c) => HighlightAttrs { foreground: Some(spec_color_from_u64(c)), ..attrs },
                None => attrs,
            }
        } else if s@ == "background"@ {
            match spec_as_u64(p.val) {
                Some(c) => HighlightAttrs { background: Some(spec_color_from_u64(c)), ..attrs },
                None => attrs,
            }
        } else if s@ == "special"@ {
            match spec_as_u64(p.val) {
                Some(c) => HighlightAttrs { special: Some(spec_color_from_u64(c)), ..attrs },
                None => attrs,
            }
        } else if s@ == "reverse"@ {
            HighlightAttrs { reverse: spec_as_bool(p.val) == Some(true), ..attrs }
        } else if s@ == "italic"@ {
            HighlightAttrs { italic: spec_as_bool(p.val) == Some(true), ..attrs }
        } else if s@ == "bold"@ {
            HighlightAttrs { bold: spec_as_bool(p.val) == Some(true), ..attrs }
        } else if s@ == "strikethrough"@ {
            HighlightAttrs { strikethrough: spec_as_bool(p.val) == Some(true), ..attrs }
        } else if s@ == "underline"@ {
            HighlightAttrs { underline: spec_as_bool(p.val) == Some(true), ..attrs }
        } else if s@ == "undercurl"@ {
            HighlightAttrs { undercurl: spec_as_bool(p.val) == Some(true), ..attrs }
        } else if s@ == "blend"@ {
            match spec_as_u64(p.val) {
                Some(b) => HighlightAttrs { blend: Some((b & 0xFF) as u8), ..attrs },
                None => attrs,
            }
        } else {
            attrs
        },
        _ => attrs,
    }
}

/// The attribute record a highlight map decodes to: every entry applied in
/// order over the empty record.
pub open spec fn spec_hl_attrs_from(pairs: Seq<WirePair>) -> HighlightAttrs
    decreases pairs.len(),
{
    if pairs.len() == 0 {
        spec_default_attrs()
    } else {
        spec_apply_attr(spec_hl_attrs_from(pairs.drop_last()), pairs.last())
    }
}

/// Decode highlight attributes from the entries of a wire map.
pub fn parse_highlight_attrs(map: &Vec<WirePair>) -> (r: HighlightAttrs)
    ensures
        r == spec_hl_attrs_from(map@),
{
    let mut attrs = HighlightAttrs::default();
    let mut i: usize = 0;
    let n = map.len();
    while i < n
        invariant
            i <= n,
            n == map@.len(),
            attrs == spec_hl_attrs_from(map@.take(i as int)),
        decreases n - i,
    {
        proof {
            assert(map@.take(i + 1).drop_last() =~= map@.take(i as int));
            assert(map@.take(i + 1).last() == map@[i as int]);
        }
        let p = &map[i];
        match &p.key {
            WireValue::Str(s) => {
                let ks = s.as_str();
                if str_eq(ks, "foreground") {
                    if let Some(c) = p.val.as_u64() {
                        attrs.foreground = Some(color_from_u64(c));
                    }
                } else if str_eq(ks, "background") {
                    if let Some(c) = p.val.as_u64() {
                        attrs.background = Some(color_from_u64(c));
                    }
                } else if str_eq(ks, "special") {
                    if let Some(c) = p.val.as_u64() {
                        attrs.special = Some(color_from_u64(c));
                    }
                } else if str_eq(ks, "reverse") {
                    attrs.reverse = match p.val.as_bool() {
                        Some(b) => b,
                        None => false,
                    };
                } else if str_eq(ks, "italic") {
                    attrs.italic = match p.val.as_bool() {
                        Some(b) => b,
                        None => false,
                    };
                } else if str_eq(ks, "bold") {
                    attrs.bold = match p.val.as_bool() {
                        Some(b) => b,
                        None => false,
                    };
                } else if str_eq(ks, "strikethrough") {
                    attrs.strikethrough = match p.val.as_bool() {
                        Some(b) => b,
                        None => false,
                    };
                } else if str_eq(ks, "underline") {
                    attrs.underline = match p.val.as_bool() {
                        Some(b) => b,
                        None => false,
                    };
                } else if str_eq(ks, "undercurl") {
                    attrs.undercurl = match p.val.as_bool() {
                        Some(b) => b,
                        None => false,
                    };
                } else if str_eq(ks, "blend") {
                    if let Some(b) = p.val.as_u64() {
                        proof {
                            assert(b & 0xFF <= 0xFF) by (bit_vector);
                        }
                        attrs.blend = Some((b & 0xFF) as u8);
                    }
                }
            },
            _ => {},
        }
        i = i + 1;
    }
    proof {
        assert(map@.take(n as int) =~= map@);
    }
    attrs
}

/// Whether one run of a `grid_line` event has the shape the decoder
/// accepts: an array whose first element is the run's text.
pub open spec fn spec_cell_ok(v: WireValue) -> bool {
    match v {
        WireValue::Arr(ca) => ca@.len() > 0 && ca@[0] is Str,
        _ => false,
    }
}

/// The decoded run a well-shaped wire cell must produce: its text, its
/// optional highlight id, and its repeat count (one when absent).
pub open spec fn spec_cell_matches(v: WireValue, pc: GridCell) -> bool {
    match v {
        WireValue::Arr(ca) => ca@.len() > 0 && match ca@[0] {
            WireValue::Str(s) => {
                &&& pc.text@ == s@
                &&& pc.hl_id == spec_get_u64(ca@, 1)
                &&& pc.repeat == match spec_get_u64(ca@, 2) {
                    Some(rep) => rep,
                    None => 1u64,
                }
            },
            _ => false,
        },
        _ => false,
    }
}

/// Whether a single redraw occurrence has the shape its event name
/// requires, so that decoding succeeds.
pub open spec fn spec_single_event_ok(name: Seq<char>, params: &WireValue) -> bool {
    match *params {
        WireValue::Arr(a) => {
            let s = a@;
            if name == "grid_line"@ {
                &&& spec_get_u64(s, 0) is Some
                &&& spec_get_u64(s, 1) is Some
                &&& spec_get_u64(s, 2) is Some
                &&& s.len() > 3
                &&& match s[3] {
                    WireValue::Arr(cd) => forall|j: int|
                        0 <= j < cd@.len() ==> spec_cell_ok(#[trigger] cd@[j]),
                    _ => false,
                }
            } else if name == "grid_scroll"@ {
                &&& spec_get_u64(s, 0) is Some
                &&& spec_get_i64(s, 1) is Some
                &&& spec_get_i64(s, 2) is Some
                &&& spec_get_i64(s, 3) is Some
                &&& spec_get_i64(s, 4) is Some
                &&& spec_get_i64(s, 5) is Some
            } else if name == "grid_resize"@ {
                &&& spec_get_u64(s, 0) is Some
                &&& spec_get_u64(s, 1) is Some
                &&& spec_get_u64(s, 2) is Some
            } else if name == "grid_clear"@ {
                spec_get_u64(s, 0) is Some
            } else if name == "grid_cursor_goto"@ {
                &&& spec_get_u64(s, 0) is Some
                &&& spec_get_u64(s, 1) is Some
                &&& spec_get_u64(s, 2) is Some
            } else if name == "default_colors_set"@ {
                true
            } else if name == "hl_attr_define"@ {
                spec_get_u64(s, 0) is Some
            } else {
                true
            }
        },
        _ => false,
    }
}

/// The event a well-shaped redraw occurrence must decode to.
pub open spec fn spec_event_matches(name: Seq<char>, params: &WireValue, ev: &RedrawEvent) -> bool {
    match *params {
        WireValue::Arr(a) => {
            let s = a@;
            if name == "grid_line"@ {
                match *ev {
                    RedrawEvent::GridLine { grid, row, col_start, ref cells } => {
                        &&& Some(grid) == spec_get_u64(s, 0)
                        &&& Some(row) == spec_get_u64(s, 1)
                        &&& Some(col_start) == spec_get_u64(s, 2)
                        &&& s.len() > 3
                        &&& match s[3] {
                            WireValue::Arr(cd) => {
                                &&& cells@.len() == cd@.len()
                                &&& forall|j: int|
                                    0 <= j < cd@.len() ==> spec_cell_matches(
                                        #[trigger] cd@[j],
                                        cells@[j],
                                    )
                            },
                            _ => false,
                        }
                    },
                    _ => false,
                }
            } else if name == "grid_scroll"@ {
                match *ev {
                    RedrawEvent::GridScroll { grid, top, bottom, left, right, rows, cols } => {
                        &&& Some(grid) == spec_get_u64(s, 0)
                        &&& Some(top) == spec_get_i64(s, 1)
                        &&& Some(bottom) == spec_get_i64(s, 2)
                        &&& Some(left) == spec_get_i64(s, 3)
                        &&& Some(right) == spec_get_i64(s, 4)
                        &&& Some(rows) == spec_get_i64(s, 5)
                        &&& cols == match spec_get_i64(s, 6) {
                            Some(c) => c,
                            None => 0i64,
                        }
                    },
                    _ => false,
                }
            } else if name == "grid_resize"@ {
                match *ev {
                    RedrawEvent::GridResize { grid, width, height } => {
                        &&& Some(grid) == spec_get_u64(s, 0)
                        &&& Some(width) == spec_get_u64(s, 1)
                        &&& Some(height) == spec_get_u64(s, 2)
                    },
                    _ => false,
                }
            } else if name == "grid_clear"@ {
                match *ev {
                    RedrawEvent::GridClear { grid } => Some(grid) == spec_get_u64(s, 0),
                    _ => false,
                }
            } else if name == "grid_cursor_goto"@ {
                match *ev {
                    RedrawEvent::GridCursorGoto { grid, row, col } => {
                        &&& Some(grid) == spec_get_u64(s, 0)
                        &&& Some(row) == spec_get_u64(s, 1)
                        &&& Some(col) == spec_get_u64(s, 2)
                    },
                    _ => false,
                }
            } else if name == "default_colors_set"@ {
                match *ev {
                    RedrawEvent::DefaultColorsSet { fg, bg, sp } => {
                        &&& fg == match spec_get_i64(s, 0) {
                            Some(c) => Some(spec_color_from_i64(c)),
                            None => None::<Rgb>,
                        }
                        &&& bg == match spec_get_i64(s, 1) {
                            Some(c) => Some(spec_color_from_i64(c)),
                            None => None::<Rgb>,
                        }
                        &&& sp == match spec_get_i64(s, 2) {
                            Some(c) => Some(spec_color_from_i64(c)),
                            None => None::<Rgb>,
                        }
                    },
                    _ => false,
                }
            } else if name == "hl_attr_define"@ {
                match *ev {
                    RedrawEvent::HlAttrDefine { id, attrs } => {
                        &&& Some(id) == spec_get_u64(s, 0)
                        &&& attrs == if s.len() > 1 {
                            match s[1] {
                                WireValue::Pairs(m) => spec_hl_attrs_from(m@),
                                _ => spec_default_attrs(),
                            }
                        } else {
                            spec_default_attrs()
                        }
                    },
                    _ => false,
                }
            } else if name == "flush"@ {
                *ev is Flush
            } else {
                match *ev {
                    RedrawEvent::Other(ref o) => o@ == name,
                    _ => false,
                }
            }
        },
        _ => false,
    }
}

/// Decode the runs of a `grid_line` occurrence: each wire cell becomes a
/// text run with its optional highlight id and repeat count.
fn parse_wire_cells(cells_data: &Vec<WireValue>) -> (r: Result<Vec<GridCell>, String>)
    ensures
        match r {
            Ok(cells) => {
                &&& forall|j: int| 0 <= j < cells_data@.len() ==> spec_cell_ok(
                    #[trigger] cells_data@[j],
                )
                &&& cells@.len() == cells_data@.len()
                &&& forall|j: int|
                    0 <= j < cells_data@.len() ==> spec_cell_matches(
                        #[trigger] cells_data@[j],
                        cells@[j],
                    )
            },
            Err(_) => !(forall|j: int|
                0 <= j < cells_data@.len() ==> spec_cell_ok(#[trigger] cells_data@[j])),
        },
{
    let mut cells: Vec<GridCell> = Vec::new();
    let mut i: usize = 0;
    let n = cells_data.len();
    while i < n
        invariant
            i <= n,
            n == cells_data@.len(),
            cells@.len() == i,
            forall|j: int| 0 <= j < i ==> spec_cell_ok(#[trigger] cells_data@[j]),
            forall|j: int|
                0 <= j < i ==> spec_cell_matches(#[trigger] cells_data@[j], cells@[j]),
        decreases n - i,
    {
        let ca: &Vec<WireValue> = match &cells_data[i] {
            WireValue::Arr(ca) => ca,
            _ => {
                return Err(String::from_str("expected cell array"));
            },
        };
        if ca.len() == 0 {
            return Err(String::from_str("missing cell text"));
        }
        let text: String = match &ca[0] {
            WireValue::Str(s) => String::from_str(s.as_str()),
            _ => {
                return Err(String::from_str("missing cell text"));
            },
        };
        let hl_id = get_u64(ca, 1);
        let repeat = match get_u64(ca, 2) {
            Some(rep) => rep,
            None => 1,
        };
        cells.push(GridCell { text, hl_id, repeat });
        i = i + 1;
    }
    Ok(cells)
}

/// Decode a single redraw occurrence by its event name: the fields are
/// pulled from fixed positions of the parameter array, and a name this
/// client does not interpret is passed through as an opaque event.
pub fn parse_single_event(name: &str, params: &WireValue) -> (r: Result<RedrawEvent, String>)
    ensures
        match r {
            Ok(ev) => spec_single_event_ok(name@, params) && spec_event_matches(
                name@,
                params,
                &ev,
            ),
            Err(_) => !spec_single_event_ok(name@, params),
        },
{
    let a: &Vec<WireValue> = match params {
        WireValue::Arr(a) => a,
        _ => {
            return Err(String::from_str("expected params array"));
        },
    };
    if str_eq(name, "grid_line") {
        let grid = match get_u64(a, 0) {
            Some(v) => v,
            None => {
                return Err(String::from_str("missing grid"));
            },
        };
        let row = match get_u64(a, 1) {
            Some(v) => v,
            None => {
                return Err(String::from_str("missing row"));
            },
        };
        let col_start = match get_u64(a, 2) {
            Some(v) => v,
            None => {
                return Err(String::from_str("missing col_start"));
            },
        };
        if a.len() <= 3 {
            return Err(String::from_str("missing cells"));
        }
        let cells_data: &Vec<WireValue> = match &a[3] {
            WireValue::Arr(cd) => cd,
            _ => {
                return Err(String::from_str("missing cells"));
            },
        };
        match parse_wire_cells(cells_data) {
            Ok(cells) => Ok(RedrawEvent::GridLine { grid, row, col_start, cells }),
            Err(e) => Err(e),
        }
    } else if str_eq(name, "grid_scroll") {
        let grid = match get_u64(a, 0) {
            Some(v) => v,
            None => {
                return Err(String::from_str("missing grid"));
            },
        };
        let top = match get_i64(a, 1) {
            Some(v) => v,
            None => {
                return Err(String::from_str("missing top"));
            },
        };
        let bottom = match get_i64(a, 2) {
            Some(v) => v,
            None => {
                return Err(String::from_str("missing bottom"));
            },
        };
        let left = match get_i64(a, 3) {
            Some(v) => v,
            None => {
                return Err(String::from_str("missing left"));
            },
        };
        let right = match get_i64(a, 4) {
            Some(v) => v,
            None => {
                return Err(String::from_str("missing right"));
            },
        };
        let rows = match get_i64(a, 5) {
            Some(v) => v,
            None => {
                return Err(String::from_str("missing rows"));
            },
        };
        let cols = match get_i64(a, 6) {
            Some(v) => v,
            None => 0,
        };
        Ok(RedrawEvent::GridScroll { grid, top, bottom, left, right, rows, cols })
    } else if str_eq(name, "grid_resize") {
        let grid = match get_u64(a, 0) {
            Some(v) => v,
            None => {
                return Err(String::from_str("missing grid"));
            },
        };
        let width = match get_u64(a, 1) {
            Some(v) => v,
            None => {
                return Err(String::from_str("missing width"));
            },
        };
        let height = match get_u64(a, 2) {
            Some(v) => v,
            None => {
                return Err(String::from_str("missing height"));
            },
        };
        Ok(RedrawEvent::GridResize { grid, width, height })
    } else if str_eq(name, "grid_clear") {
        let grid = match get_u64(a, 0) {
            Some(v) => v,
            None => {
                return Err(String::from_str("missing grid"));
            },
        };
        Ok(RedrawEvent::GridClear { grid })
    } else if str_eq(name, "grid_cursor_goto") {
        let grid = match get_u64(a, 0) {
            Some(v) => v,
            None => {
                return Err(String::from_str("missing grid"));
            },
        };
        let row = match get_u64(a, 1) {
            Some(v) => v,
            None => {
                return Err(String::from_str("missing row"));
            },
        };
        let col = match get_u64(a, 2) {
            Some(v) => v,
            None => {
                return Err(String::from_str("missing col"));
            },
        };
        Ok(RedrawEvent::GridCursorGoto { grid, row, col })
    } else if str_eq(name, "default_colors_set") {
        let fg = match get_i64(a, 0) {
            Some(c) => Some(color_from_i64(c)),
            None => None,
        };
        let bg = match get_i64(a, 1) {
            Some(c) => Some(color_from_i64(c)),
            None => None,
        };
        let sp = match get_i64(a, 2) {
            Some(c) => Some(color_from_i64(c)),
            None => None,
        };
        Ok(RedrawEvent::DefaultColorsSet { fg, bg, sp })
    } else if str_eq(name, "hl_attr_define") {
        let id = match get_u64(a, 0) {
            Some(v) => v,
            None => {
                return Err(String::from_str("missing id"));
            },
        };
        let attrs = if a.len() > 1 {
            match &a[1] {
                WireValue::Pairs(m) => parse_highlight_attrs(m),
                _ => HighlightAttrs::default(),
            }
        } else {
            HighlightAttrs::default()
        };
        Ok(RedrawEvent::HlAttrDefine { id, attrs })
    } else if str_eq(name, "flush") {
        Ok(RedrawEvent::Flush)
    } else {
        Ok(RedrawEvent::Other(String::from_str(name)))
    }
}

/// Whether a wire value is the array `s`.
pub open spec fn spec_is_arr_with(v: &WireValue, s: Seq<WireValue>) -> bool {
    match *v {
        WireValue::Arr(a) => a@ == s,
        _ => false,
    }
}

/// Whether one redraw batch has the right shape: an array whose first
/// element, when the batch is not empty, names the event.
pub open spec fn spec_batch_shape_ok(b: WireValue) -> bool {
    match b {
        WireValue::Arr(ba) => ba@.len() == 0 || ba@[0] is Str,
        _ => false,
    }
}

/// Whether a whole redraw payload can be walked: an array of well-shaped
/// batches.
pub open spec fn spec_redraw_ok(params: &WireValue) -> bool {
    match *params {
        WireValue::Arr(batches) => forall|i: int|
            0 <= i < batches@.len() ==> spec_batch_shape_ok(#[trigger] batches@[i]),
        _ => false,
    }
}

/// The events one batch contributes: each occurrence that decodes becomes
/// one event, in order, and a malformed occurrence is dropped without
/// aborting the rest of the batch.
pub open spec fn spec_batch_matches(
    name: Seq<char>,
    occs: Seq<WireValue>,
    out: Seq<RedrawEvent>,
) -> bool
    decreases occs.len(),
{
    if occs.len() == 0 {
        out.len() == 0
    } else {
        if spec_single_event_ok(name, &occs.last()) {
            &&& out.len() > 0
            &&& spec_event_matches(name, &occs.last(), &out.last())
            &&& spec_batch_matches(name, occs.drop_last(), out.drop_last())
        } else {
            spec_batch_matches(name, occs.drop_last(), out)
        }
    }
}

/// The events a full redraw payload decodes to: every batch's contribution
/// concatenated in payload order.
pub open spec fn spec_redraw_matches(batches: Seq<WireValue>, out: Seq<RedrawEvent>) -> bool
    decreases batches.len(),
{
    if batches.len() == 0 {
        out.len() == 0
    } else {
        match batches.last() {
            WireValue::Arr(ba) => {
                if ba@.len() == 0 {
                    spec_redraw_matches(batches.drop_last(), out)
                } else {
                    match ba@[0] {
                        WireValue::Str(s) => exists|k: int|
                            {
                                &&& 0 <= k <= out.len()
                                &&& #[trigger] spec_batch_matches(s@, ba@.skip(1), out.skip(k))
                                &&& spec_redraw_matches(batches.drop_last(), out.take(k))
                            },
                        _ => false,
                    }
                }
            },
            _ => false,
        }
    }
}

/// Decode a redraw payload: an ordered sequence of batches, each batch an
/// event name followed by one parameter array per occurrence. A malformed
/// batch aborts the walk; a malformed occurrence is dropped and the rest of
/// its batch survives.
pub fn parse_redraw_events(params: &WireValue) -> (r: Result<Vec<RedrawEvent>, String>)
    ensures
        match r {
            Ok(events) => spec_redraw_ok(params) && match *params {
                WireValue::Arr(batches) => spec_redraw_matches(batches@, events@),
                _ => false,
            },
            Err(_) => !spec_redraw_ok(params),
        },
{
    let batches: &Vec<WireValue> = match params {
        WireValue::Arr(b) => b,
        _ => {
            return Err(String::from_str("expected array"));
        },
    };
    let mut events: Vec<RedrawEvent> = Vec::new();
    let mut bi: usize = 0;
    let nb = batches.len();
    while bi < nb
        invariant
            bi <= nb,
            nb == batches@.len(),
            spec_is_arr_with(params, batches@),
            forall|j: int| 0 <= j < bi ==> spec_batch_shape_ok(#[trigger] batches@[j]),
            spec_redraw_matches(batches@.take(bi as int), events@),
        decreases nb - bi,
    {
        proof {
            assert(batches@.take(bi + 1).drop_last() =~= batches@.take(bi as int));
            assert(batches@.take(bi + 1).last() == batches@[bi as int]);
        }
        let ba: &Vec<WireValue> = match &batches[bi] {
            WireValue::Arr(ba) => ba,
            _ => {
                return Err(String::from_str("expected event batch array"));
            },
        };
        if ba.len() == 0 {
            bi = bi + 1;
            continue ;
        }
        let name: &str = match &ba[0] {
            WireValue::Str(s) => s.as_str(),
            _ => {
                return Err(String::from_str("expected event name"));
            },
        };
        let ghost k0 = events@.len() as int;
        let ghost evs0 = events@;
        let mut oi: usize = 1;
        let no = ba.len();
        while oi < no
            invariant
                1 <= oi <= no,
                no == ba@.len(),
                events@.len() >= k0,
                k0 == evs0.len(),
                events@.take(k0) == evs0,
                spec_batch_matches(name@, ba@.subrange(1, oi as int), events@.skip(k0)),
            decreases no - oi,
        {
            proof {
                assert(ba@.subrange(1, oi + 1).drop_last() =~= ba@.subrange(1, oi as int));
                assert(ba@.subrange(1, oi + 1).last() == ba@[oi as int]);
            }
            let ghost pre = events@;
            match parse_single_event(name, &ba[oi]) {
                Ok(event) => {
                    events.push(event);
                    proof {
                        assert(events@.skip(k0) =~= pre.skip(k0).push(events@.last()));
                        assert(events@.skip(k0).drop_last() =~= pre.skip(k0));
                        assert(events@.take(k0) =~= evs0);
                    }
                },
                Err(_) => {},
            }
            oi = oi + 1;
        }
        proof {
            assert(ba@.subrange(1, no as int) =~= ba@.skip(1));
            assert(spec_batch_matches(name@, ba@.skip(1), events@.skip(k0)));
            assert(events@.take(k0) == evs0);
            assert(spec_redraw_matches(batches@.take(bi + 1), events@));
        }
        bi = bi + 1;
    }
    proof {
        assert(batches@.take(nb as int) =~= batches@);
    }
    Ok(events)
}

/// Classify a notification: the UI-update channel's payload is decoded into
/// redraw events; a notification on any other channel is passed through as
/// a single opaque event rather than terminating the session.
pub fn parse_notification(method: &str, params: &WireValue) -> (r: Result<NvimEvent, String>)
    ensures
        method@ == "redraw"@ ==> match r {
            Ok(ev) => match ev {
                NvimEvent::Redraw(events) => spec_redraw_ok(params) && match *params {
                    WireValue::Arr(batches) => spec_redraw_matches(batches@, events@),
                    _ => false,
                },
                _ => false,
            },
            Err(_) => !spec_redraw_ok(params),
        },
        method@ != "redraw"@ ==> match r {
            Ok(ev) => match ev {
                NvimEvent::Redraw(events) => events@.len() == 1 && match events@[0] {
                    RedrawEvent::Other(o) => o@ == method@,
                    _ => false,
                },
                _ => false,
            },
            Err(_) => false,
        },
{
    if str_eq(method, "redraw") {
        match parse_redraw_events(params) {
            Ok(events) => Ok(NvimEvent::Redraw(events)),
            Err(e) => Err(e),
        }
    } else {
        let mut events: Vec<RedrawEvent> = Vec::new();
        events.push(RedrawEvent::Other(String::from_str(method)));
        Ok(NvimEvent::Redraw(events))
    }
}

} // verus!
