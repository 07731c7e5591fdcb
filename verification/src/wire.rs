//! The wire protocol's value model and the outgoing request encoder.
//!
//! The editor speaks a self-describing binary format over its pipe. This
//! module models one decoded wire value as a plain recursive enum; the
//! unverified shell converts between this model and the binary codec's own
//! value type at the pipe boundary. Envelope classification and construction
//! are verified here.

use vstd::prelude::*;

use crate::protocol::{NvimEvent, NvimRequest, NvimResponse, RedrawEvent};

verus! {

/// One self-describing wire value.
///
/// Integers keep the codec's split between non-negative and negative
/// representations; values the client never reads (floats, binary, extension
/// payloads) are carried as `Opaque`.
#[derive(Debug)]
pub enum WireValue {
    Nil,
    Bool(bool),
    /// A non-negative integer.
    UInt(u64),
    /// An integer carried in signed representation.
    Int(i64),
    Str(String),
    Arr(Vec<WireValue>),
    /// A map, as the ordered list of its key/value pairs.
    Pairs(Vec<WirePair>),
    /// A value of a kind this client never interprets.
    Opaque,
}

/// One key/value entry of a wire map.
#[derive(Debug)]
pub struct WirePair {
    pub key: WireValue,
    pub val: WireValue,
}

/// What reading a wire value as an unsigned integer yields: any integer
/// representation whose value is non-negative.
pub open spec fn spec_as_u64(v: WireValue) -> Option<u64> {
    match v {
        WireValue::UInt(u) => Some(u),
        WireValue::Int(i) => if i >= 0 {
            Some(i as u64)
        } else {
            None
        },
        _ => None,
    }
}

/// What reading a wire value as a signed integer yields: any integer
/// representation whose value fits in `i64`.
pub open spec fn spec_as_i64(v: WireValue) -> Option<i64> {
    match v {
        WireValue::Int(i) => Some(i),
        WireValue::UInt(u) => if u <= i64::MAX as u64 {
            Some(u as i64)
        } else {
            None
        },
        _ => None,
    }
}

/// Whether a wire value is a boolean, and which.
pub open spec fn spec_as_bool(v: WireValue) -> Option<bool> {
    match v {
        WireValue::Bool(b) => Some(b),
        _ => None,
    }
}

/// The element of a wire array read as an unsigned integer, or nothing
/// when the index is out of range or the element is no such integer.
pub open spec fn spec_get_u64(a: Seq<WireValue>, i: int) -> Option<u64> {
    if 0 <= i < a.len() {
        spec_as_u64(a[i])
    } else {
        None
    }
}

/// The element of a wire array read as a signed integer.
pub open spec fn spec_get_i64(a: Seq<WireValue>, i: int) -> Option<i64> {
    if 0 <= i < a.len() {
        spec_as_i64(a[i])
    } else {
        None
    }
}

/// Read an array element as an unsigned integer, as the codec would.
pub fn get_u64(a: &Vec<WireValue>, i: usize) -> (r: Option<u64>)
    ensures
        r == spec_get_u64(a@, i as int),
{
    if i < a.len() {
        a[i].as_u64()
    } else {
        None
    }
}

/// Read an array element as a signed integer, as the codec would.
pub fn get_i64(a: &Vec<WireValue>, i: usize) -> (r: Option<i64>)
    ensures
        r == spec_get_i64(a@, i as int),
{
    if i < a.len() {
        a[i].as_i64()
    } else {
        None
    }
}

impl WireValue {
    /// Read this value as an unsigned integer, as the codec would.
    pub fn as_u64(&self) -> (r: Option<u64>)
        ensures
            r == spec_as_u64(*self),
    {
        match self {
            WireValue::UInt(u) => Some(*u),
            WireValue::Int(i) => {
                if *i >= 0 {
                    Some(*i as u64)
                } else {
                    None
                }
            },
            _ => None,
        }
    }

    /// Read this value as a signed integer, as the codec would.
    pub fn as_i64(&self) -> (r: Option<i64>)
        ensures
            r == spec_as_i64(*self),
    {
        match self {
            WireValue::Int(i) => Some(*i),
            WireValue::UInt(u) => {
                if *u <= i64::MAX as u64 {
                    Some(*u as i64)
                } else {
                    None
                }
            },
            _ => None,
        }
    }

    /// Read this value as a boolean, as the codec would.
    pub fn as_bool(&self) -> (r: Option<bool>)
        ensures
            r == spec_as_bool(*self),
    {
        match self {
            WireValue::Bool(b) => Some(*b),
            _ => None,
        }
    }
}

/// Whether a wire value is a sound protocol envelope: a non-empty array
/// whose discriminant is a known message type, long enough for that type,
/// with a string method on a notification whose redraw payload (if it is
/// one) can be walked.
pub open spec fn spec_message_ok(v: &WireValue) -> bool {
    match *v {
        WireValue::Arr(a) => {
            let s = a@;
            s.len() > 0 && match spec_as_u64(s[0]) {
                Some(2u64) => s.len() >= 3 && match s[1] {
                    WireValue::Str(m) => m@ == "redraw"@
                        ==> crate::protocol::spec_redraw_ok(&s[2]),
                    _ => false,
                },
                Some(1u64) => s.len() >= 3,
                Some(0u64) => s.len() >= 3,
                _ => false,
            }
        },
        _ => false,
    }
}

/// The event a sound envelope must classify to.
pub open spec fn spec_message_matches(v: &WireValue, ev: &NvimEvent) -> bool {
    match *v {
        WireValue::Arr(a) => {
            let s = a@;
            s.len() > 0 && match spec_as_u64(s[0]) {
                Some(2u64) => s.len() >= 3 && match s[1] {
                    WireValue::Str(m) => if m@ == "redraw"@ {
                        match *ev {
                            NvimEvent::Redraw(events) => match s[2] {
                                WireValue::Arr(batches) => crate::protocol::spec_redraw_matches(
                                    batches@,
                                    events@,
                                ),
                                _ => false,
                            },
                            _ => false,
                        }
                    } else {
                        match *ev {
                            NvimEvent::Redraw(events) => events@.len() == 1 && match events@[0] {
                                RedrawEvent::Other(o) => o@ == m@,
                                _ => false,
                            },
                            _ => false,
                        }
                    },
                    _ => false,
                },
                Some(1u64) => s.len() >= 3 && match *ev {
                    NvimEvent::Response(resp) => {
                        &&& resp.id == match spec_as_u64(s[1]) {
                            Some(i) => i,
                            None => 0u64,
                        }
                        &&& resp.error == s[2]
                        &&& resp.result == if s.len() >= 4 {
                            Some(s[3])
                        } else {
                            None::<WireValue>
                        }
                    },
                    _ => false,
                },
                Some(0u64) => s.len() >= 3 && match *ev {
                    NvimEvent::Request(req) => {
                        &&& req.id == match spec_as_u64(s[1]) {
                            Some(i) => i,
                            None => 0u64,
                        }
                        &&& req.method@ == match s[2] {
                            WireValue::Str(m) => m@,
                            _ => Seq::<char>::empty(),
                        }
                        &&& req.params == if s.len() >= 4 {
                            s[3]
                        } else {
                            WireValue::Nil
                        }
                    },
                    _ => false,
                },
                _ => false,
            }
        },
        _ => false,
    }
}

/// Classify one decoded wire value by its leading discriminant into a
/// request, a response or a notification; a malformed envelope is a
/// session-fatal error.
pub fn parse_message(value: WireValue) -> (r: Result<NvimEvent, String>)
    ensures
        match r {
            Ok(ev) => spec_message_ok(&value) && spec_message_matches(&value, &ev),
            Err(_) => !spec_message_ok(&value),
        },
{
    let mut a: Vec<WireValue> = match value {
        WireValue::Arr(a) => a,
        _ => {
            return Err(String::from_str("expected array"));
        },
    };
    if a.len() == 0 {
        return Err(String::from_str("empty message array"));
    }
    let msg_type = match a[0].as_u64() {
        Some(t) => t,
        None => {
            return Err(String::from_str("invalid message type"));
        },
    };
    if msg_type == 2 {
        if a.len() < 3 {
            return Err(String::from_str("invalid notification format"));
        }
        let method: String = match &a[1] {
            WireValue::Str(m) => String::from_str(m.as_str()),
            _ => {
                return Err(String::from_str("invalid method name"));
            },
        };
        crate::protocol::parse_notification(method.as_str(), &a[2])
    } else if msg_type == 1 {
        if a.len() < 3 {
            return Err(String::from_str("invalid response format"));
        }
        let id = match a[1].as_u64() {
            Some(i) => i,
            None => 0,
        };
        let result = if a.len() >= 4 {
            Some(a.remove(3))
        } else {
            None
        };
        let error = a.remove(2);
        Ok(NvimEvent::Response(NvimResponse { id, error, result }))
    } else if msg_type == 0 {
        if a.len() < 3 {
            return Err(String::from_str("invalid request format"));
        }
        let id = match a[1].as_u64() {
            Some(i) => i,
            None => 0,
        };
        let method: String = match &a[2] {
            WireValue::Str(m) => String::from_str(m.as_str()),
            _ => String::new(),
        };
        let params = if a.len() >= 4 {
            a.remove(3)
        } else {
            WireValue::Nil
        };
        Ok(NvimEvent::Request(NvimRequest { id, method, params }))
    } else {
        Err(String::from_str("unknown message type"))
    }
}

/// Whether a wire value is the request envelope `[0, id, method, [arg]]`
/// with a single string argument.
pub open spec fn spec_str_arg_request(
    v: &WireValue,
    id: u64,
    method: Seq<char>,
    arg: Seq<char>,
) -> bool {
    match *v {
        WireValue::Arr(items) => {
            let s = items@;
            &&& s.len() == 4
            &&& s[0] == WireValue::UInt(0u64)
            &&& s[1] == WireValue::UInt(id)
            &&& match s[2] {
                WireValue::Str(m) => m@ == method,
                _ => false,
            }
            &&& match s[3] {
                WireValue::Arr(args) => args@.len() == 1 && match args@[0] {
                    WireValue::Str(t) => t@ == arg,
                    _ => false,
                },
                _ => false,
            }
        },
        _ => false,
    }
}

/// Whether a wire value is the UI attach envelope: size arguments with two
/// extra buffer rows, plus the capability map (true colour on, the
/// line-grid extension on, the multigrid extension off).
pub open spec fn spec_attach_request(v: &WireValue, id: u64, width: u64, height: u64) -> bool {
    match *v {
        WireValue::Arr(items) => {
            let s = items@;
            &&& s.len() == 4
            &&& s[0] == WireValue::UInt(0u64)
            &&& s[1] == WireValue::UInt(id)
            &&& match s[2] {
                WireValue::Str(m) => m@ == "nvim_ui_attach"@,
                _ => false,
            }
            &&& match s[3] {
                WireValue::Arr(args) => {
                    let ar = args@;
                    &&& ar.len() == 3
                    &&& ar[0] == WireValue::UInt(width)
                    &&& ar[1] == WireValue::UInt((height + 2) as u64)
                    &&& match ar[2] {
                        WireValue::Pairs(opts) => {
                            let os = opts@;
                            &&& os.len() == 3
                            &&& match os[0].key {
                                WireValue::Str(k) => k@ == "rgb"@,
                                _ => false,
                            }
                            &&& os[0].val == WireValue::Bool(true)
                            &&& match os[1].key {
                                WireValue::Str(k) => k@ == "ext_linegrid"@,
                                _ => false,
                            }
                            &&& os[1].val == WireValue::Bool(true)
                            &&& match os[2].key {
                                WireValue::Str(k) => k@ == "ext_multigrid"@,
                                _ => false,
                            }
                            &&& os[2].val == WireValue::Bool(false)
                        },
                        _ => false,
                    }
                },
                _ => false,
            }
        },
        _ => false,
    }
}

/// Whether a wire value is a UI resize envelope: the new width, and the
/// height with two extra buffer rows.
pub open spec fn spec_resize_request(v: &WireValue, id: u64, width: u64, height: u64) -> bool {
    match *v {
        WireValue::Arr(items) => {
            let s = items@;
            &&& s.len() == 4
            &&& s[0] == WireValue::UInt(0u64)
            &&& s[1] == WireValue::UInt(id)
            &&& match s[2] {
                WireValue::Str(m) => m@ == "nvim_ui_try_resize"@,
                _ => false,
            }
            &&& match s[3] {
                WireValue::Arr(args) => args@.len() == 2 && args@[0] == WireValue::UInt(width)
                    && args@[1] == WireValue::UInt((height + 2) as u64),
                _ => false,
            }
        },
        _ => false,
    }
}

/// The outgoing side of the codec: every call takes the next request id,
/// so ids are strictly increasing per session and never reused.
pub struct RequestEncoder {
    next_request_id: u64,
}

impl RequestEncoder {
    /// The id the next request will carry.
    pub closed spec fn spec_next_id(&self) -> u64 {
        self.next_request_id
    }

    /// A fresh encoder; ids start at one.
    pub fn new() -> (r: RequestEncoder)
        ensures
            r.spec_next_id() == 1,
    {
        RequestEncoder { next_request_id: 1 }
    }

    /// Build a request envelope with one string argument.
    fn str_arg_request(&mut self, method: &str, arg: &str) -> (r: (u64, WireValue))
        requires
            old(self).spec_next_id() < u64::MAX,
        ensures
            final(self).spec_next_id() == old(self).spec_next_id() + 1,
            r.0 == old(self).spec_next_id(),
            spec_str_arg_request(&r.1, r.0, method@, arg@),
    {
        let id = self.next_request_id;
        self.next_request_id = self.next_request_id + 1;
        let mut args: Vec<WireValue> = Vec::new();
        args.push(WireValue::Str(String::from_str(arg)));
        let mut items: Vec<WireValue> = Vec::new();
        items.push(WireValue::UInt(0));
        items.push(WireValue::UInt(id));
        items.push(WireValue::Str(String::from_str(method)));
        items.push(WireValue::Arr(args));
        (id, WireValue::Arr(items))
    }

    /// The UI attach request: terminal size (plus two pre-rendered buffer
    /// rows) and the capability map.
    pub fn attach_ui_request(&mut self, width: u64, height: u64) -> (r: (u64, WireValue))
        requires
            old(self).spec_next_id() < u64::MAX,
            height <= u64::MAX - 2,
        ensures
            final(self).spec_next_id() == old(self).spec_next_id() + 1,
            r.0 == old(self).spec_next_id(),
            spec_attach_request(&r.1, r.0, width, height),
    {
        let id = self.next_request_id;
        self.next_request_id = self.next_request_id + 1;
        let mut opts: Vec<WirePair> = Vec::new();
        opts.push(
            WirePair { key: WireValue::Str(String::from_str("rgb")), val: WireValue::Bool(true) },
        );
        opts.push(
            WirePair {
                key: WireValue::Str(String::from_str("ext_linegrid")),
                val: WireValue::Bool(true),
            },
        );
        opts.push(
            WirePair {
                key: WireValue::Str(String::from_str("ext_multigrid")),
                val: WireValue::Bool(false),
            },
        );
        let mut args: Vec<WireValue> = Vec::new();
        args.push(WireValue::UInt(width));
        args.push(WireValue::UInt(height + 2));
        args.push(WireValue::Pairs(opts));
        let mut items: Vec<WireValue> = Vec::new();
        items.push(WireValue::UInt(0));
        items.push(WireValue::UInt(id));
        items.push(WireValue::Str(String::from_str("nvim_ui_attach")));
        items.push(WireValue::Arr(args));
        (id, WireValue::Arr(items))
    }

    /// A `nvim_command` request.
    pub fn command_request(&mut self, command: &str) -> (r: (u64, WireValue))
        requires
            old(self).spec_next_id() < u64::MAX,
        ensures
            final(self).spec_next_id() == old(self).spec_next_id() + 1,
            r.0 == old(self).spec_next_id(),
            spec_str_arg_request(&r.1, r.0, "nvim_command"@, command@),
    {
        self.str_arg_request("nvim_command", command)
    }

    /// A `nvim_input` request carrying raw input.
    pub fn input_request(&mut self, input: &str) -> (r: (u64, WireValue))
        requires
            old(self).spec_next_id() < u64::MAX,
        ensures
            final(self).spec_next_id() == old(self).spec_next_id() + 1,
            r.0 == old(self).spec_next_id(),
            spec_str_arg_request(&r.1, r.0, "nvim_input"@, input@),
    {
        self.str_arg_request("nvim_input", input)
    }

    /// A `nvim_eval` request; the caller correlates the response by the
    /// returned id.
    pub fn eval_expr_request(&mut self, expr: &str) -> (r: (u64, WireValue))
        requires
            old(self).spec_next_id() < u64::MAX,
        ensures
            final(self).spec_next_id() == old(self).spec_next_id() + 1,
            r.0 == old(self).spec_next_id(),
            spec_str_arg_request(&r.1, r.0, "nvim_eval"@, expr@),
    {
        self.str_arg_request("nvim_eval", expr)
    }

    /// A UI resize request, keeping the two extra buffer rows.
    pub fn resize_request(&mut self, width: u64, height: u64) -> (r: (u64, WireValue))
        requires
            old(self).spec_next_id() < u64::MAX,
            height <= u64::MAX - 2,
        ensures
            final(self).spec_next_id() == old(self).spec_next_id() + 1,
            r.0 == old(self).spec_next_id(),
            spec_resize_request(&r.1, r.0, width, height),
    {
        let id = self.next_request_id;
        self.next_request_id = self.next_request_id + 1;
        let mut args: Vec<WireValue> = Vec::new();
        args.push(WireValue::UInt(width));
        args.push(WireValue::UInt(height + 2));
        let mut items: Vec<WireValue> = Vec::new();
        items.push(WireValue::UInt(0));
        items.push(WireValue::UInt(id));
        items.push(WireValue::Str(String::from_str("nvim_ui_try_resize")));
        items.push(WireValue::Arr(args));
        (id, WireValue::Arr(items))
    }
}

} // verus!
