//! Keyboard events turned into the editor's bracketed key notation.
//!
//! The windowing layer hands this module plain key events (pressed state,
//! logical or physical key, modifier flags); the functions here turn them
//! into the editor's input strings, such as `<C-c>` or `<Esc>`.

use vstd::prelude::*;

verus! {

/// The named (non-character) keys this client understands.
#[derive(Debug, Clone, Copy, PartialEq, Eq, Structural)]
pub enum NamedKey {
    Enter,
    Escape,
    Backspace,
    Tab,
    Space,
    ArrowUp,
    ArrowDown,
    ArrowLeft,
    ArrowRight,
    Home,
    End,
    PageUp,
    PageDown,
    Insert,
    Delete,
    F1,
    F2,
    F3,
    F4,
    F5,
    F6,
    F7,
    F8,
    F9,
    F10,
    F11,
    F12,
    /// Any other named key; it produces no input.
    OtherNamed,
}

/// A logical key: a named key, a character, or something else entirely.
#[derive(Debug)]
pub enum LogicalKey {
    Named(NamedKey),
    Character(String),
    Other,
}

/// A keyboard event: whether the key went down, and which key.
#[derive(Debug)]
pub struct KeyPress {
    pub pressed: bool,
    pub key: LogicalKey,
}

/// Modifier flags held during a key event.
#[derive(Debug, Clone, Copy, PartialEq, Eq, Structural)]
pub struct Modifiers {
    pub ctrl: bool,
    pub shift: bool,
    pub alt: bool,
    pub logo: bool,
}

/// The editor's name for a named key, or nothing for a key that produces no
/// input.
pub open spec fn spec_named_key(k: NamedKey) -> Option<Seq<char>> {
    match k {
        NamedKey::Enter => Some("CR"@),
        NamedKey::Escape => Some("Esc"@),
        NamedKey::Backspace => Some("BS"@),
        NamedKey::Tab => Some("Tab"@),
        NamedKey::Space => Some("Space"@),
        NamedKey::ArrowUp => Some("Up"@),
        NamedKey::ArrowDown => Some("Down"@),
        NamedKey::ArrowLeft => Some("Left"@),
        NamedKey::ArrowRight => Some("Right"@),
        NamedKey::Home => Some("Home"@),
        NamedKey::End => Some("End"@),
        NamedKey::PageUp => Some("PageUp"@),
        NamedKey::PageDown => Some("PageDown"@),
        NamedKey::Insert => Some("Insert"@),
        NamedKey::Delete => Some("Del"@),
        NamedKey::F1 => Some("F1"@),
        NamedKey::F2 => Some("F2"@),
        NamedKey::F3 => Some("F3"@),
        NamedKey::F4 => Some("F4"@),
        NamedKey::F5 => Some("F5"@),
        NamedKey::F6 => Some("F6"@),
        NamedKey::F7 => Some("F7"@),
        NamedKey::F8 => Some("F8"@),
        NamedKey::F9 => Some("F9"@),
        NamedKey::F10 => Some("F10"@),
        NamedKey::F11 => Some("F11"@),
        NamedKey::F12 => Some("F12"@),
        NamedKey::OtherNamed => None,
    }
}

/// The modifier prefix written before a key name: control, shift (unless
/// suppressed, as it is for tab), alt, then the super key.
pub open spec fn spec_mod_prefix(mods: Modifiers, suppress_shift: bool) -> Seq<char> {
    (if mods.ctrl {
        "C-"@
    } else {
        Seq::empty()
    }) + (if mods.shift && !suppress_shift {
        "S-"@
    } else {
        Seq::empty()
    }) + (if mods.alt {
        "A-"@
    } else {
        Seq::empty()
    }) + (if mods.logo {
        "D-"@
    } else {
        Seq::empty()
    })
}

/// Whether a character is an ASCII letter.
pub open spec fn spec_is_ascii_alpha(c: char) -> bool {
    65 <= c as int <= 90 || 97 <= c as int <= 122
}

/// An ASCII letter lowercased, as a one-character string.
pub open spec fn spec_lower_str(c: char) -> Seq<char> {
    match c {
        'a' | 'A' => "a"@,
        'b' | 'B' => "b"@,
        'c' | 'C' => "c"@,
        'd' | 'D' => "d"@,
        'e' | 'E' => "e"@,
        'f' | 'F' => "f"@,
        'g' | 'G' => "g"@,
        'h' | 'H' => "h"@,
        'i' | 'I' => "i"@,
        'j' | 'J' => "j"@,
        'k' | 'K' => "k"@,
        'l' | 'L' => "l"@,
        'm' | 'M' => "m"@,
        'n' | 'N' => "n"@,
        'o' | 'O' => "o"@,
        'p' | 'P' => "p"@,
        'q' | 'Q' => "q"@,
        'r' | 'R' => "r"@,
        's' | 'S' => "s"@,
        't' | 'T' => "t"@,
        'u' | 'U' => "u"@,
        'v' | 'V' => "v"@,
        'w' | 'W' => "w"@,
        'x' | 'X' => "x"@,
        'y' | 'Y' => "y"@,
        'z' | 'Z' => "z"@,
        _ => Seq::empty(),
    }
}

/// Whether a key event produces any input at all.
pub open spec fn spec_key_input_defined(event: &KeyPress, mods: Modifiers) -> bool {
    &&& event.pressed
    &&& match event.key {
        LogicalKey::Named(k) => spec_named_key(k) is Some,
        LogicalKey::Character(c) => if mods.ctrl {
            c@.len() > 0
        } else if mods.alt || mods.logo {
            true
        } else {
            c@.len() > 0
        },
        LogicalKey::Other => false,
    }
}

/// What the produced input must read, when the event produces one.
pub open spec fn spec_key_text(event: &KeyPress, mods: Modifiers) -> Seq<char> {
    match event.key {
        LogicalKey::Named(k) => "<"@ + spec_mod_prefix(mods, k is Tab) + spec_named_key(k)->0
            + ">"@,
        LogicalKey::Character(c) => if mods.ctrl {
            if spec_is_ascii_alpha(c@[0]) {
                "<C-"@ + spec_lower_str(c@[0]) + ">"@
            } else if c@[0] == ' ' {
                "<C-Space>"@
            } else {
                "<C-"@ + c@ + ">"@
            }
        } else if mods.alt {
            "<A-"@ + c@ + ">"@
        } else if mods.logo {
            "<D-"@ + c@ + ">"@
        } else {
            c@
        },
        LogicalKey::Other => Seq::empty(),
    }
}

/// The editor's name for a named key.
fn named_key_str(k: &NamedKey) -> (r: Option<&'static str>)
    ensures
        match r {
            Some(nm) => spec_named_key(*k) == Some(nm@),
            None => spec_named_key(*k) is None,
        },
{
    match k {
        NamedKey::Enter => Some("CR"),
        NamedKey::Escape => Some("Esc"),
        NamedKey::Backspace => Some("BS"),
        NamedKey::Tab => Some("Tab"),
        NamedKey::Space => Some("Space"),
        NamedKey::ArrowUp => Some("Up"),
        NamedKey::ArrowDown => Some("Down"),
        NamedKey::ArrowLeft => Some("Left"),
        NamedKey::ArrowRight => Some("Right"),
        NamedKey::Home => Some("Home"),
        NamedKey::End => Some("End"),
        NamedKey::PageUp => Some("PageUp"),
        NamedKey::PageDown => Some("PageDown"),
        NamedKey::Insert => Some("Insert"),
        NamedKey::Delete => Some("Del"),
        NamedKey::F1 => Some("F1"),
        NamedKey::F2 => Some("F2"),
        NamedKey::F3 => Some("F3"),
        NamedKey::F4 => Some("F4"),
        NamedKey::F5 => Some("F5"),
        NamedKey::F6 => Some("F6"),
        NamedKey::F7 => Some("F7"),
        NamedKey::F8 => Some("F8"),
        NamedKey::F9 => Some("F9"),
        NamedKey::F10 => Some("F10"),
        NamedKey::F11 => Some("F11"),
        NamedKey::F12 => Some("F12"),
        NamedKey::OtherNamed => None,
    }
}

/// An ASCII letter lowercased, as a one-character string.
fn lower_str(c: char) -> (r: &'static str)
    requires
        spec_is_ascii_alpha(c),
    ensures
        r@ == spec_lower_str(c),
{
    match c {
        'a' | 'A' => "a",
        'b' | 'B' => "b",
        'c' | 'C' => "c",
        'd' | 'D' => "d",
        'e' | 'E' => "e",
        'f' | 'F' => "f",
        'g' | 'G' => "g",
        'h' | 'H' => "h",
        'i' | 'I' => "i",
        'j' | 'J' => "j",
        'k' | 'K' => "k",
        'l' | 'L' => "l",
        'm' | 'M' => "m",
        'n' | 'N' => "n",
        'o' | 'O' => "o",
        'p' | 'P' => "p",
        'q' | 'Q' => "q",
        'r' | 'R' => "r",
        's' | 'S' => "s",
        't' | 'T' => "t",
        'u' | 'U' => "u",
        'v' | 'V' => "v",
        'w' | 'W' => "w",
        'x' | 'X' => "x",
        'y' | 'Y' => "y",
        'z' | 'Z' => "z",
        _ => "",
    }
}

/// Translate a keyboard event into the editor's input notation: a pressed
/// named key becomes its bracketed name with a modifier prefix, a character
/// becomes itself (or a control chord), and anything else produces nothing.
pub fn key_to_nvim_input(event: &KeyPress, mods: Modifiers) -> (r: Option<String>)
    ensures
        match r {
            Some(s) => spec_key_input_defined(event, mods) && s@ == spec_key_text(event, mods),
            None => !spec_key_input_defined(event, mods),
        },
{
    if !event.pressed {
        return None;
    }
    match &event.key {
        LogicalKey::Named(named) => {
            match named_key_str(named) {
                Some(nm) => {
                    let mut s = String::new();
                    s.append("<");
                    if mods.ctrl {
                        s.append("C-");
                    }
                    let is_tab = matches!(named, NamedKey::Tab);
                    if mods.shift && !is_tab {
                        s.append("S-");
                    }
                    if mods.alt {
                        s.append("A-");
                    }
                    if mods.logo {
                        s.append("D-");
                    }
                    s.append(nm);
                    s.append(">");
                    proof {
                        assert(s@ =~= spec_key_text(event, mods));
                    }
                    Some(s)
                },
                None => None,
            }
        },
        LogicalKey::Character(c) => {
            let cs: &str = c.as_str();
            if mods.ctrl {
                if cs.unicode_len() == 0 {
                    return None;
                }
                let first = cs.get_char(0);
                let u = crate::grid::char_code(first);
                let mut s = String::new();
                if (65 <= u && u <= 90) || (97 <= u && u <= 122) {
                    s.append("<C-");
                    s.append(lower_str(first));
                    s.append(">");
                } else if first == ' ' {
                    s.append("<C-Space>");
                } else {
                    s.append("<C-");
                    s.append(cs);
                    s.append(">");
                }
                proof {
                    assert(s@ =~= spec_key_text(event, mods));
                }
                Some(s)
            } else if mods.alt {
                let mut s = String::new();
                s.append("<A-");
                s.append(cs);
                s.append(">");
                proof {
                    assert(s@ =~= spec_key_text(event, mods));
                }
                Some(s)
            } else if mods.logo {
                let mut s = String::new();
                s.append("<D-");
                s.append(cs);
                s.append(">");
                proof {
                    assert(s@ =~= spec_key_text(event, mods));
                }
                Some(s)
            } else {
                if cs.unicode_len() == 0 {
                    return None;
                }
                Some(String::from_str(cs))
            }
        },
        LogicalKey::Other => None,
    }
}

/// The physical key codes the fallback path handles.
#[derive(Debug, Clone, Copy, PartialEq, Eq, Structural)]
pub enum PhysicalKey {
    Enter,
    NumpadEnter,
    Escape,
    Backspace,
    Tab,
    Space,
    /// Any other physical key; the fallback produces no input.
    OtherCode,
    /// A key the platform reports without a code at all.
    Unidentified,
}

/// The editor's name for a physical key on the fallback path.
pub open spec fn spec_physical_key(k: PhysicalKey) -> Option<Seq<char>> {
    match k {
        PhysicalKey::Enter | PhysicalKey::NumpadEnter => Some("CR"@),
        PhysicalKey::Escape => Some("Esc"@),
        PhysicalKey::Backspace => Some("BS"@),
        PhysicalKey::Tab => Some("Tab"@),
        PhysicalKey::Space => Some("Space"@),
        PhysicalKey::OtherCode | PhysicalKey::Unidentified => None,
    }
}

/// The modifier prefix on the fallback path: control, shift, alt.
pub open spec fn spec_phys_mod_prefix(mods: Modifiers) -> Seq<char> {
    (if mods.ctrl {
        "C-"@
    } else {
        Seq::empty()
    }) + (if mods.shift {
        "S-"@
    } else {
        Seq::empty()
    }) + (if mods.alt {
        "A-"@
    } else {
        Seq::empty()
    })
}

/// The fallback path from a physical key code, for keys the platform
/// reports without a usable logical key.
pub fn physical_key_to_nvim_input(key_code: PhysicalKey, mods: Modifiers) -> (r: Option<String>)
    ensures
        match r {
            Some(s) => spec_physical_key(key_code) is Some && s@ == "<"@ + spec_phys_mod_prefix(
                mods,
            ) + spec_physical_key(key_code)->0 + ">"@,
            None => spec_physical_key(key_code) is None,
        },
{
    let name: Option<&'static str> = match key_code {
        PhysicalKey::Enter | PhysicalKey::NumpadEnter => Some("CR"),
        PhysicalKey::Escape => Some("Esc"),
        PhysicalKey::Backspace => Some("BS"),
        PhysicalKey::Tab => Some("Tab"),
        PhysicalKey::Space => Some("Space"),
        PhysicalKey::OtherCode | PhysicalKey::Unidentified => None,
    };
    match name {
        Some(nm) => {
            let mut s = String::new();
            s.append("<");
            if mods.ctrl {
                s.append("C-");
            }
            if mods.shift {
                s.append("S-");
            }
            if mods.alt {
                s.append("A-");
            }
            s.append(nm);
            s.append(">");
            proof {
                assert(s@ =~= "<"@ + spec_phys_mod_prefix(mods) + spec_physical_key(
                    key_code,
                )->0 + ">"@);
            }
            Some(s)
        },
        None => None,
    }
}

} // verus!
