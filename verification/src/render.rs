//! Renderable cells: the position, glyph, colours and style flags handed to
//! the GPU text renderer, and the construction of cell runs for strings.

use vstd::prelude::*;

use crate::color::Rgb;

verus! {

/// Style flags of a renderable cell.
#[derive(Debug, Clone, Copy, PartialEq, Eq, Structural)]
pub struct CellFlags {
    pub bold: bool,
    pub italic: bool,
    pub underline: bool,
    /// The glyph spans two columns; the following column holds its spacer.
    pub wide_char: bool,
}

/// One cell as the GPU renderer consumes it.
#[derive(Debug, Clone, Copy, PartialEq, Eq, Structural)]
pub struct RenderableCell {
    pub line: usize,
    pub column: usize,
    pub character: char,
    pub flags: CellFlags,
    pub fg: Rgb,
    pub bg: Rgb,
    /// The underline colour (the cell's special colour).
    pub underline: Rgb,
}

/// A renderer initialisation error.
#[derive(Debug)]
pub enum Error {
    /// A shader failed to build; the message describes which and why.
    Shader(String),
    /// Any other initialisation failure.
    Other(String),
}

impl Error {
    /// The error rendered as a message.
    pub fn message(&self) -> (r: String)
        ensures
            match *self {
                Error::Shader(ref e) => r@ == "There was an error initializing the shaders: "@
                    + e@,
                Error::Other(ref e) => r@ == e@,
            },
    {
        match self {
            Error::Shader(e) => {
                let mut s = String::from_str("There was an error initializing the shaders: ");
                s.append(e.as_str());
                s
            },
            Error::Other(e) => String::from_str(e.as_str()),
        }
    }
}

impl From<String> for Error {
    /// A bare message is an ordinary initialisation failure.
    fn from(val: String) -> (r: Self)
        ensures
            r == Error::Other(val),
    {
        Error::Other(val)
    }
}

impl vstd::std_specs::convert::FromSpecImpl<String> for Error {
    open spec fn obeys_from_spec() -> bool {
        true
    }

    open spec fn from_spec(v: String) -> Self {
        Error::Other(v)
    }
}

/// The displayed width in columns of a character, or nothing for a control
/// character; a function of the character alone.
pub uninterp spec fn char_display_width(c: char) -> Option<usize>;

/// Relies on unicode-width's `UnicodeWidthChar::width`: the character's
/// displayed width in columns per Unicode Standard Annex 11, `None` for a
/// control character; it depends on the character alone.
#[verifier::external_body]
fn char_width(c: char) -> (r: Option<usize>)
    ensures
        r == char_display_width(c),
{
    unicode_width::UnicodeWidthChar::width(c)
}

/// The cells of a string drawn at a fixed location: `acc` holds the cells
/// already produced for positions before `i`, and `spacer` says whether the
/// previous glyph was wide (so position `i` is its spacer and gets no cell
/// of its own).
pub open spec fn spec_string_cells(
    acc: Seq<RenderableCell>,
    line: int,
    column: int,
    fg: Rgb,
    bg: Rgb,
    s: Seq<char>,
    i: int,
    spacer: bool,
) -> Seq<RenderableCell>
    decreases s.len() - i when 0 <= i <= s.len()
{
    if i >= s.len() {
        acc
    } else if spacer {
        spec_string_cells(acc, line, column, fg, bg, s, i + 1, false)
    } else {
        let wide = char_display_width(s[i]) == Some(2usize);
        let cell = RenderableCell {
            line: line as usize,
            column: (column + i) as usize,
            character: s[i],
            flags: CellFlags { bold: false, italic: false, underline: false, wide_char: wide },
            fg,
            bg,
            underline: fg,
        };
        spec_string_cells(acc.push(cell), line, column, fg, bg, s, i + 1, wide)
    }
}

/// Build the renderable cells for a string at a variable location, as used
/// for printing messages: each glyph lands one column further, a wide glyph
/// is flagged and the column after it is left to its spacer.
pub fn string_cells(line: usize, column: usize, fg: Rgb, bg: Rgb, chars: &Vec<char>) -> (r: Vec<
    RenderableCell,
>)
    requires
        column + chars@.len() <= usize::MAX,
    ensures
        r@ == spec_string_cells(
            Seq::empty(),
            line as int,
            column as int,
            fg,
            bg,
            chars@,
            0,
            false,
        ),
{
    let mut out: Vec<RenderableCell> = Vec::new();
    let mut spacer = false;
    let mut i: usize = 0;
    let n = chars.len();
    proof {
        assert(out@ =~= Seq::<RenderableCell>::empty());
    }
    while i < n
        invariant
            i <= n,
            n == chars@.len(),
            column + n <= usize::MAX,
            spec_string_cells(Seq::empty(), line as int, column as int, fg, bg, chars@, 0, false)
                == spec_string_cells(
                out@,
                line as int,
                column as int,
                fg,
                bg,
                chars@,
                i as int,
                spacer,
            ),
        decreases n - i,
    {
        let ch = chars[i];
        if spacer {
            spacer = false;
        } else {
            let wide = match char_width(ch) {
                Some(w) => w == 2,
                None => false,
            };
            let cellv = RenderableCell {
                line,
                column: column + i,
                character: ch,
                flags: CellFlags { bold: false, italic: false, underline: false, wide_char: wide },
                fg,
                bg,
                underline: fg,
            };
            out.push(cellv);
            spacer = wide;
        }
        i = i + 1;
    }
    out
}

} // verus!
