//! The color-aware writer: an output buffer that wraps text in ANSI escape
//! sequences only when the destination permits them.

use vstd::prelude::*;

verus! {

/// The ANSI colors this renderer uses.
#[derive(Clone, Copy, PartialEq, Eq, Structural, Debug)]
pub enum Color {
    Red,
    Green,
    Yellow,
    Blue,
    Magenta,
    Cyan,
    Gray,
}

/// The escape sequence that switches the terminal to the given color.
pub open spec fn spec_color_code(c: Color) -> Seq<char> {
    match c {
        Color::Red => "\u{1b}[31m"@,
        Color::Green => "\u{1b}[32m"@,
        Color::Yellow => "\u{1b}[33m"@,
        Color::Blue => "\u{1b}[0;34m"@,
        Color::Magenta => "\u{1b}[35m"@,
        Color::Cyan => "\u{1b}[36m"@,
        Color::Gray => "\u{1b}[37m"@,
    }
}

/// The escape sequence that returns the terminal to its default color.
pub open spec fn spec_reset_code() -> Seq<char> {
    "\u{1b}[0m"@
}

/// The color code when ANSI is permitted, nothing otherwise.
pub open spec fn spec_set(ansi: bool, c: Color) -> Seq<char> {
    if ansi {
        spec_color_code(c)
    } else {
        Seq::<char>::empty()
    }
}

/// The reset code when ANSI is permitted, nothing otherwise.
pub open spec fn spec_reset(ansi: bool) -> Seq<char> {
    if ansi {
        spec_reset_code()
    } else {
        Seq::<char>::empty()
    }
}

/// Text wrapped in a color code and a reset when ANSI is permitted, the bare
/// text otherwise.
pub open spec fn spec_colored(ansi: bool, c: Color, s: Seq<char>) -> Seq<char> {
    if ansi {
        spec_color_code(c) + s + spec_reset_code()
    } else {
        s
    }
}

/// Whether a piece of text contains no ANSI escape character at all.
pub open spec fn esc_free(s: Seq<char>) -> bool {
    forall|i: int| 0 <= i < s.len() ==> s[i] != '\u{1b}'
}

pub proof fn lemma_esc_free_singleton(c: char)
    requires
        c != '\u{1b}',
    ensures
        esc_free(seq![c]),
{
    assert(seq![c].len() == 1);
    assert(seq![c][0] == c);
}

pub proof fn lemma_esc_free_concat(a: Seq<char>, b: Seq<char>)
    requires
        esc_free(a),
        esc_free(b),
    ensures
        esc_free(a + b),
{
    assert forall|i: int| 0 <= i < (a + b).len() implies (a + b)[i] != '\u{1b}' by {
        if i < a.len() {
            assert((a + b)[i] == a[i]);
        } else {
            assert((a + b)[i] == b[i - a.len()]);
        }
    }
}

pub fn color_code(c: Color) -> (r: &'static str)
    ensures
        r@ == spec_color_code(c),
{
    match c {
        Color::Red => "\u{1b}[31m",
        Color::Green => "\u{1b}[32m",
        Color::Yellow => "\u{1b}[33m",
        Color::Blue => "\u{1b}[0;34m",
        Color::Magenta => "\u{1b}[35m",
        Color::Cyan => "\u{1b}[36m",
        Color::Gray => "\u{1b}[37m",
    }
}

pub fn reset_code() -> (r: &'static str)
    ensures
        r@ == spec_reset_code(),
{
    "\u{1b}[0m"
}

/// A decorator over an output buffer. `ansi` reports whether the destination
/// of the buffered text permits ANSI escape sequences; it is decided upstream,
/// when the writer is made, and never changes afterwards.
pub struct ColorWriter {
    pub buf: String,
    pub ansi: bool,
}

impl ColorWriter {
    pub fn new(ansi: bool) -> (r: ColorWriter)
        ensures
            r.buf@ == Seq::<char>::empty(),
            r.ansi == ansi,
    {
        ColorWriter { buf: String::new(), ansi }
    }

    /// Appends the text as it stands, colored or not.
    pub fn write_str(&mut self, s: &str)
        ensures
            final(self).buf@ == old(self).buf@ + s@,
            final(self).ansi == old(self).ansi,
    {
        self.buf.append(s);
    }

    /// Switches to the given color iff ANSI is permitted; otherwise a no-op.
    pub fn set_color(&mut self, c: Color)
        ensures
            final(self).buf@ == old(self).buf@ + spec_set(old(self).ansi, c),
            final(self).ansi == old(self).ansi,
    {
        if self.ansi {
            let code = color_code(c);
            self.buf.append(code);
        }
    }

    /// Returns to the default color iff ANSI is permitted; otherwise a no-op.
    pub fn reset_color(&mut self)
        ensures
            final(self).buf@ == old(self).buf@ + spec_reset(old(self).ansi),
            final(self).ansi == old(self).ansi,
    {
        if self.ansi {
            let code = reset_code();
            self.buf.append(code);
        }
    }

    /// Appends code + content + reset as one unit when ANSI is permitted,
    /// the content alone otherwise.
    pub fn write_with_color(&mut self, content: &str, c: Color)
        ensures
            final(self).buf@ == old(self).buf@ + spec_colored(old(self).ansi, c, content@),
            final(self).ansi == old(self).ansi,
    {
        if self.ansi {
            let code = color_code(c);
            self.buf.append(code);
            self.buf.append(content);
            let reset = reset_code();
            self.buf.append(reset);
        } else {
            self.buf.append(content);
        }
    }
}

} // verus!
