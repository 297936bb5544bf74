//! Render-ready pieces of text, each tagged with the part it plays.

use vstd::prelude::*;
use vstd::string::*;

verus! {

/// The part a piece of text plays on screen; the presentation layer picks a
/// style for each.
#[derive(Clone, Copy, Debug, PartialEq, Eq, Hash, Structural)]
pub enum Role {
    Plain,
    Delimiter,
    Time,
    Username,
    Message,
    Caret,
}

/// A piece of text with its role.
#[derive(Debug, PartialEq, Eq)]
pub struct Span {
    pub text: String,
    pub role: Role,
}

/// What a span is, as a specification value.
pub struct SpanView {
    pub text: Seq<char>,
    pub role: Role,
}

impl View for Span {
    type V = SpanView;

    open spec fn view(&self) -> SpanView {
        SpanView { text: self.text@, role: self.role }
    }
}

/// The views of a sequence of spans.
pub open spec fn spans_view(spans: Seq<Span>) -> Seq<SpanView> {
    Seq::new(spans.len(), |i: int| spans[i]@)
}

/// The views of the lines of a rendering.
pub open spec fn lines_of_spans(lines: Seq<Vec<Span>>) -> Seq<Seq<SpanView>> {
    Seq::new(lines.len(), |i: int| spans_view(lines[i]@))
}

impl Span {
    /// A span of `text` in the given role.
    pub fn new(text: String, role: Role) -> (out: Span)
        ensures
            out@ == (SpanView { text: text@, role }),
    {
        Span { text, role }
    }
}

/// `s` followed by as many blanks as it takes to reach `width` characters;
/// `s` itself where it is that long already.
pub open spec fn padded(s: Seq<char>, width: nat) -> Seq<char> {
    if s.len() >= width {
        s
    } else {
        s + Seq::new((width - s.len()) as nat, |i: int| ' ')
    }
}

/// Fills `s` with blanks up to `width` characters.
pub fn pad(s: String, width: usize) -> (out: String)
    ensures
        out@ == padded(s@, width as nat),
{
    let mut out = s;
    let mut n = out.as_str().unicode_len();
    let ghost start = n;
    while n < width
        invariant
            start == s@.len(),
            start <= n,
            n == start || n <= width,
            n == out@.len(),
            out@ == s@ + Seq::new((n - start) as nat, |i: int| ' '),
        decreases width - n,
    {
        out.push(' ');
        n = n + 1;
    }
    out
}

} // verus!
