//! The multi-line text buffer and its 2D caret.

use crate::command::CaretMotion;
use crate::style::{spans_view, Role, Span, SpanView};
use crate::views::lines_view;
use vstd::prelude::*;
use vstd::string::*;

verus! {

/// `String::push` of the standard library: the character is appended and
/// nothing else changes.
pub assume_specification[ String::push ](s: &mut String, ch: char)
    ensures
        final(s)@ == old(s)@.push(ch),
;

/// `x` brought into the range from `lo` to `hi`.
pub open spec fn clamp(x: int, lo: int, hi: int) -> int {
    if x < lo {
        lo
    } else if x > hi {
        hi
    } else {
        x
    }
}

/// The buffer as a mathematical value: its lines and the 1-based caret.
pub struct TextModel {
    pub lines: Seq<Seq<char>>,
    pub row: int,
    pub col: int,
}

impl TextModel {
    /// There is at least one line, the caret's row names a line, and its
    /// column lies on that line or just past its end.
    pub open spec fn wf(self) -> bool {
        &&& self.lines.len() >= 1
        &&& 1 <= self.row <= self.lines.len()
        &&& 1 <= self.col <= self.lines[self.row - 1].len() + 1
    }

    /// One empty line with the caret at its start.
    pub open spec fn blank() -> TextModel {
        TextModel { lines: seq![Seq::<char>::empty()], row: 1, col: 1 }
    }

    /// The line the caret is on.
    pub open spec fn line(self) -> Seq<char> {
        self.lines[self.row - 1]
    }

    /// The part of the caret's line before the caret.
    pub open spec fn before_caret(self) -> Seq<char> {
        self.line().take(self.col - 1)
    }

    /// The part of the caret's line from the caret on.
    pub open spec fn after_caret(self) -> Seq<char> {
        self.line().skip(self.col - 1)
    }

    /// The buffer with the caret's line replaced.
    pub open spec fn with_line(self, line: Seq<char>, col: int) -> TextModel {
        TextModel { lines: self.lines.update(self.row - 1, line), row: self.row, col }
    }

    /// `c` inserted at the caret; the caret moves one column right.
    pub open spec fn capture(self, c: char) -> TextModel {
        self.with_line(self.line().insert(self.col - 1, c), self.col + 1)
    }

    /// Whether one more character fits on the caret's line: the column past
    /// the end of the longer line has to be a `usize` still.
    pub open spec fn has_room(self) -> bool {
        self.line().len() + 1 < usize::MAX
    }

    /// `c` typed at the caret: inserted where it fits, dropped where the
    /// line is as long as lines can get.
    pub open spec fn typed(self, c: char) -> TextModel {
        if self.has_room() {
            self.capture(c)
        } else {
            self
        }
    }

    /// A negative `offset` removes the character before the caret and moves
    /// the caret one column left; any other removes the character at the
    /// caret. Where there is no such character nothing changes.
    pub open spec fn delete(self, offset: int) -> TextModel {
        if offset < 0 {
            if self.col > 1 {
                self.with_line(self.line().remove(self.col - 2), self.col - 1)
            } else {
                self
            }
        } else {
            if self.col <= self.line().len() {
                self.with_line(self.line().remove(self.col - 1), self.col)
            } else {
                self
            }
        }
    }

    /// The caret put at `row`, `col`: the row is clamped to the lines there
    /// are, the column to the line the caret then is on.
    pub open spec fn place(self, row: int, col: int) -> TextModel {
        let r = clamp(row, 1, self.lines.len() as int);
        let c = clamp(col, 1, self.lines[r - 1].len() as int + 1);
        TextModel { lines: self.lines, row: r, col: c }
    }

    /// The caret moved by `amount` along `motion`: the target is no less
    /// than zero and is then clamped as `place` does.
    pub open spec fn move_caret(self, motion: CaretMotion, amount: int) -> TextModel {
        match motion {
            CaretMotion::Character => self.place(
                self.row,
                if self.col + amount < 0 {
                    0
                } else {
                    self.col + amount
                },
            ),
            CaretMotion::Line => self.place(
                if self.row + amount < 0 {
                    0
                } else {
                    self.row + amount
                },
                self.col,
            ),
        }
    }

    /// All lines joined, in order, with nothing between them.
    pub open spec fn text(self) -> Seq<char> {
        self.lines.flatten()
    }

    /// The character under the caret, or a blank at the end of the line.
    pub open spec fn caret_text(self) -> Seq<char> {
        if self.after_caret().len() == 0 {
            seq![' ']
        } else {
            self.after_caret().take(1)
        }
    }

    /// What follows the character under the caret on its line.
    pub open spec fn caret_rest(self) -> Seq<char> {
        if self.after_caret().len() == 0 {
            Seq::empty()
        } else {
            self.after_caret().skip(1)
        }
    }

    /// The buffer cut into the pieces that are drawn: the lines above the
    /// caret's (left out where they hold nothing), the caret's line up to the
    /// caret, the character under the caret, the rest of the line, and the
    /// lines below.
    pub open spec fn styled(self) -> Seq<SpanView> {
        let above = self.lines.take(self.row - 1).flatten();
        let tail = seq![
            SpanView { text: self.before_caret(), role: Role::Plain },
            SpanView { text: self.caret_text(), role: Role::Caret },
            SpanView { text: self.caret_rest(), role: Role::Plain },
            SpanView { text: self.lines.skip(self.row).flatten(), role: Role::Plain },
        ];
        if above.len() > 0 {
            seq![SpanView { text: above, role: Role::Plain }] + tail
        } else {
            tail
        }
    }
}

/// A non-empty sequence of lines with a caret that is always in bounds.
#[derive(Debug)]
pub struct TextBuffer {
    lines: Vec<String>,
    row: usize,
    col: usize,
}

impl View for TextBuffer {
    type V = TextModel;

    closed spec fn view(&self) -> TextModel {
        TextModel { lines: lines_view(self.lines@), row: self.row as int, col: self.col as int }
    }
}

impl TextBuffer {
    /// The invariant of the type: the model is well formed and every line
    /// is short enough for the column past its end to be a `usize`.
    #[verifier::type_invariant]
    pub closed spec fn inv(self) -> bool {
        &&& self@.wf()
        &&& forall|i: int| 0 <= i < self.lines@.len() ==> (#[trigger] self.lines@[i])@.len() < usize::MAX
    }

    /// What the invariant of the type says of the model.
    pub proof fn lemma_inv(self)
        requires
            self.inv(),
        ensures
            self@.wf(),
    {
    }

    /// A buffer of one empty line, the caret at (1, 1).
    pub fn new() -> (out: TextBuffer)
        ensures
            out@ == TextModel::blank(),
    {
        let mut lines: Vec<String> = Vec::new();
        lines.push(String::new());
        let out = TextBuffer { lines, row: 1, col: 1 };
        assert(out@.lines =~= TextModel::blank().lines);
        out
    }

    /// A buffer of the given lines with the caret at (1, 1); `None` where
    /// there is no line, or a line is too long for the column past its end
    /// to be a `usize`.
    pub fn from_lines(lines: Vec<String>) -> (out: Option<TextBuffer>)
        ensures
            out is Some <==> lines@.len() >= 1 && forall|i: int|
                0 <= i < lines@.len() ==> (#[trigger] lines@[i])@.len() < usize::MAX,
            out matches Some(b) ==> b@ == (TextModel { lines: lines_view(lines@), row: 1, col: 1 }),
    {
        if lines.len() == 0 {
            return None;
        }
        let mut i: usize = 0;
        while i < lines.len()
            invariant
                i <= lines@.len(),
                forall|j: int| 0 <= j < i ==> (#[trigger] lines@[j])@.len() < usize::MAX,
            decreases lines@.len() - i,
        {
            let n = lines[i].as_str().unicode_len();
            if n == usize::MAX {
                return None;
            }
            i = i + 1;
        }
        Some(TextBuffer { lines, row: 1, col: 1 })
    }

    /// Takes the buffer apart and leaves a blank one in its place.
    fn take(&mut self) -> (out: (Vec<String>, usize, usize))
        ensures
            out.0 == old(self).lines,
            out.1 == old(self).row,
            out.2 == old(self).col,
            final(self)@ == TextModel::blank(),
    {
        let mut parted = TextBuffer::new();
        std::mem::swap(self, &mut parted);
        (parted.lines, parted.row, parted.col)
    }

    /// The number of lines.
    pub fn line_count(&self) -> (out: usize)
        ensures
            out == self@.lines.len(),
            out >= 1,
    {
        proof {
            use_type_invariant(self);
        }
        self.lines.len()
    }

    /// The lines of the buffer.
    pub fn lines(&self) -> (out: &Vec<String>)
        ensures
            lines_view(out@) == self@.lines,
    {
        &self.lines
    }

    /// Puts the caret at `row`, `col`, clamped into the buffer.
    pub fn set_caret_2d(&mut self, row: usize, col: usize)
        ensures
            final(self)@ == old(self)@.place(row as int, col as int),
            final(self)@.wf(),
    {
        proof {
            use_type_invariant(&*self);
        }
        let (lines, _, _) = self.take();
        let r = if row < 1 {
            1
        } else if row > lines.len() {
            lines.len()
        } else {
            row
        };
        let n = lines[r - 1].as_str().unicode_len();
        let c = if col < 1 {
            1
        } else if col > n {
            n + 1
        } else {
            col
        };
        *self = TextBuffer { lines, row: r, col: c };
    }

    /// Moves the caret by `amount` columns or rows.
    pub fn move_caret(&mut self, motion: CaretMotion, amount: isize)
        ensures
            final(self)@ == old(self)@.move_caret(motion, amount as int),
            final(self)@.wf(),
    {
        proof {
            use_type_invariant(&*self);
        }
        match motion {
            CaretMotion::Character => {
                let target = shifted(self.col, amount);
                self.set_caret_2d(self.row, target);
            },
            CaretMotion::Line => {
                let target = shifted(self.row, amount);
                assert(self.lines.len() == self@.lines.len());
                self.set_caret_2d(target, self.col);
            },
        }
    }

    /// Inserts `c` at the caret and moves the caret past it. A line that is
    /// as long as lines can get stays as it is.
    pub fn capture(&mut self, c: char)
        ensures
            final(self)@ == old(self)@.typed(c),
            final(self)@.wf(),
    {
        proof {
            use_type_invariant(&*self);
        }
        let (mut lines, row, col) = self.take();
        let i = row - 1;
        let n = lines[i].as_str().unicode_len();
        if n < usize::MAX - 1 {
            let line = lines[i].as_str();
            let mut out = line.substring_char(0, col - 1).to_owned();
            out.push(c);
            out.append(line.substring_char(col - 1, n));
            lines.set(i, out);
            *self = TextBuffer { lines, row, col: col + 1 };
            assert(self@.lines =~= old(self)@.typed(c).lines);
        } else {
            *self = TextBuffer { lines, row, col };
        }
    }

    /// Removes the character before the caret (`offset < 0`) or at it.
    pub fn delete(&mut self, offset: isize)
        ensures
            final(self)@ == old(self)@.delete(offset as int),
            final(self)@.wf(),
    {
        proof {
            use_type_invariant(&*self);
        }
        let (mut lines, row, col) = self.take();
        let i = row - 1;
        let n = lines[i].as_str().unicode_len();
        if offset < 0 && col > 1 {
            let line = lines[i].as_str();
            let mut out = line.substring_char(0, col - 2).to_owned();
            out.append(line.substring_char(col - 1, n));
            lines.set(i, out);
            *self = TextBuffer { lines, row, col: col - 1 };
            assert(self@.lines =~= old(self)@.delete(offset as int).lines);
        } else if offset >= 0 && col <= n {
            let line = lines[i].as_str();
            let mut out = line.substring_char(0, col - 1).to_owned();
            out.append(line.substring_char(col, n));
            lines.set(i, out);
            *self = TextBuffer { lines, row, col };
            assert(self@.lines =~= old(self)@.delete(offset as int).lines);
        } else {
            *self = TextBuffer { lines, row, col };
        }
    }

    /// Empties the buffer: one empty line, the caret at (1, 1).
    pub fn reset(&mut self)
        ensures
            final(self)@ == TextModel::blank(),
    {
        *self = TextBuffer::new();
    }

    /// The caret's line cut in two at the caret.
    pub fn split_current_at_caret(&self) -> (out: (String, String))
        ensures
            out.0@ == self@.before_caret(),
            out.1@ == self@.after_caret(),
    {
        proof {
            use_type_invariant(self);
        }
        let line = self.lines[self.row - 1].as_str();
        let n = line.unicode_len();
        let pre = line.substring_char(0, self.col - 1).to_owned();
        let post = line.substring_char(self.col - 1, n).to_owned();
        (pre, post)
    }

    /// All lines joined into one string.
    pub fn render_buf(&self) -> (out: String)
        ensures
            out@ == self@.text(),
    {
        let out = join(&self.lines, 0, self.lines.len());
        assert(lines_view(self.lines@).subrange(0, self.lines@.len() as int) =~= self@.lines);
        out
    }

    /// The buffer cut into the pieces that are drawn, the character under
    /// the caret in a span of its own.
    pub fn render_buf_styled(&self) -> (out: Vec<Span>)
        ensures
            spans_view(out@) == self@.styled(),
    {
        proof {
            use_type_invariant(self);
        }
        let mut out: Vec<Span> = Vec::new();
        let above = join(&self.lines, 0, self.row - 1);
        if above.as_str().unicode_len() > 0 {
            out.push(Span::new(above, Role::Plain));
        }
        let line = self.lines[self.row - 1].as_str();
        let n = line.unicode_len();
        let at = self.col - 1;
        out.push(Span::new(line.substring_char(0, at).to_owned(), Role::Plain));
        if at < n {
            out.push(Span::new(line.substring_char(at, at + 1).to_owned(), Role::Caret));
            out.push(Span::new(line.substring_char(at + 1, n).to_owned(), Role::Plain));
            assert(line@.subrange(at as int, at + 1) =~= self@.caret_text());
            assert(line@.subrange(at + 1, n as int) =~= self@.caret_rest());
        } else {
            let mut blank = String::new();
            blank.push(' ');
            out.push(Span::new(blank, Role::Caret));
            out.push(Span::new(String::new(), Role::Plain));
        }
        let below = join(&self.lines, self.row, self.lines.len());
        out.push(Span::new(below, Role::Plain));
        out
    }

    /// The caret as (row, column), both counted from 1.
    pub fn get_caret_2d(&self) -> (out: (usize, usize))
        ensures
            out.0 == self@.row,
            out.1 == self@.col,
            self@.wf(),
    {
        proof {
            use_type_invariant(self);
        }
        (self.row, self.col)
    }
}

/// Whatever is typed or deleted, and wherever the caret is moved or put,
/// the buffer keeps a line and the caret stays in bounds.
pub proof fn law_edits_keep_caret_in_bounds(
    m: TextModel,
    c: char,
    offset: int,
    motion: CaretMotion,
    amount: int,
    row: int,
    col: int,
)
    requires
        m.wf(),
    ensures
        m.capture(c).wf(),
        m.typed(c).wf(),
        m.delete(offset).wf(),
        m.move_caret(motion, amount).wf(),
        m.place(row, col).wf(),
{
}

/// Inserting a character and then deleting backwards gives back the buffer
/// as it was: every line, and the caret's row and column.
pub proof fn law_capture_then_delete_back(m: TextModel, c: char, offset: int)
    requires
        m.wf(),
        offset < 0,
    ensures
        m.capture(c).delete(offset) == m,
{
    let line = m.line();
    assert(line.insert(m.col - 1, c).remove(m.col - 1) =~= line);
    assert(m.capture(c).delete(offset).lines =~= m.lines);
}

/// Inserting a character and then deleting forwards keeps the inserted
/// character: the caret stands past it, so what goes is the character that
/// followed the caret before, if there was one.
pub proof fn law_capture_then_delete_forward(m: TextModel, c: char, offset: int)
    requires
        m.wf(),
        offset >= 0,
    ensures
        m.capture(c).delete(offset).col == m.col + 1,
        m.capture(c).delete(offset).line() == m.delete(offset).line().insert(m.col - 1, c),
{
    let line = m.line();
    if m.col <= line.len() {
    }
}

/// `at` moved by `amount`, no lower than zero and no higher than the largest
/// `usize`.
pub open spec fn shifted_to(at: int, amount: int) -> int {
    clamp(at + amount, 0, usize::MAX as int)
}

/// Moves the position `at` by `amount` without leaving the range of `usize`.
pub fn shifted(at: usize, amount: isize) -> (out: usize)
    ensures
        out == shifted_to(at as int, amount as int),
{
    if amount >= 0 {
        let a = amount as usize;
        if a > usize::MAX - at {
            usize::MAX
        } else {
            at + a
        }
    } else {
        let back = (-(amount + 1)) as usize;
        if back >= at {
            0
        } else {
            at - back - 1
        }
    }
}

/// The lines from `from` up to `to` joined into one string.
fn join(lines: &Vec<String>, from: usize, to: usize) -> (out: String)
    requires
        from <= to <= lines@.len(),
    ensures
        out@ == lines_view(lines@).subrange(from as int, to as int).flatten(),
{
    let mut out = String::new();
    let mut i = from;
    let ghost all = lines_view(lines@);
    while i < to
        invariant
            from <= i <= to <= lines@.len(),
            all == lines_view(lines@),
            out@ == all.subrange(from as int, i as int).flatten(),
        decreases to - i,
    {
        out.append(lines[i].as_str());
        proof {
            let done = all.subrange(from as int, i as int);
            assert(all.subrange(from as int, i + 1) =~= done.push(all[i as int]));
            done.lemma_flatten_push(all[i as int]);
        }
        i = i + 1;
    }
    out
}

} // verus!
