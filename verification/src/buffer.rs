//! The text buffer: lines of characters and a cursor. It always holds at
//! least one line, and the cursor always names a place in it.

use crate::motion::{move_from, target, Motion};
use crate::text::{
    copy_lines, end_of_text, extract_range, in_bounds, insert_text, range_ok, range_text,
    remove_range, view_lines, with_text, without_range, Point, Pos,
};
use vstd::prelude::*;

verus! {

/// What a buffer holds: its lines and the place of its cursor.
pub struct TextModel {
    pub lines: Seq<Seq<char>>,
    pub cursor: Point,
}

/// The column at which a cursor rests outside of insertion: `p` itself,
/// unless it stands past the last character of a line that is not empty;
/// then the column of that last character.
pub open spec fn rest_point(lines: Seq<Seq<char>>, p: Point) -> Point {
    if lines[p.line].len() > 0 && p.col >= lines[p.line].len() {
        Point { line: p.line, col: lines[p.line].len() - 1 }
    } else {
        p
    }
}

/// `p` stands on a character of its line, or at column 0 of an empty line.
pub open spec fn at_rest(lines: Seq<Seq<char>>, p: Point) -> bool {
    &&& in_bounds(lines, p)
    &&& (p.col < lines[p.line].len() || p.col == 0)
}

/// `lines` with the lines of `text` put in below line `row`.
pub open spec fn with_lines_below(lines: Seq<Seq<char>>, row: int, text: Seq<Seq<char>>) -> Seq<
    Seq<char>,
> {
    lines.subrange(0, row + 1) + text + lines.subrange(row + 1, lines.len() as int)
}

impl TextModel {
    /// There is at least one line and the cursor names a place in the lines.
    pub open spec fn wf(self) -> bool {
        in_bounds(self.lines, self.cursor)
    }

    /// The same lines with the cursor at `p`.
    pub open spec fn at(self, p: Point) -> TextModel {
        TextModel { lines: self.lines, cursor: p }
    }

    /// The cursor moved by `m`.
    pub open spec fn moved(self, m: Motion) -> TextModel {
        self.at(target(self.lines, self.cursor, m))
    }

    /// The cursor brought to rest.
    pub open spec fn rested(self) -> TextModel {
        self.at(rest_point(self.lines, self.cursor))
    }

    /// The text from `s` up to `e` taken out, the cursor at `s`.
    pub open spec fn removed(self, s: Point, e: Point) -> TextModel {
        TextModel { lines: without_range(self.lines, s, e), cursor: s }
    }

    /// `text` spliced in at `p`, the cursor at its end.
    pub open spec fn inserted(self, p: Point, text: Seq<Seq<char>>) -> TextModel {
        TextModel { lines: with_text(self.lines, p, text), cursor: end_of_text(p, text) }
    }

    /// The lines of `text` put in below the cursor's line, the cursor at the
    /// head of the first of them.
    pub open spec fn lines_added_below(self, text: Seq<Seq<char>>) -> TextModel {
        TextModel {
            lines: with_lines_below(self.lines, self.cursor.line, text),
            cursor: Point { line: self.cursor.line + 1, col: 0 },
        }
    }
}

/// Taking a range out leaves at least one line, and the start of the range
/// is a place in what remains.
pub proof fn lemma_removed_wf(t: TextModel, s: Point, e: Point)
    requires
        range_ok(t.lines, s, e),
    ensures
        t.removed(s, e).wf(),
        t.removed(s, e).lines.len() == t.lines.len() - (e.line - s.line),
{
}

/// Splicing text in keeps every line but one, and the end of the spliced
/// text is a place in the result.
pub proof fn lemma_inserted_wf(t: TextModel, p: Point, text: Seq<Seq<char>>)
    requires
        in_bounds(t.lines, p),
        text.len() >= 1,
    ensures
        t.inserted(p, text).wf(),
        t.inserted(p, text).lines.len() == t.lines.len() + text.len() - 1,
        range_ok(t.inserted(p, text).lines, p, end_of_text(p, text)),
{
}

/// Bringing a cursor to rest keeps it in the buffer, on its line.
pub proof fn lemma_rest_point(lines: Seq<Seq<char>>, p: Point)
    requires
        in_bounds(lines, p),
    ensures
        at_rest(lines, rest_point(lines, p)),
        rest_point(lines, p).line == p.line,
        at_rest(lines, p) ==> rest_point(lines, p) == p,
{
}

/// A text buffer with its cursor.
pub struct Buffer {
    lines: Vec<Vec<char>>,
    cursor: Pos,
}

impl View for Buffer {
    type V = TextModel;

    closed spec fn view(&self) -> TextModel {
        TextModel { lines: view_lines(self.lines@), cursor: self.cursor@ }
    }
}

impl Buffer {
    /// The buffer holds at least one line and its cursor names a place in it.
    pub open spec fn wf(&self) -> bool {
        self@.wf()
    }

    /// A buffer of one empty line, the cursor at its head.
    pub fn new() -> (b: Buffer)
        ensures
            b.wf(),
            b@.lines == seq![Seq::<char>::empty()],
            b@.cursor == (Point { line: 0, col: 0 }),
    {
        let mut lines: Vec<Vec<char>> = Vec::new();
        lines.push(Vec::new());
        let b = Buffer { lines, cursor: Pos { line: 0, col: 0 } };
        assert(b@.lines =~= seq![Seq::<char>::empty()]);
        b
    }

    /// A buffer of the given lines, the cursor at the head of the first. No
    /// lines at all stand for one empty line.
    pub fn with_lines(lines: Vec<Vec<char>>) -> (b: Buffer)
        ensures
            b.wf(),
            b@.lines == if lines.len() == 0 {
                seq![Seq::<char>::empty()]
            } else {
                view_lines(lines@)
            },
            b@.cursor == (Point { line: 0, col: 0 }),
    {
        if lines.len() == 0 {
            Buffer::new()
        } else {
            assert(view_lines(lines@).len() == lines.len());
            Buffer { lines, cursor: Pos { line: 0, col: 0 } }
        }
    }

    /// The place of the cursor.
    pub fn cursor(&self) -> (p: Pos)
        ensures
            p@ == self@.cursor,
    {
        self.cursor
    }

    /// The number of lines.
    pub fn line_count(&self) -> (n: usize)
        ensures
            n == self@.lines.len(),
    {
        assert(view_lines(self.lines@).len() == self.lines.len());
        self.lines.len()
    }

    /// The length of line `row`.
    pub fn line_len(&self, row: usize) -> (n: usize)
        requires
            row < self@.lines.len(),
        ensures
            n == self@.lines[row as int].len(),
    {
        assert(view_lines(self.lines@).len() == self.lines.len());
        self.lines[row].len()
    }

    /// A copy of the lines.
    pub fn lines(&self) -> (r: Vec<Vec<char>>)
        ensures
            view_lines(r@) == self@.lines,
    {
        copy_lines(&self.lines)
    }

    /// A copy of the buffer.
    pub fn snapshot(&self) -> (b: Buffer)
        ensures
            b@ == self@,
    {
        Buffer { lines: copy_lines(&self.lines), cursor: self.cursor }
    }

    /// Puts the cursor at `p`.
    pub fn set_cursor(&mut self, p: Pos)
        requires
            in_bounds(old(self)@.lines, p@),
        ensures
            final(self)@ == old(self)@.at(p@),
            final(self).wf(),
    {
        self.cursor = p;
    }

    /// Moves the cursor by `m`. The text stays as it is and the cursor stays
    /// in the buffer.
    pub fn move_cursor(&mut self, m: Motion)
        requires
            old(self).wf(),
        ensures
            final(self)@ == old(self)@.moved(m),
            final(self).wf(),
    {
        self.cursor = move_from(&self.lines, self.cursor, m);
    }

    /// Where motion `m` would take the cursor.
    pub fn target_of(&self, m: Motion) -> (p: Pos)
        requires
            self.wf(),
        ensures
            p@ == target(self@.lines, self@.cursor, m),
            in_bounds(self@.lines, p@),
    {
        move_from(&self.lines, self.cursor, m)
    }

    /// Brings the cursor to rest: from past the end of a line that is not
    /// empty back onto its last character.
    pub fn rest(&mut self)
        requires
            old(self).wf(),
        ensures
            final(self)@ == old(self)@.rested(),
            final(self).wf(),
            at_rest(final(self)@.lines, final(self)@.cursor),
    {
        assert(view_lines(self.lines@).len() == self.lines.len());
        let len = self.lines[self.cursor.line].len();
        if len > 0 && self.cursor.col >= len {
            self.cursor = Pos { line: self.cursor.line, col: len - 1 };
        }
    }

    /// The text from `s` up to, but not including, `e`.
    pub fn text_between(&self, s: Pos, e: Pos) -> (r: Vec<Vec<char>>)
        requires
            range_ok(self@.lines, s@, e@),
        ensures
            view_lines(r@) == range_text(self@.lines, s@, e@),
    {
        extract_range(&self.lines, s, e)
    }

    /// A copy of line `row`.
    pub fn line(&self, row: usize) -> (r: Vec<char>)
        requires
            row < self@.lines.len(),
        ensures
            r@ == self@.lines[row as int],
    {
        assert(view_lines(self.lines@).len() == self.lines.len());
        let r = crate::text::copy_chars(&self.lines[row], 0, self.lines[row].len());
        assert(r@ =~= self.lines@[row as int]@);
        r
    }

    /// Takes the text from `s` up to `e` out and puts the cursor at `s`.
    pub fn remove(&mut self, s: Pos, e: Pos)
        requires
            range_ok(old(self)@.lines, s@, e@),
        ensures
            final(self)@ == old(self)@.removed(s@, e@),
            final(self).wf(),
    {
        proof {
            lemma_removed_wf(self@, s@, e@);
        }
        self.lines = remove_range(&self.lines, s, e);
        self.cursor = s;
    }

    /// Splices `text` in at `p` and puts the cursor at its end.
    pub fn insert(&mut self, p: Pos, text: &Vec<Vec<char>>)
        requires
            in_bounds(old(self)@.lines, p@),
            text.len() >= 1,
        ensures
            final(self)@ == old(self)@.inserted(p@, view_lines(text@)),
            final(self).wf(),
    {
        let ghost tv = view_lines(text@);
        let ghost after = old(self)@.inserted(p@, tv);
        proof {
            assert(tv.len() == text.len());
            assert(tv[0] == text@[0]@);
            assert(tv[text.len() - 1] == text@[text.len() - 1]@);
            lemma_inserted_wf(self@, p@, tv);
        }
        self.lines = insert_text(&self.lines, p, text);
        proof {
            assert(view_lines(self.lines@) == after.lines);
            assert(after.lines.len() == self.lines.len());
            assert(after.lines[after.cursor.line] == self.lines@[after.cursor.line]@);
            assert(after.cursor.col <= self.lines@[after.cursor.line]@.len());
        }
        let k = text.len() - 1;
        if k == 0 {
            let grown = self.lines[p.line].len();
            assert(p.col + text[0].len() <= grown);
            self.cursor = Pos { line: p.line, col: p.col + text[0].len() };
        } else {
            self.cursor = Pos { line: p.line + k, col: text[k].len() };
        }
    }

    /// Puts the lines of `text` in below the cursor's line and puts the
    /// cursor at the head of the first of them.
    pub fn add_lines_below(&mut self, text: &Vec<Vec<char>>)
        requires
            old(self).wf(),
            text.len() >= 1,
        ensures
            final(self)@ == old(self)@.lines_added_below(view_lines(text@)),
            final(self).wf(),
    {
        let ghost tv = view_lines(text@);
        let ghost before = self@.lines;
        assert(tv.len() == text.len());
        assert(view_lines(self.lines@).len() == self.lines.len());
        let row = self.cursor.line;
        let mut r: Vec<Vec<char>> = Vec::new();
        crate::text::append_lines(&mut r, &self.lines, 0, row + 1);
        crate::text::append_lines(&mut r, text, 0, text.len());
        crate::text::append_lines(&mut r, &self.lines, row + 1, self.lines.len());
        assert(view_lines(r@) =~= with_lines_below(before, row as int, tv));
        assert(view_lines(r@).len() == r.len());
        self.lines = r;
        self.cursor = Pos { line: row + 1, col: 0 };
    }
}

} // verus!
