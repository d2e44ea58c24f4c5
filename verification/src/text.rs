//! Lines of text, positions in them, and the splice operations on which every
//! edit is built.

use vstd::prelude::*;

verus! {

/// A position in a buffer: a line index and a column in that line.
#[derive(Clone, Copy, Debug, PartialEq, Eq, Structural)]
pub struct Pos {
    pub line: usize,
    pub col: usize,
}

/// The mathematical counterpart of [`Pos`].
pub struct Point {
    pub line: int,
    pub col: int,
}

impl View for Pos {
    type V = Point;

    open spec fn view(&self) -> Point {
        Point { line: self.line as int, col: self.col as int }
    }
}

/// The lines of a buffer as sequences of characters.
pub open spec fn view_lines(lines: Seq<Vec<char>>) -> Seq<Seq<char>> {
    Seq::new(lines.len(), |i: int| lines[i]@)
}

/// `p` names a place in `lines`: an existing line, and a column that is at
/// most the length of that line.
pub open spec fn in_bounds(lines: Seq<Seq<char>>, p: Point) -> bool {
    &&& 0 <= p.line < lines.len()
    &&& 0 <= p.col <= lines[p.line].len()
}

/// `a` comes strictly before `b` in reading order.
pub open spec fn precedes(a: Point, b: Point) -> bool {
    a.line < b.line || (a.line == b.line && a.col < b.col)
}

/// The text from `s` up to, but not including, `e`, as one or more pieces:
/// the first and the last are parts of lines, those between are whole lines.
pub open spec fn range_text(lines: Seq<Seq<char>>, s: Point, e: Point) -> Seq<Seq<char>> {
    if s.line == e.line {
        seq![lines[s.line].subrange(s.col, e.col)]
    } else {
        seq![lines[s.line].subrange(s.col, lines[s.line].len() as int)] + lines.subrange(
            s.line + 1,
            e.line,
        ) + seq![lines[e.line].subrange(0, e.col)]
    }
}

/// The lines that remain when the text from `s` up to `e` is taken out: what
/// precedes `s` on its line is joined with what follows `e` on its line.
pub open spec fn without_range(lines: Seq<Seq<char>>, s: Point, e: Point) -> Seq<Seq<char>> {
    lines.subrange(0, s.line) + seq![
        lines[s.line].subrange(0, s.col) + lines[e.line].subrange(
            e.col,
            lines[e.line].len() as int,
        ),
    ] + lines.subrange(e.line + 1, lines.len() as int)
}

/// The lines that result when `text`, one or more pieces, is spliced in at
/// `p`. Each boundary between two pieces becomes a line break.
pub open spec fn with_text(lines: Seq<Seq<char>>, p: Point, text: Seq<Seq<char>>) -> Seq<
    Seq<char>,
> {
    let head = lines[p.line].subrange(0, p.col);
    let tail = lines[p.line].subrange(p.col, lines[p.line].len() as int);
    let middle = if text.len() == 1 {
        seq![head + text[0] + tail]
    } else {
        seq![head + text[0]] + text.subrange(1, text.len() - 1) + seq![text[text.len() - 1] + tail]
    };
    lines.subrange(0, p.line) + middle + lines.subrange(p.line + 1, lines.len() as int)
}

/// Where the spliced text ends when `text` is put in at `p`.
pub open spec fn end_of_text(p: Point, text: Seq<Seq<char>>) -> Point {
    if text.len() == 1 {
        Point { line: p.line, col: p.col + text[0].len() }
    } else {
        Point { line: p.line + text.len() - 1, col: text[text.len() - 1].len() as int }
    }
}

/// A range is well formed: both ends are places in `lines`, and `s` does not
/// come after `e`.
pub open spec fn range_ok(lines: Seq<Seq<char>>, s: Point, e: Point) -> bool {
    &&& in_bounds(lines, s)
    &&& in_bounds(lines, e)
    &&& !precedes(e, s)
}

/// Appends the characters `src[from..to]` to `dst`.
pub fn append_chars(dst: &mut Vec<char>, src: &Vec<char>, from: usize, to: usize)
    requires
        from <= to <= src.len(),
    ensures
        final(dst)@ == old(dst)@ + src@.subrange(from as int, to as int),
{
    let mut i: usize = from;
    while i < to
        invariant
            from <= i <= to <= src.len(),
            dst@ == old(dst)@ + src@.subrange(from as int, i as int),
        decreases to - i,
    {
        dst.push(src[i]);
        i += 1;
        assert(dst@ =~= old(dst)@ + src@.subrange(from as int, i as int));
    }
    assert(dst@ =~= old(dst)@ + src@.subrange(from as int, to as int));
}

/// A copy of the characters `src[from..to]`.
pub fn copy_chars(src: &Vec<char>, from: usize, to: usize) -> (r: Vec<char>)
    requires
        from <= to <= src.len(),
    ensures
        r@ == src@.subrange(from as int, to as int),
{
    let mut r: Vec<char> = Vec::new();
    append_chars(&mut r, src, from, to);
    assert(r@ =~= src@.subrange(from as int, to as int));
    r
}

/// Appends copies of the lines `src[from..to]` to `dst`.
pub fn append_lines(dst: &mut Vec<Vec<char>>, src: &Vec<Vec<char>>, from: usize, to: usize)
    requires
        from <= to <= src.len(),
    ensures
        view_lines(final(dst)@) == view_lines(old(dst)@) + view_lines(src@).subrange(
            from as int,
            to as int,
        ),
{
    let mut i: usize = from;
    assert(view_lines(dst@) =~= view_lines(old(dst)@) + view_lines(src@).subrange(
        from as int,
        i as int,
    ));
    while i < to
        invariant
            from <= i <= to <= src.len(),
            view_lines(dst@) == view_lines(old(dst)@) + view_lines(src@).subrange(
                from as int,
                i as int,
            ),
        decreases to - i,
    {
        let ghost before = dst@;
        let line = copy_chars(&src[i], 0, src[i].len());
        assert(line@ =~= src@[i as int]@);
        dst.push(line);
        i += 1;
        assert(view_lines(dst@) =~= view_lines(before).push(line@));
        assert(view_lines(dst@) =~= view_lines(old(dst)@) + view_lines(src@).subrange(
            from as int,
            i as int,
        ));
    }
}

/// A copy of all the lines of `src`.
pub fn copy_lines(src: &Vec<Vec<char>>) -> (r: Vec<Vec<char>>)
    ensures
        view_lines(r@) == view_lines(src@),
{
    let mut r: Vec<Vec<char>> = Vec::new();
    append_lines(&mut r, src, 0, src.len());
    assert(view_lines(r@) =~= view_lines(src@));
    r
}

/// The text of `lines` from `s` up to, but not including, `e`.
pub fn extract_range(lines: &Vec<Vec<char>>, s: Pos, e: Pos) -> (r: Vec<Vec<char>>)
    requires
        range_ok(view_lines(lines@), s@, e@),
    ensures
        view_lines(r@) == range_text(view_lines(lines@), s@, e@),
{
    let mut r: Vec<Vec<char>> = Vec::new();
    if s.line == e.line {
        let piece = copy_chars(&lines[s.line], s.col, e.col);
        r.push(piece);
        assert(view_lines(r@) =~= range_text(view_lines(lines@), s@, e@));
    } else {
        let first = copy_chars(&lines[s.line], s.col, lines[s.line].len());
        r.push(first);
        assert(view_lines(r@) =~= seq![first@]);
        append_lines(&mut r, lines, s.line + 1, e.line);
        let ghost mid = view_lines(r@);
        let last = copy_chars(&lines[e.line], 0, e.col);
        r.push(last);
        assert(view_lines(r@) =~= mid.push(last@));
        assert(view_lines(r@) =~= range_text(view_lines(lines@), s@, e@));
    }
    r
}

/// The lines that remain when the text from `s` up to `e` is taken out of
/// `lines`.
pub fn remove_range(lines: &Vec<Vec<char>>, s: Pos, e: Pos) -> (r: Vec<Vec<char>>)
    requires
        range_ok(view_lines(lines@), s@, e@),
    ensures
        view_lines(r@) == without_range(view_lines(lines@), s@, e@),
{
    assert(view_lines(lines@).len() == lines.len());
    let mut r: Vec<Vec<char>> = Vec::new();
    append_lines(&mut r, lines, 0, s.line);
    assert(view_lines(r@) =~= view_lines(lines@).subrange(0, s.line as int));
    let ghost before = view_lines(r@);
    let mut joined = copy_chars(&lines[s.line], 0, s.col);
    append_chars(&mut joined, &lines[e.line], e.col, lines[e.line].len());
    r.push(joined);
    assert(view_lines(r@) =~= before.push(joined@));
    append_lines(&mut r, lines, e.line + 1, lines.len());
    assert(view_lines(r@) =~= without_range(view_lines(lines@), s@, e@));
    r
}

/// The lines that result when `text` is spliced into `lines` at `p`.
pub fn insert_text(lines: &Vec<Vec<char>>, p: Pos, text: &Vec<Vec<char>>) -> (r: Vec<Vec<char>>)
    requires
        in_bounds(view_lines(lines@), p@),
        text.len() >= 1,
    ensures
        view_lines(r@) == with_text(view_lines(lines@), p@, view_lines(text@)),
{
    assert(view_lines(lines@).len() == lines.len());
    let mut r: Vec<Vec<char>> = Vec::new();
    append_lines(&mut r, lines, 0, p.line);
    assert(view_lines(r@) =~= view_lines(lines@).subrange(0, p.line as int));
    let ghost before = view_lines(r@);
    let line = &lines[p.line];
    let mut first = copy_chars(line, 0, p.col);
    append_chars(&mut first, &text[0], 0, text[0].len());
    assert(first@ =~= line@.subrange(0, p.col as int) + text@[0]@);
    if text.len() == 1 {
        append_chars(&mut first, line, p.col, line.len());
        r.push(first);
        assert(view_lines(r@) =~= before.push(first@));
    } else {
        r.push(first);
        assert(view_lines(r@) =~= before.push(first@));
        append_lines(&mut r, text, 1, text.len() - 1);
        let ghost mid = view_lines(r@);
        let k = text.len() - 1;
        let mut last = copy_chars(&text[k], 0, text[k].len());
        assert(last@ =~= text@[k as int]@);
        append_chars(&mut last, line, p.col, line.len());
        r.push(last);
        assert(view_lines(r@) =~= mid.push(last@));
    }
    append_lines(&mut r, lines, p.line + 1, lines.len());
    assert(view_lines(r@) =~= with_text(view_lines(lines@), p@, view_lines(text@)));
    r
}

} // verus!
