//! Motions: where the cursor goes, as a function of the lines and of where
//! it is. No motion changes the text.

use crate::chars::{classes_of, classify_line, CharClass};
use crate::text::{in_bounds, view_lines, Point, Pos};
use vstd::prelude::*;

verus! {

/// The cursor movements that the editor knows.
#[derive(Clone, Copy, Debug, PartialEq, Eq, Structural)]
pub enum Motion {
    /// One character back; from the head of a line to the end of the line above.
    Back,
    /// One character forward; from the end of a line to the head of the line below.
    Forward,
    /// One line up, keeping the column as far as the line allows.
    Up,
    /// One line down, keeping the column as far as the line allows; on the
    /// last line, to the end of that line.
    Down,
    /// To the head of the line.
    Head,
    /// To the end of the line, past its last character.
    End,
    /// To the first line, keeping the column as far as the line allows.
    Top,
    /// To the last line, keeping the column as far as the line allows.
    Bottom,
    /// To the start of the next word.
    WordForward,
    /// To the start of the word before the cursor.
    WordBack,
    /// To the last character of the current or the next word.
    WordEnd,
}

/// A word starts at column `i` of a line whose characters have the classes
/// `line`: the character there is not white space, and it is the first of
/// the line or of another class than the one before it.
pub open spec fn is_word_head(line: Seq<CharClass>, i: int) -> bool {
    &&& 0 <= i < line.len()
    &&& line[i] != CharClass::Space
    &&& (i == 0 || line[i - 1] != line[i])
}

/// A word ends at column `i` of a line whose characters have the classes
/// `line`: the character there is not white space, and it is the last of
/// the line or of another class than the one after it.
pub open spec fn is_word_tail(line: Seq<CharClass>, i: int) -> bool {
    &&& 0 <= i < line.len()
    &&& line[i] != CharClass::Space
    &&& (i == line.len() - 1 || line[i + 1] != line[i])
}

/// The first column at or after `from` where a word starts, or the length of
/// the line if there is none.
pub open spec fn first_head_from(line: Seq<CharClass>, from: int) -> int
    decreases line.len() - from,
{
    if from >= line.len() {
        line.len() as int
    } else if is_word_head(line, from) {
        from
    } else {
        first_head_from(line, from + 1)
    }
}

/// The last column before `before` where a word starts, or -1 if there is
/// none.
pub open spec fn last_head_before(line: Seq<CharClass>, before: int) -> int
    decreases before,
{
    if before <= 0 {
        -1
    } else if is_word_head(line, before - 1) {
        before - 1
    } else {
        last_head_before(line, before - 1)
    }
}

/// The first column at or after `from` where a word ends, or the length of
/// the line if there is none.
pub open spec fn first_tail_from(line: Seq<CharClass>, from: int) -> int
    decreases line.len() - from,
{
    if from >= line.len() {
        line.len() as int
    } else if is_word_tail(line, from) {
        from
    } else {
        first_tail_from(line, from + 1)
    }
}

/// The end of the first word on the lines below `row`; the end of the last
/// line if no word ends there.
pub open spec fn word_end_below(lines: Seq<Seq<char>>, row: int) -> Point
    decreases lines.len() - row,
{
    if row + 1 >= lines.len() {
        Point { line: row, col: lines[row].len() as int }
    } else {
        let t = first_tail_from(classes_of(lines[row + 1]), 0);
        if t < lines[row + 1].len() {
            Point { line: row + 1, col: t }
        } else {
            word_end_below(lines, row + 1)
        }
    }
}

/// The column `col`, or the length `len` where the line is shorter.
pub open spec fn fit(col: int, len: int) -> int {
    if col < len {
        col
    } else {
        len
    }
}

/// Where motion `m` takes a cursor that stands at `p` in `lines`.
pub open spec fn target(lines: Seq<Seq<char>>, p: Point, m: Motion) -> Point {
    let n = lines.len() as int;
    let len = lines[p.line].len() as int;
    match m {
        Motion::Back => if p.col > 0 {
            Point { line: p.line, col: p.col - 1 }
        } else if p.line > 0 {
            Point { line: p.line - 1, col: lines[p.line - 1].len() as int }
        } else {
            p
        },
        Motion::Forward => if p.col < len {
            Point { line: p.line, col: p.col + 1 }
        } else if p.line + 1 < n {
            Point { line: p.line + 1, col: 0 }
        } else {
            p
        },
        Motion::Up => if p.line > 0 {
            Point { line: p.line - 1, col: fit(p.col, lines[p.line - 1].len() as int) }
        } else {
            p
        },
        Motion::Down => if p.line + 1 < n {
            Point { line: p.line + 1, col: fit(p.col, lines[p.line + 1].len() as int) }
        } else {
            Point { line: p.line, col: len }
        },
        Motion::Head => Point { line: p.line, col: 0 },
        Motion::End => Point { line: p.line, col: len },
        Motion::Top => Point { line: 0, col: fit(p.col, lines[0].len() as int) },
        Motion::Bottom => Point { line: n - 1, col: fit(p.col, lines[n - 1].len() as int) },
        Motion::WordForward => {
            let h = first_head_from(classes_of(lines[p.line]), p.col + 1);
            if h < len {
                Point { line: p.line, col: h }
            } else if p.line + 1 < n {
                Point { line: p.line + 1, col: 0 }
            } else {
                Point { line: p.line, col: len }
            }
        },
        Motion::WordBack => {
            let h = last_head_before(classes_of(lines[p.line]), p.col);
            if h >= 0 {
                Point { line: p.line, col: h }
            } else if p.line > 0 {
                Point { line: p.line - 1, col: lines[p.line - 1].len() as int }
            } else {
                Point { line: p.line, col: 0 }
            }
        },
        Motion::WordEnd => {
            let t = first_tail_from(classes_of(lines[p.line]), p.col + 1);
            if t < len {
                Point { line: p.line, col: t }
            } else {
                word_end_below(lines, p.line)
            }
        },
    }
}

/// `first_head_from` finds the least word start at or after `from`: it lies
/// between `from` and the length of the line, a word starts there unless it
/// is the length, and no word starts between `from` and it.
pub proof fn lemma_first_head_is_least(line: Seq<CharClass>, from: int)
    requires
        0 <= from <= line.len(),
    ensures
        from <= first_head_from(line, from) <= line.len(),
        first_head_from(line, from) < line.len() ==> is_word_head(
            line,
            first_head_from(line, from),
        ),
        forall|i: int| from <= i < first_head_from(line, from) ==> !is_word_head(line, i),
    decreases line.len() - from,
{
    if from < line.len() && !is_word_head(line, from) {
        lemma_first_head_is_least(line, from + 1);
    }
}

/// `last_head_before` finds the greatest word start before `before`: it is
/// -1 or a column below `before` where a word starts, and no word starts
/// between it and `before`.
pub proof fn lemma_last_head_is_greatest(line: Seq<CharClass>, before: int)
    requires
        0 <= before <= line.len(),
    ensures
        -1 <= last_head_before(line, before) < before,
        last_head_before(line, before) >= 0 ==> is_word_head(
            line,
            last_head_before(line, before),
        ),
        forall|i: int| last_head_before(line, before) < i < before ==> !is_word_head(line, i),
    decreases before,
{
    if before > 0 && !is_word_head(line, before - 1) {
        lemma_last_head_is_greatest(line, before - 1);
    }
}

/// `first_tail_from` finds the least word end at or after `from`: it lies
/// between `from` and the length of the line, a word ends there unless it is
/// the length, and no word ends between `from` and it.
pub proof fn lemma_first_tail_is_least(line: Seq<CharClass>, from: int)
    requires
        0 <= from <= line.len(),
    ensures
        from <= first_tail_from(line, from) <= line.len(),
        first_tail_from(line, from) < line.len() ==> is_word_tail(
            line,
            first_tail_from(line, from),
        ),
        forall|i: int| from <= i < first_tail_from(line, from) ==> !is_word_tail(line, i),
    decreases line.len() - from,
{
    if from < line.len() && !is_word_tail(line, from) {
        lemma_first_tail_is_least(line, from + 1);
    }
}

/// The end of the first word below a line of the buffer is a place in the
/// buffer, on that line or below it.
pub proof fn lemma_word_end_below_in_bounds(lines: Seq<Seq<char>>, row: int)
    requires
        0 <= row < lines.len(),
    ensures
        in_bounds(lines, word_end_below(lines, row)),
        word_end_below(lines, row).line >= row,
    decreases lines.len() - row,
{
    if row + 1 < lines.len() {
        lemma_first_tail_is_least(classes_of(lines[row + 1]), 0);
        if first_tail_from(classes_of(lines[row + 1]), 0) >= lines[row + 1].len() {
            lemma_word_end_below_in_bounds(lines, row + 1);
        }
    }
}

/// Every motion leaves the cursor in the buffer: on an existing line, at a
/// column that is at most the length of that line.
pub proof fn lemma_target_in_bounds(lines: Seq<Seq<char>>, p: Point, m: Motion)
    requires
        in_bounds(lines, p),
    ensures
        in_bounds(lines, target(lines, p, m)),
{
    let line = classes_of(lines[p.line]);
    match m {
        Motion::WordForward => {
            if p.col + 1 <= line.len() {
                lemma_first_head_is_least(line, p.col + 1);
            }
        },
        Motion::WordBack => {
            lemma_last_head_is_greatest(line, p.col);
        },
        Motion::WordEnd => {
            if p.col + 1 <= line.len() {
                lemma_first_tail_is_least(line, p.col + 1);
            }
            lemma_word_end_below_in_bounds(lines, p.line);
        },
        _ => {},
    }
}

/// Going to the top and then to the bottom ends on the last line, and the
/// top is the first line.
pub proof fn lemma_top_then_bottom(lines: Seq<Seq<char>>, p: Point)
    requires
        in_bounds(lines, p),
    ensures
        target(lines, p, Motion::Top).line == 0,
        target(lines, target(lines, p, Motion::Top), Motion::Bottom).line == lines.len() - 1,
        in_bounds(lines, target(lines, target(lines, p, Motion::Top), Motion::Bottom)),
{
}

/// Whether a word starts at column `i` of a line with the classes `line`.
fn word_head_at(line: &Vec<CharClass>, i: usize) -> (b: bool)
    requires
        i < line.len(),
    ensures
        b == is_word_head(line@, i as int),
{
    let k = line[i];
    if k == CharClass::Space {
        false
    } else if i == 0 {
        true
    } else {
        line[i - 1] != k
    }
}

/// Whether a word ends at column `i` of a line with the classes `line`.
fn word_tail_at(line: &Vec<CharClass>, i: usize) -> (b: bool)
    requires
        i < line.len(),
    ensures
        b == is_word_tail(line@, i as int),
{
    let k = line[i];
    if k == CharClass::Space {
        false
    } else if i == line.len() - 1 {
        true
    } else {
        line[i + 1] != k
    }
}

/// The first word start at or after `from` in a line with the classes
/// `line`, or its length.
pub fn find_head_from(line: &Vec<CharClass>, from: usize) -> (r: usize)
    requires
        from <= line.len(),
    ensures
        r == first_head_from(line@, from as int),
        from <= r <= line.len(),
{
    let mut i: usize = from;
    while i < line.len()
        invariant
            from <= i <= line.len(),
            first_head_from(line@, from as int) == first_head_from(line@, i as int),
        decreases line.len() - i,
    {
        if word_head_at(line, i) {
            return i;
        }
        i += 1;
    }
    i
}

/// The last word start before `before` in a line with the classes `line`,
/// if there is one.
pub fn find_head_before(line: &Vec<CharClass>, before: usize) -> (r: Option<usize>)
    requires
        before <= line.len(),
    ensures
        match r {
            Some(h) => h == last_head_before(line@, before as int) && h < before,
            None => last_head_before(line@, before as int) == -1,
        },
{
    let mut i: usize = before;
    while i > 0
        invariant
            i <= before <= line.len(),
            last_head_before(line@, before as int) == last_head_before(line@, i as int),
        decreases i,
    {
        if word_head_at(line, i - 1) {
            return Some(i - 1);
        }
        i -= 1;
    }
    None
}

/// The first word end at or after `from` in a line with the classes
/// `line`, or its length.
pub fn find_tail_from(line: &Vec<CharClass>, from: usize) -> (r: usize)
    requires
        from <= line.len(),
    ensures
        r == first_tail_from(line@, from as int),
        from <= r <= line.len(),
{
    let mut i: usize = from;
    while i < line.len()
        invariant
            from <= i <= line.len(),
            first_tail_from(line@, from as int) == first_tail_from(line@, i as int),
        decreases line.len() - i,
    {
        if word_tail_at(line, i) {
            return i;
        }
        i += 1;
    }
    i
}

/// The end of the first word on the lines below `row`, or the end of the
/// last line.
fn find_word_end_below(lines: &Vec<Vec<char>>, row: usize) -> (r: Pos)
    requires
        row < lines.len(),
    ensures
        r@ == word_end_below(view_lines(lines@), row as int),
{
    let ghost v = view_lines(lines@);
    assert(v.len() == lines.len());
    let mut i: usize = row;
    while i + 1 < lines.len()
        invariant
            row <= i < lines.len(),
            v == view_lines(lines@),
            v.len() == lines.len(),
            word_end_below(v, row as int) == word_end_below(v, i as int),
        decreases lines.len() - i,
    {
        assert(v[i + 1] == lines@[i + 1]@);
        let classes = classify_line(&lines[i + 1]);
        let t = find_tail_from(&classes, 0);
        if t < lines[i + 1].len() {
            return Pos { line: i + 1, col: t };
        }
        i += 1;
    }
    assert(v[i as int] == lines@[i as int]@);
    Pos { line: i, col: lines[i].len() }
}

/// The smaller of a column and a line's length.
fn fit_col(col: usize, len: usize) -> (r: usize)
    ensures
        r == fit(col as int, len as int),
{
    if col < len {
        col
    } else {
        len
    }
}

/// Computes where motion `m` takes a cursor that stands at `p` in `lines`.
/// The result is again a place in `lines`.
pub fn move_from(lines: &Vec<Vec<char>>, p: Pos, m: Motion) -> (r: Pos)
    requires
        in_bounds(view_lines(lines@), p@),
    ensures
        r@ == target(view_lines(lines@), p@, m),
        in_bounds(view_lines(lines@), r@),
{
    let ghost v = view_lines(lines@);
    proof {
        assert(v.len() == lines.len());
        assert(v[p.line as int] == lines@[p.line as int]@);
        assert(v[0] == lines@[0]@);
        assert(v[lines.len() - 1] == lines@[lines.len() - 1]@);
        if p.line > 0 {
            assert(v[p.line - 1] == lines@[p.line - 1]@);
        }
        if p.line + 1 < lines.len() {
            assert(v[p.line + 1] == lines@[p.line + 1]@);
        }
        lemma_target_in_bounds(v, p@, m);
    }
    let n = lines.len();
    let len = lines[p.line].len();
    match m {
        Motion::Back => {
            if p.col > 0 {
                Pos { line: p.line, col: p.col - 1 }
            } else if p.line > 0 {
                Pos { line: p.line - 1, col: lines[p.line - 1].len() }
            } else {
                p
            }
        },
        Motion::Forward => {
            if p.col < len {
                Pos { line: p.line, col: p.col + 1 }
            } else if p.line + 1 < n {
                Pos { line: p.line + 1, col: 0 }
            } else {
                p
            }
        },
        Motion::Up => {
            if p.line > 0 {
                Pos { line: p.line - 1, col: fit_col(p.col, lines[p.line - 1].len()) }
            } else {
                p
            }
        },
        Motion::Down => {
            if p.line + 1 < n {
                Pos { line: p.line + 1, col: fit_col(p.col, lines[p.line + 1].len()) }
            } else {
                Pos { line: p.line, col: len }
            }
        },
        Motion::Head => Pos { line: p.line, col: 0 },
        Motion::End => Pos { line: p.line, col: len },
        Motion::Top => Pos { line: 0, col: fit_col(p.col, lines[0].len()) },
        Motion::Bottom => Pos { line: n - 1, col: fit_col(p.col, lines[n - 1].len()) },
        Motion::WordForward => {
            let classes = classify_line(&lines[p.line]);
            let h = if p.col < len {
                find_head_from(&classes, p.col + 1)
            } else {
                len
            };
            if h < len {
                Pos { line: p.line, col: h }
            } else if p.line + 1 < n {
                Pos { line: p.line + 1, col: 0 }
            } else {
                Pos { line: p.line, col: len }
            }
        },
        Motion::WordBack => {
            let classes = classify_line(&lines[p.line]);
            match find_head_before(&classes, p.col) {
                Some(h) => Pos { line: p.line, col: h },
                None => {
                    if p.line > 0 {
                        Pos { line: p.line - 1, col: lines[p.line - 1].len() }
                    } else {
                        Pos { line: p.line, col: 0 }
                    }
                },
            }
        },
        Motion::WordEnd => {
            let classes = classify_line(&lines[p.line]);
            let t = if p.col < len {
                find_tail_from(&classes, p.col + 1)
            } else {
                len
            };
            if t < len {
                Pos { line: p.line, col: t }
            } else {
                find_word_end_below(lines, p.line)
            }
        },
    }
}

} // verus!
