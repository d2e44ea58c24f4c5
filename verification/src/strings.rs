//! Between strings and lines of characters.

use crate::text::view_lines;
use vstd::prelude::*;
use vstd::string::StrSliceExecFns;

verus! {

/// The lines joined into one text, a line feed between each two.
pub open spec fn joined(lines: Seq<Seq<char>>) -> Seq<char>
    decreases lines.len(),
{
    if lines.len() == 0 {
        Seq::empty()
    } else if lines.len() == 1 {
        lines[0]
    } else {
        joined(lines.drop_last()) + seq!['\n'] + lines.last()
    }
}

/// The lines of a text: the stretches between its line feeds. There is
/// always at least one, which may be empty.
pub open spec fn split(text: Seq<char>) -> Seq<Seq<char>>
    decreases text.len(),
{
    if text.len() == 0 {
        seq![Seq::<char>::empty()]
    } else {
        let before = split(text.drop_last());
        if text.last() == '\n' {
            before.push(Seq::<char>::empty())
        } else {
            before.drop_last().push(before.last().push(text.last()))
        }
    }
}

/// A text has at least one line, and no line of it holds a line feed.
pub proof fn lemma_split_lines(text: Seq<char>)
    ensures
        split(text).len() >= 1,
        forall|i: int, j: int|
            0 <= i < split(text).len() && 0 <= j < split(text)[i].len() ==> split(text)[i][j]
                != '\n',
    decreases text.len(),
{
    if text.len() > 0 {
        lemma_split_lines(text.drop_last());
    }
}

/// Joining the lines of a text gives the text back.
pub proof fn lemma_join_split(text: Seq<char>)
    ensures
        joined(split(text)) == text,
    decreases text.len(),
{
    if text.len() == 0 {
    } else {
        let head = text.drop_last();
        let before = split(head);
        lemma_join_split(head);
        lemma_split_lines(head);
        let c = text.last();
        if c == '\n' {
            let all = before.push(Seq::<char>::empty());
            assert(all.drop_last() =~= before);
            assert(joined(all) =~= head + seq!['\n']);
            assert(head + seq!['\n'] =~= text);
        } else {
            let grown = before.last().push(c);
            let all = before.drop_last().push(grown);
            if before.len() == 1 {
                assert(joined(all) =~= before[0].push(c));
                assert(before[0].push(c) =~= text);
            } else {
                assert(all.drop_last() =~= before.drop_last());
                assert(joined(all) =~= joined(before.drop_last()) + seq!['\n'] + grown);
                assert(joined(before.drop_last()) + seq!['\n'] + grown =~= (joined(
                    before.drop_last(),
                ) + seq!['\n'] + before.last()).push(c));
                assert(head.push(c) =~= text);
            }
        }
    }
}

/// Calls `String::push`, which appends one character to the string.
#[verifier::external_body]
fn push_char(s: &mut String, c: char)
    ensures
        final(s)@ == old(s)@.push(c),
{
    s.push(c)
}

/// Appends the characters of `chars` to `s`.
pub fn push_chars(s: &mut String, chars: &Vec<char>)
    ensures
        final(s)@ == old(s)@ + chars@,
{
    let mut i: usize = 0;
    assert(s@ =~= old(s)@ + chars@.subrange(0, 0));
    while i < chars.len()
        invariant
            i <= chars.len(),
            s@ == old(s)@ + chars@.subrange(0, i as int),
        decreases chars.len() - i,
    {
        push_char(s, chars[i]);
        i += 1;
        assert(s@ =~= old(s)@ + chars@.subrange(0, i as int));
    }
    assert(chars@.subrange(0, chars.len() as int) =~= chars@);
}

/// The string of the given characters.
pub fn string_of(chars: &Vec<char>) -> (s: String)
    ensures
        s@ == chars@,
{
    let mut s = String::new();
    push_chars(&mut s, chars);
    assert(s@ =~= chars@);
    s
}

/// The characters of a string.
pub fn chars_of(s: &str) -> (r: Vec<char>)
    ensures
        r@ == s@,
{
    let n = s.unicode_len();
    let mut r: Vec<char> = Vec::new();
    let mut i: usize = 0;
    while i < n
        invariant
            i <= n,
            n == s@.len(),
            r@ == s@.subrange(0, i as int),
        decreases n - i,
    {
        r.push(s.get_char(i));
        i += 1;
        assert(r@ =~= s@.subrange(0, i as int));
    }
    assert(s@.subrange(0, n as int) =~= s@);
    r
}

/// The lines joined into one string, a line feed between each two.
pub fn join_lines(lines: &Vec<Vec<char>>) -> (s: String)
    ensures
        s@ == joined(view_lines(lines@)),
{
    let ghost v = view_lines(lines@);
    assert(v.len() == lines.len());
    let mut s = String::new();
    let mut i: usize = 0;
    assert(v.subrange(0, 0) =~= Seq::<Seq<char>>::empty());
    while i < lines.len()
        invariant
            i <= lines.len(),
            v == view_lines(lines@),
            v.len() == lines.len(),
            s@ == joined(v.subrange(0, i as int)),
        decreases lines.len() - i,
    {
        let ghost upto = v.subrange(0, i as int);
        let ghost next = v.subrange(0, i + 1);
        assert(next.drop_last() =~= upto);
        assert(next.last() == lines@[i as int]@);
        if i > 0 {
            push_char(&mut s, '\n');
        }
        push_chars(&mut s, &lines[i]);
        proof {
            if i == 0 {
                assert(s@ =~= next[0]);
            } else {
                assert(s@ =~= joined(upto) + seq!['\n'] + next.last());
            }
        }
        i += 1;
    }
    assert(v.subrange(0, lines.len() as int) =~= v);
    s
}

/// The lines of a string: the stretches between its line feeds.
pub fn split_lines(s: &str) -> (r: Vec<Vec<char>>)
    ensures
        view_lines(r@) == split(s@),
        r.len() >= 1,
{
    let n = s.unicode_len();
    let mut done: Vec<Vec<char>> = Vec::new();
    let mut current: Vec<char> = Vec::new();
    let mut i: usize = 0;
    assert(s@.subrange(0, 0) =~= Seq::<char>::empty());
    assert(view_lines(done@).push(current@) =~= split(s@.subrange(0, 0)));
    while i < n
        invariant
            i <= n,
            n == s@.len(),
            view_lines(done@).push(current@) == split(s@.subrange(0, i as int)),
        decreases n - i,
    {
        let ghost upto = s@.subrange(0, i as int);
        let ghost next = s@.subrange(0, i + 1);
        let ghost before = view_lines(done@).push(current@);
        assert(next.drop_last() =~= upto);
        assert(next.last() == s@[i as int]);
        let c = s.get_char(i);
        if c == '\n' {
            done.push(current);
            current = Vec::new();
            assert(view_lines(done@) =~= before);
            assert(view_lines(done@).push(current@) =~= split(next));
        } else {
            current.push(c);
            assert(before.drop_last() =~= view_lines(done@));
            assert(view_lines(done@).push(current@) =~= split(next));
        }
        i += 1;
    }
    assert(s@.subrange(0, n as int) =~= s@);
    let ghost before = view_lines(done@);
    done.push(current);
    assert(view_lines(done@) =~= before.push(current@));
    done
}

/// Each line as a string.
pub fn strings_of(lines: &Vec<Vec<char>>) -> (r: Vec<String>)
    ensures
        r.len() == lines.len(),
        forall|i: int| 0 <= i < r.len() ==> (#[trigger] r[i])@ == lines[i]@,
{
    let mut r: Vec<String> = Vec::new();
    let mut i: usize = 0;
    while i < lines.len()
        invariant
            i <= lines.len(),
            r.len() == i,
            forall|k: int| 0 <= k < i ==> (#[trigger] r[k])@ == lines[k]@,
        decreases lines.len() - i,
    {
        r.push(string_of(&lines[i]));
        i += 1;
    }
    r
}

} // verus!
