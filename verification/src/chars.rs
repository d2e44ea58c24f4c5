//! Character classes that delimit words.

use vstd::prelude::*;

verus! {

/// The three classes that word motions distinguish.
#[derive(Clone, Copy, Debug, PartialEq, Eq, Structural)]
pub enum CharClass {
    /// White space, which separates words.
    Space,
    /// Letters and digits.
    Alphanumeric,
    /// Everything else that is not white space.
    Other,
}

/// Whether `c` is white space in the sense of `char::is_whitespace`.
pub uninterp spec fn is_space(c: char) -> bool;

/// Whether `c` is a letter or a digit in the sense of `char::is_alphanumeric`.
pub uninterp spec fn is_alphanumeric(c: char) -> bool;

/// Whether `c` is one of the letters `a` to `z` and `A` to `Z` or of the
/// digits `0` to `9`.
pub open spec fn is_plain_letter_or_digit(c: char) -> bool {
    let n = c as u32;
    (0x61 <= n && n <= 0x7a) || (0x41 <= n && n <= 0x5a) || (0x30 <= n && n <= 0x39)
}

/// The class of the characters whose class is plain to see: the blank is
/// white space, and the letters `a` to `z` and `A` to `Z` and the digits are
/// letters and digits.
pub open spec fn plain_class(c: char) -> Option<CharClass> {
    if c == ' ' {
        Some(CharClass::Space)
    } else if is_plain_letter_or_digit(c) {
        Some(CharClass::Alphanumeric)
    } else {
        None
    }
}

/// Calls `char::is_whitespace`, which says whether the character has the
/// Unicode property White_Space. The contract gives the answer its name; of
/// the table behind it, it restates only that the blank has the property and
/// that the letters `a` to `z`, `A` to `Z` and the digits do not.
#[verifier::external_body]
fn char_is_whitespace(c: char) -> (r: bool)
    ensures
        r == is_space(c),
        c == ' ' ==> r,
        is_plain_letter_or_digit(c) ==> !r,
{
    c.is_whitespace()
}

/// Calls `char::is_alphanumeric`, which says whether the character is
/// alphabetic or numeric by its Unicode properties. The contract gives the
/// answer its name; of the table behind it, it restates only that the
/// letters `a` to `z`, `A` to `Z` and the digits are alphanumeric.
#[verifier::external_body]
fn char_is_alphanumeric(c: char) -> (r: bool)
    ensures
        r == is_alphanumeric(c),
        is_plain_letter_or_digit(c) ==> r,
{
    c.is_alphanumeric()
}

/// The class of a character: white space first, then letters and digits,
/// then the rest.
pub open spec fn class_of(c: char) -> CharClass {
    if is_space(c) {
        CharClass::Space
    } else if is_alphanumeric(c) {
        CharClass::Alphanumeric
    } else {
        CharClass::Other
    }
}

/// Computes the class of a character. For the blank, the letters `a` to `z`
/// and `A` to `Z` and the digits the class is the one that is plain to see.
pub fn classify_char(c: char) -> (k: CharClass)
    ensures
        k == class_of(c),
        plain_class(c) matches Some(plain) ==> k == plain,
{
    if char_is_whitespace(c) {
        CharClass::Space
    } else if char_is_alphanumeric(c) {
        CharClass::Alphanumeric
    } else {
        CharClass::Other
    }
}

/// The classes of the characters of a line, one for one.
pub open spec fn classes_of(line: Seq<char>) -> Seq<CharClass> {
    Seq::new(line.len(), |i: int| class_of(line[i]))
}

/// Computes the classes of the characters of a line. Where a character is
/// the blank, one of the letters `a` to `z` and `A` to `Z` or a digit, its
/// class is the one that is plain to see.
pub fn classify_line(line: &Vec<char>) -> (r: Vec<CharClass>)
    ensures
        r@ == classes_of(line@),
        forall|i: int|
            0 <= i < line.len() ==> (plain_class(#[trigger] line[i]) matches Some(plain) ==> r[i]
                == plain),
{
    let mut r: Vec<CharClass> = Vec::new();
    let mut i: usize = 0;
    while i < line.len()
        invariant
            i <= line.len(),
            r@ == classes_of(line@.subrange(0, i as int)),
            forall|k: int|
                0 <= k < i ==> (plain_class(#[trigger] line[k]) matches Some(plain) ==> r[k]
                    == plain),
        decreases line.len() - i,
    {
        r.push(classify_char(line[i]));
        i += 1;
        assert(r@ =~= classes_of(line@.subrange(0, i as int)));
    }
    assert(line@.subrange(0, line.len() as int) =~= line@);
    r
}

} // verus!
