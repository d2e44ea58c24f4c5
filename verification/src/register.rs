//! The register: the one slot that holds what was last copied or cut.

use crate::text::{copy_lines, view_lines};
use vstd::prelude::*;

verus! {

/// Whether the text of a register is a stretch of characters or whole lines.
#[derive(Clone, Copy, Debug, PartialEq, Eq, Structural)]
pub enum RegisterKind {
    CharacterWise,
    LineWise,
}

/// What a register holds: one or more pieces of text and their kind. Each
/// boundary between two pieces is a line break.
pub struct Clip {
    pub text: Seq<Seq<char>>,
    pub kind: RegisterKind,
}

impl Clip {
    /// The register holds at least one piece.
    pub open spec fn wf(self) -> bool {
        self.text.len() >= 1
    }

    /// Nothing but one empty piece.
    pub open spec fn is_blank(self) -> bool {
        self.text.len() == 1 && self.text[0].len() == 0
    }

    /// The content of a register that nothing was stored in yet.
    pub open spec fn blank() -> Clip {
        Clip { text: seq![Seq::<char>::empty()], kind: RegisterKind::CharacterWise }
    }
}

/// The single-slot register.
pub struct Register {
    text: Vec<Vec<char>>,
    kind: RegisterKind,
}

impl View for Register {
    type V = Clip;

    closed spec fn view(&self) -> Clip {
        Clip { text: view_lines(self.text@), kind: self.kind }
    }
}

impl Register {
    /// The register holds at least one piece.
    pub open spec fn wf(&self) -> bool {
        self@.wf()
    }

    /// A register that holds one empty piece of characters.
    pub fn new() -> (r: Register)
        ensures
            r@ == Clip::blank(),
            r.wf(),
    {
        let mut text: Vec<Vec<char>> = Vec::new();
        text.push(Vec::new());
        let r = Register { text, kind: RegisterKind::CharacterWise };
        assert(r@.text =~= seq![Seq::<char>::empty()]);
        r
    }

    /// Replaces what the register holds.
    pub fn store(&mut self, text: Vec<Vec<char>>, kind: RegisterKind)
        requires
            text.len() >= 1,
        ensures
            final(self)@ == (Clip { text: view_lines(text@), kind }),
            final(self).wf(),
    {
        assert(view_lines(text@).len() == text.len());
        self.text = text;
        self.kind = kind;
    }

    /// The kind of the text held.
    pub fn kind(&self) -> (k: RegisterKind)
        ensures
            k == self@.kind,
    {
        self.kind
    }

    /// A copy of the pieces held.
    pub fn text(&self) -> (t: Vec<Vec<char>>)
        ensures
            view_lines(t@) == self@.text,
    {
        copy_lines(&self.text)
    }

    /// Whether the register holds nothing but one empty piece.
    pub fn is_blank(&self) -> (b: bool)
        requires
            self.wf(),
        ensures
            b == self@.is_blank(),
    {
        assert(view_lines(self.text@).len() == self.text.len());
        assert(view_lines(self.text@)[0] == self.text@[0]@);
        self.text.len() == 1 && self.text[0].len() == 0
    }
}

} // verus!
