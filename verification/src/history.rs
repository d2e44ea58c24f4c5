//! Undo and redo: two stacks of snapshots of the buffer.

use crate::buffer::{at_rest, Buffer, TextModel};
use vstd::prelude::*;

verus! {

/// What a history holds: the snapshots that can be gone back to, oldest
/// first, and those that can be gone forward to again.
pub struct HistoryModel {
    pub undo: Seq<TextModel>,
    pub redo: Seq<TextModel>,
}

/// A snapshot that a cursor at rest can go back to.
pub open spec fn snapshot_ok(t: TextModel) -> bool {
    at_rest(t.lines, t.cursor)
}

impl HistoryModel {
    /// Every snapshot is a buffer with its cursor at rest.
    pub open spec fn wf(self) -> bool {
        &&& forall|i: int| 0 <= i < self.undo.len() ==> snapshot_ok(#[trigger] self.undo[i])
        &&& forall|i: int| 0 <= i < self.redo.len() ==> snapshot_ok(#[trigger] self.redo[i])
    }

    /// A history without snapshots.
    pub open spec fn empty() -> HistoryModel {
        HistoryModel { undo: Seq::empty(), redo: Seq::empty() }
    }

    /// The history after `t` was recorded ahead of a change: `t` is the
    /// newest snapshot to go back to, and there is nothing to go forward to.
    pub open spec fn recorded(self, t: TextModel) -> HistoryModel {
        HistoryModel { undo: self.undo.push(t), redo: Seq::empty() }
    }

    /// The history after going back from `current`: the newest snapshot
    /// leaves the undo stack and `current` is put on the redo stack. Without
    /// a snapshot to go back to, the history stays as it is.
    pub open spec fn undone(self, current: TextModel) -> HistoryModel {
        if self.undo.len() == 0 {
            self
        } else {
            HistoryModel { undo: self.undo.drop_last(), redo: self.redo.push(current) }
        }
    }

    /// The history after going forward from `current`: the newest snapshot
    /// leaves the redo stack and `current` is put on the undo stack. Without
    /// a snapshot to go forward to, the history stays as it is.
    pub open spec fn redone(self, current: TextModel) -> HistoryModel {
        if self.redo.len() == 0 {
            self
        } else {
            HistoryModel { undo: self.undo.push(current), redo: self.redo.drop_last() }
        }
    }
}

/// The views of a stack of snapshots.
pub open spec fn view_stack(stack: Seq<Buffer>) -> Seq<TextModel> {
    Seq::new(stack.len(), |i: int| stack[i]@)
}

/// The undo and redo stacks.
pub struct History {
    undo: Vec<Buffer>,
    redo: Vec<Buffer>,
}

impl View for History {
    type V = HistoryModel;

    closed spec fn view(&self) -> HistoryModel {
        HistoryModel { undo: view_stack(self.undo@), redo: view_stack(self.redo@) }
    }
}

impl History {
    /// Every snapshot is a buffer with its cursor at rest.
    pub open spec fn wf(&self) -> bool {
        self@.wf()
    }

    /// A history without snapshots.
    pub fn new() -> (h: History)
        ensures
            h@ == HistoryModel::empty(),
            h.wf(),
    {
        let h = History { undo: Vec::new(), redo: Vec::new() };
        assert(h@.undo =~= Seq::empty());
        assert(h@.redo =~= Seq::empty());
        h
    }

    /// Whether there is a snapshot to go back to.
    pub fn can_undo(&self) -> (b: bool)
        ensures
            b == (self@.undo.len() > 0),
    {
        assert(view_stack(self.undo@).len() == self.undo.len());
        self.undo.len() > 0
    }

    /// Whether there is a snapshot to go forward to.
    pub fn can_redo(&self) -> (b: bool)
        ensures
            b == (self@.redo.len() > 0),
    {
        assert(view_stack(self.redo@).len() == self.redo.len());
        self.redo.len() > 0
    }

    /// How many snapshots there are to go back to.
    pub fn undo_depth(&self) -> (n: usize)
        ensures
            n == self@.undo.len(),
    {
        assert(view_stack(self.undo@).len() == self.undo.len());
        self.undo.len()
    }

    /// How many snapshots there are to go forward to.
    pub fn redo_depth(&self) -> (n: usize)
        ensures
            n == self@.redo.len(),
    {
        assert(view_stack(self.redo@).len() == self.redo.len());
        self.redo.len()
    }

    /// Records `snapshot` ahead of a change, and forgets what could be gone
    /// forward to.
    pub fn record(&mut self, snapshot: Buffer)
        requires
            old(self).wf(),
            snapshot_ok(snapshot@),
        ensures
            final(self)@ == old(self)@.recorded(snapshot@),
            final(self).wf(),
    {
        let ghost before = self@;
        self.undo.push(snapshot);
        self.redo = Vec::new();
        assert(self@.undo =~= before.undo.push(snapshot@));
        assert(self@.redo =~= Seq::empty());
    }

    /// Goes back: hands out the newest snapshot of the undo stack and keeps
    /// `current` to go forward to. Without a snapshot to go back to, hands
    /// `current` back and changes nothing.
    pub fn undo(&mut self, current: Buffer) -> (r: Buffer)
        requires
            old(self).wf(),
            snapshot_ok(current@),
        ensures
            final(self)@ == old(self)@.undone(current@),
            final(self).wf(),
            r@ == if old(self)@.undo.len() == 0 {
                current@
            } else {
                old(self)@.undo.last()
            },
            snapshot_ok(r@),
    {
        let ghost before = self@;
        assert(view_stack(self.undo@).len() == self.undo.len());
        match self.undo.pop() {
            None => current,
            Some(top) => {
                assert(top@ == before.undo.last());
                self.redo.push(current);
                assert(self@.undo =~= before.undo.drop_last());
                assert(self@.redo =~= before.redo.push(current@));
                top
            },
        }
    }

    /// Goes forward: hands out the newest snapshot of the redo stack and
    /// keeps `current` to go back to. Without a snapshot to go forward to,
    /// hands `current` back and changes nothing.
    pub fn redo(&mut self, current: Buffer) -> (r: Buffer)
        requires
            old(self).wf(),
            snapshot_ok(current@),
        ensures
            final(self)@ == old(self)@.redone(current@),
            final(self).wf(),
            r@ == if old(self)@.redo.len() == 0 {
                current@
            } else {
                old(self)@.redo.last()
            },
            snapshot_ok(r@),
    {
        let ghost before = self@;
        assert(view_stack(self.redo@).len() == self.redo.len());
        match self.redo.pop() {
            None => current,
            Some(top) => {
                assert(top@ == before.redo.last());
                self.undo.push(current);
                assert(self@.redo =~= before.redo.drop_last());
                assert(self@.undo =~= before.undo.push(current@));
                top
            },
        }
    }
}

} // verus!
