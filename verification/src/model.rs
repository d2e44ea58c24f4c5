//! The editor as a mathematical state machine: its state, and what one token
//! makes of it.

use crate::buffer::{at_rest, TextModel};
use crate::command::{command_of, is_operator_char, Command, Mode, Scroll, Signal};
use crate::history::HistoryModel;
use crate::key::{Key, Token};
use crate::motion::{fit, target, Motion};
use crate::register::{Clip, RegisterKind};
use crate::text::{in_bounds, precedes, range_text, Point};
use vstd::prelude::*;

verus! {

/// The state of an editor.
pub struct EditorModel {
    /// The lines and the cursor.
    pub text: TextModel,
    pub mode: Mode,
    /// The token kept from the last call, if it was one that waits for a
    /// second one; the null token otherwise.
    pub pending: Token,
    /// Where the selection began. Present in visual mode only.
    pub anchor: Option<Point>,
    pub register: Clip,
    pub history: HistoryModel,
}

/// Two places in reading order.
pub open spec fn ordered(a: Point, b: Point) -> (Point, Point) {
    if precedes(b, a) {
        (b, a)
    } else {
        (a, b)
    }
}

/// What a range of characters puts into the register: its text, or nothing
/// if the range is empty.
pub open spec fn clip_of_range(lines: Seq<Seq<char>>, s: Point, e: Point) -> Option<Clip> {
    if s == e {
        None
    } else {
        Some(Clip { text: range_text(lines, s, e), kind: RegisterKind::CharacterWise })
    }
}

/// The pieces that a line break consists of.
pub open spec fn line_break() -> Seq<Seq<char>> {
    seq![Seq::<char>::empty(), Seq::<char>::empty()]
}

/// The blanks that the tabulator key puts in at column `col`: as many as
/// lead to the next column that is a multiple of four.
pub open spec fn tab_blanks(col: int) -> Seq<char> {
    Seq::new((4 - col % 4) as nat, |i: int| ' ')
}

/// The text that a token inserts in insert mode at column `col`: a line
/// break for Enter and for the characters that stand for one, the character
/// itself for any other character pressed without control or alt, blanks up
/// to the next tab stop for the tabulator key pressed without control or
/// alt, nothing for the rest.
pub open spec fn text_of_token(t: Token, col: int) -> Option<Seq<Seq<char>>> {
    match t.key {
        Key::Enter => Some(line_break()),
        Key::Char(c) => if t.ctrl || t.alt {
            None
        } else if c == '\n' || c == '\r' {
            Some(line_break())
        } else {
            Some(seq![seq![c]])
        },
        Key::Tab => if t.ctrl || t.alt {
            None
        } else {
            Some(seq![tab_blanks(col)])
        },
        _ => None,
    }
}

/// The motion that a token asks for in insert mode: that of an arrow, of
/// Home or of End pressed without control or alt.
pub open spec fn motion_of_token(t: Token) -> Option<Motion> {
    if t.ctrl || t.alt {
        None
    } else {
        match t.key {
            Key::Left => Some(Motion::Back),
            Key::Right => Some(Motion::Forward),
            Key::Up => Some(Motion::Up),
            Key::Down => Some(Motion::Down),
            Key::Home => Some(Motion::Head),
            Key::End => Some(Motion::End),
            _ => None,
        }
    }
}

/// Whether a token ends insertion: Escape, or control-`c`.
pub open spec fn leaves_insert(t: Token) -> bool {
    t.key == Key::Esc || t.is_ctrl('c')
}

impl EditorModel {
    /// The invariant of the editor. The cursor names a place in the buffer,
    /// and outside of insert mode it rests on a character; there is an
    /// anchor, a place in the buffer, in visual mode and only then; a
    /// pending operator is `y`, `d` or `c`; the register and every snapshot
    /// are well formed.
    pub open spec fn wf(self) -> bool {
        &&& self.text.wf()
        &&& self.register.wf()
        &&& self.history.wf()
        &&& (self.mode != Mode::Insert ==> at_rest(self.text.lines, self.text.cursor))
        &&& (self.mode == Mode::Visual <==> self.anchor is Some)
        &&& (self.anchor is Some ==> in_bounds(self.text.lines, self.anchor->0))
        &&& (self.mode matches Mode::Operator(c) ==> is_operator_char(c))
    }

    /// The state of a fresh editor: one empty line, normal mode, nothing
    /// pending, selected, stored or recorded.
    pub open spec fn initial() -> EditorModel {
        EditorModel {
            text: TextModel {
                lines: seq![Seq::<char>::empty()],
                cursor: Point { line: 0, col: 0 },
            },
            mode: Mode::Normal,
            pending: Token::spec_null(),
            anchor: None,
            register: Clip::blank(),
            history: HistoryModel::empty(),
        }
    }

    /// The same state with another buffer.
    pub open spec fn with_text(self, text: TextModel) -> EditorModel {
        EditorModel { text, ..self }
    }

    /// The same state with another register content, if one is given.
    pub open spec fn with_clip(self, clip: Option<Clip>) -> EditorModel {
        match clip {
            Some(c) => EditorModel { register: c, ..self },
            None => self,
        }
    }

    /// A command is over and leaves the editor in `mode`: nothing is pending
    /// or selected any more, and outside of insert mode the cursor is
    /// brought to rest.
    pub open spec fn settled(self, mode: Mode) -> EditorModel {
        EditorModel {
            text: if mode == Mode::Insert {
                self.text
            } else {
                self.text.rested()
            },
            mode,
            pending: Token::spec_null(),
            anchor: None,
            ..self
        }
    }

    /// A snapshot of the buffer, the cursor at rest, is put on the undo
    /// stack, and the redo stack is emptied.
    pub open spec fn checkpointed(self) -> EditorModel {
        EditorModel { history: self.history.recorded(self.text.rested()), ..self }
    }

    /// The selection in reading order, if there is one and it is not empty.
    pub open spec fn selection(self) -> Option<(Point, Point)> {
        match self.anchor {
            Some(a) => if self.mode == Mode::Visual && a != self.text.cursor {
                Some(ordered(a, self.text.cursor))
            } else {
                None
            },
            None => None,
        }
    }

    /// Operator `op` applied to the text from `s` up to `e`, with `clip` as
    /// what goes into the register. `d` and `c` record a snapshot, take the
    /// text out and leave the cursor at `s`, in normal and in insert mode; any
    /// other operator copies: the text stays and the cursor goes to `s`.
    pub open spec fn operated(self, op: char, s: Point, e: Point, clip: Option<Clip>) -> EditorModel {
        if op == 'd' || op == 'c' {
            let base = self.checkpointed();
            base.with_text(base.text.removed(s, e)).with_clip(clip).settled(
                if op == 'd' {
                    Mode::Normal
                } else {
                    Mode::Insert
                },
            )
        } else {
            self.with_text(self.text.at(s)).with_clip(clip).settled(Mode::Normal)
        }
    }

    /// Where motion `m` takes the cursor. While an operator is pending the
    /// motion to the end of a word goes one place further, so that the
    /// operator takes in the last character of the word.
    pub open spec fn destination(self, m: Motion) -> Point {
        let d = target(self.text.lines, self.text.cursor, m);
        if m == Motion::WordEnd && self.mode is Operator {
            target(self.text.lines, d, Motion::Forward)
        } else {
            d
        }
    }

    /// The cursor has been sent to `dest`. A pending operator is applied to
    /// the text between the cursor and `dest`; otherwise the cursor goes
    /// there and comes to rest, and nothing is pending any more.
    pub open spec fn arrived(self, dest: Point) -> EditorModel {
        match self.mode {
            Mode::Operator(op) => {
                let (s, e) = ordered(self.text.cursor, dest);
                self.operated(op, s, e, clip_of_range(self.text.lines, s, e))
            },
            _ => EditorModel {
                text: self.text.at(dest).rested(),
                pending: Token::spec_null(),
                ..self
            },
        }
    }

    /// The buffer without the selection, if there is one.
    pub open spec fn text_without_selection(self) -> TextModel {
        match self.selection() {
            Some((s, e)) => self.text.removed(s, e),
            None => self.text,
        }
    }

    /// `x`: a snapshot is recorded; the selection is taken out if there is
    /// one, else the character under the cursor, or the line break where the
    /// cursor stands at the end of a line.
    pub open spec fn struck(self) -> EditorModel {
        let base = self.checkpointed();
        let text = match self.selection() {
            Some((s, e)) => self.text.removed(s, e),
            None => self.text.removed(
                self.text.cursor,
                target(self.text.lines, self.text.cursor, Motion::Forward),
            ),
        };
        base.with_text(text).settled(Mode::Normal)
    }

    /// `D` and `C`: a snapshot is recorded; the selection is taken out if
    /// there is one, else the text from the cursor to the end of the line,
    /// which goes into the register.
    pub open spec fn cut_to_end(self, mode: Mode) -> EditorModel {
        let base = self.checkpointed();
        match self.selection() {
            Some((s, e)) => base.with_text(self.text.removed(s, e)).settled(mode),
            None => {
                let s = self.text.cursor;
                let e = target(self.text.lines, s, Motion::End);
                base.with_text(self.text.removed(s, e)).with_clip(
                    clip_of_range(self.text.lines, s, e),
                ).settled(mode)
            },
        }
    }

    /// `p`: a snapshot is recorded and the selection, if there is one, is
    /// taken out. Lines from the register go in below the line of the
    /// cursor, which ends at the head of the first of them. Characters go in
    /// after the character under the cursor, which ends past the last of
    /// them; a register that holds nothing leaves the buffer as it is.
    pub open spec fn pasted(self) -> EditorModel {
        let base = self.checkpointed();
        let text = self.text_without_selection();
        let after = if self.register.kind == RegisterKind::LineWise {
            text.lines_added_below(self.register.text)
        } else if self.register.is_blank() {
            text
        } else {
            text.inserted(after_cursor(text), self.register.text)
        };
        base.with_text(after).settled(Mode::Normal)
    }

    /// `u`: the newest snapshot of the undo stack becomes the buffer, and
    /// the buffer from before goes onto the redo stack. Without a snapshot
    /// the buffer stays.
    pub open spec fn undone(self) -> EditorModel {
        let text = if self.history.undo.len() > 0 {
            self.history.undo.last()
        } else {
            self.text
        };
        EditorModel { text, history: self.history.undone(self.text), ..self }.settled(Mode::Normal)
    }

    /// Control-`r`: the newest snapshot of the redo stack becomes the
    /// buffer, and the buffer from before goes onto the undo stack. Without
    /// a snapshot the buffer stays.
    pub open spec fn redone(self) -> EditorModel {
        let text = if self.history.redo.len() > 0 {
            self.history.redo.last()
        } else {
            self.text
        };
        EditorModel { text, history: self.history.redone(self.text), ..self }.settled(Mode::Normal)
    }

    /// `o` and `O`: a snapshot is recorded and an empty line is opened below
    /// or above the line of the cursor, which goes to it, in insert mode.
    pub open spec fn opened(self, below: bool) -> EditorModel {
        let base = self.checkpointed();
        let row = self.text.cursor.line;
        let text = if below {
            self.text.inserted(
                target(self.text.lines, self.text.cursor, Motion::End),
                line_break(),
            )
        } else {
            self.text.inserted(Point { line: row, col: 0 }, line_break()).at(
                Point { line: row, col: 0 },
            )
        };
        base.with_text(text).settled(Mode::Insert)
    }

    /// The operator's character was pressed again: the operator is applied
    /// to the line of the cursor, from its head up to the head of the next
    /// line, or up to its end if it is the last. The register gets the line
    /// as a whole.
    pub open spec fn line_operated(self) -> EditorModel {
        match self.mode {
            Mode::Operator(op) => {
                let row = self.text.cursor.line;
                let s = Point { line: row, col: 0 };
                let e = if row + 1 < self.text.lines.len() {
                    Point { line: row + 1, col: 0 }
                } else {
                    Point { line: row, col: self.text.lines[row].len() as int }
                };
                self.operated(
                    op,
                    s,
                    e,
                    Some(Clip { text: seq![self.text.lines[row]], kind: RegisterKind::LineWise }),
                )
            },
            _ => self,
        }
    }

    /// An operator was pressed during a selection: the cursor goes one place
    /// forward, so that the character under it is taken in, and the operator
    /// is applied to the text between the anchor and the cursor.
    pub open spec fn selection_operated(self, op: char) -> EditorModel {
        match self.anchor {
            Some(a) => {
                let c = target(self.text.lines, self.text.cursor, Motion::Forward);
                let (s, e) = ordered(a, c);
                self.operated(op, s, e, clip_of_range(self.text.lines, s, e))
            },
            None => self,
        }
    }

    /// What command `cmd`, read from token `t`, makes of the state.
    #[verifier::opaque]
    pub open spec fn run(self, cmd: Command, t: Token) -> EditorModel {
        match cmd {
            Command::Pend => EditorModel { pending: t, ..self },
            Command::Move(m) => self.arrived(self.destination(m)),
            Command::Scroll(_) => EditorModel { pending: Token::spec_null(), ..self },
            Command::DeleteChar => self.struck(),
            Command::DeleteToEnd => self.cut_to_end(Mode::Normal),
            Command::ChangeToEnd => self.cut_to_end(Mode::Insert),
            Command::Paste => self.pasted(),
            Command::Undo => self.undone(),
            Command::Redo => self.redone(),
            Command::InsertHere => self.settled(Mode::Insert),
            Command::Append => self.with_text(self.text.at(after_cursor(self.text))).settled(
                Mode::Insert,
            ),
            Command::AppendEnd => self.with_text(self.text.moved(Motion::End)).settled(
                Mode::Insert,
            ),
            Command::OpenBelow => self.opened(true),
            Command::OpenAbove => self.opened(false),
            Command::InsertHead => self.with_text(self.text.moved(Motion::Head)).settled(
                Mode::Insert,
            ),
            Command::Quit => self,
            Command::StartVisual => EditorModel {
                mode: Mode::Visual,
                anchor: Some(self.text.cursor),
                pending: Token::spec_null(),
                ..self
            },
            Command::StartVisualLine => EditorModel {
                text: self.text.moved(Motion::End).rested(),
                mode: Mode::Visual,
                anchor: Some(Point { line: self.text.cursor.line, col: 0 }),
                pending: Token::spec_null(),
                ..self
            },
            Command::Cancel => self.settled(Mode::Normal),
            Command::StartOperator(op) => EditorModel {
                mode: Mode::Operator(op),
                pending: t,
                ..self
            },
            Command::LineOperator => self.line_operated(),
            Command::VisualOperator(op) => self.selection_operated(op),
        }
    }

    /// What token `t` makes of the state in insert mode. Escape and
    /// control-`c` lead back to normal mode. An arrow, Home or End moves the
    /// cursor, which may stand past the end of the line. Backspace and
    /// Delete record a snapshot and take out the character before the
    /// cursor and the one under it; at the head and at the end of a line
    /// that is the line break. A token that carries text records a snapshot
    /// and puts its text in at the cursor, which ends past it. Any other
    /// token changes nothing. Insert mode has no shortcuts: but for
    /// control-`c` and Enter, a key pressed with control or alt is such
    /// another token, be it a character, an arrow, Home, End, Backspace,
    /// Delete or the tabulator key.
    pub open spec fn typed(self, t: Token) -> EditorModel {
        let cur = self.text.cursor;
        if leaves_insert(t) {
            self.settled(Mode::Normal)
        } else if motion_of_token(t) is Some {
            self.with_text(self.text.moved(motion_of_token(t)->0))
        } else if t.is_bare(Key::Backspace) {
            self.checkpointed().with_text(
                self.text.removed(target(self.text.lines, cur, Motion::Back), cur),
            )
        } else if t.is_bare(Key::Delete) {
            self.checkpointed().with_text(
                self.text.removed(cur, target(self.text.lines, cur, Motion::Forward)),
            )
        } else {
            match text_of_token(t, cur.col) {
                Some(text) => self.checkpointed().with_text(self.text.inserted(cur, text)),
                None => self,
            }
        }
    }

    /// The state after token `t`. The null token changes nothing in any
    /// mode.
    pub open spec fn next(self, t: Token) -> EditorModel {
        if t.key == Key::Null {
            self
        } else if self.mode == Mode::Insert {
            self.typed(t)
        } else {
            self.run(command_of(self.mode, self.pending, t), t)
        }
    }

    /// The signal after token `t`: `Cancel` for the command to quit, which
    /// insert mode does not have, and `Continue` for everything else.
    pub open spec fn signal(self, t: Token) -> Signal {
        if t.key != Key::Null && self.mode != Mode::Insert && command_of(
            self.mode,
            self.pending,
            t,
        ) == Command::Quit {
            Signal::Cancel
        } else {
            Signal::Continue
        }
    }

    /// Whether token `t` is read as an edit: a command that is there to
    /// change the text. A snapshot is recorded before an edit takes effect,
    /// also where the edit then finds nothing to change, such as `x` in an
    /// empty buffer.
    pub open spec fn edits(self, t: Token) -> bool {
        if t.key == Key::Null {
            false
        } else if self.mode == Mode::Insert {
            !leaves_insert(t) && motion_of_token(t) is None && (t.is_bare(Key::Backspace)
                || t.is_bare(Key::Delete) || text_of_token(t, self.text.cursor.col) is Some)
        } else {
            match command_of(self.mode, self.pending, t) {
                Command::DeleteChar => true,
                Command::DeleteToEnd => true,
                Command::ChangeToEnd => true,
                Command::Paste => true,
                Command::OpenBelow => true,
                Command::OpenAbove => true,
                Command::Move(_) => self.mode == Mode::Operator('d') || self.mode == Mode::Operator(
                    'c',
                ),
                Command::LineOperator => self.mode == Mode::Operator('d') || self.mode
                    == Mode::Operator('c'),
                Command::VisualOperator(op) => op == 'd' || op == 'c',
                _ => false,
            }
        }
    }

    /// The movement of the viewport that token `t` asks for, if it asks for
    /// one. In insert mode the page keys and the mouse wheel ask for one;
    /// in the other modes, control with `e`, `y`, `d`, `u`, `f` or `b`.
    pub open spec fn scroll_request(self, t: Token) -> Option<Scroll> {
        if self.mode == Mode::Insert {
            match t.key {
                Key::PageDown => Some(Scroll::PageDown),
                Key::PageUp => Some(Scroll::PageUp),
                Key::MouseScrollDown => Some(Scroll::LineDown),
                Key::MouseScrollUp => Some(Scroll::LineUp),
                _ => None,
            }
        } else {
            match command_of(self.mode, self.pending, t) {
                Command::Scroll(s) => Some(s),
                _ => None,
            }
        }
    }
}

/// The place after the character under the cursor: one column on, or the
/// end of the line where the cursor already stands there.
pub open spec fn after_cursor(t: TextModel) -> Point {
    Point {
        line: t.cursor.line,
        col: fit(t.cursor.col + 1, t.lines[t.cursor.line].len() as int),
    }
}

} // verus!
