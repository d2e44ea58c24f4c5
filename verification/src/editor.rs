//! The editor: a buffer, a mode, a register and a history, driven by key
//! tokens one at a time.

use crate::buffer::{Buffer, TextModel};
use crate::command::{read_command, Command, Mode, Scroll, Signal};
use crate::history::History;
use crate::key::{classify, token_of, Key, RawEvent, Token};
use crate::laws::{
    lemma_next_wf, lemma_ordered_range, lemma_pasted_wf, lemma_selection_range,
};
use crate::model::{
    clip_of_range, leaves_insert, line_break, motion_of_token, ordered, tab_blanks,
    text_of_token, EditorModel,
};
use crate::motion::{lemma_target_in_bounds, target, Motion};
use crate::register::{Register, RegisterKind};
use crate::strings::{join_lines, joined, split, split_lines, strings_of};
use crate::text::{in_bounds, range_ok, view_lines, Point, Pos};
use vstd::prelude::*;

verus! {

/// The view of an optional position.
pub open spec fn view_anchor(a: Option<Pos>) -> Option<Point> {
    match a {
        Some(p) => Some(p@),
        None => None,
    }
}

/// The state of one editing session.
pub struct EditorState {
    buffer: Buffer,
    mode: Mode,
    pending: Token,
    anchor: Option<Pos>,
    register: Register,
    history: History,
}

impl View for EditorState {
    type V = EditorModel;

    closed spec fn view(&self) -> EditorModel {
        EditorModel {
            text: self.buffer@,
            mode: self.mode,
            pending: self.pending,
            anchor: view_anchor(self.anchor),
            register: self.register@,
            history: self.history@,
        }
    }
}

/// Two positions in reading order.
fn in_order(a: Pos, b: Pos) -> (r: (Pos, Pos))
    ensures
        (r.0@, r.1@) == ordered(a@, b@),
{
    if b.line < a.line || (b.line == a.line && b.col < a.col) {
        (b, a)
    } else {
        (a, b)
    }
}

/// The two pieces of a line break.
fn break_pieces() -> (r: Vec<Vec<char>>)
    ensures
        view_lines(r@) == line_break(),
        r.len() == 2,
{
    let mut r: Vec<Vec<char>> = Vec::new();
    r.push(Vec::new());
    r.push(Vec::new());
    assert(view_lines(r@) =~= line_break());
    r
}

/// As many blanks as lead from column `col` to the next tab stop.
fn blanks_to_tab_stop(col: usize) -> (r: Vec<char>)
    ensures
        r@ == tab_blanks(col as int),
{
    let count: usize = 4 - col % 4;
    let mut r: Vec<char> = Vec::new();
    let mut i: usize = 0;
    while i < count
        invariant
            i <= count,
            r@ == Seq::new(i as nat, |k: int| ' '),
        decreases count - i,
    {
        r.push(' ');
        i += 1;
        assert(r@ =~= Seq::new(i as nat, |k: int| ' '));
    }
    r
}

/// The pieces that a token inserts in insert mode at column `col`, if it
/// carries text.
fn pieces_of_token(t: Token, col: usize) -> (r: Option<Vec<Vec<char>>>)
    ensures
        match r {
            Some(v) => text_of_token(t, col as int) == Some(view_lines(v@)) && v.len() >= 1,
            None => text_of_token(t, col as int) is None,
        },
{
    match t.key {
        Key::Enter => Some(break_pieces()),
        Key::Char(c) => {
            if t.ctrl || t.alt {
                None
            } else if c == '\n' || c == '\r' {
                Some(break_pieces())
            } else {
                let mut piece: Vec<char> = Vec::new();
                piece.push(c);
                let mut r: Vec<Vec<char>> = Vec::new();
                r.push(piece);
                assert(piece@ =~= seq![c]);
                assert(view_lines(r@) =~= seq![seq![c]]);
                Some(r)
            }
        },
        Key::Tab => {
            if t.ctrl || t.alt {
                None
            } else {
                let piece = blanks_to_tab_stop(col);
                let mut r: Vec<Vec<char>> = Vec::new();
                r.push(piece);
                assert(view_lines(r@) =~= seq![tab_blanks(col as int)]);
                Some(r)
            }
        },
        _ => None,
    }
}

/// The motion that a token asks for in insert mode, if it asks for one.
fn motion_for_token(t: Token) -> (r: Option<Motion>)
    ensures
        r == motion_of_token(t),
{
    if t.ctrl || t.alt {
        None
    } else {
        match t.key {
            Key::Left => Some(Motion::Back),
            Key::Right => Some(Motion::Forward),
            Key::Up => Some(Motion::Up),
            Key::Down => Some(Motion::Down),
            Key::Home => Some(Motion::Head),
            Key::End => Some(Motion::End),
            _ => None,
        }
    }
}

impl EditorState {
    /// The invariant of the editor holds.
    pub open spec fn wf(&self) -> bool {
        self@.wf()
    }

    /// A fresh editor: one empty line, normal mode.
    pub fn new() -> (s: EditorState)
        ensures
            s@ == EditorModel::initial(),
            s.wf(),
    {
        EditorState {
            buffer: Buffer::new(),
            mode: Mode::Normal,
            pending: Token::null(),
            anchor: None,
            register: Register::new(),
            history: History::new(),
        }
    }

    /// An editor in normal mode on the given lines, the cursor at the head
    /// of the first. No lines at all stand for one empty line.
    pub fn with_lines(lines: Vec<Vec<char>>) -> (s: EditorState)
        ensures
            s@ == EditorModel::initial().with_text(
                TextModel {
                    lines: if lines.len() == 0 {
                        seq![Seq::<char>::empty()]
                    } else {
                        view_lines(lines@)
                    },
                    cursor: Point { line: 0, col: 0 },
                },
            ),
            s.wf(),
    {
        EditorState {
            buffer: Buffer::with_lines(lines),
            mode: Mode::Normal,
            pending: Token::null(),
            anchor: None,
            register: Register::new(),
            history: History::new(),
        }
    }

    /// A command is over and leaves the editor in `mode`.
    fn settle(&mut self, mode: Mode)
        requires
            old(self).buffer.wf(),
        ensures
            final(self)@ == old(self)@.settled(mode),
    {
        if mode != Mode::Insert {
            self.buffer.rest();
        }
        self.mode = mode;
        self.pending = Token::null();
        self.anchor = None;
    }

    /// Records a snapshot of the buffer ahead of a change.
    fn checkpoint(&mut self)
        requires
            old(self).buffer.wf(),
            old(self).history.wf(),
        ensures
            final(self)@ == old(self)@.checkpointed(),
    {
        let mut snap = self.buffer.snapshot();
        snap.rest();
        self.history.record(snap);
    }

    /// The selection in reading order, if there is one and it is not empty.
    fn selected(&self) -> (r: Option<(Pos, Pos)>)
        ensures
            match r {
                Some((a, b)) => self@.selection() == Some((a@, b@)),
                None => self@.selection() is None,
            },
    {
        match self.anchor {
            Some(a) => {
                let c = self.buffer.cursor();
                if self.mode == Mode::Visual && !(a.line == c.line && a.col == c.col) {
                    Some(in_order(a, c))
                } else {
                    None
                }
            },
            None => None,
        }
    }

    /// Puts the characters from `s` up to `e` into the register, unless the
    /// range is empty.
    fn keep_range(&mut self, s: Pos, e: Pos)
        requires
            range_ok(old(self)@.text.lines, s@, e@),
        ensures
            final(self)@ == old(self)@.with_clip(clip_of_range(old(self)@.text.lines, s@, e@)),
    {
        if !(s.line == e.line && s.col == e.col) {
            let text = self.buffer.text_between(s, e);
            assert(view_lines(text@).len() == text.len());
            self.register.store(text, RegisterKind::CharacterWise);
        }
    }

    /// Applies operator `op` to the text from `s` up to `e`. What goes into
    /// the register must have been put there before.
    fn operate(&mut self, op: char, s: Pos, e: Pos)
        requires
            old(self).buffer.wf(),
            old(self).history.wf(),
            range_ok(old(self)@.text.lines, s@, e@),
        ensures
            final(self)@ == old(self)@.operated(op, s@, e@, None),
    {
        if op == 'd' || op == 'c' {
            self.checkpoint();
            self.buffer.remove(s, e);
            self.settle(
                if op == 'd' {
                    Mode::Normal
                } else {
                    Mode::Insert
                },
            );
        } else {
            self.buffer.set_cursor(s);
            self.settle(Mode::Normal);
        }
    }

    /// The cursor has been sent to `dest`.
    fn arrive(&mut self, dest: Pos)
        requires
            old(self).wf(),
            old(self)@.mode != Mode::Insert,
            in_bounds(old(self)@.text.lines, dest@),
        ensures
            final(self)@ == old(self)@.arrived(dest@),
    {
        match self.mode {
            Mode::Operator(op) => {
                let (s, e) = in_order(self.buffer.cursor(), dest);
                proof {
                    lemma_ordered_range(self@.text.lines, self@.text.cursor, dest@);
                }
                self.keep_range(s, e);
                self.operate(op, s, e);
            },
            _ => {
                self.buffer.set_cursor(dest);
                self.buffer.rest();
                self.pending = Token::null();
            },
        }
    }

    /// `x`.
    fn strike(&mut self)
        requires
            old(self).wf(),
            old(self)@.mode != Mode::Insert,
        ensures
            final(self)@ == old(self)@.struck(),
    {
        proof {
            lemma_selection_range(self@);
            lemma_target_in_bounds(self@.text.lines, self@.text.cursor, Motion::Forward);
        }
        let sel = self.selected();
        let (s, e) = match sel {
            Some(r) => r,
            None => (self.buffer.cursor(), self.buffer.target_of(Motion::Forward)),
        };
        self.checkpoint();
        self.buffer.remove(s, e);
        self.settle(Mode::Normal);
    }

    /// `D` and `C`.
    fn cut_to_end(&mut self, mode: Mode)
        requires
            old(self).wf(),
            old(self)@.mode != Mode::Insert,
        ensures
            final(self)@ == old(self)@.cut_to_end(mode),
    {
        proof {
            lemma_selection_range(self@);
            lemma_target_in_bounds(self@.text.lines, self@.text.cursor, Motion::End);
        }
        match self.selected() {
            Some((s, e)) => {
                self.checkpoint();
                self.buffer.remove(s, e);
                self.settle(mode);
            },
            None => {
                let s = self.buffer.cursor();
                let e = self.buffer.target_of(Motion::End);
                self.keep_range(s, e);
                self.checkpoint();
                self.buffer.remove(s, e);
                self.settle(mode);
            },
        }
    }

    /// `p`.
    fn paste(&mut self)
        requires
            old(self).wf(),
            old(self)@.mode != Mode::Insert,
        ensures
            final(self)@ == old(self)@.pasted(),
    {
        proof {
            lemma_selection_range(self@);
            lemma_pasted_wf(self@);
        }
        let sel = self.selected();
        self.checkpoint();
        match sel {
            Some((s, e)) => {
                self.buffer.remove(s, e);
            },
            None => {},
        }
        assert(self.buffer@ == old(self)@.text_without_selection());
        let text = self.register.text();
        assert(view_lines(text@).len() == text.len());
        if self.register.kind() == RegisterKind::LineWise {
            self.buffer.add_lines_below(&text);
        } else if !self.register.is_blank() {
            let c = self.buffer.cursor();
            let len = self.buffer.line_len(c.line);
            let col = if c.col < len {
                c.col + 1
            } else {
                len
            };
            self.buffer.insert(Pos { line: c.line, col }, &text);
        }
        self.settle(Mode::Normal);
    }

    /// `u`.
    fn undo(&mut self)
        requires
            old(self).wf(),
            old(self)@.mode != Mode::Insert,
        ensures
            final(self)@ == old(self)@.undone(),
    {
        let current = self.buffer.snapshot();
        self.buffer = self.history.undo(current);
        self.settle(Mode::Normal);
    }

    /// Control-`r`.
    fn redo(&mut self)
        requires
            old(self).wf(),
            old(self)@.mode != Mode::Insert,
        ensures
            final(self)@ == old(self)@.redone(),
    {
        let current = self.buffer.snapshot();
        self.buffer = self.history.redo(current);
        self.settle(Mode::Normal);
    }

    /// `o` and `O`.
    fn open_line(&mut self, below: bool)
        requires
            old(self).wf(),
            old(self)@.mode != Mode::Insert,
        ensures
            final(self)@ == old(self)@.opened(below),
    {
        proof {
            lemma_target_in_bounds(self@.text.lines, self@.text.cursor, Motion::End);
        }
        let pieces = break_pieces();
        let row = self.buffer.cursor().line;
        self.checkpoint();
        if below {
            let p = self.buffer.target_of(Motion::End);
            self.buffer.insert(p, &pieces);
        } else {
            let p = Pos { line: row, col: 0 };
            self.buffer.insert(p, &pieces);
            self.buffer.set_cursor(p);
        }
        self.settle(Mode::Insert);
    }

    /// The operator's character was pressed again.
    fn operate_on_line(&mut self)
        requires
            old(self).wf(),
            old(self)@.mode != Mode::Insert,
        ensures
            final(self)@ == old(self)@.line_operated(),
    {
        match self.mode {
            Mode::Operator(op) => {
                let row = self.buffer.cursor().line;
                let s = Pos { line: row, col: 0 };
                let count = self.buffer.line_count();
                let e = if row + 1 < count {
                    Pos { line: row + 1, col: 0 }
                } else {
                    Pos { line: row, col: self.buffer.line_len(row) }
                };
                let mut text: Vec<Vec<char>> = Vec::new();
                text.push(self.buffer.line(row));
                assert(view_lines(text@) =~= seq![self@.text.lines[row as int]]);
                self.register.store(text, RegisterKind::LineWise);
                self.operate(op, s, e);
            },
            _ => {},
        }
    }

    /// An operator was pressed during a selection.
    fn operate_on_selection(&mut self, op: char)
        requires
            old(self).wf(),
            old(self)@.mode != Mode::Insert,
        ensures
            final(self)@ == old(self)@.selection_operated(op),
    {
        match self.anchor {
            Some(a) => {
                proof {
                    lemma_target_in_bounds(self@.text.lines, self@.text.cursor, Motion::Forward);
                    lemma_ordered_range(
                        self@.text.lines,
                        a@,
                        target(self@.text.lines, self@.text.cursor, Motion::Forward),
                    );
                }
                let c = self.buffer.target_of(Motion::Forward);
                let (s, e) = in_order(a, c);
                self.keep_range(s, e);
                self.operate(op, s, e);
            },
            None => {},
        }
    }

    /// Carries out command `cmd`, read from token `t`.
    fn run(&mut self, cmd: Command, t: Token)
        requires
            old(self).wf(),
            old(self)@.mode != Mode::Insert,
        ensures
            final(self)@ == old(self)@.run(cmd, t),
    {
        reveal(EditorModel::run);
        match cmd {
            Command::Pend => {
                self.pending = t;
            },
            Command::Move(m) => {
                proof {
                    let lines = self@.text.lines;
                    lemma_target_in_bounds(lines, self@.text.cursor, m);
                    lemma_target_in_bounds(
                        lines,
                        target(lines, self@.text.cursor, m),
                        Motion::Forward,
                    );
                }
                let mut dest = self.buffer.target_of(m);
                let pending_operator = match self.mode {
                    Mode::Operator(_) => true,
                    _ => false,
                };
                if m == Motion::WordEnd && pending_operator {
                    let lines = self.buffer.lines();
                    dest = crate::motion::move_from(&lines, dest, Motion::Forward);
                }
                self.arrive(dest);
            },
            Command::Scroll(_) => {
                self.pending = Token::null();
            },
            Command::DeleteChar => self.strike(),
            Command::DeleteToEnd => self.cut_to_end(Mode::Normal),
            Command::ChangeToEnd => self.cut_to_end(Mode::Insert),
            Command::Paste => self.paste(),
            Command::Undo => self.undo(),
            Command::Redo => self.redo(),
            Command::InsertHere => self.settle(Mode::Insert),
            Command::Append => {
                let c = self.buffer.cursor();
                let len = self.buffer.line_len(c.line);
                let col = if c.col < len {
                    c.col + 1
                } else {
                    len
                };
                self.buffer.set_cursor(Pos { line: c.line, col });
                self.settle(Mode::Insert);
            },
            Command::AppendEnd => {
                self.buffer.move_cursor(Motion::End);
                self.settle(Mode::Insert);
            },
            Command::OpenBelow => self.open_line(true),
            Command::OpenAbove => self.open_line(false),
            Command::InsertHead => {
                self.buffer.move_cursor(Motion::Head);
                self.settle(Mode::Insert);
            },
            Command::Quit => {},
            Command::StartVisual => {
                self.anchor = Some(self.buffer.cursor());
                self.mode = Mode::Visual;
                self.pending = Token::null();
            },
            Command::StartVisualLine => {
                let row = self.buffer.cursor().line;
                self.anchor = Some(Pos { line: row, col: 0 });
                self.buffer.move_cursor(Motion::End);
                self.buffer.rest();
                self.mode = Mode::Visual;
                self.pending = Token::null();
            },
            Command::Cancel => self.settle(Mode::Normal),
            Command::StartOperator(op) => {
                self.mode = Mode::Operator(op);
                self.pending = t;
            },
            Command::LineOperator => self.operate_on_line(),
            Command::VisualOperator(op) => self.operate_on_selection(op),
        }
    }

    /// Takes token `t` in insert mode.
    fn type_token(&mut self, t: Token)
        requires
            old(self).wf(),
            old(self)@.mode == Mode::Insert,
        ensures
            final(self)@ == old(self)@.typed(t),
    {
        let leaves = match t.key {
            Key::Esc => true,
            Key::Char(c) => c == 'c' && t.ctrl,
            _ => false,
        };
        assert(leaves == leaves_insert(t));
        let bare = !t.ctrl && !t.alt;
        let c = self.buffer.cursor();
        proof {
            lemma_target_in_bounds(self@.text.lines, self@.text.cursor, Motion::Back);
            lemma_target_in_bounds(self@.text.lines, self@.text.cursor, Motion::Forward);
        }
        if leaves {
            self.settle(Mode::Normal);
        } else if let Some(m) = motion_for_token(t) {
            self.buffer.move_cursor(m);
        } else if bare && t.key == Key::Backspace {
            let from = self.buffer.target_of(Motion::Back);
            self.checkpoint();
            self.buffer.remove(from, c);
        } else if bare && t.key == Key::Delete {
            let to = self.buffer.target_of(Motion::Forward);
            self.checkpoint();
            self.buffer.remove(c, to);
        } else {
            match pieces_of_token(t, c.col) {
                Some(pieces) => {
                    self.checkpoint();
                    self.buffer.insert(c, &pieces);
                },
                None => {},
            }
        }
    }

    /// Takes one token: the state becomes what the state machine makes of it,
    /// and the signal for the host is returned. The invariant is kept.
    pub fn transition(&mut self, t: Token) -> (sig: Signal)
        requires
            old(self).wf(),
        ensures
            final(self)@ == old(self)@.next(t),
            sig == old(self)@.signal(t),
            final(self).wf(),
    {
        proof {
            lemma_next_wf(self@, t);
        }
        match t.key {
            Key::Null => Signal::Continue,
            _ => {
                if self.mode == Mode::Insert {
                    self.type_token(t);
                    Signal::Continue
                } else {
                    let cmd = read_command(self.mode, self.pending, t);
                    self.run(cmd, t);
                    if cmd == Command::Quit {
                        Signal::Cancel
                    } else {
                        Signal::Continue
                    }
                }
            },
        }
    }

    /// An editor in normal mode on the lines of `text`, the cursor at the
    /// head of the first.
    pub fn with_text(text: &str) -> (s: EditorState)
        ensures
            s@ == EditorModel::initial().with_text(
                TextModel { lines: split(text@), cursor: Point { line: 0, col: 0 } },
            ),
            s.wf(),
    {
        EditorState::with_lines(split_lines(text))
    }

    /// Takes one raw event: it is classified, and its token is taken as
    /// [`EditorState::transition`] takes it. Returns whether the editor is
    /// to be left.
    pub fn input(&mut self, event: RawEvent) -> (quit: bool)
        requires
            old(self).wf(),
        ensures
            final(self).wf(),
            final(self)@ == old(self)@.next(token_of(event)),
            quit == (old(self)@.signal(token_of(event)) == Signal::Cancel),
    {
        let sig = self.transition(classify(event));
        sig == Signal::Cancel
    }

    /// The text of the buffer: its lines joined by line feeds.
    pub fn text(&self) -> (s: String)
        ensures
            s@ == joined(self@.text.lines),
    {
        let lines = self.buffer.lines();
        join_lines(&lines)
    }

    /// The lines of the buffer.
    pub fn lines(&self) -> (r: Vec<String>)
        ensures
            r.len() == self@.text.lines.len(),
            forall|i: int| 0 <= i < r.len() ==> (#[trigger] r[i])@ == self@.text.lines[i],
    {
        let lines = self.buffer.lines();
        assert(view_lines(lines@).len() == lines.len());
        let r = strings_of(&lines);
        assert forall|i: int| 0 <= i < r.len() implies (#[trigger] r[i])@
            == self@.text.lines[i] by {
            assert(view_lines(lines@)[i] == lines@[i]@);
        }
        r
    }

    /// The place of the cursor.
    pub fn cursor(&self) -> (p: Pos)
        ensures
            p@ == self@.text.cursor,
    {
        self.buffer.cursor()
    }

    /// The number of lines of the buffer.
    pub fn line_count(&self) -> (n: usize)
        ensures
            n == self@.text.lines.len(),
    {
        self.buffer.line_count()
    }

    /// The mode.
    pub fn mode(&self) -> (m: Mode)
        ensures
            m == self@.mode,
    {
        self.mode
    }

    /// The pending token; the null token if there is none.
    pub fn pending(&self) -> (t: Token)
        ensures
            t == self@.pending,
    {
        self.pending
    }

    /// Where the selection began, while there is one.
    pub fn anchor(&self) -> (r: Option<Pos>)
        ensures
            view_anchor(r) == self@.anchor,
    {
        self.anchor
    }

    /// The anchor and the cursor in reading order, while there is a
    /// selection.
    pub fn selection(&self) -> (r: Option<(Pos, Pos)>)
        ensures
            match r {
                Some((a, b)) => self@.anchor is Some && (a@, b@) == ordered(
                    self@.anchor->0,
                    self@.text.cursor,
                ),
                None => self@.anchor is None,
            },
    {
        match self.anchor {
            Some(a) => Some(in_order(a, self.buffer.cursor())),
            None => None,
        }
    }

    /// The text in the register, its pieces joined by line feeds.
    pub fn register_text(&self) -> (s: String)
        ensures
            s@ == joined(self@.register.text),
    {
        let pieces = self.register.text();
        join_lines(&pieces)
    }

    /// The kind of the text in the register.
    pub fn register_kind(&self) -> (k: RegisterKind)
        ensures
            k == self@.register.kind,
    {
        self.register.kind()
    }

    /// How many snapshots there are to go back to.
    pub fn undo_depth(&self) -> (n: usize)
        ensures
            n == self@.history.undo.len(),
    {
        self.history.undo_depth()
    }

    /// How many snapshots there are to go forward to.
    pub fn redo_depth(&self) -> (n: usize)
        ensures
            n == self@.history.redo.len(),
    {
        self.history.redo_depth()
    }

    /// The movement of the viewport that token `t` asks for, if it asks for
    /// one. The buffer is not touched by it; moving the viewport is up to
    /// the caller.
    pub fn scroll_request(&self, t: Token) -> (r: Option<Scroll>)
        ensures
            r == self@.scroll_request(t),
    {
        if self.mode == Mode::Insert {
            match t.key {
                Key::PageDown => Some(Scroll::PageDown),
                Key::PageUp => Some(Scroll::PageUp),
                Key::MouseScrollDown => Some(Scroll::LineDown),
                Key::MouseScrollUp => Some(Scroll::LineUp),
                _ => None,
            }
        } else {
            match read_command(self.mode, self.pending, t) {
                Command::Scroll(s) => Some(s),
                _ => None,
            }
        }
    }
}

impl Default for EditorState {
    /// A fresh editor: one empty line, normal mode.
    fn default() -> (s: EditorState)
        ensures
            s@ == EditorModel::initial(),
            s.wf(),
    {
        EditorState::new()
    }
}

} // verus!
