//! What holds of the editor over all states and tokens.

use crate::buffer::{lemma_inserted_wf, lemma_removed_wf, lemma_rest_point, TextModel};
use crate::command::{command_of, Command, Mode, Signal};
use crate::history::snapshot_ok;
use crate::key::{Key, Token};
use crate::model::{
    after_cursor, clip_of_range, line_break, motion_of_token, ordered, text_of_token,
    EditorModel,
};
use crate::motion::{lemma_target_in_bounds, target, Motion};
use crate::register::{Clip, RegisterKind};
use crate::text::{in_bounds, range_ok, Point};
use vstd::prelude::*;

verus! {

/// Two places of a buffer, put in reading order, bound a range of it.
pub proof fn lemma_ordered_range(lines: Seq<Seq<char>>, a: Point, b: Point)
    requires
        in_bounds(lines, a),
        in_bounds(lines, b),
    ensures
        range_ok(lines, ordered(a, b).0, ordered(a, b).1),
{
}

/// Recording a snapshot keeps the invariant and changes nothing but the
/// history.
pub proof fn lemma_checkpointed_wf(s: EditorModel)
    requires
        s.wf(),
    ensures
        s.checkpointed().wf(),
        s.checkpointed().history.wf(),
{
    lemma_rest_point(s.text.lines, s.text.cursor);
    let h = s.history.recorded(s.text.rested());
    assert forall|i: int| 0 <= i < h.undo.len() implies snapshot_ok(#[trigger] h.undo[i]) by {
        if i < s.history.undo.len() {
            assert(h.undo[i] == s.history.undo[i]);
        }
    }
}

/// A state whose buffer, register and history are well formed satisfies the
/// invariant once a command has settled it in normal or in insert mode.
pub proof fn lemma_settled_wf(s: EditorModel, mode: Mode)
    requires
        s.text.wf(),
        s.register.wf(),
        s.history.wf(),
        mode == Mode::Normal || mode == Mode::Insert,
    ensures
        s.settled(mode).wf(),
{
    lemma_rest_point(s.text.lines, s.text.cursor);
}

/// Applying an operator to a range of the buffer keeps the invariant.
pub proof fn lemma_operated_wf(
    s: EditorModel,
    op: char,
    a: Point,
    b: Point,
    clip: Option<Clip>,
)
    requires
        s.wf(),
        range_ok(s.text.lines, a, b),
        clip matches Some(c) ==> c.wf(),
    ensures
        s.operated(op, a, b, clip).wf(),
{
    lemma_checkpointed_wf(s);
    lemma_removed_wf(s.text, a, b);
    if op == 'd' || op == 'c' {
        let base = s.checkpointed();
        let mid = base.with_text(base.text.removed(a, b)).with_clip(clip);
        lemma_settled_wf(
            mid,
            if op == 'd' {
                Mode::Normal
            } else {
                Mode::Insert
            },
        );
    } else {
        lemma_settled_wf(s.with_text(s.text.at(a)).with_clip(clip), Mode::Normal);
    }
}

/// The invariant of the editor holds after every token: in particular the
/// cursor stays on an existing line, at a column that is at most the length
/// of that line, and the buffer keeps at least one line.
pub proof fn lemma_next_wf(s: EditorModel, t: Token)
    requires
        s.wf(),
    ensures
        s.next(t).wf(),
        in_bounds(s.next(t).text.lines, s.next(t).text.cursor),
        s.next(t).text.lines.len() >= 1,
{
    let lines = s.text.lines;
    let cur = s.text.cursor;
    lemma_checkpointed_wf(s);
    lemma_rest_point(lines, cur);
    if t.key == Key::Null {
    } else if s.mode == Mode::Insert {
        match text_of_token(t, cur.col) {
            Some(text) => {
                lemma_inserted_wf(s.text, cur, text);
            },
            None => {},
        }
        match motion_of_token(t) {
            Some(m) => {
                lemma_target_in_bounds(lines, cur, m);
            },
            None => {},
        }
        lemma_target_in_bounds(lines, cur, Motion::Back);
        lemma_target_in_bounds(lines, cur, Motion::Forward);
        lemma_removed_wf(s.text, target(lines, cur, Motion::Back), cur);
        lemma_removed_wf(s.text, cur, target(lines, cur, Motion::Forward));
        lemma_settled_wf(s, Mode::Normal);
    } else {
        let cmd = command_of(s.mode, s.pending, t);
        lemma_run_wf(s, cmd, t);
    }
}

/// The invariant of the editor holds after every command.
pub proof fn lemma_run_wf(s: EditorModel, cmd: Command, t: Token)
    requires
        s.wf(),
        s.mode != Mode::Insert,
        cmd == command_of(s.mode, s.pending, t),
    ensures
        s.run(cmd, t).wf(),
{
    reveal(EditorModel::run);
    let lines = s.text.lines;
    let cur = s.text.cursor;
    lemma_checkpointed_wf(s);
    lemma_rest_point(lines, cur);
    let base = s.checkpointed();
    match cmd {
        Command::Pend => {},
        Command::Move(m) => {
            lemma_target_in_bounds(lines, cur, m);
            lemma_target_in_bounds(lines, target(lines, cur, m), Motion::Forward);
            lemma_arrived_wf(s, s.destination(m));
        },
        Command::Scroll(_) => {
            lemma_arrived_wf(s, cur);
        },
        Command::DeleteChar => {
            lemma_target_in_bounds(lines, cur, Motion::Forward);
            lemma_selection_range(s);
            match s.selection() {
                Some((a, b)) => {
                    lemma_removed_wf(s.text, a, b);
                    lemma_settled_wf(base.with_text(s.text.removed(a, b)), Mode::Normal);
                },
                None => {
                    let e = target(lines, cur, Motion::Forward);
                    lemma_removed_wf(s.text, cur, e);
                    lemma_settled_wf(base.with_text(s.text.removed(cur, e)), Mode::Normal);
                },
            }
        },
        Command::DeleteToEnd => {
            lemma_cut_to_end_wf(s, Mode::Normal);
        },
        Command::ChangeToEnd => {
            lemma_cut_to_end_wf(s, Mode::Insert);
        },
        Command::Paste => {
            lemma_pasted_wf(s);
        },
        Command::Undo => {
            let text = if s.history.undo.len() > 0 {
                s.history.undo.last()
            } else {
                s.text
            };
            let h = s.history.undone(s.text);
            assert(h.wf()) by {
                assert forall|i: int| 0 <= i < h.undo.len() implies snapshot_ok(
                    #[trigger] h.undo[i],
                ) by {
                    assert(h.undo[i] == s.history.undo[i]);
                }
                assert forall|i: int| 0 <= i < h.redo.len() implies snapshot_ok(
                    #[trigger] h.redo[i],
                ) by {
                    if i < s.history.redo.len() {
                        assert(h.redo[i] == s.history.redo[i]);
                    }
                }
            }
            if s.history.undo.len() > 0 {
                assert(snapshot_ok(s.history.undo[s.history.undo.len() - 1]));
            }
            lemma_settled_wf(EditorModel { text, history: h, ..s }, Mode::Normal);
        },
        Command::Redo => {
            let text = if s.history.redo.len() > 0 {
                s.history.redo.last()
            } else {
                s.text
            };
            let h = s.history.redone(s.text);
            assert(h.wf()) by {
                assert forall|i: int| 0 <= i < h.redo.len() implies snapshot_ok(
                    #[trigger] h.redo[i],
                ) by {
                    assert(h.redo[i] == s.history.redo[i]);
                }
                assert forall|i: int| 0 <= i < h.undo.len() implies snapshot_ok(
                    #[trigger] h.undo[i],
                ) by {
                    if i < s.history.undo.len() {
                        assert(h.undo[i] == s.history.undo[i]);
                    }
                }
            }
            if s.history.redo.len() > 0 {
                assert(snapshot_ok(s.history.redo[s.history.redo.len() - 1]));
            }
            lemma_settled_wf(EditorModel { text, history: h, ..s }, Mode::Normal);
        },
        Command::InsertHere => {
            lemma_settled_wf(s, Mode::Insert);
        },
        Command::Append => {
            lemma_settled_wf(s.with_text(s.text.at(after_cursor(s.text))), Mode::Insert);
        },
        Command::AppendEnd => {
            lemma_settled_wf(s.with_text(s.text.moved(Motion::End)), Mode::Insert);
        },
        Command::OpenBelow => {
            let p = target(lines, cur, Motion::End);
            lemma_inserted_wf(s.text, p, line_break());
            lemma_settled_wf(base.with_text(s.text.inserted(p, line_break())), Mode::Insert);
        },
        Command::OpenAbove => {
            let p = Point { line: cur.line, col: 0 };
            lemma_inserted_wf(s.text, p, line_break());
            lemma_settled_wf(
                base.with_text(s.text.inserted(p, line_break()).at(p)),
                Mode::Insert,
            );
        },
        Command::InsertHead => {
            lemma_settled_wf(s.with_text(s.text.moved(Motion::Head)), Mode::Insert);
        },
        Command::Quit => {},
        Command::StartVisual => {},
        Command::StartVisualLine => {
            let e = target(lines, cur, Motion::End);
            lemma_rest_point(lines, e);
        },
        Command::Cancel => {
            lemma_settled_wf(s, Mode::Normal);
        },
        Command::StartOperator(op) => {},
        Command::LineOperator => {
            match s.mode {
                Mode::Operator(op) => {
                    let row = cur.line;
                    let a = Point { line: row, col: 0 };
                    let b = if row + 1 < lines.len() {
                        Point { line: row + 1, col: 0 }
                    } else {
                        Point { line: row, col: lines[row].len() as int }
                    };
                    lemma_operated_wf(
                        s,
                        op,
                        a,
                        b,
                        Some(
                            Clip {
                                text: seq![lines[row]],
                                kind: RegisterKind::LineWise,
                            },
                        ),
                    );
                },
                _ => {},
            }
        },
        Command::VisualOperator(op) => {
            match s.anchor {
                Some(a) => {
                    lemma_target_in_bounds(lines, cur, Motion::Forward);
                    let c = target(lines, cur, Motion::Forward);
                    lemma_ordered_range(lines, a, c);
                    let (x, y) = ordered(a, c);
                    lemma_operated_wf(s, op, x, y, clip_of_range(lines, x, y));
                },
                None => {},
            }
        },
    }
}

/// The selection, where there is one, is a range of the buffer.
pub proof fn lemma_selection_range(s: EditorModel)
    requires
        s.wf(),
    ensures
        s.selection() matches Some((a, b)) ==> range_ok(s.text.lines, a, b),
{
}

/// Sending the cursor to a place of the buffer keeps the invariant.
pub proof fn lemma_arrived_wf(s: EditorModel, dest: Point)
    requires
        s.wf(),
        s.mode != Mode::Insert,
        in_bounds(s.text.lines, dest),
    ensures
        s.arrived(dest).wf(),
{
    lemma_rest_point(s.text.lines, dest);
    match s.mode {
        Mode::Operator(op) => {
            lemma_ordered_range(s.text.lines, s.text.cursor, dest);
            let (a, b) = ordered(s.text.cursor, dest);
            lemma_operated_wf(s, op, a, b, clip_of_range(s.text.lines, a, b));
        },
        _ => {},
    }
}

/// Cutting to the end of the line keeps the invariant.
pub proof fn lemma_cut_to_end_wf(s: EditorModel, mode: Mode)
    requires
        s.wf(),
        mode == Mode::Normal || mode == Mode::Insert,
    ensures
        s.cut_to_end(mode).wf(),
{
    let lines = s.text.lines;
    let cur = s.text.cursor;
    lemma_checkpointed_wf(s);
    let base = s.checkpointed();
    match s.selection() {
        Some((a, b)) => {
            lemma_removed_wf(s.text, a, b);
            lemma_settled_wf(base.with_text(s.text.removed(a, b)), mode);
        },
        None => {
            let e = target(lines, cur, Motion::End);
            lemma_removed_wf(s.text, cur, e);
            lemma_settled_wf(
                base.with_text(s.text.removed(cur, e)).with_clip(
                    clip_of_range(lines, cur, e),
                ),
                mode,
            );
        },
    }
}

/// Pasting keeps the invariant.
pub proof fn lemma_pasted_wf(s: EditorModel)
    requires
        s.wf(),
    ensures
        s.pasted().wf(),
        s.text_without_selection().wf(),
        in_bounds(s.text_without_selection().lines, after_cursor(s.text_without_selection())),
{
    lemma_checkpointed_wf(s);
    let base = s.checkpointed();
    match s.selection() {
        Some((a, b)) => {
            lemma_removed_wf(s.text, a, b);
        },
        None => {},
    }
    let text = s.text_without_selection();
    let after = if s.register.kind == RegisterKind::LineWise {
        text.lines_added_below(s.register.text)
    } else if s.register.is_blank() {
        text
    } else {
        text.inserted(after_cursor(text), s.register.text)
    };
    if s.register.kind != RegisterKind::LineWise && !s.register.is_blank() {
        lemma_inserted_wf(text, after_cursor(text), s.register.text);
    }
    lemma_settled_wf(base.with_text(after), Mode::Normal);
}

/// Outside of insert mode a token other than the null token is read as a
/// command, and the command is run.
pub proof fn lemma_next_runs_command(s: EditorModel, t: Token, cmd: Command)
    requires
        t.key != Key::Null,
        s.mode != Mode::Insert,
        cmd == command_of(s.mode, s.pending, t),
    ensures
        s.next(t) == s.run(cmd, t),
{
}

/// An operator character in normal mode makes the operator pending and is
/// kept as the pending token; nothing else changes.
pub proof fn lemma_operator_starts(s: EditorModel, op: char)
    requires
        s.mode == Mode::Normal,
        op == 'y' || op == 'd' || op == 'c',
    ensures
        s.next(Token::spec_of_char(op)) == (EditorModel {
            mode: Mode::Operator(op),
            pending: Token::spec_of_char(op),
            ..s
        }),
{
    let t = Token::spec_of_char(op);
    reveal(EditorModel::run);
    assert(command_of(s.mode, s.pending, t) == Command::StartOperator(op));
    lemma_next_runs_command(s, t, Command::StartOperator(op));
}

/// The character of the pending operator, pressed again, applies the
/// operator to the line of the cursor.
pub proof fn lemma_operator_repeated(s: EditorModel, op: char)
    requires
        s.mode == Mode::Operator(op),
        op == 'y' || op == 'd' || op == 'c',
    ensures
        s.next(Token::spec_of_char(op)) == s.line_operated(),
{
    let t = Token::spec_of_char(op);
    reveal(EditorModel::run);
    assert(command_of(s.mode, s.pending, t) == Command::LineOperator);
    lemma_next_runs_command(s, t, Command::LineOperator);
}

/// Deleting the only line of a buffer with `dd` leaves one empty line, never
/// none, and puts the line into the register as a whole line.
pub proof fn lemma_dd_on_single_line(s: EditorModel)
    requires
        s.wf(),
        s.mode == Mode::Normal,
        s.text.lines.len() == 1,
    ensures
        ({
            let d = Token::spec_of_char('d');
            let after = s.next(d).next(d);
            &&& after.text.lines == seq![Seq::<char>::empty()]
            &&& after.text.cursor == (Point { line: 0, col: 0 })
            &&& after.mode == Mode::Normal
            &&& after.register == (Clip {
                text: seq![s.text.lines[0]],
                kind: RegisterKind::LineWise,
            })
        }),
{
    let d = Token::spec_of_char('d');
    lemma_operator_starts(s, 'd');
    let s1 = s.next(d);
    lemma_operator_repeated(s1, 'd');
    let after = s1.line_operated();
    let line = s.text.lines[0];
    let a = Point { line: 0, col: 0 };
    let b = Point { line: 0, col: line.len() as int };
    let clip = Clip {
        text: seq![line],
        kind: RegisterKind::LineWise,
    };
    assert(after == s1.operated('d', a, b, Some(clip)));
    let cut = s1.text.removed(a, b);
    assert(cut.lines =~= seq![Seq::<char>::empty()]) by {
        assert(line.subrange(0, 0) + line.subrange(line.len() as int, line.len() as int)
            =~= Seq::<char>::empty());
    }
    assert(cut.rested() == cut);
}

/// A motion key in normal mode sends the cursor to the target of the motion,
/// where it comes to rest; the text, the mode and the history stay.
pub proof fn lemma_motion_in_normal_mode(s: EditorModel, t: Token, m: Motion)
    requires
        s.mode == Mode::Normal,
        t.key != Key::Null,
        command_of(s.mode, s.pending, t) == Command::Move(m),
    ensures
        s.next(t) == (EditorModel {
            text: s.text.at(target(s.text.lines, s.text.cursor, m)).rested(),
            pending: Token::spec_null(),
            ..s
        }),
{
    reveal(EditorModel::run);
    lemma_next_runs_command(s, t, Command::Move(m));
}

/// A token that is kept as the pending one changes nothing else.
pub proof fn lemma_token_pends(s: EditorModel, t: Token)
    requires
        s.mode != Mode::Insert,
        t.key != Key::Null,
        command_of(s.mode, s.pending, t) == Command::Pend,
    ensures
        s.next(t) == (EditorModel { pending: t, ..s }),
{
    reveal(EditorModel::run);
}

/// `u` outside of insert mode goes back to the newest snapshot.
pub proof fn lemma_undo_key(s: EditorModel)
    requires
        s.mode != Mode::Insert,
    ensures
        s.next(Token::spec_of_char('u')) == s.undone(),
{
    reveal(EditorModel::run);
    assert(command_of(s.mode, s.pending, Token::spec_of_char('u')) == Command::Undo);
}

/// Control-`r` outside of insert mode goes forward to the newest snapshot
/// of the redo stack.
pub proof fn lemma_redo_key(s: EditorModel)
    requires
        s.mode != Mode::Insert,
    ensures
        s.next(Token::spec_of_ctrl('r')) == s.redone(),
{
    reveal(EditorModel::run);
    assert(command_of(s.mode, s.pending, Token::spec_of_ctrl('r')) == Command::Redo);
}

/// Escape in insert mode leads to normal mode: the cursor comes to rest,
/// and the text, the register and the history stay.
pub proof fn lemma_escape_from_insert(s: EditorModel)
    requires
        s.mode == Mode::Insert,
    ensures
        s.next(Token::spec_of_key(Key::Esc)) == s.settled(Mode::Normal),
{
}

/// `gg` takes the cursor to the first line and `G` then takes it to the
/// last; the text stays as it is.
pub proof fn lemma_gg_then_bottom(s: EditorModel)
    requires
        s.wf(),
        s.mode == Mode::Normal,
    ensures
        ({
            let g = Token::spec_of_char('g');
            let top = s.next(g).next(g);
            let bottom = top.next(Token::spec_of_char('G'));
            &&& top.text.cursor.line == 0
            &&& top.text.lines == s.text.lines
            &&& top.mode == Mode::Normal
            &&& bottom.text.cursor.line == s.text.lines.len() - 1
            &&& bottom.text.lines == s.text.lines
            &&& bottom.mode == Mode::Normal
        }),
{
    let g = Token::spec_of_char('g');
    let big = Token::spec_of_char('G');
    let s1 = s.next(g);
    let s2 = s1.next(g);
    if s.pending.is_plain('g') {
        assert(command_of(s.mode, s.pending, g) == Command::Move(Motion::Top));
        lemma_motion_in_normal_mode(s, g, Motion::Top);
        assert(command_of(s1.mode, s1.pending, g) == Command::Pend);
        lemma_token_pends(s1, g);
    } else {
        assert(command_of(s.mode, s.pending, g) == Command::Pend);
        lemma_token_pends(s, g);
        assert(command_of(s1.mode, s1.pending, g) == Command::Move(Motion::Top));
        lemma_motion_in_normal_mode(s1, g, Motion::Top);
    }
    assert(s2.text.lines == s.text.lines);
    assert(s2.text.cursor.line == 0);
    assert(s2.mode == Mode::Normal);
    assert(command_of(s2.mode, s2.pending, big) == Command::Move(Motion::Bottom));
    lemma_motion_in_normal_mode(s2, big, Motion::Bottom);
}

/// An edit records, before it takes effect, a snapshot of the buffer with
/// the cursor at rest, and empties the redo stack. It leaves the editor in
/// normal or in insert mode.
pub proof fn lemma_edit_records(s: EditorModel, t: Token)
    requires
        s.wf(),
        s.edits(t),
    ensures
        s.next(t).history == s.history.recorded(s.text.rested()),
        s.next(t).history.redo.len() == 0,
        s.next(t).mode == Mode::Normal || s.next(t).mode == Mode::Insert,
        s.mode != Mode::Insert ==> s.text.rested() == s.text,
{
    reveal(EditorModel::run);
    lemma_rest_point(s.text.lines, s.text.cursor);
}

/// Going back from a state whose newest snapshot is `snap` makes `snap` the
/// buffer and takes it off the undo stack.
pub proof fn lemma_undone_to_snapshot(s: EditorModel, rest: Seq<TextModel>, snap: TextModel)
    requires
        s.history.undo == rest.push(snap),
        snapshot_ok(snap),
    ensures
        s.undone().text == snap,
        s.undone().history.undo == rest,
        s.undone().history.redo == s.history.redo.push(s.text),
        s.undone().mode == Mode::Normal,
{
    assert(s.history.undo.last() == snap);
    assert(s.history.undo.drop_last() =~= rest);
    lemma_rest_point(snap.lines, snap.cursor);
}

/// Undo after an edit: the buffer and the cursor are again what they were
/// before the token of the edit. Where the edit ended in insert mode,
/// Escape comes before the `u`. The cursor comes back at rest, which is
/// where it was unless the edit was made in insert mode.
pub proof fn lemma_undo_restores(s: EditorModel, t: Token)
    requires
        s.wf(),
        s.edits(t),
    ensures
        ({
            let u = Token::spec_of_char('u');
            let esc = Token::spec_of_key(Key::Esc);
            let changed = s.next(t);
            let back = if changed.mode == Mode::Insert {
                changed.next(esc).next(u)
            } else {
                changed.next(u)
            };
            &&& back.text == s.text.rested()
            &&& (s.mode != Mode::Insert ==> back.text == s.text)
            &&& back.history.undo == s.history.undo
            &&& back.mode == Mode::Normal
        }),
{
    let u = Token::spec_of_char('u');
    let esc = Token::spec_of_key(Key::Esc);
    lemma_edit_records(s, t);
    lemma_rest_point(s.text.lines, s.text.cursor);
    let changed = s.next(t);
    let snap = s.text.rested();
    if changed.mode == Mode::Insert {
        lemma_escape_from_insert(changed);
        let ready = changed.settled(Mode::Normal);
        lemma_undo_key(ready);
        lemma_undone_to_snapshot(ready, s.history.undo, snap);
    } else {
        lemma_undo_key(changed);
        lemma_undone_to_snapshot(changed, s.history.undo, snap);
    }
}

/// Redo after undo: the buffer, the cursor and both stacks are again what
/// they were before the undo.
pub proof fn lemma_redo_after_undo(s: EditorModel)
    requires
        s.wf(),
        s.mode != Mode::Insert,
        s.history.undo.len() > 0,
    ensures
        ({
            let back = s.next(Token::spec_of_char('u'));
            let again = back.next(Token::spec_of_ctrl('r'));
            &&& back.text == s.history.undo.last()
            &&& again.text == s.text
            &&& again.history == s.history
            &&& again.mode == Mode::Normal
        }),
{
    lemma_undo_key(s);
    let back = s.undone();
    lemma_redo_key(back);
    let top = s.history.undo.last();
    assert(snapshot_ok(s.history.undo[s.history.undo.len() - 1]));
    lemma_rest_point(top.lines, top.cursor);
    lemma_rest_point(s.text.lines, s.text.cursor);
    assert(back.text == top);
    let again = back.redone();
    assert(back.history.redo.last() == s.text);
    assert(again.history.undo =~= s.history.undo);
    assert(again.history.redo =~= s.history.redo);
}

/// Redo with nothing to go forward to changes neither the buffer nor the
/// stacks. That is so after every edit, since it empties the redo stack.
pub proof fn lemma_redo_without_snapshot(s: EditorModel)
    requires
        s.wf(),
        s.mode != Mode::Insert,
        s.history.redo.len() == 0,
    ensures
        s.next(Token::spec_of_ctrl('r')).text == s.text,
        s.next(Token::spec_of_ctrl('r')).history == s.history,
{
    lemma_redo_key(s);
    lemma_rest_point(s.text.lines, s.text.cursor);
}

/// The null token changes nothing and lets the host go on.
pub proof fn lemma_null_token(s: EditorModel, t: Token)
    requires
        t.key == Key::Null,
    ensures
        s.next(t) == s,
        s.signal(t) == Signal::Continue,
{
}

/// Only edits touch the lines: after any other token but undo and redo the
/// lines and the history are what they were. A request to move the viewport
/// is such a token in every mode.
pub proof fn lemma_lines_change_only_by_edits(s: EditorModel, t: Token)
    requires
        s.wf(),
        !s.edits(t),
        s.mode == Mode::Insert || (command_of(s.mode, s.pending, t) != Command::Undo && command_of(
            s.mode,
            s.pending,
            t,
        ) != Command::Redo),
    ensures
        s.next(t).text.lines == s.text.lines,
        s.next(t).history == s.history,
{
    reveal(EditorModel::run);
}

} // verus!
