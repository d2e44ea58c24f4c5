use modal_editor::command::{Mode, Signal};
use modal_editor::editor::EditorState;
use modal_editor::key::{Key, Token};
use modal_editor::register::RegisterKind;
use modal_editor::text::Pos;

fn feed(state: &mut EditorState, keys: &str) {
    for c in keys.chars() {
        assert_eq!(state.transition(Token::of_char(c)), Signal::Continue);
    }
}

fn lines_of(state: &EditorState) -> Vec<String> {
    state.lines()
}

#[test]
fn typing_hello_and_escape() {
    let mut state = EditorState::new();
    feed(&mut state, "ihello");
    assert_eq!(state.mode(), Mode::Insert);
    assert_eq!(state.cursor(), Pos { line: 0, col: 5 });
    assert_eq!(state.transition(Token::of_key(Key::Esc)), Signal::Continue);
    assert_eq!(lines_of(&state), vec!["hello".to_string()]);
    assert_eq!(state.mode(), Mode::Normal);
    assert_eq!(state.cursor(), Pos { line: 0, col: 4 });
}

#[test]
fn yank_line_then_paste() {
    let mut state = EditorState::with_text("foo\nbar");
    assert_eq!(state.cursor(), Pos { line: 0, col: 0 });
    feed(&mut state, "yy");
    assert_eq!(state.register_kind(), RegisterKind::LineWise);
    assert_eq!(state.register_text(), "foo");
    assert_eq!(lines_of(&state), vec!["foo".to_string(), "bar".to_string()]);
    assert_eq!(state.mode(), Mode::Normal);
    feed(&mut state, "p");
    assert_eq!(
        lines_of(&state),
        vec!["foo".to_string(), "foo".to_string(), "bar".to_string()]
    );
    assert_eq!(state.cursor(), Pos { line: 1, col: 0 });
}

#[test]
fn delete_word() {
    let mut state = EditorState::with_text("hello world");
    feed(&mut state, "dw");
    assert_eq!(lines_of(&state), vec!["world".to_string()]);
    assert_eq!(state.register_kind(), RegisterKind::CharacterWise);
    assert_eq!(state.register_text(), "hello ");
    assert_eq!(state.mode(), Mode::Normal);
    assert_eq!(state.cursor(), Pos { line: 0, col: 0 });
}

#[test]
fn visual_yank_is_inclusive() {
    let mut state = EditorState::with_text("abc");
    feed(&mut state, "v");
    assert_eq!(state.mode(), Mode::Visual);
    feed(&mut state, "ll");
    assert_eq!(state.cursor(), Pos { line: 0, col: 2 });
    feed(&mut state, "y");
    assert_eq!(state.register_text(), "abc");
    assert_eq!(state.register_kind(), RegisterKind::CharacterWise);
    assert_eq!(state.mode(), Mode::Normal);
    assert_eq!(lines_of(&state), vec!["abc".to_string()]);
    assert_eq!(state.selection(), None);
}

#[test]
fn dd_on_the_only_line_leaves_one_empty_line() {
    let mut state = EditorState::with_text("only");
    feed(&mut state, "dd");
    assert_eq!(lines_of(&state), vec![String::new()]);
    assert_eq!(state.cursor(), Pos { line: 0, col: 0 });
    assert_eq!(state.register_kind(), RegisterKind::LineWise);
    assert_eq!(state.register_text(), "only");
    feed(&mut state, "dd");
    assert_eq!(lines_of(&state), vec![String::new()]);
}

#[test]
fn dd_takes_out_a_line_that_is_not_the_last() {
    let mut state = EditorState::with_text("one\ntwo\nthree");
    feed(&mut state, "jdd");
    assert_eq!(lines_of(&state), vec!["one".to_string(), "three".to_string()]);
    assert_eq!(state.cursor(), Pos { line: 1, col: 0 });
    assert_eq!(state.register_text(), "two");
}

#[test]
fn dd_on_the_last_line_empties_it() {
    let mut state = EditorState::with_text("one\ntwo");
    feed(&mut state, "Gdd");
    assert_eq!(lines_of(&state), vec!["one".to_string(), String::new()]);
    assert_eq!(state.cursor(), Pos { line: 1, col: 0 });
}

#[test]
fn gg_then_bottom() {
    let mut state = EditorState::with_text("a\nb\nc\nd");
    feed(&mut state, "jj");
    assert_eq!(state.cursor().line, 2);
    feed(&mut state, "g");
    assert_eq!(state.cursor().line, 2);
    assert_eq!(state.pending(), Token::of_char('g'));
    feed(&mut state, "g");
    assert_eq!(state.cursor().line, 0);
    feed(&mut state, "G");
    assert_eq!(state.cursor().line, 3);
}

#[test]
fn undo_restores_text_and_cursor() {
    let mut state = EditorState::with_text("hello world");
    feed(&mut state, "llx");
    assert_eq!(lines_of(&state), vec!["helo world".to_string()]);
    assert_eq!(state.undo_depth(), 1);
    feed(&mut state, "u");
    assert_eq!(lines_of(&state), vec!["hello world".to_string()]);
    assert_eq!(state.cursor(), Pos { line: 0, col: 2 });
    assert_eq!(state.undo_depth(), 0);
    assert_eq!(state.redo_depth(), 1);
}

#[test]
fn undo_after_delete_word_puts_the_cursor_back() {
    let mut state = EditorState::with_text("one two three");
    feed(&mut state, "wdw");
    assert_eq!(lines_of(&state), vec!["one three".to_string()]);
    feed(&mut state, "u");
    assert_eq!(lines_of(&state), vec!["one two three".to_string()]);
    assert_eq!(state.cursor(), Pos { line: 0, col: 4 });
}

#[test]
fn undo_after_a_change_that_ends_in_insert_mode() {
    let mut state = EditorState::with_text("abc def");
    feed(&mut state, "lC");
    assert_eq!(state.mode(), Mode::Insert);
    assert_eq!(lines_of(&state), vec!["a".to_string()]);
    state.transition(Token::of_key(Key::Esc));
    feed(&mut state, "u");
    assert_eq!(lines_of(&state), vec!["abc def".to_string()]);
    assert_eq!(state.cursor(), Pos { line: 0, col: 1 });
}

#[test]
fn redo_after_undo() {
    let mut state = EditorState::with_text("abc");
    feed(&mut state, "x");
    assert_eq!(lines_of(&state), vec!["bc".to_string()]);
    feed(&mut state, "u");
    assert_eq!(lines_of(&state), vec!["abc".to_string()]);
    assert_eq!(state.transition(Token::of_ctrl('r')), Signal::Continue);
    assert_eq!(lines_of(&state), vec!["bc".to_string()]);
    assert_eq!(state.cursor(), Pos { line: 0, col: 0 });
    assert_eq!(state.undo_depth(), 1);
    assert_eq!(state.redo_depth(), 0);
}

#[test]
fn a_new_edit_after_undo_clears_redo() {
    let mut state = EditorState::with_text("abc");
    feed(&mut state, "xu");
    assert_eq!(state.redo_depth(), 1);
    feed(&mut state, "lx");
    assert_eq!(lines_of(&state), vec!["ac".to_string()]);
    assert_eq!(state.redo_depth(), 0);
    state.transition(Token::of_ctrl('r'));
    assert_eq!(lines_of(&state), vec!["ac".to_string()]);
    assert_eq!(state.cursor(), Pos { line: 0, col: 1 });
}

#[test]
fn undo_with_nothing_to_undo_changes_nothing() {
    let mut state = EditorState::with_text("abc");
    feed(&mut state, "lu");
    assert_eq!(lines_of(&state), vec!["abc".to_string()]);
    assert_eq!(state.cursor(), Pos { line: 0, col: 1 });
}

#[test]
fn each_typed_character_can_be_undone() {
    let mut state = EditorState::new();
    feed(&mut state, "iab");
    state.transition(Token::of_key(Key::Esc));
    assert_eq!(state.undo_depth(), 2);
    feed(&mut state, "u");
    assert_eq!(lines_of(&state), vec!["a".to_string()]);
    feed(&mut state, "u");
    assert_eq!(lines_of(&state), vec![String::new()]);
}

#[test]
fn quit_signals_cancel() {
    let mut state = EditorState::with_text("abc");
    assert_eq!(state.transition(Token::of_char('q')), Signal::Cancel);
    assert_eq!(lines_of(&state), vec!["abc".to_string()]);
    assert_eq!(state.mode(), Mode::Normal);
}

#[test]
fn q_in_insert_mode_is_text() {
    let mut state = EditorState::new();
    feed(&mut state, "iq");
    assert_eq!(lines_of(&state), vec!["q".to_string()]);
}

#[test]
fn the_null_token_changes_nothing() {
    let mut state = EditorState::with_text("abc");
    feed(&mut state, "lg");
    assert_eq!(state.transition(Token::null()), Signal::Continue);
    assert_eq!(state.pending(), Token::of_char('g'));
    assert_eq!(state.cursor(), Pos { line: 0, col: 1 });
    feed(&mut state, "i");
    assert_eq!(state.transition(Token::null()), Signal::Continue);
    assert_eq!(state.mode(), Mode::Insert);
    assert_eq!(lines_of(&state), vec!["abc".to_string()]);
}
