use modal_editor::command::{Mode, Scroll, Signal};
use modal_editor::editor::EditorState;
use modal_editor::key::{Key, Token};
use modal_editor::register::RegisterKind;
use modal_editor::text::Pos;

fn keys(state: &mut EditorState, text: &str) {
    for c in text.chars() {
        assert_eq!(state.transition(Token::of_char(c)), Signal::Continue);
    }
}

fn escape(state: &mut EditorState) {
    assert_eq!(state.transition(Token::of_key(Key::Esc)), Signal::Continue);
}

fn text_lines(state: &EditorState) -> Vec<String> {
    state.lines()
}

fn strings(lines: &[&str]) -> Vec<String> {
    lines.iter().map(|l| l.to_string()).collect()
}

#[test]
fn fresh_editor() {
    let state = EditorState::default();
    assert_eq!(text_lines(&state), strings(&[""]));
    assert_eq!(state.cursor(), Pos { line: 0, col: 0 });
    assert_eq!(state.mode(), Mode::Normal);
    assert_eq!(state.pending(), Token::null());
    assert_eq!(state.selection(), None);
    assert_eq!(state.register_text(), "");
    assert_eq!(state.register_kind(), RegisterKind::CharacterWise);
    assert_eq!(state.undo_depth(), 0);
    assert_eq!(state.redo_depth(), 0);
    assert_eq!(state.text(), "");
}

#[test]
fn text_joins_lines_with_line_feeds() {
    let state = EditorState::with_text("one\ntwo\n\nfour");
    assert_eq!(text_lines(&state), strings(&["one", "two", "", "four"]));
    assert_eq!(state.text(), "one\ntwo\n\nfour");
    let state = EditorState::with_text("ends\n");
    assert_eq!(text_lines(&state), strings(&["ends", ""]));
    assert_eq!(state.text(), "ends\n");
}

#[test]
fn enter_splits_the_line_in_insert_mode() {
    let mut state = EditorState::with_text("abcd");
    keys(&mut state, "lli");
    state.transition(Token::of_key(Key::Enter));
    assert_eq!(text_lines(&state), strings(&["ab", "cd"]));
    assert_eq!(state.cursor(), Pos { line: 1, col: 0 });
    assert_eq!(state.mode(), Mode::Insert);
    keys(&mut state, "x\ny");
    assert_eq!(text_lines(&state), strings(&["ab", "x", "ycd"]));
    assert_eq!(state.cursor(), Pos { line: 2, col: 1 });
}

#[test]
fn control_c_leaves_insert_mode() {
    let mut state = EditorState::new();
    keys(&mut state, "iab");
    assert_eq!(state.transition(Token::of_ctrl('c')), Signal::Continue);
    assert_eq!(state.mode(), Mode::Normal);
    assert_eq!(text_lines(&state), strings(&["ab"]));
    assert_eq!(state.cursor(), Pos { line: 0, col: 1 });
}

#[test]
fn keys_without_text_do_nothing_in_insert_mode() {
    let mut state = EditorState::with_text("ab");
    keys(&mut state, "i");
    state.transition(Token::of_ctrl('a'));
    state.transition(Token { key: Key::Char('x'), ctrl: false, alt: true, shift: false });
    state.transition(Token { key: Key::Right, ctrl: true, alt: false, shift: false });
    state.transition(Token { key: Key::Backspace, ctrl: false, alt: true, shift: false });
    state.transition(Token { key: Key::Delete, ctrl: true, alt: false, shift: false });
    state.transition(Token { key: Key::Tab, ctrl: true, alt: false, shift: false });
    state.transition(Token::of_key(Key::F(1)));
    state.transition(Token::of_key(Key::PageDown));
    state.transition(Token::of_key(Key::MouseScrollUp));
    assert_eq!(text_lines(&state), strings(&["ab"]));
    assert_eq!(state.cursor(), Pos { line: 0, col: 0 });
    assert_eq!(state.mode(), Mode::Insert);
    assert_eq!(state.undo_depth(), 0);
}

#[test]
fn arrows_home_and_end_move_in_insert_mode() {
    let mut state = EditorState::with_text("abc\nde");
    keys(&mut state, "i");
    state.transition(Token::of_key(Key::End));
    assert_eq!(state.cursor(), Pos { line: 0, col: 3 });
    state.transition(Token::of_key(Key::Right));
    assert_eq!(state.cursor(), Pos { line: 1, col: 0 });
    state.transition(Token::of_key(Key::Left));
    assert_eq!(state.cursor(), Pos { line: 0, col: 3 });
    state.transition(Token::of_key(Key::Down));
    assert_eq!(state.cursor(), Pos { line: 1, col: 2 });
    state.transition(Token::of_key(Key::Home));
    assert_eq!(state.cursor(), Pos { line: 1, col: 0 });
    state.transition(Token::of_key(Key::Up));
    assert_eq!(state.cursor(), Pos { line: 0, col: 0 });
    state.transition(Token { key: Key::Right, ctrl: false, alt: false, shift: true });
    assert_eq!(state.cursor(), Pos { line: 0, col: 1 });
    assert_eq!(state.mode(), Mode::Insert);
    assert_eq!(state.undo_depth(), 0);
    keys(&mut state, "x");
    assert_eq!(text_lines(&state), strings(&["axbc", "de"]));
}

#[test]
fn backspace_and_delete_in_insert_mode() {
    let mut state = EditorState::with_text("abc\nde");
    keys(&mut state, "A");
    state.transition(Token::of_key(Key::Backspace));
    assert_eq!(text_lines(&state), strings(&["ab", "de"]));
    assert_eq!(state.cursor(), Pos { line: 0, col: 2 });
    state.transition(Token::of_key(Key::Delete));
    assert_eq!(text_lines(&state), strings(&["abde"]));
    assert_eq!(state.cursor(), Pos { line: 0, col: 2 });
    state.transition(Token::of_key(Key::Delete));
    assert_eq!(text_lines(&state), strings(&["abe"]));
    state.transition(Token::of_key(Key::Home));
    state.transition(Token::of_key(Key::Backspace));
    assert_eq!(text_lines(&state), strings(&["abe"]));
    assert_eq!(state.cursor(), Pos { line: 0, col: 0 });
    assert_eq!(state.undo_depth(), 4);
    escape(&mut state);
    keys(&mut state, "uuu");
    assert_eq!(text_lines(&state), strings(&["ab", "de"]));
    keys(&mut state, "jI");
    state.transition(Token::of_key(Key::Backspace));
    assert_eq!(text_lines(&state), strings(&["abde"]));
    assert_eq!(state.cursor(), Pos { line: 0, col: 2 });
}

#[test]
fn the_tabulator_key_fills_up_to_the_next_stop() {
    let mut state = EditorState::new();
    keys(&mut state, "i");
    state.transition(Token::of_key(Key::Tab));
    assert_eq!(text_lines(&state), strings(&["    "]));
    keys(&mut state, "a");
    state.transition(Token::of_key(Key::Tab));
    assert_eq!(text_lines(&state), strings(&["    a   "]));
    assert_eq!(state.cursor(), Pos { line: 0, col: 8 });
    keys(&mut state, "abc");
    state.transition(Token::of_key(Key::Tab));
    assert_eq!(text_lines(&state), strings(&["    a   abc "]));
    assert_eq!(state.undo_depth(), 7);
}

#[test]
fn ways_into_insert_mode() {
    let mut state = EditorState::with_text("abc");
    keys(&mut state, "la");
    assert_eq!(state.mode(), Mode::Insert);
    assert_eq!(state.cursor(), Pos { line: 0, col: 2 });
    escape(&mut state);
    assert_eq!(state.cursor(), Pos { line: 0, col: 2 });
    keys(&mut state, "a");
    assert_eq!(state.cursor(), Pos { line: 0, col: 3 });
    escape(&mut state);
    keys(&mut state, "I");
    assert_eq!(state.cursor(), Pos { line: 0, col: 0 });
    escape(&mut state);
    keys(&mut state, "A");
    assert_eq!(state.cursor(), Pos { line: 0, col: 3 });
    keys(&mut state, "d");
    assert_eq!(text_lines(&state), strings(&["abcd"]));
    let mut empty = EditorState::new();
    keys(&mut empty, "a");
    assert_eq!(empty.cursor(), Pos { line: 0, col: 0 });
    assert_eq!(empty.mode(), Mode::Insert);
}

#[test]
fn open_a_line_below_and_above() {
    let mut state = EditorState::with_text("one\ntwo");
    keys(&mut state, "o");
    assert_eq!(text_lines(&state), strings(&["one", "", "two"]));
    assert_eq!(state.cursor(), Pos { line: 1, col: 0 });
    assert_eq!(state.mode(), Mode::Insert);
    keys(&mut state, "x");
    escape(&mut state);
    keys(&mut state, "O");
    assert_eq!(text_lines(&state), strings(&["one", "", "x", "two"]));
    assert_eq!(state.cursor(), Pos { line: 1, col: 0 });
    assert_eq!(state.mode(), Mode::Insert);
    escape(&mut state);
    keys(&mut state, "uu");
    assert_eq!(text_lines(&state), strings(&["one", "", "two"]));
}

#[test]
fn delete_to_the_end_of_the_line() {
    let mut state = EditorState::with_text("hello world\nnext");
    keys(&mut state, "wD");
    assert_eq!(text_lines(&state), strings(&["hello ", "next"]));
    assert_eq!(state.cursor(), Pos { line: 0, col: 5 });
    assert_eq!(state.register_text(), "world");
    assert_eq!(state.register_kind(), RegisterKind::CharacterWise);
    assert_eq!(state.mode(), Mode::Normal);
}

#[test]
fn change_to_the_end_of_the_line() {
    let mut state = EditorState::with_text("hello world");
    keys(&mut state, "wC");
    assert_eq!(state.mode(), Mode::Insert);
    assert_eq!(state.cursor(), Pos { line: 0, col: 6 });
    keys(&mut state, "you");
    assert_eq!(text_lines(&state), strings(&["hello you"]));
}

#[test]
fn x_at_the_end_of_an_empty_line_joins_the_next() {
    let mut state = EditorState::with_text("\nab");
    keys(&mut state, "x");
    assert_eq!(text_lines(&state), strings(&["ab"]));
    assert_eq!(state.cursor(), Pos { line: 0, col: 0 });
    let mut last = EditorState::new();
    keys(&mut last, "x");
    assert_eq!(text_lines(&last), strings(&[""]));
    assert_eq!(last.undo_depth(), 1);
}

#[test]
fn x_leaves_the_register_alone() {
    let mut state = EditorState::with_text("abc");
    keys(&mut state, "ylx");
    assert_eq!(state.register_text(), "a");
    assert_eq!(text_lines(&state), strings(&["bc"]));
}

#[test]
fn paste_characters_after_the_cursor() {
    let mut state = EditorState::with_text("abc def");
    keys(&mut state, "yw");
    assert_eq!(state.register_text(), "abc ");
    assert_eq!(state.cursor(), Pos { line: 0, col: 0 });
    keys(&mut state, "p");
    assert_eq!(text_lines(&state), strings(&["aabc bc def"]));
    assert_eq!(state.cursor(), Pos { line: 0, col: 5 });
    keys(&mut state, "$p");
    assert_eq!(text_lines(&state), strings(&["aabc bc defabc "]));
    assert_eq!(state.cursor(), Pos { line: 0, col: 14 });
}

#[test]
fn paste_into_an_empty_line() {
    let mut state = EditorState::with_text("ab\n");
    keys(&mut state, "ylGp");
    assert_eq!(text_lines(&state), strings(&["ab", "a"]));
    assert_eq!(state.cursor(), Pos { line: 1, col: 0 });
}

#[test]
fn paste_with_an_empty_register_records_but_changes_nothing() {
    let mut state = EditorState::with_text("abc");
    keys(&mut state, "lp");
    assert_eq!(text_lines(&state), strings(&["abc"]));
    assert_eq!(state.cursor(), Pos { line: 0, col: 1 });
    assert_eq!(state.undo_depth(), 1);
}

#[test]
fn paste_several_pieces() {
    let mut state = EditorState::with_text("ab\ncd");
    keys(&mut state, "lvjhy");
    assert_eq!(state.register_text(), "b\nc");
    assert_eq!(state.register_kind(), RegisterKind::CharacterWise);
    assert_eq!(state.cursor(), Pos { line: 0, col: 1 });
    keys(&mut state, "Gp");
    assert_eq!(text_lines(&state), strings(&["ab", "cdb", "c"]));
    assert_eq!(state.cursor(), Pos { line: 2, col: 0 });
}

#[test]
fn paste_a_line_below_the_last_line() {
    let mut state = EditorState::with_text("one\ntwo");
    keys(&mut state, "yyGp");
    assert_eq!(text_lines(&state), strings(&["one", "two", "one"]));
    assert_eq!(state.cursor(), Pos { line: 2, col: 0 });
}

#[test]
fn change_a_line() {
    let mut state = EditorState::with_text("one\ntwo");
    keys(&mut state, "Gcc");
    assert_eq!(state.mode(), Mode::Insert);
    assert_eq!(text_lines(&state), strings(&["one", ""]));
    assert_eq!(state.register_text(), "two");
    assert_eq!(state.register_kind(), RegisterKind::LineWise);
    keys(&mut state, "2");
    assert_eq!(text_lines(&state), strings(&["one", "2"]));
}

#[test]
fn operators_with_motions() {
    let mut state = EditorState::with_text("one two three");
    keys(&mut state, "wde");
    assert_eq!(text_lines(&state), strings(&["one  three"]));
    assert_eq!(state.register_text(), "two");
    assert_eq!(state.cursor(), Pos { line: 0, col: 4 });
    keys(&mut state, "d$");
    assert_eq!(text_lines(&state), strings(&["one "]));
    assert_eq!(state.register_text(), " three");
    assert_eq!(state.cursor(), Pos { line: 0, col: 3 });
    keys(&mut state, "db");
    assert_eq!(text_lines(&state), strings(&[" "]));
    assert_eq!(state.register_text(), "one");
    keys(&mut state, "cl");
    assert_eq!(state.mode(), Mode::Insert);
    assert_eq!(text_lines(&state), strings(&[""]));
}

#[test]
fn an_operator_over_lines() {
    let mut state = EditorState::with_text("ab\ncd\nef");
    keys(&mut state, "ldj");
    assert_eq!(text_lines(&state), strings(&["ad", "ef"]));
    assert_eq!(state.register_text(), "b\nc");
    keys(&mut state, "u");
    assert_eq!(state.cursor(), Pos { line: 0, col: 1 });
    keys(&mut state, "Gdgg");
    assert_eq!(text_lines(&state), strings(&["af"]));
    assert_eq!(state.register_text(), "b\ncd\ne");
    assert_eq!(state.cursor(), Pos { line: 0, col: 1 });
}

#[test]
fn yank_with_a_motion_keeps_the_text() {
    let mut state = EditorState::with_text("one two");
    keys(&mut state, "wyb");
    assert_eq!(state.register_text(), "one ");
    assert_eq!(text_lines(&state), strings(&["one two"]));
    assert_eq!(state.cursor(), Pos { line: 0, col: 0 });
    assert_eq!(state.undo_depth(), 0);
    assert_eq!(state.mode(), Mode::Normal);
}

#[test]
fn a_motion_that_does_not_move_leaves_the_register() {
    let mut state = EditorState::with_text("ab");
    keys(&mut state, "ylyh");
    assert_eq!(state.register_text(), "a");
    assert_eq!(state.mode(), Mode::Normal);
}

#[test]
fn escape_cancels_a_pending_operator() {
    let mut state = EditorState::with_text("abc");
    keys(&mut state, "d");
    assert_eq!(state.mode(), Mode::Operator('d'));
    assert_eq!(state.pending(), Token::of_char('d'));
    escape(&mut state);
    assert_eq!(state.mode(), Mode::Normal);
    assert_eq!(state.pending(), Token::null());
    assert_eq!(text_lines(&state), strings(&["abc"]));
    assert_eq!(state.undo_depth(), 0);
}

#[test]
fn another_operator_character_is_kept_pending() {
    let mut state = EditorState::with_text("abc");
    keys(&mut state, "dy");
    assert_eq!(state.mode(), Mode::Operator('d'));
    assert_eq!(state.pending(), Token::of_char('y'));
    assert_eq!(text_lines(&state), strings(&["abc"]));
}

#[test]
fn visual_selection_and_cancel() {
    let mut state = EditorState::with_text("abcdef");
    keys(&mut state, "lvll");
    assert_eq!(
        state.selection(),
        Some((Pos { line: 0, col: 1 }, Pos { line: 0, col: 3 }))
    );
    keys(&mut state, "hhh");
    assert_eq!(
        state.selection(),
        Some((Pos { line: 0, col: 0 }, Pos { line: 0, col: 1 }))
    );
    keys(&mut state, "v");
    assert_eq!(state.mode(), Mode::Normal);
    assert_eq!(state.selection(), None);
    keys(&mut state, "v");
    escape(&mut state);
    assert_eq!(state.mode(), Mode::Normal);
    assert_eq!(state.selection(), None);
}

#[test]
fn visual_delete_and_change() {
    let mut state = EditorState::with_text("abcdef");
    keys(&mut state, "lvld");
    assert_eq!(text_lines(&state), strings(&["adef"]));
    assert_eq!(state.register_text(), "bc");
    assert_eq!(state.cursor(), Pos { line: 0, col: 1 });
    assert_eq!(state.mode(), Mode::Normal);
    keys(&mut state, "vc");
    assert_eq!(text_lines(&state), strings(&["aef"]));
    assert_eq!(state.mode(), Mode::Insert);
    assert_eq!(state.register_text(), "d");
    escape(&mut state);
    keys(&mut state, "uu");
    assert_eq!(text_lines(&state), strings(&["abcdef"]));
}

#[test]
fn visual_line() {
    let mut state = EditorState::with_text("abc\ndef");
    keys(&mut state, "lV");
    assert_eq!(state.mode(), Mode::Visual);
    assert_eq!(
        state.selection(),
        Some((Pos { line: 0, col: 0 }, Pos { line: 0, col: 2 }))
    );
    keys(&mut state, "y");
    assert_eq!(state.register_text(), "abc");
    assert_eq!(state.register_kind(), RegisterKind::CharacterWise);
    assert_eq!(state.cursor(), Pos { line: 0, col: 0 });
}

#[test]
fn x_in_visual_mode_takes_out_the_selection() {
    let mut state = EditorState::with_text("abcdef");
    keys(&mut state, "vllx");
    assert_eq!(text_lines(&state), strings(&["cdef"]));
    assert_eq!(state.mode(), Mode::Normal);
    assert_eq!(state.register_text(), "");
    assert_eq!(state.selection(), None);
}

#[test]
fn a_scroll_request_leaves_a_pending_operator_pending() {
    let mut state = EditorState::with_text("abc def");
    keys(&mut state, "uxd");
    assert_eq!(state.redo_depth(), 0);
    keys(&mut state, "u");
    assert_eq!(state.redo_depth(), 1);
    keys(&mut state, "d");
    assert_eq!(state.scroll_request(Token::of_ctrl('e')), Some(Scroll::LineDown));
    state.transition(Token::of_ctrl('e'));
    assert_eq!(state.mode(), Mode::Operator('d'));
    assert_eq!(state.undo_depth(), 0);
    assert_eq!(state.redo_depth(), 1);
    assert_eq!(text_lines(&state), strings(&["abc def"]));
    keys(&mut state, "w");
    assert_eq!(text_lines(&state), strings(&["def"]));
    assert_eq!(state.mode(), Mode::Normal);
}

#[test]
fn page_keys_and_the_wheel_ask_for_scrolling_in_insert_mode() {
    let mut state = EditorState::with_text("abc");
    assert_eq!(state.scroll_request(Token::of_key(Key::PageDown)), None);
    assert_eq!(state.scroll_request(Token::of_key(Key::MouseScrollDown)), None);
    keys(&mut state, "i");
    assert_eq!(state.scroll_request(Token::of_key(Key::PageDown)), Some(Scroll::PageDown));
    assert_eq!(state.scroll_request(Token::of_key(Key::PageUp)), Some(Scroll::PageUp));
    assert_eq!(state.scroll_request(Token::of_key(Key::MouseScrollDown)), Some(Scroll::LineDown));
    assert_eq!(state.scroll_request(Token::of_key(Key::MouseScrollUp)), Some(Scroll::LineUp));
    assert_eq!(state.scroll_request(Token::of_ctrl('e')), None);
    assert_eq!(state.line_count(), 1);
}

#[test]
fn scroll_requests_leave_the_buffer_alone() {
    let mut state = EditorState::with_text("abc");
    let requests = [
        ('e', Scroll::LineDown),
        ('y', Scroll::LineUp),
        ('d', Scroll::HalfPageDown),
        ('u', Scroll::HalfPageUp),
        ('f', Scroll::PageDown),
        ('b', Scroll::PageUp),
    ];
    for (c, scroll) in requests {
        let t = Token::of_ctrl(c);
        assert_eq!(state.scroll_request(t), Some(scroll));
        assert_eq!(state.transition(t), Signal::Continue);
        assert_eq!(text_lines(&state), strings(&["abc"]));
        assert_eq!(state.cursor(), Pos { line: 0, col: 0 });
        assert_eq!(state.mode(), Mode::Normal);
        assert_eq!(state.undo_depth(), 0);
    }
    assert_eq!(state.scroll_request(Token::of_char('e')), None);
    assert_eq!(state.scroll_request(Token::of_ctrl('x')), None);
    assert_eq!(state.scroll_request(Token::null()), None);
}

#[test]
fn unknown_keys_are_kept_pending() {
    let mut state = EditorState::with_text("abc");
    keys(&mut state, "z");
    assert_eq!(state.pending(), Token::of_char('z'));
    state.transition(Token::of_key(Key::Enter));
    assert_eq!(state.pending(), Token::of_key(Key::Enter));
    for key in [Key::Backspace, Key::Tab, Key::Delete, Key::PageUp, Key::F(5), Key::MouseScrollDown] {
        state.transition(Token::of_key(key));
        assert_eq!(state.pending(), Token::of_key(key));
    }
    keys(&mut state, "l");
    assert_eq!(state.pending(), Token::null());
    assert_eq!(text_lines(&state), strings(&["abc"]));
}

#[test]
fn g_must_come_twice_in_a_row() {
    let mut state = EditorState::with_text("a\nb\nc");
    keys(&mut state, "Gglg");
    assert_eq!(state.cursor().line, 2);
    keys(&mut state, "g");
    assert_eq!(state.cursor().line, 0);
    keys(&mut state, "G");
    state.transition(Token::of_ctrl('g'));
    keys(&mut state, "g");
    assert_eq!(state.cursor().line, 2);
}
