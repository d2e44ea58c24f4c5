use modal_editor::buffer::Buffer;
use modal_editor::chars::{classify_char, classify_line, CharClass};
use modal_editor::command::{Mode, Signal};
use modal_editor::editor::EditorState;
use modal_editor::key::{Key, Token};
use modal_editor::motion::{find_head_before, find_head_from, find_tail_from, move_from, Motion};
use modal_editor::text::Pos;

fn chars(s: &str) -> Vec<char> {
    s.chars().collect()
}

fn lines(text: &[&str]) -> Vec<Vec<char>> {
    text.iter().map(|l| chars(l)).collect()
}

fn at(line: usize, col: usize) -> Pos {
    Pos { line, col }
}

fn press(state: &mut EditorState, keys: &str) {
    for c in keys.chars() {
        assert_eq!(state.transition(Token::of_char(c)), Signal::Continue);
    }
}

#[test]
fn character_classes() {
    assert_eq!(classify_char(' '), CharClass::Space);
    assert_eq!(classify_char('\t'), CharClass::Space);
    assert_eq!(classify_char('a'), CharClass::Alphanumeric);
    assert_eq!(classify_char('7'), CharClass::Alphanumeric);
    assert_eq!(classify_char('é'), CharClass::Alphanumeric);
    assert_eq!(classify_char('.'), CharClass::Other);
    assert_eq!(classify_char('_'), CharClass::Other);
}

#[test]
fn plain_characters_have_the_class_that_is_plain_to_see() {
    assert_eq!(classify_char(' '), CharClass::Space);
    for c in ('a'..='z').chain('A'..='Z').chain('0'..='9') {
        assert_eq!(classify_char(c), CharClass::Alphanumeric);
        assert!(c.is_alphanumeric() && !c.is_whitespace());
    }
    for n in 0u8..128 {
        let c = char::from(n);
        let expected = if c.is_whitespace() {
            CharClass::Space
        } else if c.is_ascii_alphanumeric() {
            CharClass::Alphanumeric
        } else {
            CharClass::Other
        };
        assert_eq!(classify_char(c), expected);
    }
}

#[test]
fn a_line_is_classified_character_by_character() {
    assert_eq!(
        classify_line(&chars("a1 .\t_")),
        vec![
            CharClass::Alphanumeric,
            CharClass::Alphanumeric,
            CharClass::Space,
            CharClass::Other,
            CharClass::Space,
            CharClass::Other,
        ]
    );
    assert_eq!(classify_line(&chars("")), Vec::<CharClass>::new());
}

#[test]
fn word_heads_and_tails() {
    let line = classify_line(&chars("foo  bar.baz "));
    assert_eq!(find_head_from(&line, 0), 0);
    assert_eq!(find_head_from(&line, 1), 5);
    assert_eq!(find_head_from(&line, 6), 8);
    assert_eq!(find_head_from(&line, 9), 9);
    assert_eq!(find_head_from(&line, 10), 13);
    assert_eq!(find_head_before(&line, 13), Some(9));
    assert_eq!(find_head_before(&line, 9), Some(8));
    assert_eq!(find_head_before(&line, 5), Some(0));
    assert_eq!(find_head_before(&line, 0), None);
    assert_eq!(find_tail_from(&line, 0), 2);
    assert_eq!(find_tail_from(&line, 3), 7);
    assert_eq!(find_tail_from(&line, 8), 8);
    assert_eq!(find_tail_from(&line, 12), 13);
    let blank = classify_line(&chars("   "));
    assert_eq!(find_head_from(&blank, 0), 3);
    assert_eq!(find_head_before(&blank, 3), None);
    assert_eq!(find_tail_from(&blank, 0), 3);
    let given = vec![CharClass::Other, CharClass::Alphanumeric, CharClass::Space];
    assert_eq!(find_head_from(&given, 1), 1);
    assert_eq!(find_head_from(&given, 2), 3);
    assert_eq!(find_tail_from(&given, 0), 0);
    assert_eq!(find_head_before(&given, 3), Some(1));
}

#[test]
fn back_and_forward_cross_lines() {
    let text = lines(&["ab", "", "c"]);
    assert_eq!(move_from(&text, at(0, 0), Motion::Forward), at(0, 1));
    assert_eq!(move_from(&text, at(0, 2), Motion::Forward), at(1, 0));
    assert_eq!(move_from(&text, at(1, 0), Motion::Forward), at(2, 0));
    assert_eq!(move_from(&text, at(2, 1), Motion::Forward), at(2, 1));
    assert_eq!(move_from(&text, at(0, 0), Motion::Back), at(0, 0));
    assert_eq!(move_from(&text, at(1, 0), Motion::Back), at(0, 2));
    assert_eq!(move_from(&text, at(2, 1), Motion::Back), at(2, 0));
}

#[test]
fn up_and_down_keep_the_column_where_they_can() {
    let text = lines(&["abcdef", "ab", "abcd"]);
    assert_eq!(move_from(&text, at(0, 4), Motion::Down), at(1, 2));
    assert_eq!(move_from(&text, at(1, 1), Motion::Down), at(2, 1));
    assert_eq!(move_from(&text, at(2, 3), Motion::Up), at(1, 2));
    assert_eq!(move_from(&text, at(0, 3), Motion::Up), at(0, 3));
}

#[test]
fn down_on_the_last_line_goes_to_its_end() {
    let text = lines(&["ab", "abcd"]);
    assert_eq!(move_from(&text, at(1, 1), Motion::Down), at(1, 4));
    let mut state = EditorState::with_text("ab\nabcd");
    press(&mut state, "jj");
    assert_eq!(state.cursor(), at(1, 3));
}

#[test]
fn head_end_top_bottom() {
    let text = lines(&["ab", "abcd", "a"]);
    assert_eq!(move_from(&text, at(1, 2), Motion::Head), at(1, 0));
    assert_eq!(move_from(&text, at(1, 2), Motion::End), at(1, 4));
    assert_eq!(move_from(&text, at(1, 3), Motion::Top), at(0, 2));
    assert_eq!(move_from(&text, at(1, 3), Motion::Bottom), at(2, 1));
}

#[test]
fn word_forward() {
    let text = lines(&["foo bar.baz", "  next"]);
    assert_eq!(move_from(&text, at(0, 0), Motion::WordForward), at(0, 4));
    assert_eq!(move_from(&text, at(0, 4), Motion::WordForward), at(0, 7));
    assert_eq!(move_from(&text, at(0, 7), Motion::WordForward), at(0, 8));
    assert_eq!(move_from(&text, at(0, 8), Motion::WordForward), at(1, 0));
    assert_eq!(move_from(&text, at(1, 0), Motion::WordForward), at(1, 2));
    assert_eq!(move_from(&text, at(1, 2), Motion::WordForward), at(1, 6));
    assert_eq!(move_from(&text, at(1, 6), Motion::WordForward), at(1, 6));
}

#[test]
fn word_back() {
    let text = lines(&["foo bar.baz", "  next"]);
    assert_eq!(move_from(&text, at(1, 6), Motion::WordBack), at(1, 2));
    assert_eq!(move_from(&text, at(1, 2), Motion::WordBack), at(0, 11));
    assert_eq!(move_from(&text, at(0, 11), Motion::WordBack), at(0, 8));
    assert_eq!(move_from(&text, at(0, 8), Motion::WordBack), at(0, 7));
    assert_eq!(move_from(&text, at(0, 7), Motion::WordBack), at(0, 4));
    assert_eq!(move_from(&text, at(0, 4), Motion::WordBack), at(0, 0));
    assert_eq!(move_from(&text, at(0, 0), Motion::WordBack), at(0, 0));
}

#[test]
fn word_end() {
    let text = lines(&["aaa bbb [[[ccc]]]", "", " ddd"]);
    assert_eq!(move_from(&text, at(0, 0), Motion::WordEnd), at(0, 2));
    assert_eq!(move_from(&text, at(0, 2), Motion::WordEnd), at(0, 6));
    assert_eq!(move_from(&text, at(0, 6), Motion::WordEnd), at(0, 10));
    assert_eq!(move_from(&text, at(0, 10), Motion::WordEnd), at(0, 13));
    assert_eq!(move_from(&text, at(0, 13), Motion::WordEnd), at(0, 16));
    assert_eq!(move_from(&text, at(0, 16), Motion::WordEnd), at(2, 3));
    assert_eq!(move_from(&text, at(2, 3), Motion::WordEnd), at(2, 4));
}

#[test]
fn every_motion_stays_in_the_buffer() {
    let text = lines(&["", "a b", "", "xy.z  "]);
    let motions = [
        Motion::Back,
        Motion::Forward,
        Motion::Up,
        Motion::Down,
        Motion::Head,
        Motion::End,
        Motion::Top,
        Motion::Bottom,
        Motion::WordForward,
        Motion::WordBack,
        Motion::WordEnd,
    ];
    for line in 0..text.len() {
        for col in 0..=text[line].len() {
            for m in motions {
                let p = move_from(&text, at(line, col), m);
                assert!(p.line < text.len());
                assert!(p.col <= text[p.line].len());
            }
        }
    }
}

#[test]
fn the_cursor_rests_on_the_last_character_in_normal_mode() {
    let mut state = EditorState::with_text("abc");
    press(&mut state, "$");
    assert_eq!(state.cursor(), at(0, 2));
    press(&mut state, "l");
    assert_eq!(state.cursor(), at(0, 2));
    press(&mut state, "w");
    assert_eq!(state.cursor(), at(0, 2));
    press(&mut state, "x");
    assert_eq!(state.lines(), vec!["ab".to_string()]);
    assert_eq!(state.cursor(), at(0, 1));
}

#[test]
fn named_keys_move_like_their_letters() {
    let mut state = EditorState::with_text("abc\ndef");
    state.transition(Token::of_key(Key::Right));
    assert_eq!(state.cursor(), at(0, 1));
    state.transition(Token::of_key(Key::Down));
    assert_eq!(state.cursor(), at(1, 1));
    state.transition(Token::of_key(Key::End));
    assert_eq!(state.cursor(), at(1, 2));
    state.transition(Token::of_key(Key::Left));
    assert_eq!(state.cursor(), at(1, 1));
    state.transition(Token::of_key(Key::Up));
    assert_eq!(state.cursor(), at(0, 1));
    state.transition(Token::of_key(Key::Home));
    assert_eq!(state.cursor(), at(0, 0));
    assert_eq!(state.mode(), Mode::Normal);
}

#[test]
fn buffer_moves_its_cursor() {
    let mut buffer = Buffer::with_lines(lines(&["one two", "three"]));
    buffer.move_cursor(Motion::WordForward);
    assert_eq!(buffer.cursor(), at(0, 4));
    buffer.move_cursor(Motion::Down);
    assert_eq!(buffer.cursor(), at(1, 4));
    buffer.move_cursor(Motion::End);
    assert_eq!(buffer.cursor(), at(1, 5));
    buffer.rest();
    assert_eq!(buffer.cursor(), at(1, 4));
    assert_eq!(buffer.target_of(Motion::Top), at(0, 4));
    assert_eq!(buffer.line_count(), 2);
    assert_eq!(buffer.line_len(0), 7);
}

#[test]
fn an_empty_list_of_lines_is_one_empty_line() {
    let buffer = Buffer::with_lines(Vec::new());
    assert_eq!(buffer.line_count(), 1);
    assert_eq!(buffer.line_len(0), 0);
    assert_eq!(buffer.cursor(), at(0, 0));
    let state = EditorState::with_lines(Vec::new());
    assert_eq!(state.lines(), vec![String::new()]);
}
