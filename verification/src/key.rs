//! Raw key events, key tokens, and the classifier that turns the one into
//! the other.

use vstd::prelude::*;

verus! {

/// The key of a token: a character, a named key, or nothing.
#[derive(Clone, Copy, Debug, PartialEq, Eq, Structural)]
pub enum Key {
    /// No key: input that carried nothing the editor reads.
    Null,
    /// A character key.
    Char(char),
    /// A function key, by its number.
    F(u8),
    Backspace,
    Enter,
    Left,
    Right,
    Up,
    Down,
    Tab,
    Delete,
    Home,
    End,
    PageUp,
    PageDown,
    Esc,
    /// The mouse wheel turned down.
    MouseScrollDown,
    /// The mouse wheel turned up.
    MouseScrollUp,
}

/// One key press in canonical form.
#[derive(Clone, Copy, Debug, PartialEq, Eq, Structural)]
pub struct Token {
    pub key: Key,
    pub ctrl: bool,
    pub alt: bool,
    pub shift: bool,
}

/// What a terminal reports as pressed or turned.
#[derive(Clone, Copy, Debug, PartialEq, Eq, Structural)]
pub enum RawCode {
    Char(char),
    F(u8),
    Backspace,
    Enter,
    Left,
    Right,
    Up,
    Down,
    Tab,
    Delete,
    Home,
    End,
    PageUp,
    PageDown,
    Esc,
    /// The mouse wheel turned down.
    ScrollDown,
    /// The mouse wheel turned up.
    ScrollUp,
    /// Anything else: another key, another mouse event, a resize, a change
    /// of focus.
    Other,
}

/// One event of the terminal, as plain values.
#[derive(Clone, Copy, Debug, PartialEq, Eq, Structural)]
pub struct RawEvent {
    pub code: RawCode,
    pub ctrl: bool,
    pub alt: bool,
    pub shift: bool,
    /// The event reports that a key was let go, not that it was pressed.
    pub released: bool,
}

impl Key {
    /// Whether the key is one of a keyboard: not the null key and not a
    /// turn of the mouse wheel.
    pub open spec fn is_keyboard(self) -> bool {
        self != Key::Null && self != Key::MouseScrollDown && self != Key::MouseScrollUp
    }

    /// Whether the key is one of a keyboard.
    #[verifier::when_used_as_spec(is_keyboard)]
    pub fn on_keyboard(self) -> (b: bool)
        ensures
            b == self.is_keyboard(),
    {
        match self {
            Key::Null => false,
            Key::MouseScrollDown => false,
            Key::MouseScrollUp => false,
            _ => true,
        }
    }
}

/// Whether a raw event is one of a key that the editor knows: not a turn of
/// the mouse wheel and not one of the other events of a terminal.
pub open spec fn is_key_event(event: RawEvent) -> bool {
    event.code != RawCode::ScrollDown && event.code != RawCode::ScrollUp && event.code
        != RawCode::Other
}

/// The key that a raw code stands for; none for a code that the editor does
/// not know.
pub open spec fn key_of(code: RawCode) -> Key {
    match code {
        RawCode::Char(c) => Key::Char(c),
        RawCode::F(n) => Key::F(n),
        RawCode::Backspace => Key::Backspace,
        RawCode::Enter => Key::Enter,
        RawCode::Left => Key::Left,
        RawCode::Right => Key::Right,
        RawCode::Up => Key::Up,
        RawCode::Down => Key::Down,
        RawCode::Tab => Key::Tab,
        RawCode::Delete => Key::Delete,
        RawCode::Home => Key::Home,
        RawCode::End => Key::End,
        RawCode::PageUp => Key::PageUp,
        RawCode::PageDown => Key::PageDown,
        RawCode::Esc => Key::Esc,
        RawCode::ScrollDown => Key::MouseScrollDown,
        RawCode::ScrollUp => Key::MouseScrollUp,
        RawCode::Other => Key::Null,
    }
}

/// The token of a raw event: the null token for a key that was let go, else
/// the key of the code with the modifiers of the event.
pub open spec fn token_of(event: RawEvent) -> Token {
    if event.released {
        Token::spec_null()
    } else {
        Token { key: key_of(event.code), ctrl: event.ctrl, alt: event.alt, shift: event.shift }
    }
}

/// The key that a raw code stands for.
fn key_for(code: RawCode) -> (k: Key)
    ensures
        k == key_of(code),
{
    match code {
        RawCode::Char(c) => Key::Char(c),
        RawCode::F(n) => Key::F(n),
        RawCode::Backspace => Key::Backspace,
        RawCode::Enter => Key::Enter,
        RawCode::Left => Key::Left,
        RawCode::Right => Key::Right,
        RawCode::Up => Key::Up,
        RawCode::Down => Key::Down,
        RawCode::Tab => Key::Tab,
        RawCode::Delete => Key::Delete,
        RawCode::Home => Key::Home,
        RawCode::End => Key::End,
        RawCode::PageUp => Key::PageUp,
        RawCode::PageDown => Key::PageDown,
        RawCode::Esc => Key::Esc,
        RawCode::ScrollDown => Key::MouseScrollDown,
        RawCode::ScrollUp => Key::MouseScrollUp,
        RawCode::Other => Key::Null,
    }
}

/// Classifies a raw event. It never fails: what is not a key press that the
/// editor knows comes out with the null key.
pub fn classify(event: RawEvent) -> (t: Token)
    ensures
        t == token_of(event),
{
    if event.released {
        Token::null()
    } else {
        Token { key: key_for(event.code), ctrl: event.ctrl, alt: event.alt, shift: event.shift }
    }
}

impl RawEvent {
    /// The event of a key pressed alone.
    pub open spec fn spec_press(code: RawCode) -> RawEvent {
        RawEvent { code, ctrl: false, alt: false, shift: false, released: false }
    }

    /// The event of a key pressed alone.
    #[verifier::when_used_as_spec(spec_press)]
    pub fn press(code: RawCode) -> (e: RawEvent)
        ensures
            e == RawEvent::spec_press(code),
    {
        RawEvent { code, ctrl: false, alt: false, shift: false, released: false }
    }
}

impl Token {
    /// The token that stands for no input.
    pub open spec fn spec_null() -> Token {
        Token { key: Key::Null, ctrl: false, alt: false, shift: false }
    }

    /// The token of a plain character key.
    pub open spec fn spec_of_char(c: char) -> Token {
        Token { key: Key::Char(c), ctrl: false, alt: false, shift: false }
    }

    /// The token of a character key pressed with control.
    pub open spec fn spec_of_ctrl(c: char) -> Token {
        Token { key: Key::Char(c), ctrl: true, alt: false, shift: false }
    }

    /// The token of a key pressed alone.
    pub open spec fn spec_of_key(key: Key) -> Token {
        Token { key, ctrl: false, alt: false, shift: false }
    }

    /// The token that stands for no input.
    #[verifier::when_used_as_spec(spec_null)]
    pub fn null() -> (t: Token)
        ensures
            t == Token::spec_null(),
    {
        Token { key: Key::Null, ctrl: false, alt: false, shift: false }
    }

    /// The token of a plain character key.
    #[verifier::when_used_as_spec(spec_of_char)]
    pub fn of_char(c: char) -> (t: Token)
        ensures
            t == Token::spec_of_char(c),
    {
        Token { key: Key::Char(c), ctrl: false, alt: false, shift: false }
    }

    /// The token of a character key pressed with control.
    #[verifier::when_used_as_spec(spec_of_ctrl)]
    pub fn of_ctrl(c: char) -> (t: Token)
        ensures
            t == Token::spec_of_ctrl(c),
    {
        Token { key: Key::Char(c), ctrl: true, alt: false, shift: false }
    }

    /// The token of a key pressed alone.
    #[verifier::when_used_as_spec(spec_of_key)]
    pub fn of_key(key: Key) -> (t: Token)
        ensures
            t == Token::spec_of_key(key),
    {
        Token { key, ctrl: false, alt: false, shift: false }
    }

    /// Whether the token is the character `c`, with or without modifiers.
    pub open spec fn is_char(self, c: char) -> bool {
        self.key == Key::Char(c)
    }

    /// Whether the token is the character `c` pressed without control.
    pub open spec fn is_plain(self, c: char) -> bool {
        self.key == Key::Char(c) && !self.ctrl
    }

    /// Whether the token is the character `c` pressed with control.
    pub open spec fn is_ctrl(self, c: char) -> bool {
        self.key == Key::Char(c) && self.ctrl
    }

    /// Whether the token is key `key` pressed without control or alt.
    pub open spec fn is_bare(self, key: Key) -> bool {
        self.key == key && !self.ctrl && !self.alt
    }
}

} // verus!
