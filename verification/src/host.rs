//! What the screens around the editor decide on a key: the chat screen, which
//! owns an editor, and the character selector. They return what is to be
//! done; doing it is up to the caller.

use crate::command::{Scroll, Signal};
use crate::editor::EditorState;
use crate::key::{classify, is_key_event, token_of, Key, RawEvent, Token};
use crate::model::EditorModel;
use crate::strings::joined;
use vstd::prelude::*;

verus! {

/// Whether keys go to the chat screen or to its editor.
#[derive(Clone, Copy, Debug, PartialEq, Eq, Structural)]
pub enum InputMode {
    Normal,
    Editing,
}

/// What the chat screen asks its caller to do.
#[derive(Debug, PartialEq, Eq)]
pub enum ChatAction {
    /// Nothing.
    Idle,
    /// Add the text as a message of the user.
    Submit(String),
    /// Show the previous variant of the message at the index.
    PreviousBranch(usize),
    /// Show the next variant of the message at the index.
    NextBranch(usize),
    /// Select the next message of the list.
    SelectNext,
    /// Select the previous message of the list.
    SelectPrevious,
    /// Show or hide the character selector.
    ToggleSelection,
    /// Move the viewport of the editor.
    Scroll(Scroll),
    /// Leave the program.
    Quit,
}

/// What a key asks for in the list of messages, given the index of the
/// selected message. No text is carried.
#[derive(Clone, Copy, Debug, PartialEq, Eq, Structural)]
pub enum ListAction {
    Idle,
    PreviousBranch(usize),
    NextBranch(usize),
    SelectNext,
    SelectPrevious,
}

/// What token `t` asks for in the list of messages: with a message
/// selected, `h` and `l` go through its variants and `j` and `k` through the
/// list; without one, nothing.
pub open spec fn list_action_of(t: Token, selected: Option<usize>) -> ListAction {
    match selected {
        Some(at) => if t.is_char('h') {
            ListAction::PreviousBranch(at)
        } else if t.is_char('j') {
            ListAction::SelectNext
        } else if t.is_char('k') {
            ListAction::SelectPrevious
        } else if t.is_char('l') {
            ListAction::NextBranch(at)
        } else {
            ListAction::Idle
        },
        None => ListAction::Idle,
    }
}

/// The state of the chat screen as far as keys go.
pub struct ChatModel {
    pub input_mode: InputMode,
    pub editor: EditorModel,
}

/// The chat screen: the mode of its input and its editor.
pub struct ChatState {
    input_mode: InputMode,
    editor_state: EditorState,
}

impl View for ChatState {
    type V = ChatModel;

    closed spec fn view(&self) -> ChatModel {
        ChatModel { input_mode: self.input_mode, editor: self.editor_state@ }
    }
}

impl ChatModel {
    /// The editor's invariant holds.
    pub open spec fn wf(self) -> bool {
        self.editor.wf()
    }

    /// The state after token `t`. The screen acts on keys of the keyboard
    /// only: any other token changes nothing. Outside of editing, Enter
    /// puts a fresh editor in place and `i` starts editing; while editing,
    /// the token goes to the editor, and editing ends when the editor
    /// signals to cancel.
    pub open spec fn next(self, t: Token) -> ChatModel {
        if !t.key.is_keyboard() {
            self
        } else {
            match self.input_mode {
                InputMode::Normal => if t.key == Key::Enter {
                    ChatModel { editor: EditorModel::initial(), ..self }
                } else if t.is_char('i') {
                    ChatModel { input_mode: InputMode::Editing, ..self }
                } else {
                    self
                },
                InputMode::Editing => ChatModel {
                    input_mode: if self.editor.signal(t) == Signal::Cancel {
                        InputMode::Normal
                    } else {
                        InputMode::Editing
                    },
                    editor: self.editor.next(t),
                },
            }
        }
    }
}

impl ChatModel {
    /// Whether `a` is what the screen asks of its caller on token `t`, given
    /// the index of the selected message. On a token that is no key of the
    /// keyboard, nothing. While editing: to move the viewport where the
    /// token asks the editor for that, else nothing. Outside of editing: on
    /// Enter, to submit the text of the editor, its lines joined by line
    /// feeds; on `i`, nothing; on `s`, to toggle the selector; on Escape,
    /// to quit; on any other key, what the key asks for in the list of
    /// messages.
    pub open spec fn asks(self, t: Token, selected: Option<usize>, a: ChatAction) -> bool {
        match self.input_mode {
            _ if !t.key.is_keyboard() => a == ChatAction::Idle,
            InputMode::Editing => match self.editor.scroll_request(t) {
                Some(s) => a == ChatAction::Scroll(s),
                None => a == ChatAction::Idle,
            },
            InputMode::Normal => if t.key == Key::Enter {
                a matches ChatAction::Submit(text) && text@ == joined(self.editor.text.lines)
            } else if t.is_char('i') {
                a == ChatAction::Idle
            } else if t.is_char('s') {
                a == ChatAction::ToggleSelection
            } else if t.key == Key::Esc {
                a == ChatAction::Quit
            } else {
                match list_action_of(t, selected) {
                    ListAction::Idle => a == ChatAction::Idle,
                    ListAction::PreviousBranch(at) => a == ChatAction::PreviousBranch(at),
                    ListAction::NextBranch(at) => a == ChatAction::NextBranch(at),
                    ListAction::SelectNext => a == ChatAction::SelectNext,
                    ListAction::SelectPrevious => a == ChatAction::SelectPrevious,
                }
            },
        }
    }
}

impl ChatState {
    /// The editor's invariant holds.
    pub open spec fn wf(&self) -> bool {
        self@.wf()
    }

    /// A chat screen with a fresh editor that is not being edited in.
    pub fn new() -> (s: ChatState)
        ensures
            s@ == (ChatModel { input_mode: InputMode::Normal, editor: EditorModel::initial() }),
            s.wf(),
    {
        ChatState { input_mode: InputMode::Normal, editor_state: EditorState::new() }
    }

    /// Whether keys go to the screen or to its editor.
    pub fn input_mode(&self) -> (m: InputMode)
        ensures
            m == self@.input_mode,
    {
        self.input_mode
    }

    /// The editor of the screen.
    pub fn editor(&self) -> (e: &EditorState)
        ensures
            e@ == self@.editor,
    {
        &self.editor_state
    }

    /// What token `t` asks for in the list of messages, given the index of
    /// the selected message.
    pub fn update(&self, t: Token, selected: Option<usize>) -> (a: ListAction)
        ensures
            a == list_action_of(t, selected),
    {
        match selected {
            Some(at) => match t.key {
                Key::Char(c) => {
                    if c == 'h' {
                        ListAction::PreviousBranch(at)
                    } else if c == 'j' {
                        ListAction::SelectNext
                    } else if c == 'k' {
                        ListAction::SelectPrevious
                    } else if c == 'l' {
                        ListAction::NextBranch(at)
                    } else {
                        ListAction::Idle
                    }
                },
                _ => ListAction::Idle,
            },
            None => ListAction::Idle,
        }
    }

    /// Takes one token. A token that is no key of the keyboard is ignored:
    /// nothing changes and nothing is asked. Outside of editing, Enter
    /// submits the text of the editor and puts a fresh editor in place, `i`
    /// starts editing, `s` toggles the selector, Escape quits, and any other
    /// key goes to the list of messages. While editing, the token goes to
    /// the editor, and the caller is asked to move the viewport where the
    /// token asks for that.
    pub fn handle(&mut self, t: Token, selected: Option<usize>) -> (a: ChatAction)
        requires
            old(self).wf(),
        ensures
            final(self).wf(),
            final(self)@ == old(self)@.next(t),
            old(self)@.asks(t, selected, a),
            !t.key.is_keyboard() ==> final(self)@ == old(self)@ && a == ChatAction::Idle,
    {
        if !t.key.on_keyboard() {
            return ChatAction::Idle;
        }
        match self.input_mode {
            InputMode::Normal => match t.key {
                Key::Enter => {
                    let text = self.editor_state.text();
                    self.editor_state = EditorState::new();
                    ChatAction::Submit(text)
                },
                Key::Esc => ChatAction::Quit,
                Key::Char(c) => {
                    if c == 'i' {
                        self.input_mode = InputMode::Editing;
                        ChatAction::Idle
                    } else if c == 's' {
                        ChatAction::ToggleSelection
                    } else {
                        chat_action(self.update(t, selected))
                    }
                },
                _ => chat_action(self.update(t, selected)),
            },
            InputMode::Editing => {
                let request = self.editor_state.scroll_request(t);
                let sig = self.editor_state.transition(t);
                if sig == Signal::Cancel {
                    self.input_mode = InputMode::Normal;
                }
                match request {
                    Some(s) => ChatAction::Scroll(s),
                    None => ChatAction::Idle,
                }
            },
        }
    }

    /// Takes one raw event: it is classified, and its token is taken as
    /// [`ChatState::handle`] takes it. An event that is no key event, such
    /// as a turn of the mouse wheel, changes nothing and asks for nothing,
    /// whether or not the screen is editing.
    pub fn input(&mut self, event: RawEvent, selected: Option<usize>) -> (a: ChatAction)
        requires
            old(self).wf(),
        ensures
            final(self).wf(),
            final(self)@ == old(self)@.next(token_of(event)),
            old(self)@.asks(token_of(event), selected, a),
            !is_key_event(event) ==> final(self)@ == old(self)@ && a == ChatAction::Idle,
    {
        self.handle(classify(event), selected)
    }
}

/// The entry that is selected when a list of `count` entries is first
/// shown: the first, if there is one.
pub fn first_selected(count: usize) -> (r: Option<usize>)
    ensures
        r == if count > 0 {
            Some(0usize)
        } else {
            None
        },
{
    if count > 0 {
        Some(0)
    } else {
        None
    }
}

/// The action of the chat screen that stands for an action in the list.
fn chat_action(a: ListAction) -> (r: ChatAction)
    ensures
        match a {
            ListAction::Idle => r == ChatAction::Idle,
            ListAction::PreviousBranch(at) => r == ChatAction::PreviousBranch(at),
            ListAction::NextBranch(at) => r == ChatAction::NextBranch(at),
            ListAction::SelectNext => r == ChatAction::SelectNext,
            ListAction::SelectPrevious => r == ChatAction::SelectPrevious,
        },
{
    match a {
        ListAction::Idle => ChatAction::Idle,
        ListAction::PreviousBranch(at) => ChatAction::PreviousBranch(at),
        ListAction::NextBranch(at) => ChatAction::NextBranch(at),
        ListAction::SelectNext => ChatAction::SelectNext,
        ListAction::SelectPrevious => ChatAction::SelectPrevious,
    }
}

/// What the character selector asks its caller to do.
#[derive(Clone, Copy, Debug, PartialEq, Eq, Structural)]
pub enum SelectorAction {
    /// Nothing.
    Idle,
    /// Select the next entry of the list.
    SelectNext,
    /// Select the previous entry of the list.
    SelectPrevious,
    /// Take the character at the index.
    Choose(usize),
    /// Show or hide the selector.
    ToggleSelection,
}

/// What token `t` asks of a selector with `count` entries, given the index
/// of the selected entry: `j` and `k` go through the list, Enter takes the
/// selected entry, Escape hides the selector. Without a selected entry, or
/// with one that is not in the list, nothing is taken.
pub open spec fn selector_action_of(count: usize, t: Token, selected: Option<usize>)
    -> SelectorAction {
    match selected {
        Some(at) => if t.is_char('j') {
            SelectorAction::SelectNext
        } else if t.is_char('k') {
            SelectorAction::SelectPrevious
        } else if t.key == Key::Enter && at < count {
            SelectorAction::Choose(at)
        } else if t.key == Key::Esc {
            SelectorAction::ToggleSelection
        } else {
            SelectorAction::Idle
        },
        None => SelectorAction::Idle,
    }
}

/// The character selector: it knows how many entries its list has.
pub struct SelectorState {
    count: usize,
}

impl SelectorState {
    /// The number of entries.
    pub closed spec fn count_of(&self) -> usize {
        self.count
    }

    /// A selector over `count` entries.
    pub fn new(count: usize) -> (s: SelectorState)
        ensures
            s.count_of() == count,
    {
        SelectorState { count }
    }

    /// The number of entries.
    pub fn count(&self) -> (n: usize)
        ensures
            n == self.count_of(),
    {
        self.count
    }

    /// What token `t` asks for, given the index of the selected entry.
    pub fn handle(&self, t: Token, selected: Option<usize>) -> (a: SelectorAction)
        ensures
            a == selector_action_of(self.count_of(), t, selected),
    {
        match selected {
            Some(at) => match t.key {
                Key::Char(c) => {
                    if c == 'j' {
                        SelectorAction::SelectNext
                    } else if c == 'k' {
                        SelectorAction::SelectPrevious
                    } else {
                        SelectorAction::Idle
                    }
                },
                Key::Enter => {
                    if at < self.count {
                        SelectorAction::Choose(at)
                    } else {
                        SelectorAction::Idle
                    }
                },
                Key::Esc => SelectorAction::ToggleSelection,
                _ => SelectorAction::Idle,
            },
            None => SelectorAction::Idle,
        }
    }

    /// Takes one raw event: it is classified, and its token is taken as
    /// [`SelectorState::handle`] takes it. An event that is no key event
    /// asks for nothing.
    pub fn handle_input(&self, event: RawEvent, selected: Option<usize>) -> (a: SelectorAction)
        ensures
            a == selector_action_of(self.count_of(), token_of(event), selected),
            !is_key_event(event) ==> a == SelectorAction::Idle,
    {
        self.handle(classify(event), selected)
    }
}

} // verus!
