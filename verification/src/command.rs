//! Modes, and the reading of a key token as a command.

use crate::key::{Key, Token};
use crate::motion::Motion;
use crate::strings::push_chars;
use vstd::prelude::*;
use vstd::string::StringExecFns;

verus! {

/// How the next token is read.
#[derive(Clone, Copy, Debug, PartialEq, Eq, Structural)]
pub enum Mode {
    /// Tokens are commands.
    Normal,
    /// Tokens are text.
    Insert,
    /// Tokens are commands, and motions stretch a selection.
    Visual,
    /// An operator, `y`, `d` or `c`, waits for the motion that says what it
    /// applies to.
    Operator(char),
}

/// What the editor tells its host after a token.
#[derive(Clone, Copy, Debug, PartialEq, Eq, Structural)]
pub enum Signal {
    /// Go on feeding tokens.
    Continue,
    /// Accept the text as it stands.
    Commit,
    /// Leave the editor without accepting the text.
    Cancel,
}

/// A request to move the viewport. The buffer is not touched by it.
#[derive(Clone, Copy, Debug, PartialEq, Eq, Structural)]
pub enum Scroll {
    LineDown,
    LineUp,
    HalfPageDown,
    HalfPageUp,
    PageDown,
    PageUp,
}

/// What a token asks for outside of insertion.
#[derive(Clone, Copy, Debug, PartialEq, Eq, Structural)]
pub enum Command {
    /// Nothing yet: the token is kept as the pending one.
    Pend,
    /// Move the cursor.
    Move(Motion),
    /// Move the viewport.
    Scroll(Scroll),
    /// `x`: delete the character under the cursor.
    DeleteChar,
    /// `D`: delete from the cursor to the end of the line.
    DeleteToEnd,
    /// `C`: delete from the cursor to the end of the line and insert.
    ChangeToEnd,
    /// `p`: paste the register.
    Paste,
    /// `u`: undo.
    Undo,
    /// Control-`r`: redo.
    Redo,
    /// `i`: insert at the cursor.
    InsertHere,
    /// `a`: insert after the cursor.
    Append,
    /// `A`: insert at the end of the line.
    AppendEnd,
    /// `o`: open a line below and insert.
    OpenBelow,
    /// `O`: open a line above and insert.
    OpenAbove,
    /// `I`: insert at the head of the line.
    InsertHead,
    /// `q`: leave the editor.
    Quit,
    /// `v`: start a selection at the cursor.
    StartVisual,
    /// `V`: select the line of the cursor.
    StartVisualLine,
    /// Escape, or `v` during a selection: back to normal mode.
    Cancel,
    /// `y`, `d` or `c` in normal mode: wait for a motion.
    StartOperator(char),
    /// The operator's own character once more: apply it to the whole line.
    LineOperator,
    /// `y`, `d` or `c` during a selection: apply it to the selection.
    VisualOperator(char),
}

/// Whether `c` is one of the three operator characters.
pub open spec fn is_operator_char(c: char) -> bool {
    c == 'y' || c == 'd' || c == 'c'
}

/// The scroll request that a character stands for when pressed with control.
pub open spec fn scroll_of_char(c: char) -> Option<Scroll> {
    if c == 'e' {
        Some(Scroll::LineDown)
    } else if c == 'y' {
        Some(Scroll::LineUp)
    } else if c == 'd' {
        Some(Scroll::HalfPageDown)
    } else if c == 'u' {
        Some(Scroll::HalfPageUp)
    } else if c == 'f' {
        Some(Scroll::PageDown)
    } else if c == 'b' {
        Some(Scroll::PageUp)
    } else {
        None
    }
}

/// The command that a character has whether or not control is pressed.
pub open spec fn fixed_command_of_char(c: char) -> Option<Command> {
    if c == 'h' {
        Some(Command::Move(Motion::Back))
    } else if c == 'j' {
        Some(Command::Move(Motion::Down))
    } else if c == 'k' {
        Some(Command::Move(Motion::Up))
    } else if c == 'l' {
        Some(Command::Move(Motion::Forward))
    } else if c == 'w' {
        Some(Command::Move(Motion::WordForward))
    } else if c == '^' {
        Some(Command::Move(Motion::Head))
    } else if c == '$' {
        Some(Command::Move(Motion::End))
    } else if c == 'D' {
        Some(Command::DeleteToEnd)
    } else if c == 'C' {
        Some(Command::ChangeToEnd)
    } else if c == 'p' {
        Some(Command::Paste)
    } else if c == 'x' {
        Some(Command::DeleteChar)
    } else if c == 'i' {
        Some(Command::InsertHere)
    } else if c == 'a' {
        Some(Command::Append)
    } else if c == 'A' {
        Some(Command::AppendEnd)
    } else if c == 'o' {
        Some(Command::OpenBelow)
    } else if c == 'O' {
        Some(Command::OpenAbove)
    } else if c == 'I' {
        Some(Command::InsertHead)
    } else if c == 'q' {
        Some(Command::Quit)
    } else {
        None
    }
}

/// The command of a character pressed without control that has no fixed
/// command: it depends on the mode and on the pending token.
pub open spec fn plain_command_of_char(mode: Mode, pending: Token, c: char) -> Command {
    if c == 'e' {
        Command::Move(Motion::WordEnd)
    } else if c == 'b' {
        Command::Move(Motion::WordBack)
    } else if c == 'u' {
        Command::Undo
    } else if c == 'v' {
        match mode {
            Mode::Normal => Command::StartVisual,
            Mode::Visual => Command::Cancel,
            _ => Command::Pend,
        }
    } else if c == 'V' {
        match mode {
            Mode::Normal => Command::StartVisualLine,
            _ => Command::Pend,
        }
    } else if c == 'g' {
        if pending.is_plain('g') {
            Command::Move(Motion::Top)
        } else {
            Command::Pend
        }
    } else if c == 'G' {
        Command::Move(Motion::Bottom)
    } else if mode == Mode::Operator(c) {
        Command::LineOperator
    } else if is_operator_char(c) {
        match mode {
            Mode::Normal => Command::StartOperator(c),
            Mode::Visual => Command::VisualOperator(c),
            _ => Command::Pend,
        }
    } else {
        Command::Pend
    }
}

/// The command that token `t` stands for in a mode other than insertion,
/// given the pending token. The arrows, Home and End move like their
/// letters; Escape ends a selection or a pending operator; every key that
/// has no command, the null key among them, is kept pending.
pub open spec fn command_of(mode: Mode, pending: Token, t: Token) -> Command {
    match t.key {
        Key::Left => Command::Move(Motion::Back),
        Key::Right => Command::Move(Motion::Forward),
        Key::Up => Command::Move(Motion::Up),
        Key::Down => Command::Move(Motion::Down),
        Key::Home => Command::Move(Motion::Head),
        Key::End => Command::Move(Motion::End),
        Key::Esc => match mode {
            Mode::Visual => Command::Cancel,
            Mode::Operator(_) => Command::Cancel,
            _ => Command::Pend,
        },
        Key::Char(c) => match fixed_command_of_char(c) {
            Some(cmd) => cmd,
            None => if t.ctrl {
                if c == 'r' {
                    Command::Redo
                } else {
                    match scroll_of_char(c) {
                        Some(s) => Command::Scroll(s),
                        None => Command::Pend,
                    }
                }
            } else {
                plain_command_of_char(mode, pending, c)
            },
        },
        _ => Command::Pend,
    }
}

/// The scroll request of `c` pressed with control, if it is one.
fn scroll_for_char(c: char) -> (r: Option<Scroll>)
    ensures
        r == scroll_of_char(c),
{
    if c == 'e' {
        Some(Scroll::LineDown)
    } else if c == 'y' {
        Some(Scroll::LineUp)
    } else if c == 'd' {
        Some(Scroll::HalfPageDown)
    } else if c == 'u' {
        Some(Scroll::HalfPageUp)
    } else if c == 'f' {
        Some(Scroll::PageDown)
    } else if c == 'b' {
        Some(Scroll::PageUp)
    } else {
        None
    }
}

/// The command of `c` that does not depend on control, if it has one.
fn fixed_command_for_char(c: char) -> (r: Option<Command>)
    ensures
        r == fixed_command_of_char(c),
{
    if c == 'h' {
        Some(Command::Move(Motion::Back))
    } else if c == 'j' {
        Some(Command::Move(Motion::Down))
    } else if c == 'k' {
        Some(Command::Move(Motion::Up))
    } else if c == 'l' {
        Some(Command::Move(Motion::Forward))
    } else if c == 'w' {
        Some(Command::Move(Motion::WordForward))
    } else if c == '^' {
        Some(Command::Move(Motion::Head))
    } else if c == '$' {
        Some(Command::Move(Motion::End))
    } else if c == 'D' {
        Some(Command::DeleteToEnd)
    } else if c == 'C' {
        Some(Command::ChangeToEnd)
    } else if c == 'p' {
        Some(Command::Paste)
    } else if c == 'x' {
        Some(Command::DeleteChar)
    } else if c == 'i' {
        Some(Command::InsertHere)
    } else if c == 'a' {
        Some(Command::Append)
    } else if c == 'A' {
        Some(Command::AppendEnd)
    } else if c == 'o' {
        Some(Command::OpenBelow)
    } else if c == 'O' {
        Some(Command::OpenAbove)
    } else if c == 'I' {
        Some(Command::InsertHead)
    } else if c == 'q' {
        Some(Command::Quit)
    } else {
        None
    }
}

/// The command of `c` pressed without control, where it has no fixed one.
fn plain_command_for_char(mode: Mode, pending: Token, c: char) -> (r: Command)
    ensures
        r == plain_command_of_char(mode, pending, c),
{
    if c == 'e' {
        Command::Move(Motion::WordEnd)
    } else if c == 'b' {
        Command::Move(Motion::WordBack)
    } else if c == 'u' {
        Command::Undo
    } else if c == 'v' {
        match mode {
            Mode::Normal => Command::StartVisual,
            Mode::Visual => Command::Cancel,
            _ => Command::Pend,
        }
    } else if c == 'V' {
        match mode {
            Mode::Normal => Command::StartVisualLine,
            _ => Command::Pend,
        }
    } else if c == 'g' {
        if pending.key == Key::Char('g') && !pending.ctrl {
            Command::Move(Motion::Top)
        } else {
            Command::Pend
        }
    } else if c == 'G' {
        Command::Move(Motion::Bottom)
    } else if mode == Mode::Operator(c) {
        Command::LineOperator
    } else if c == 'y' || c == 'd' || c == 'c' {
        match mode {
            Mode::Normal => Command::StartOperator(c),
            Mode::Visual => Command::VisualOperator(c),
            _ => Command::Pend,
        }
    } else {
        Command::Pend
    }
}

/// Reads token `t` as a command, for a mode other than insertion.
pub fn read_command(mode: Mode, pending: Token, t: Token) -> (cmd: Command)
    ensures
        cmd == command_of(mode, pending, t),
{
    match t.key {
        Key::Left => Command::Move(Motion::Back),
        Key::Right => Command::Move(Motion::Forward),
        Key::Up => Command::Move(Motion::Up),
        Key::Down => Command::Move(Motion::Down),
        Key::Home => Command::Move(Motion::Head),
        Key::End => Command::Move(Motion::End),
        Key::Esc => match mode {
            Mode::Visual => Command::Cancel,
            Mode::Operator(_) => Command::Cancel,
            _ => Command::Pend,
        },
        Key::Char(c) => match fixed_command_for_char(c) {
            Some(cmd) => cmd,
            None => {
                if t.ctrl {
                    if c == 'r' {
                        Command::Redo
                    } else {
                        match scroll_for_char(c) {
                            Some(s) => Command::Scroll(s),
                            None => Command::Pend,
                        }
                    }
                } else {
                    plain_command_for_char(mode, pending, c)
                }
            },
        },
        _ => Command::Pend,
    }
}

impl Mode {
    /// The name of the mode for a status line; a pending operator is named
    /// with its character.
    pub open spec fn label_of(self) -> Seq<char> {
        match self {
            Mode::Normal => "NORMAL"@,
            Mode::Insert => "INSERT"@,
            Mode::Visual => "VISUAL"@,
            Mode::Operator(c) => "OPERATOR("@ + seq![c] + ")"@,
        }
    }

    /// A line of help on the keys of the mode.
    pub open spec fn help_of(self) -> Seq<char> {
        match self {
            Mode::Normal => "type q to quit, type i to enter insert mode"@,
            Mode::Insert => "type Esc to back to normal mode"@,
            Mode::Visual => "type y to yank, type d to delete, type Esc to back to normal mode"@,
            Mode::Operator(_) => "move cursor to apply operator"@,
        }
    }

    /// The title of the editor's frame: the name of the mode, the word
    /// MODE, and the help in parentheses.
    pub open spec fn title_of(self) -> Seq<char> {
        self.label_of() + " MODE ("@ + self.help_of() + ")"@
    }

    /// The name of the mode for a status line.
    pub fn label(&self) -> (s: String)
        ensures
            s@ == self.label_of(),
    {
        match self {
            Mode::Normal => String::from_str("NORMAL"),
            Mode::Insert => String::from_str("INSERT"),
            Mode::Visual => String::from_str("VISUAL"),
            Mode::Operator(c) => {
                let mut s = String::from_str("OPERATOR(");
                let mut one: Vec<char> = Vec::new();
                one.push(*c);
                assert(one@ =~= seq![*c]);
                push_chars(&mut s, &one);
                s.append(")");
                s
            },
        }
    }

    /// A line of help on the keys of the mode.
    pub fn help(&self) -> (s: &'static str)
        ensures
            s@ == self.help_of(),
    {
        match self {
            Mode::Normal => "type q to quit, type i to enter insert mode",
            Mode::Insert => "type Esc to back to normal mode",
            Mode::Visual => "type y to yank, type d to delete, type Esc to back to normal mode",
            Mode::Operator(_) => "move cursor to apply operator",
        }
    }

    /// The title of the editor's frame.
    pub fn title(&self) -> (s: String)
        ensures
            s@ == self.title_of(),
    {
        let mut s = self.label();
        s.append(" MODE (");
        s.append(self.help());
        s.append(")");
        s
    }

    /// The colour of the cursor in this mode.
    pub fn cursor_color(&self) -> (c: CursorColor)
        ensures
            c == self.cursor_color_of(),
    {
        match self {
            Mode::Normal => CursorColor::Reset,
            Mode::Insert => CursorColor::LightBlue,
            Mode::Visual => CursorColor::LightYellow,
            Mode::Operator(_) => CursorColor::LightGreen,
        }
    }

    /// The colour of the cursor in this mode.
    pub open spec fn cursor_color_of(self) -> CursorColor {
        match self {
            Mode::Normal => CursorColor::Reset,
            Mode::Insert => CursorColor::LightBlue,
            Mode::Visual => CursorColor::LightYellow,
            Mode::Operator(_) => CursorColor::LightGreen,
        }
    }
}

/// The foreground colours of the cursor, which is drawn reversed.
#[derive(Clone, Copy, Debug, PartialEq, Eq, Structural)]
pub enum CursorColor {
    /// The terminal's own colour.
    Reset,
    LightBlue,
    LightYellow,
    LightGreen,
}

} // verus!
