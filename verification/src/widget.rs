//! What the widgets draw, as plain values: a painter takes these and puts
//! them on the screen.

use crate::command::{CursorColor, Scroll};
use crate::editor::{view_anchor, EditorState};
use crate::model::ordered;
use crate::text::Pos;
use vstd::prelude::*;

verus! {

/// Everything that is drawn of an editor.
pub struct EditorFrame {
    /// The title of the surrounding block.
    pub title: String,
    /// The colour of the cursor.
    pub cursor_color: CursorColor,
    /// The lines of the buffer.
    pub lines: Vec<String>,
    /// The place of the cursor.
    pub cursor: Pos,
    /// Where the selection began, while there is one.
    pub anchor: Option<Pos>,
    /// The selection in reading order, while there is one.
    pub selection: Option<(Pos, Pos)>,
}

/// The widget that shows an editor.
#[derive(Default)]
pub struct EditorWidget {}

impl EditorWidget {
    /// What is to be drawn of `state`: the title and the cursor colour of
    /// its mode, its lines, its cursor, its anchor and its selection.
    pub fn frame(&self, state: &EditorState) -> (f: EditorFrame)
        ensures
            f.title@ == state@.mode.title_of(),
            f.cursor_color == state@.mode.cursor_color_of(),
            f.lines.len() == state@.text.lines.len(),
            forall|i: int| 0 <= i < f.lines.len() ==> (#[trigger] f.lines[i])@ == state@.text.lines[i],
            f.cursor@ == state@.text.cursor,
            view_anchor(f.anchor) == state@.anchor,
            match f.selection {
                Some((a, b)) => state@.anchor is Some && (a@, b@) == ordered(
                    state@.anchor->0,
                    state@.text.cursor,
                ),
                None => state@.anchor is None,
            },
    {
        let mode = state.mode();
        EditorFrame {
            title: mode.title(),
            cursor_color: mode.cursor_color(),
            lines: state.lines(),
            cursor: state.cursor(),
            anchor: state.anchor(),
            selection: state.selection(),
        }
    }
}

/// How far a request moves the viewport in a view of `rows` rows: a line, half
/// the rows or all the rows.
pub open spec fn scroll_distance(request: Scroll, rows: int) -> int {
    match request {
        Scroll::LineDown => 1,
        Scroll::LineUp => 1,
        Scroll::HalfPageDown => rows / 2,
        Scroll::HalfPageUp => rows / 2,
        Scroll::PageDown => rows,
        Scroll::PageUp => rows,
    }
}

/// Whether a request moves the viewport down.
pub open spec fn scrolls_down(request: Scroll) -> bool {
    request == Scroll::LineDown || request == Scroll::HalfPageDown || request == Scroll::PageDown
}

/// The first line shown after a request, in a buffer of `count` lines of
/// which line `top` was the first shown: `top` moved by the distance of the
/// request, and no further than the first and the last line.
pub open spec fn top_after(top: int, rows: int, count: int, request: Scroll) -> int {
    let last = if count > 0 {
        count - 1
    } else {
        0
    };
    let moved = if scrolls_down(request) {
        top + scroll_distance(request, rows)
    } else {
        top - scroll_distance(request, rows)
    };
    if moved < 0 {
        0
    } else if moved > last {
        last
    } else {
        moved
    }
}

/// The first line to show so that the line of the cursor is among the `rows`
/// lines shown: `top` where it already is, else as near to `top` as can be.
pub open spec fn top_showing(top: int, rows: int, line: int) -> int {
    if line < top {
        line
    } else if rows > 0 && top + rows <= line {
        line + 1 - rows
    } else {
        top
    }
}

impl EditorWidget {
    /// The first line shown after a request to move the viewport.
    pub fn scrolled(&self, top: usize, rows: usize, count: usize, request: Scroll) -> (r: usize)
        ensures
            r == top_after(top as int, rows as int, count as int, request),
    {
        let last = if count > 0 {
            count - 1
        } else {
            0
        };
        let distance = match request {
            Scroll::LineDown => 1,
            Scroll::LineUp => 1,
            Scroll::HalfPageDown => rows / 2,
            Scroll::HalfPageUp => rows / 2,
            Scroll::PageDown => rows,
            Scroll::PageUp => rows,
        };
        let down = match request {
            Scroll::LineDown => true,
            Scroll::HalfPageDown => true,
            Scroll::PageDown => true,
            _ => false,
        };
        if down {
            if top >= last || distance >= last - top {
                last
            } else {
                top + distance
            }
        } else {
            let moved = if distance >= top {
                0
            } else {
                top - distance
            };
            if moved > last {
                last
            } else {
                moved
            }
        }
    }

    /// The first line to show so that the line of the cursor is shown. With
    /// at least one row the line of the cursor is then among those shown.
    pub fn showing(&self, top: usize, rows: usize, line: usize) -> (r: usize)
        ensures
            r == top_showing(top as int, rows as int, line as int),
            rows > 0 ==> r <= line < r + rows,
    {
        if line < top {
            line
        } else if rows > 0 && line - top >= rows {
            line - rows + 1
        } else {
            top
        }
    }
}

/// The widget that shows a chat: the messages above, the editor below.
#[derive(Default)]
pub struct ChatWidget {}

impl ChatWidget {
    /// The rows that the editor takes at the bottom.
    pub fn editor_rows(&self) -> (rows: u16)
        ensures
            rows == 5,
    {
        5
    }

    /// The width that the text of a message has in an area of the given
    /// width: two columns less, and nothing where there are not two.
    pub fn text_width(&self, width: u16) -> (w: u16)
        ensures
            w == if width >= 2 {
                width - 2
            } else {
                0
            },
    {
        if width >= 2 {
            width - 2
        } else {
            0
        }
    }

    /// The rows of a message whose text wraps into `count` lines: the count
    /// itself, and the largest number of rows there is where the count is
    /// larger.
    pub fn item_rows(&self, count: usize) -> (rows: u16)
        ensures
            rows == if count <= u16::MAX {
                count as int
            } else {
                u16::MAX as int
            },
    {
        if count <= 65535 {
            count as u16
        } else {
            65535
        }
    }
}

/// The widget that shows the list of characters to choose from.
#[derive(Default)]
pub struct SelectorWidget {}

impl SelectorWidget {
    /// The rows of one entry of the list.
    pub fn item_rows(&self) -> (rows: u16)
        ensures
            rows == 3,
    {
        3
    }

    /// The title of the list.
    pub fn title(&self) -> (s: &'static str)
        ensures
            s@ == "Character selector"@,
    {
        "Character selector"
    }
}

} // verus!
