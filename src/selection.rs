//! The cursor or visual selection of the current buffer, and the
//! notification that reports it.

use vstd::prelude::*;
use crate::json::{is_int_member, is_str_member, json_int, json_str, member_of, Json};
use crate::buffer::current_path;
use crate::path::{is_absolute, to_uri, uri_of};

verus! {

/// A zero-based position: line, and character within the line.
#[derive(Clone, Copy, Debug, PartialEq, Eq, Structural)]
pub struct Position {
    pub line: usize,
    pub character: usize,
}

/// The cursor as the editor reports it: one-based row, zero-based column.
#[derive(Clone, Copy, Debug, PartialEq, Eq, Structural)]
pub struct CursorPos {
    pub row: usize,
    pub col: usize,
}

/// The marks of a visual selection as the editor reports them (one-based
/// lines, zero-based columns, the end column inclusive) and the selected
/// text.
pub struct VisualMarks {
    pub start_line: usize,
    pub start_col: usize,
    pub end_line: usize,
    pub end_col: usize,
    pub text: String,
}

/// Payload of the selection notification.
pub struct SelectionChanged {
    pub uri: String,
    pub start: Position,
    pub end: Position,
    pub text: String,
}

/// One less than `n`, but never below zero.
pub open spec fn dec(n: usize) -> usize {
    if n == 0 {
        0
    } else {
        (n - 1) as usize
    }
}

/// Whether a mode name denotes one of the visual modes: characterwise
/// (`v`), linewise (`V`) or blockwise (CTRL-V).
pub open spec fn is_visual(mode: Seq<char>) -> bool {
    mode.len() > 0 && (mode[0] == 'v' || mode[0] == 'V' || mode[0] == '\u{16}')
}

/// One more than `n`, but never past the top of the range.
pub open spec fn inc(n: usize) -> usize {
    if n == usize::MAX {
        n
    } else {
        (n + 1) as usize
    }
}

/// The zero-width position of the cursor.
pub open spec fn cursor_position(c: CursorPos) -> Position {
    Position { line: dec(c.row), character: c.col }
}

/// Whether the selection's marks are used: the editor is in a visual mode
/// and the marks could be read.
pub open spec fn uses_marks(mode: Seq<char>, marks: Option<VisualMarks>) -> bool {
    is_visual(mode) && marks is Some
}

/// Whether a selection notification is due for a buffer named `name`: the
/// buffer has a file, and the position it needs could be read.
pub open spec fn selection_due(
    name: Seq<char>,
    mode: Seq<char>,
    marks: Option<VisualMarks>,
    cursor: Option<CursorPos>,
) -> bool {
    is_absolute(name) && (uses_marks(mode, marks) || cursor is Some)
}

/// Whether the mode name `mode` denotes a visual mode.
pub fn is_visual_mode(mode: &str) -> (r: bool)
    ensures
        r == is_visual(mode@),
{
    if mode.unicode_len() == 0 {
        false
    } else {
        let c = mode.get_char(0);
        c == 'v' || c == 'V' || c == '\u{16}'
    }
}

/// The cursor as a zero-width range.
pub fn cursor_range(c: CursorPos) -> (r: (Position, Position))
    ensures
        r.0 == cursor_position(c),
        r.1 == cursor_position(c),
{
    let line = if c.row == 0 {
        0
    } else {
        c.row - 1
    };
    let p = Position { line, character: c.col };
    (p, p)
}

/// The range that visual marks span, in zero-based lines, with the end
/// just past the last selected column.
pub fn marks_range(m: &VisualMarks) -> (r: (Position, Position))
    ensures
        r.0 == (Position { line: dec(m.start_line), character: m.start_col }),
        r.1 == (Position { line: dec(m.end_line), character: inc(m.end_col) }),
{
    let start_line = if m.start_line == 0 {
        0
    } else {
        m.start_line - 1
    };
    let end_line = if m.end_line == 0 {
        0
    } else {
        m.end_line - 1
    };
    let end_char = if m.end_col == usize::MAX {
        m.end_col
    } else {
        m.end_col + 1
    };
    (
        Position { line: start_line, character: m.start_col },
        Position { line: end_line, character: end_char },
    )
}

/// Builds the selection notification for the current buffer named `name`
/// in mode `mode`, from the visual marks and the cursor, each `None` where
/// the editor could not report it.
///
/// Nothing is built for a buffer without a file. In a visual mode with
/// readable marks the range and text are the selection's; otherwise the
/// range is the zero-width cursor position with empty text.
pub fn handle_event(
    name: &str,
    mode: &str,
    marks: Option<VisualMarks>,
    cursor: Option<CursorPos>,
) -> (r: Option<SelectionChanged>)
    ensures
        r is Some <==> selection_due(name@, mode@, marks, cursor),
        r is Some && !is_visual(mode@) ==> r->Some_0.start == r->Some_0.end,
        r matches Some(n) ==> {
            &&& n.uri@ == uri_of(name@)
            &&& uses_marks(mode@, marks) ==> {
                let m = marks->Some_0;
                &&& n.start == (Position { line: dec(m.start_line), character: m.start_col })
                &&& n.end == (Position { line: dec(m.end_line), character: inc(m.end_col) })
                &&& n.text@ == m.text@
            }
            &&& !uses_marks(mode@, marks) ==> {
                &&& n.start == cursor_position(cursor->Some_0)
                &&& n.end == n.start
                &&& n.text@.len() == 0
            }
        },
{
    let path = match current_path(name) {
        Some(p) => p,
        None => return None,
    };
    let uri = to_uri(path.as_str());
    let visual = is_visual_mode(mode);
    if visual {
        if let Some(m) = marks {
            let (start, end) = marks_range(&m);
            return Some(SelectionChanged { uri, start, end, text: m.text });
        }
    }
    match cursor {
        Some(c) => {
            let (start, end) = cursor_range(c);
            Some(SelectionChanged { uri, start, end, text: String::new() })
        },
        None => None,
    }
}

/// No selection notification is built for a buffer without a file.
pub proof fn lemma_no_selection_without_file(
    name: Seq<char>,
    mode: Seq<char>,
    marks: Option<VisualMarks>,
    cursor: Option<CursorPos>,
)
    requires
        !is_absolute(name),
    ensures
        !selection_due(name, mode, marks, cursor),
{
}

/// Whether `v` is the JSON form of position `p`.
pub open spec fn is_position_json(v: Json, p: Position) -> bool {
    v matches Json::Object(f) && f@.len() == 2 && is_int_member(f@[0], "line"@, p.line as u64)
        && is_int_member(f@[1], "character"@, p.character as u64)
}

/// Whether `v` is the JSON form of the range from `start` to `end`.
pub open spec fn is_range_json(v: Json, start: Position, end: Position) -> bool {
    v matches Json::Object(f) && f@.len() == 2 && (f@[0].0@ == "start"@ && is_position_json(
        f@[0].1,
        start,
    )) && (f@[1].0@ == "end"@ && is_position_json(f@[1].1, end))
}

impl Position {
    /// The JSON form `{ line, character }`.
    pub fn to_json(&self) -> (r: Json)
        ensures
            is_position_json(r, *self),
    {
        let mut f: Vec<(String, Json)> = Vec::new();
        f.push(member_of("line", json_int(self.line as u64)));
        f.push(member_of("character", json_int(self.character as u64)));
        Json::Object(f)
    }
}

impl SelectionChanged {
    /// The name under which this notification is published.
    pub fn method() -> (r: &'static str)
        ensures
            r@ == "selectionDidChange"@,
    {
        "selectionDidChange"
    }

    /// The JSON payload `{ uri, range: { start, end }, text }`.
    pub fn to_json(self) -> (r: Json)
        ensures
            r matches Json::Object(f) && f@.len() == 3 && is_str_member(f@[0], "uri"@, self.uri@)
                && (f@[1].0@ == "range"@ && is_range_json(f@[1].1, self.start, self.end))
                && is_str_member(f@[2], "text"@, self.text@),
    {
        let mut range: Vec<(String, Json)> = Vec::new();
        range.push(member_of("start", self.start.to_json()));
        range.push(member_of("end", self.end.to_json()));
        let mut f: Vec<(String, Json)> = Vec::new();
        f.push(member_of("uri", json_str(self.uri)));
        f.push(member_of("range", Json::Object(range)));
        f.push(member_of("text", json_str(self.text)));
        Json::Object(f)
    }
}

} // verus!
