//! The editor as a mathematical state and its transitions: what the
//! contracts of the executable editor are stated over, and the laws that
//! hold of these transitions.

use vstd::prelude::*;
use crate::buffer::{delete_char_at, insert_char_at, lines_of_text, split_line_at, valid_position};
use crate::command::{command_of, Command};

verus! {

/// Which of the three dispatch tables the next key goes through.
#[derive(Clone, Copy, Debug, PartialEq, Eq, Structural)]
pub enum Mode {
    /// Navigation, and the keys that enter the other modes.
    Normal,
    /// Typed characters go into the buffer.
    Insert,
    /// Typed characters go into the command line.
    Command,
}

/// A decoded key press.
#[derive(Clone, Copy, Debug, PartialEq, Eq, Structural)]
pub enum Key {
    /// A character key; Enter arrives as the line feed character.
    Char(char),
    /// Arrow up.
    Up,
    /// Arrow down.
    Down,
    /// Arrow left.
    Left,
    /// Arrow right.
    Right,
    /// Escape.
    Esc,
    /// Backspace.
    Backspace,
    /// Any key that no mode gives a meaning to.
    Other,
}

/// What the caller has to do once a key has been handled.
#[derive(Clone, Copy, Debug, PartialEq, Eq, Structural)]
pub enum Action {
    /// Nothing but to draw the new state.
    Continue,
    /// Write the buffer's stored form to the file, then report the outcome
    /// with `save_finished`, handing `then_quit` on.
    Save { then_quit: bool },
    /// End the session.
    Quit,
}

/// Rows of the terminal that the status bar takes.
pub const STATUS_ROWS: u16 = 2;

/// The number of text rows on a terminal of `height` rows: all but the
/// status bar. A terminal too small for a text row counts as having one.
pub open spec fn visible_rows(height: u16) -> int {
    if height > STATUS_ROWS {
        height - STATUS_ROWS
    } else {
        1
    }
}

/// The first visible row after the cursor has gone up to `row`: the view
/// follows a cursor that has left it at the top.
pub open spec fn scroll_after_up(row: int, scroll: int) -> int {
    if row < scroll {
        row
    } else {
        scroll
    }
}

/// The first visible row once the view has followed a cursor on `row`,
/// with `rows` text rows on the screen. A cursor above the view becomes
/// the first drawn line, a cursor below it the last, and a cursor in view
/// leaves the view where it is.
pub open spec fn follow(row: int, scroll: int, rows: int) -> int {
    if row < scroll {
        row
    } else if row >= scroll + rows {
        row - rows + 1
    } else {
        scroll
    }
}

/// The notice shown after a command that is not in the vocabulary.
pub open spec fn invalid_command_notice() -> Seq<char> {
    "Invalid command"@
}

/// The notice shown after the buffer has been written.
pub open spec fn file_saved_notice() -> Seq<char> {
    "File saved"@
}

/// The notice shown when the buffer could not be written.
pub open spec fn save_failed_notice() -> Seq<char> {
    "Save failed"@
}

/// The whole state of an editing session.
#[verifier::ext_equal]
pub struct EditorView {
    /// The lines of the buffer, top to bottom.
    pub lines: Seq<Seq<char>>,
    /// The line the cursor is on, counted from zero.
    pub row: int,
    /// The column the cursor is in front of, counted from zero.
    pub col: int,
    /// The active mode.
    pub mode: Mode,
    /// Where the buffer is stored.
    pub file_path: Seq<char>,
    /// The command line while in Command mode, a notice otherwise.
    pub status: Seq<char>,
    /// The line drawn on the first text row.
    pub scroll: int,
}

impl EditorView {
    /// The cursor names a place in the buffer, which has at least one
    /// line; the column may be the one behind the end of its line. The
    /// first drawn line is a line of the buffer too, and never one below
    /// the cursor.
    pub open spec fn wf(self) -> bool {
        valid_position(self.lines, self.row, self.col) && 0 <= self.scroll <= self.row
    }

    /// The cursor's line is one of the lines drawn on a terminal of
    /// `height` rows.
    pub open spec fn in_view(self, height: u16) -> bool {
        self.scroll <= self.row < self.scroll + visible_rows(height)
    }

    /// The state in which a session starts: the lines of the file's text,
    /// or one empty line for a file that does not exist yet; the cursor at
    /// the top left; Normal mode; nothing in the status line.
    pub open spec fn initial(file_path: Seq<char>, contents: Option<Seq<char>>) -> EditorView {
        EditorView {
            lines: match contents {
                Some(text) => lines_of_text(text),
                None => seq![Seq::<char>::empty()],
            },
            row: 0,
            col: 0,
            mode: Mode::Normal,
            file_path,
            status: Seq::empty(),
            scroll: 0,
        }
    }

    /// The view brought to the cursor on a terminal of `height` rows.
    pub open spec fn follow_cursor(self, height: u16) -> EditorView {
        EditorView { scroll: follow(self.row, self.scroll, visible_rows(height)), ..self }
    }

    /// The column on line `row` nearest to the cursor's own.
    pub open spec fn column_on(self, row: int) -> int {
        if self.col <= self.lines[row].len() {
            self.col
        } else {
            self.lines[row].len() as int
        }
    }

    /// One line up, unless on the first line. The column stays, or becomes
    /// the end of a shorter line; the view scrolls up with the cursor.
    pub open spec fn move_up(self) -> EditorView {
        if self.row > 0 {
            EditorView {
                row: self.row - 1,
                col: self.column_on(self.row - 1),
                scroll: scroll_after_up(self.row - 1, self.scroll),
                ..self
            }
        } else {
            self
        }
    }

    /// One line down, unless on the last line. The column stays, or
    /// becomes the end of a shorter line; the view scrolls down with the
    /// cursor.
    pub open spec fn move_down(self, height: u16) -> EditorView {
        if self.row < self.lines.len() - 1 {
            EditorView {
                row: self.row + 1,
                col: self.column_on(self.row + 1),
                scroll: follow(self.row + 1, self.scroll, visible_rows(height)),
                ..self
            }
        } else {
            self
        }
    }

    /// One column to the left; from the start of a line to the end of the
    /// line above, with the view following; nowhere from the start of the
    /// buffer.
    pub open spec fn move_left(self, height: u16) -> EditorView {
        if self.col > 0 {
            EditorView { col: self.col - 1, ..self }
        } else if self.row > 0 {
            (EditorView {
                row: self.row - 1,
                col: self.lines[self.row - 1].len() as int,
                ..self
            }).follow_cursor(height)
        } else {
            self
        }
    }

    /// One column to the right; from the end of a line to the start of the
    /// line below, with the view following; nowhere from the end of the
    /// buffer.
    pub open spec fn move_right(self, height: u16) -> EditorView {
        if self.col < self.lines[self.row].len() {
            EditorView { col: self.col + 1, ..self }
        } else if self.row < self.lines.len() - 1 {
            (EditorView { row: self.row + 1, col: 0, ..self }).follow_cursor(height)
        } else {
            self
        }
    }

    /// The state after a run of horizontal moves, `true` standing for a
    /// move to the right and `false` for one to the left.
    pub open spec fn after_moves(self, rightward: Seq<bool>, height: u16) -> EditorView
        decreases rightward.len(),
    {
        if rightward.len() == 0 {
            self
        } else if rightward.last() {
            self.after_moves(rightward.drop_last(), height).move_right(height)
        } else {
            self.after_moves(rightward.drop_last(), height).move_left(height)
        }
    }

    /// The same place in the same text: the lines and the cursor agree;
    /// the mode, the status line, the path and the view may differ.
    pub open spec fn same_place(self, other: EditorView) -> bool {
        self.lines == other.lines && self.row == other.row && self.col == other.col
    }

    /// `c` typed at the cursor, which ends up behind it.
    pub open spec fn insert_char(self, c: char) -> EditorView {
        EditorView {
            lines: insert_char_at(self.lines, self.row, self.col, c),
            col: self.col + 1,
            ..self
        }
    }

    /// The line cut at the cursor, which ends up at the start of the new
    /// line, with the view following.
    pub open spec fn insert_newline(self, height: u16) -> EditorView {
        (EditorView {
            lines: split_line_at(self.lines, self.row, self.col),
            row: self.row + 1,
            col: 0,
            ..self
        }).follow_cursor(height)
    }

    /// A backspace at the cursor, which ends up where the deleted
    /// character or line break stood; where a line break went, the view
    /// follows the cursor to the line above.
    pub open spec fn delete_char(self, height: u16) -> EditorView {
        if self.col > 0 {
            EditorView {
                lines: delete_char_at(self.lines, self.row, self.col),
                col: self.col - 1,
                ..self
            }
        } else if self.row > 0 {
            (EditorView {
                lines: delete_char_at(self.lines, self.row, self.col),
                row: self.row - 1,
                col: self.lines[self.row - 1].len() as int,
                ..self
            }).follow_cursor(height)
        } else {
            self
        }
    }

    /// The command line carried out. A command that writes leaves the
    /// writing to the caller and the status line empty for the outcome;
    /// `q` changes nothing; an unknown command leaves its notice. All but
    /// `q` go back to Normal mode.
    pub open spec fn execute_command(self) -> (EditorView, Action) {
        match command_of(self.status) {
            Command::Write => (
                EditorView { mode: Mode::Normal, status: Seq::empty(), ..self },
                Action::Save { then_quit: false },
            ),
            Command::Quit => (self, Action::Quit),
            Command::WriteQuit => (
                EditorView { mode: Mode::Normal, status: Seq::empty(), ..self },
                Action::Save { then_quit: true },
            ),
            Command::Unknown => (
                EditorView { mode: Mode::Normal, status: invalid_command_notice(), ..self },
                Action::Continue,
            ),
        }
    }

    /// The outcome of a write taken in: the status line says how it went.
    pub open spec fn save_finished(self, written: bool) -> EditorView {
        EditorView {
            status: if written {
                file_saved_notice()
            } else {
                save_failed_notice()
            },
            ..self
        }
    }

    /// A key in Normal mode.
    pub open spec fn normal_key(self, key: Key, height: u16) -> (EditorView, Action) {
        match key {
            Key::Char(c) => if c == 'q' {
                (self, Action::Quit)
            } else if c == 'i' {
                (EditorView { mode: Mode::Insert, ..self }, Action::Continue)
            } else if c == ':' {
                (EditorView { mode: Mode::Command, status: Seq::empty(), ..self }, Action::Continue)
            } else {
                (self, Action::Continue)
            },
            Key::Up => (self.move_up(), Action::Continue),
            Key::Down => (self.move_down(height), Action::Continue),
            Key::Left => (self.move_left(height), Action::Continue),
            Key::Right => (self.move_right(height), Action::Continue),
            _ => (self, Action::Continue),
        }
    }

    /// A key in Insert mode.
    pub open spec fn insert_key(self, key: Key, height: u16) -> (EditorView, Action) {
        match key {
            Key::Esc => (EditorView { mode: Mode::Normal, ..self }, Action::Continue),
            Key::Char(c) => if c == '\n' {
                (self.insert_newline(height), Action::Continue)
            } else {
                (self.insert_char(c), Action::Continue)
            },
            Key::Backspace => (self.delete_char(height), Action::Continue),
            Key::Up => (self.move_up(), Action::Continue),
            Key::Down => (self.move_down(height), Action::Continue),
            Key::Left => (self.move_left(height), Action::Continue),
            Key::Right => (self.move_right(height), Action::Continue),
            Key::Other => (self, Action::Continue),
        }
    }

    /// A key in Command mode.
    pub open spec fn command_key(self, key: Key) -> (EditorView, Action) {
        match key {
            Key::Char(c) => if c == '\n' {
                self.execute_command()
            } else {
                (EditorView { status: self.status.push(c), ..self }, Action::Continue)
            },
            Key::Esc => (
                EditorView { mode: Mode::Normal, status: Seq::empty(), ..self },
                Action::Continue,
            ),
            Key::Backspace => if self.status.len() > 0 {
                (EditorView { status: self.status.drop_last(), ..self }, Action::Continue)
            } else {
                (self, Action::Continue)
            },
            _ => (self, Action::Continue),
        }
    }

    /// One key dispatched: the next state and what is left for the caller
    /// to do. A key that the active mode gives no meaning to changes
    /// nothing.
    pub open spec fn handle_key(self, key: Key, height: u16) -> (EditorView, Action) {
        match self.mode {
            Mode::Normal => self.normal_key(key, height),
            Mode::Insert => self.insert_key(key, height),
            Mode::Command => self.command_key(key),
        }
    }
}

/// Every cursor move and every edit leaves the state valid: the cursor on
/// a place of the buffer, and the first drawn line not below it.
pub proof fn lemma_transitions_keep_wf(v: EditorView, c: char, height: u16)
    requires
        v.wf(),
    ensures
        v.follow_cursor(height).wf(),
        v.move_up().wf(),
        v.move_down(height).wf(),
        v.move_left(height).wf(),
        v.move_right(height).wf(),
        v.insert_char(c).wf(),
        v.insert_newline(height).wf(),
        v.delete_char(height).wf(),
{
}

/// Whatever key arrives in whatever mode, the state stays valid.
pub proof fn lemma_handle_key_keeps_wf(v: EditorView, key: Key, height: u16)
    requires
        v.wf(),
    ensures
        v.handle_key(key, height).0.wf(),
{
    match key {
        Key::Char(c) => lemma_transitions_keep_wf(v, c, height),
        _ => lemma_transitions_keep_wf(v, ' ', height),
    }
}

/// A key that the active mode gives no meaning to changes nothing and
/// asks nothing of the caller.
pub proof fn lemma_unlisted_keys_are_ignored(v: EditorView, key: Key, height: u16)
    requires
        match v.mode {
            Mode::Normal => match key {
                Key::Char(c) => c != 'q' && c != 'i' && c != ':',
                Key::Esc | Key::Backspace | Key::Other => true,
                _ => false,
            },
            Mode::Insert => key == Key::Other,
            Mode::Command => match key {
                Key::Up | Key::Down | Key::Left | Key::Right | Key::Other => true,
                _ => false,
            },
        },
    ensures
        v.handle_key(key, height) == (v, Action::Continue),
{
}

/// However many times the cursor is moved left and right, in whatever
/// order, it stays within the buffer: on an existing line, between that
/// line's start and end. The lines themselves are not touched.
pub proof fn lemma_horizontal_moves_stay_in_bounds(
    v: EditorView,
    rightward: Seq<bool>,
    height: u16,
)
    requires
        v.wf(),
    ensures
        v.after_moves(rightward, height).wf(),
        v.after_moves(rightward, height).lines == v.lines,
        0 <= v.after_moves(rightward, height).row <= v.lines.len() - 1,
        0 <= v.after_moves(rightward, height).col <= v.lines[v.after_moves(
            rightward,
            height,
        ).row].len(),
    decreases rightward.len(),
{
    if rightward.len() > 0 {
        lemma_horizontal_moves_stay_in_bounds(v, rightward.drop_last(), height);
    }
}

/// A move to the left followed by a move to the right brings the cursor
/// back, also across the end of a line. Only at the start of the buffer,
/// where the cursor cannot go left, this does not hold. Within a line the
/// whole state comes back.
pub proof fn lemma_left_then_right(v: EditorView, height: u16)
    requires
        v.wf(),
        !(v.row == 0 && v.col == 0),
    ensures
        v.move_left(height).move_right(height).same_place(v),
        v.col > 0 ==> v.move_left(height).move_right(height) == v,
{
}

/// A move to the right followed by a move to the left brings the cursor
/// back, also across the end of a line. Only at the end of the buffer,
/// where the cursor cannot go right, this does not hold. Within a line
/// the whole state comes back.
pub proof fn lemma_right_then_left(v: EditorView, height: u16)
    requires
        v.wf(),
        !(v.row == v.lines.len() - 1 && v.col == v.lines[v.row].len()),
    ensures
        v.move_right(height).move_left(height).same_place(v),
        v.col < v.lines[v.row].len() ==> v.move_right(height).move_left(height) == v,
{
}

/// Typing a character and deleting it again restores the state: lines,
/// cursor, view and all.
pub proof fn lemma_insert_then_backspace(v: EditorView, c: char, height: u16)
    requires
        v.wf(),
    ensures
        v.insert_char(c).delete_char(height) == v,
{
    crate::buffer::lemma_insert_then_delete(v.lines, v.row, v.col, c);
}

/// Breaking a line and deleting the break again restores the lines and
/// the cursor.
pub proof fn lemma_newline_then_backspace(v: EditorView, height: u16)
    requires
        v.wf(),
    ensures
        v.insert_newline(height).delete_char(height).same_place(v),
{
    crate::buffer::lemma_split_then_join(v.lines, v.row, v.col);
}

/// A session starts in a valid state with the cursor in view.
pub proof fn lemma_initial_state(file_path: Seq<char>, contents: Option<Seq<char>>, height: u16)
    ensures
        EditorView::initial(file_path, contents).wf(),
        EditorView::initial(file_path, contents).in_view(height),
{
}

/// The cursor's line stays among the lines drawn, not above the first
/// text row and not below the last, through every cursor move and every
/// edit, whatever the height of the terminal.
pub proof fn lemma_cursor_stays_in_view(v: EditorView, c: char, height: u16)
    requires
        v.wf(),
        v.in_view(height),
    ensures
        v.move_up().in_view(height),
        v.move_down(height).in_view(height),
        v.move_left(height).in_view(height),
        v.move_right(height).in_view(height),
        v.insert_char(c).in_view(height),
        v.insert_newline(height).in_view(height),
        v.delete_char(height).in_view(height),
{
}

/// Whatever key arrives in whatever mode, the cursor's line stays among
/// the lines drawn.
pub proof fn lemma_handle_key_stays_in_view(v: EditorView, key: Key, height: u16)
    requires
        v.wf(),
        v.in_view(height),
    ensures
        v.handle_key(key, height).0.in_view(height),
{
    match key {
        Key::Char(c) => lemma_cursor_stays_in_view(v, c, height),
        _ => lemma_cursor_stays_in_view(v, ' ', height),
    }
}

/// Where the cursor changes its line, other than by going up, the view is
/// brought to it: the cursor's line is drawn afterwards, wherever the view
/// was before. The same holds of the view brought to the cursor directly.
pub proof fn lemma_view_follows_line_change(v: EditorView, height: u16)
    requires
        v.wf(),
    ensures
        v.follow_cursor(height).in_view(height),
        v.insert_newline(height).in_view(height),
        v.move_down(height).row != v.row ==> v.move_down(height).in_view(height),
        v.move_left(height).row != v.row ==> v.move_left(height).in_view(height),
        v.move_right(height).row != v.row ==> v.move_right(height).in_view(height),
        v.delete_char(height).row != v.row ==> v.delete_char(height).in_view(height),
{
}

/// Going up, the cursor can leave the view only at the top, so that the
/// step that follows it there is the whole of following: from a state with
/// the cursor in view both give the same first drawn line.
pub proof fn lemma_up_follows(v: EditorView, height: u16)
    requires
        v.wf(),
        v.in_view(height),
        v.row > 0,
    ensures
        v.move_up().scroll == follow(v.row - 1, v.scroll, visible_rows(height)),
{
}

/// Following the cursor changes nothing while the cursor is in view, and
/// following it a second time, with the cursor where it was, leaves the
/// view where the first time put it.
pub proof fn lemma_follow_idempotent(v: EditorView, height: u16)
    ensures
        v.in_view(height) ==> v.follow_cursor(height) == v,
        v.follow_cursor(height).follow_cursor(height) == v.follow_cursor(height),
{
}

} // verus!
