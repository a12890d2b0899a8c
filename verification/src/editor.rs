//! The executable editor: the buffer, the cursor with its viewport, the
//! mode and the status line, driven one key at a time.

use vstd::prelude::*;
use vstd::string::*;
use crate::buffer::{valid_position, Buffer};
use crate::command::{parse_command, Command};
use crate::model::{visible_rows, Action, EditorView, Key, Mode, STATUS_ROWS};
use crate::text::push_char;

verus! {

/// The number of text rows on a terminal of `height` rows.
pub fn visible_row_count(height: u16) -> (rows: usize)
    ensures
        rows == visible_rows(height),
{
    if height > STATUS_ROWS {
        (height - STATUS_ROWS) as usize
    } else {
        1
    }
}

/// An editing session on one file.
pub struct Editor {
    buffer: Buffer,
    cursor: (usize, usize),
    mode: Mode,
    file_path: String,
    status_message: String,
    scroll_offset: usize,
}

impl View for Editor {
    type V = EditorView;

    closed spec fn view(&self) -> EditorView {
        EditorView {
            lines: self.buffer@,
            row: self.cursor.0 as int,
            col: self.cursor.1 as int,
            mode: self.mode,
            file_path: self.file_path@,
            status: self.status_message@,
            scroll: self.scroll_offset as int,
        }
    }
}

impl Editor {
    /// The cursor is on a place of the buffer, and the first drawn line is
    /// not below it. Every constructor establishes this and every
    /// operation keeps it.
    pub open spec fn wf(&self) -> bool {
        self@.wf()
    }

    /// Every count in the state can be held in a `usize`: the lines, the
    /// length of each line, the cursor and the first visible line.
    pub proof fn lemma_fits(&self)
        ensures
            self@.lines.len() <= usize::MAX,
            forall|row: int|
                0 <= row < self@.lines.len() ==> (#[trigger] self@.lines[row]).len() <= usize::MAX,
            0 <= self@.row <= usize::MAX,
            0 <= self@.col <= usize::MAX,
            0 <= self@.scroll <= usize::MAX,
    {
        self.buffer.lemma_fits();
    }

    /// Opens a session on `file_path`. `contents` is the text of the file,
    /// or `None` where the file does not exist yet.
    pub fn new(file_path: &str, contents: Option<&str>) -> (editor: Editor)
        ensures
            editor.wf(),
            editor@ == EditorView::initial(
                file_path@,
                match contents {
                    Some(text) => Some(text@),
                    None => None,
                },
            ),
    {
        let buffer = match contents {
            Some(text) => Buffer::from_text(text),
            None => Buffer::new(),
        };
        Editor {
            buffer,
            cursor: (0, 0),
            mode: Mode::Normal,
            file_path: String::from_str(file_path),
            status_message: String::new(),
            scroll_offset: 0,
        }
    }

    /// Dispatches one key through the table of the active mode and says
    /// what is left for the caller to do. `height` is the number of rows
    /// of the terminal at this moment. A cursor that was in view on such a
    /// terminal is in view afterwards.
    pub fn handle_key(&mut self, key: Key, height: u16) -> (action: Action)
        requires
            old(self).wf(),
        ensures
            final(self).wf(),
            (final(self)@, action) == old(self)@.handle_key(key, height),
            old(self)@.in_view(height) ==> final(self)@.in_view(height),
    {
        match self.mode {
            Mode::Normal => match key {
                Key::Char(c) => {
                    if c == 'q' {
                        return Action::Quit;
                    } else if c == 'i' {
                        self.mode = Mode::Insert;
                    } else if c == ':' {
                        self.mode = Mode::Command;
                        self.status_message = String::new();
                    }
                },
                Key::Up => self.move_cursor_up(),
                Key::Down => self.move_cursor_down(height),
                Key::Left => self.move_cursor_left(height),
                Key::Right => self.move_cursor_right(height),
                _ => {},
            },
            Mode::Insert => match key {
                Key::Esc => self.mode = Mode::Normal,
                Key::Char(c) => {
                    if c == '\n' {
                        self.insert_newline(height);
                    } else {
                        self.insert_char(c);
                    }
                },
                Key::Backspace => self.delete_char(height),
                Key::Up => self.move_cursor_up(),
                Key::Down => self.move_cursor_down(height),
                Key::Left => self.move_cursor_left(height),
                Key::Right => self.move_cursor_right(height),
                Key::Other => {},
            },
            Mode::Command => match key {
                Key::Char(c) => {
                    if c == '\n' {
                        return self.execute_command();
                    } else {
                        push_char(&mut self.status_message, c);
                    }
                },
                Key::Esc => {
                    self.mode = Mode::Normal;
                    self.status_message = String::new();
                },
                Key::Backspace => {
                    let len = self.status_message.as_str().unicode_len();
                    if len > 0 {
                        let kept = String::from_str(
                            self.status_message.as_str().substring_char(0, len - 1),
                        );
                        self.status_message = kept;
                    }
                },
                _ => {},
            },
        }
        Action::Continue
    }

    /// Brings the view to the cursor on a terminal of `height` rows: a
    /// cursor above the view becomes the first drawn line, a cursor below
    /// it the last. Nothing changes while the cursor is in view.
    pub fn follow_cursor(&mut self, height: u16)
        requires
            old(self).wf(),
        ensures
            final(self).wf(),
            final(self)@ == old(self)@.follow_cursor(height),
            final(self)@.in_view(height),
    {
        self.bring_view(height);
    }

    /// The step that follows the cursor, also from a state in which the
    /// cursor has just gone above the first drawn line.
    fn bring_view(&mut self, height: u16)
        requires
            valid_position(old(self)@.lines, old(self)@.row, old(self)@.col),
        ensures
            final(self).wf(),
            final(self)@ == old(self)@.follow_cursor(height),
            final(self)@.in_view(height),
    {
        let row = self.cursor.0;
        let rows = visible_row_count(height);
        if row < self.scroll_offset {
            self.scroll_offset = row;
        } else if row - self.scroll_offset >= rows {
            self.scroll_offset = row - rows + 1;
        }
    }

    /// Moves the cursor one line up and lets the view follow. A cursor
    /// that was in view, on a terminal of whatever height, is in view
    /// afterwards.
    pub fn move_cursor_up(&mut self)
        requires
            old(self).wf(),
        ensures
            final(self).wf(),
            final(self)@ == old(self)@.move_up(),
            forall|height: u16|
                #![trigger old(self)@.in_view(height)]
                #![trigger final(self)@.in_view(height)]
                old(self)@.in_view(height) ==> final(self)@.in_view(height),
    {
        if self.cursor.0 > 0 {
            let row = self.cursor.0 - 1;
            let len = self.buffer.line_len(row);
            let col = if self.cursor.1 <= len {
                self.cursor.1
            } else {
                len
            };
            self.cursor = (row, col);
            if row < self.scroll_offset {
                self.scroll_offset = row;
            }
        }
    }

    /// Moves the cursor one line down and lets the view follow, on a
    /// terminal of `height` rows. The cursor is in view afterwards if it
    /// was before or has changed its line.
    pub fn move_cursor_down(&mut self, height: u16)
        requires
            old(self).wf(),
        ensures
            final(self).wf(),
            final(self)@ == old(self)@.move_down(height),
            old(self)@.in_view(height) || final(self)@.row != old(self)@.row
                ==> final(self)@.in_view(height),
    {
        if self.cursor.0 < self.buffer.line_count() - 1 {
            let row = self.cursor.0 + 1;
            let len = self.buffer.line_len(row);
            let col = if self.cursor.1 <= len {
                self.cursor.1
            } else {
                len
            };
            self.cursor = (row, col);
            self.bring_view(height);
        }
    }

    /// Moves the cursor one place to the left, wrapping to the end of the
    /// line above, where the view follows on a terminal of `height` rows.
    /// The cursor is in view afterwards if it was before or has changed
    /// its line.
    pub fn move_cursor_left(&mut self, height: u16)
        requires
            old(self).wf(),
        ensures
            final(self).wf(),
            final(self)@ == old(self)@.move_left(height),
            old(self)@.in_view(height) || final(self)@.row != old(self)@.row
                ==> final(self)@.in_view(height),
    {
        if self.cursor.1 > 0 {
            self.cursor = (self.cursor.0, self.cursor.1 - 1);
        } else if self.cursor.0 > 0 {
            let row = self.cursor.0 - 1;
            self.cursor = (row, self.buffer.line_len(row));
            self.bring_view(height);
        }
    }

    /// Moves the cursor one place to the right, wrapping to the start of
    /// the line below, where the view follows on a terminal of `height`
    /// rows. The cursor is in view afterwards if it was before or has
    /// changed its line.
    pub fn move_cursor_right(&mut self, height: u16)
        requires
            old(self).wf(),
        ensures
            final(self).wf(),
            final(self)@ == old(self)@.move_right(height),
            old(self)@.in_view(height) || final(self)@.row != old(self)@.row
                ==> final(self)@.in_view(height),
    {
        if self.cursor.1 < self.buffer.line_len(self.cursor.0) {
            self.cursor = (self.cursor.0, self.cursor.1 + 1);
        } else if self.cursor.0 < self.buffer.line_count() - 1 {
            self.cursor = (self.cursor.0 + 1, 0);
            self.bring_view(height);
        }
    }

    /// Carries out what the status line spells as a command.
    pub fn execute_command(&mut self) -> (action: Action)
        requires
            old(self).wf(),
        ensures
            final(self).wf(),
            (final(self)@, action) == old(self)@.execute_command(),
    {
        match parse_command(self.status_message.as_str()) {
            Command::Write => {
                self.mode = Mode::Normal;
                self.status_message = String::new();
                Action::Save { then_quit: false }
            },
            Command::Quit => Action::Quit,
            Command::WriteQuit => {
                self.mode = Mode::Normal;
                self.status_message = String::new();
                Action::Save { then_quit: true }
            },
            Command::Unknown => {
                self.mode = Mode::Normal;
                self.status_message = String::from_str("Invalid command");
                Action::Continue
            },
        }
    }

    /// Types `c` at the cursor. The cursor stays on its line, and in view
    /// where it was in view.
    pub fn insert_char(&mut self, c: char)
        requires
            old(self).wf(),
        ensures
            final(self).wf(),
            final(self)@ == old(self)@.insert_char(c),
            forall|height: u16|
                #![trigger old(self)@.in_view(height)]
                #![trigger final(self)@.in_view(height)]
                old(self)@.in_view(height) ==> final(self)@.in_view(height),
    {
        let (row, col) = self.cursor;
        self.buffer.insert_char(row, col, c);
        proof {
            self.buffer.lemma_fits();
            assert(self.buffer@[row as int].len() <= usize::MAX);
        }
        self.cursor = (row, col + 1);
    }

    /// Breaks the line at the cursor, which goes to the start of the new
    /// line, and lets the view follow on a terminal of `height` rows: the
    /// cursor is in view afterwards.
    pub fn insert_newline(&mut self, height: u16)
        requires
            old(self).wf(),
        ensures
            final(self).wf(),
            final(self)@ == old(self)@.insert_newline(height),
            final(self)@.in_view(height),
    {
        let (row, col) = self.cursor;
        self.buffer.split_line(row, col);
        proof {
            self.buffer.lemma_fits();
        }
        self.cursor = (row + 1, 0);
        self.bring_view(height);
    }

    /// Deletes what stands in front of the cursor: a character, or the
    /// break between this line and the one above, where the view follows
    /// the cursor up on a terminal of `height` rows. The cursor is in view
    /// afterwards if it was before or has changed its line.
    pub fn delete_char(&mut self, height: u16)
        requires
            old(self).wf(),
        ensures
            final(self).wf(),
            final(self)@ == old(self)@.delete_char(height),
            old(self)@.in_view(height) || final(self)@.row != old(self)@.row
                ==> final(self)@.in_view(height),
    {
        let (row, col) = self.cursor;
        if col > 0 {
            self.buffer.delete_char(row, col);
            self.cursor = (row, col - 1);
        } else if row > 0 {
            let above = self.buffer.line_len(row - 1);
            self.buffer.delete_char(row, col);
            self.cursor = (row - 1, above);
            self.bring_view(height);
        }
    }

    /// The text to write to the file when the buffer is saved: every
    /// line, the last one too, followed by a line feed.
    pub fn file_text(&self) -> (text: String)
        ensures
            text@ == crate::buffer::text_of_lines(self@.lines),
    {
        self.buffer.to_text()
    }

    /// Takes in how the write went that a `Save` action asked for, and
    /// says whether the session ends now. A failed write is reported in
    /// the status line and never ends the session, so that nothing typed
    /// is lost.
    pub fn save_finished(&mut self, then_quit: bool, written: bool) -> (quit: bool)
        requires
            old(self).wf(),
        ensures
            final(self).wf(),
            final(self)@ == old(self)@.save_finished(written),
            quit == (written && then_quit),
    {
        if written {
            self.status_message = String::from_str("File saved");
        } else {
            self.status_message = String::from_str("Save failed");
        }
        written && then_quit
    }

    /// The buffer of the session.
    pub fn buffer(&self) -> (buffer: &Buffer)
        ensures
            buffer@ == self@.lines,
    {
        &self.buffer
    }

    /// The number of lines in the buffer.
    pub fn line_count(&self) -> (count: usize)
        ensures
            count == self@.lines.len(),
    {
        self.buffer.line_count()
    }

    /// The text of line `row`, or `None` where the buffer has no such
    /// line.
    pub fn line(&self, row: usize) -> (text: Option<String>)
        ensures
            row < self@.lines.len() ==> text.is_some() && text.unwrap()@ == self@.lines[row as int],
            row >= self@.lines.len() ==> text.is_none(),
    {
        if row < self.buffer.line_count() {
            Some(self.buffer.line_text(row))
        } else {
            None
        }
    }

    /// The cursor as (row, column), both counted from zero.
    pub fn cursor(&self) -> (position: (usize, usize))
        ensures
            position.0 == self@.row,
            position.1 == self@.col,
    {
        self.cursor
    }

    /// The active mode.
    pub fn mode(&self) -> (mode: Mode)
        ensures
            mode == self@.mode,
    {
        self.mode
    }

    /// The path of the file the session is on.
    pub fn file_path(&self) -> (path: &str)
        ensures
            path@ == self@.file_path,
    {
        self.file_path.as_str()
    }

    /// The status line: the command being typed, or the last notice.
    pub fn status_message(&self) -> (status: &str)
        ensures
            status@ == self@.status,
    {
        self.status_message.as_str()
    }

    /// The line drawn on the first text row.
    pub fn scroll_offset(&self) -> (scroll: usize)
        ensures
            scroll == self@.scroll,
    {
        self.scroll_offset
    }
}

} // verus!
