//! The frame: the state of a session projected into the instructions that
//! draw it on a terminal of a given size. The instructions are plain
//! values; carrying them out is left to the caller.

use vstd::prelude::*;
use vstd::string::*;
use crate::editor::{visible_row_count, Editor};
use crate::model::{visible_rows, EditorView, Mode};
use crate::text::{
    clip, clipped, decimal, push_char, push_decimal, push_repeated, repeated, right_aligned,
    right_aligned_decimal,
};

verus! {

/// The colours the frame is drawn in.
#[derive(Clone, Copy, Debug, PartialEq, Eq, Structural)]
pub enum Color {
    /// The line numbers.
    LightBlue,
    /// The band above the status line.
    Blue,
    /// The status line.
    White,
    /// Back to the terminal's own colour.
    Reset,
}

/// One instruction to the terminal. Columns and rows count from one.
#[derive(Debug, PartialEq, Eq)]
pub enum Draw {
    /// Blank the whole screen.
    ClearScreen,
    /// Put the terminal's cursor at a cell.
    MoveTo { column: u16, row: u16 },
    /// Draw what follows in this colour.
    Foreground(Color),
    /// Draw what follows on this colour.
    Background(Color),
    /// Write these characters at the terminal's cursor.
    Text(String),
    /// Make the terminal's cursor visible.
    ShowCursor,
}

/// An instruction with its text as a sequence of characters.
#[verifier::ext_equal]
pub enum DrawView {
    ClearScreen,
    MoveTo { column: u16, row: u16 },
    Foreground(Color),
    Background(Color),
    Text(Seq<char>),
    ShowCursor,
}

impl View for Draw {
    type V = DrawView;

    open spec fn view(&self) -> DrawView {
        match self {
            Draw::ClearScreen => DrawView::ClearScreen,
            Draw::MoveTo { column, row } => DrawView::MoveTo { column: *column, row: *row },
            Draw::Foreground(color) => DrawView::Foreground(*color),
            Draw::Background(color) => DrawView::Background(*color),
            Draw::Text(text) => DrawView::Text(text@),
            Draw::ShowCursor => DrawView::ShowCursor,
        }
    }
}

/// The instructions of `draws`, each by its view.
pub open spec fn views(draws: Seq<Draw>) -> Seq<DrawView> {
    Seq::new(draws.len(), |i: int| draws[i]@)
}

/// Columns that the line number takes.
pub const NUMBER_WIDTH: usize = 4;

/// Columns in front of a line's text: the line number and its separator.
pub const GUTTER_WIDTH: u16 = 7;

/// The bar that parts the line number from the text.
pub open spec fn separator() -> Seq<char> {
    seq![' ', '\u{2502}', ' ']
}

/// What stands in front of the text of line number `number`.
pub open spec fn gutter(number: nat) -> Seq<char> {
    right_aligned(decimal(number), NUMBER_WIDTH as nat) + separator()
}

/// Columns left for a line's text on a terminal `width` columns wide.
pub open spec fn text_width(width: u16) -> nat {
    if width > GUTTER_WIDTH {
        (width - GUTTER_WIDTH) as nat
    } else {
        0
    }
}

/// How many lines are drawn: those from the first visible line on, as far
/// as there are text rows and lines.
pub open spec fn drawn_rows(v: EditorView, height: u16) -> int {
    if v.lines.len() <= v.scroll {
        0
    } else if v.lines.len() - v.scroll < visible_rows(height) {
        v.lines.len() - v.scroll
    } else {
        visible_rows(height)
    }
}

/// The instructions for text row `k`, counted from zero: the line number
/// in its colour, then as much of the line as fits.
pub open spec fn row_instructions(v: EditorView, width: u16, k: int) -> Seq<DrawView> {
    seq![
        DrawView::MoveTo { column: 1, row: (k + 1) as u16 },
        DrawView::Foreground(Color::LightBlue),
        DrawView::Text(gutter((v.scroll + k + 1) as nat)),
        DrawView::Foreground(Color::Reset),
        DrawView::Text(clipped(v.lines[v.scroll + k], text_width(width))),
    ]
}

/// The instructions for the first `count` text rows, top to bottom.
pub open spec fn rows_instructions(v: EditorView, width: u16, count: int) -> Seq<DrawView>
    decreases count,
{
    if count <= 0 {
        Seq::empty()
    } else {
        rows_instructions(v, width, count - 1) + row_instructions(v, width, count - 1)
    }
}

/// The name a mode goes by in the status line.
pub open spec fn mode_name(mode: Mode) -> Seq<char> {
    match mode {
        Mode::Normal => "NORMAL"@,
        Mode::Insert => "INSERT"@,
        Mode::Command => "COMMAND"@,
    }
}

/// The status line: the mode, the cursor as line and column counted from
/// one, and directly behind them the command line or notice.
pub open spec fn status_text(v: EditorView) -> Seq<char> {
    "-- "@ + mode_name(v.mode) + " -- "@ + decimal((v.row + 1) as nat) + ":"@ + decimal(
        (v.col + 1) as nat,
    ) + " --"@ + v.status
}

/// The terminal row of the coloured band: the last but one.
pub open spec fn band_row(height: u16) -> u16 {
    if height >= 2 {
        (height - 1) as u16
    } else {
        1
    }
}

/// The terminal row of the status line: the last.
pub open spec fn status_row(height: u16) -> u16 {
    if height >= 1 {
        height
    } else {
        1
    }
}

/// The instructions for the status bar: a blank band over the full
/// width, and below it the status line.
pub open spec fn status_bar(v: EditorView, width: u16, height: u16) -> Seq<DrawView> {
    seq![
        DrawView::MoveTo { column: 1, row: band_row(height) },
        DrawView::Background(Color::Blue),
        DrawView::Text(repeated(' ', width as nat)),
        DrawView::MoveTo { column: 1, row: status_row(height) },
        DrawView::Foreground(Color::White),
        DrawView::Text(status_text(v)),
        DrawView::Foreground(Color::Reset),
        DrawView::Background(Color::Reset),
    ]
}

/// The terminal column of the cursor: its column moved right by the
/// gutter, and no further than the last column a terminal can have.
pub open spec fn cursor_column(v: EditorView) -> u16 {
    if v.col + GUTTER_WIDTH <= u16::MAX {
        (v.col + GUTTER_WIDTH) as u16
    } else {
        u16::MAX
    }
}

/// The terminal row of the cursor, for a cursor in view: the text row
/// on which its line is drawn.
pub open spec fn cursor_row(v: EditorView) -> u16 {
    (v.row - v.scroll + 1) as u16
}

/// The whole frame of a state with the cursor in view: the screen
/// blanked, the visible lines, the status bar, and the cursor put on its
/// line where the next edit takes place.
pub open spec fn frame(v: EditorView, width: u16, height: u16) -> Seq<DrawView> {
    seq![DrawView::ClearScreen, DrawView::MoveTo { column: 1, row: 1 }] + rows_instructions(
        v,
        width,
        drawn_rows(v, height),
    ) + status_bar(v, width, height) + seq![
        DrawView::MoveTo { column: cursor_column(v), row: cursor_row(v) },
        DrawView::ShowCursor,
    ]
}

/// The name of `mode` in the status line.
pub fn mode_label(mode: Mode) -> (label: &'static str)
    ensures
        label@ == mode_name(mode),
{
    match mode {
        Mode::Normal => "NORMAL",
        Mode::Insert => "INSERT",
        Mode::Command => "COMMAND",
    }
}

impl Editor {
    /// The instructions that draw text row `k` of the frame.
    fn draw_row(&self, width: u16, k: usize) -> (row: Vec<Draw>)
        requires
            self.wf(),
            k < visible_rows(u16::MAX),
            self@.scroll + k < self@.lines.len(),
        ensures
            views(row@) == row_instructions(self@, width, k as int),
    {
        proof {
            self.lemma_fits();
        }
        let index = self.scroll_offset() + k;
        let mut number = right_aligned_decimal(index as u128 + 1, NUMBER_WIDTH);
        push_char(&mut number, ' ');
        push_char(&mut number, '\u{2502}');
        push_char(&mut number, ' ');
        assert(number@ =~= gutter((self@.scroll + k + 1) as nat));
        let columns: usize = if width > GUTTER_WIDTH {
            (width - GUTTER_WIDTH) as usize
        } else {
            0
        };
        let shown = clip(self.buffer().line(index), columns);
        let mut row: Vec<Draw> = Vec::new();
        row.push(Draw::MoveTo { column: 1, row: (k + 1) as u16 });
        row.push(Draw::Foreground(Color::LightBlue));
        row.push(Draw::Text(number));
        row.push(Draw::Foreground(Color::Reset));
        row.push(Draw::Text(shown));
        row
    }

    /// The text of the status line.
    pub fn status_line(&self) -> (line: String)
        requires
            self.wf(),
        ensures
            line@ == status_text(self@),
    {
        let (row, col) = self.cursor();
        let mut line = String::from_str("-- ");
        line.append(mode_label(self.mode()));
        line.append(" -- ");
        push_decimal(&mut line, row as u128 + 1);
        line.append(":");
        push_decimal(&mut line, col as u128 + 1);
        line.append(" --");
        line.append(self.status_message());
        line
    }

    /// The instructions that draw the status bar on a terminal of `width`
    /// columns and `height` rows: the band on the last row but one, the
    /// status line on the last.
    pub fn draw_status_bar(&self, width: u16, height: u16) -> (bar: Vec<Draw>)
        requires
            self.wf(),
        ensures
            views(bar@) == status_bar(self@, width, height),
    {
        let mut band = String::new();
        push_repeated(&mut band, ' ', width as usize);
        let mut bar: Vec<Draw> = Vec::new();
        bar.push(Draw::MoveTo { column: 1, row: if height >= 2 { height - 1 } else { 1 } });
        bar.push(Draw::Background(Color::Blue));
        bar.push(Draw::Text(band));
        bar.push(Draw::MoveTo { column: 1, row: if height >= 1 { height } else { 1 } });
        bar.push(Draw::Foreground(Color::White));
        bar.push(Draw::Text(self.status_line()));
        bar.push(Draw::Foreground(Color::Reset));
        bar.push(Draw::Background(Color::Reset));
        bar
    }

    /// The instructions that draw the session on a terminal of `width`
    /// columns and `height` rows, in the order in which they are to be
    /// carried out. The cursor has to be in view on such a terminal, as it
    /// is after `follow_cursor`, and after every key handled with this
    /// height in a session that was in view before.
    pub fn display(&self, width: u16, height: u16) -> (draws: Vec<Draw>)
        requires
            self.wf(),
            self@.in_view(height),
        ensures
            views(draws@) == frame(self@, width, height),
    {
        let (row, col) = self.cursor();
        let scroll = self.scroll_offset();
        let lines = self.line_count();
        let rows = visible_row_count(height);
        let count: usize = if lines <= scroll {
            0
        } else if lines - scroll < rows {
            lines - scroll
        } else {
            rows
        };
        let mut draws: Vec<Draw> = Vec::new();
        draws.push(Draw::ClearScreen);
        draws.push(Draw::MoveTo { column: 1, row: 1 });
        let ghost head = views(draws@);
        let mut k: usize = 0;
        while k < count
            invariant
                self.wf(),
                k <= count,
                count == drawn_rows(self@, height),
                scroll == self@.scroll,
                views(draws@) == head + rows_instructions(self@, width, k as int),
            decreases count - k,
        {
            let ghost before = draws@;
            let mut line = self.draw_row(width, k);
            let ghost added = line@;
            draws.append(&mut line);
            assert(views(before + added) =~= views(before) + views(added));
            k += 1;
        }
        let ghost before = draws@;
        let mut bar = self.draw_status_bar(width, height);
        let ghost added = bar@;
        draws.append(&mut bar);
        assert(views(before + added) =~= views(before) + views(added));
        let column: u16 = if col <= (u16::MAX - GUTTER_WIDTH) as usize {
            col as u16 + GUTTER_WIDTH
        } else {
            u16::MAX
        };
        let line: u16 = (row - scroll + 1) as u16;
        let ghost before = draws@;
        draws.push(Draw::MoveTo { column, row: line });
        draws.push(Draw::ShowCursor);
        assert(views(draws@) =~= views(before) + seq![
            DrawView::MoveTo { column: cursor_column(self@), row: cursor_row(self@) },
            DrawView::ShowCursor,
        ]);
        draws
    }
}

} // verus!
