//! The line buffer: an ordered, never empty sequence of text lines, the
//! edits that change it, and the plain-text form in which it is stored.
//!
//! A line is modelled as its sequence of characters, and a column counts
//! characters from the start of the line; column `len` is the position
//! behind the last character. On a line of ASCII characters a column is
//! also the byte offset into the line's UTF-8 form.

use vstd::prelude::*;
use vstd::utf8::{encode_utf8, is_ascii_chars, is_ascii_chars_encode_utf8};
use crate::text::{push_char, push_chars};

verus! {

/// `(row, col)` names a place in `lines`: an existing line, and a column
/// between its start and its end, both included.
pub open spec fn valid_position(lines: Seq<Seq<char>>, row: int, col: int) -> bool {
    0 <= row < lines.len() && 0 <= col <= lines[row].len()
}

/// `lines` with `c` put into line `row` in front of column `col`.
pub open spec fn insert_char_at(lines: Seq<Seq<char>>, row: int, col: int, c: char) -> Seq<
    Seq<char>,
> {
    lines.update(row, lines[row].insert(col, c))
}

/// `lines` with line `row` cut at column `col`: the part in front stays,
/// the rest becomes a new line directly below.
pub open spec fn split_line_at(lines: Seq<Seq<char>>, row: int, col: int) -> Seq<Seq<char>> {
    lines.update(row, lines[row].take(col)).insert(row + 1, lines[row].skip(col))
}

/// `lines` after a backspace at `(row, col)`: the character in front of the
/// column goes; at the start of a line, the line is joined onto the end of
/// the one above; at the very start of the buffer nothing changes.
pub open spec fn delete_char_at(lines: Seq<Seq<char>>, row: int, col: int) -> Seq<Seq<char>> {
    if col > 0 {
        lines.update(row, lines[row].remove(col - 1))
    } else if row > 0 {
        lines.update(row - 1, lines[row - 1] + lines[row]).remove(row)
    } else {
        lines
    }
}

/// The stored form of `lines`: every line, the last one too, followed by
/// one line feed.
pub open spec fn text_of_lines(lines: Seq<Seq<char>>) -> Seq<char>
    decreases lines.len(),
{
    if lines.len() == 0 {
        Seq::empty()
    } else {
        text_of_lines(lines.drop_last()) + lines.last() + seq!['\n']
    }
}

/// A record as it is kept once its line feed has been read: a carriage
/// return directly in front of the line feed belongs to the line ending.
pub open spec fn without_carriage_return(record: Seq<char>) -> Seq<char> {
    if record.len() > 0 && record.last() == '\r' {
        record.drop_last()
    } else {
        record
    }
}

/// Reading `text` from left to right: the records that a line feed has
/// closed so far, and the characters read since the last line feed.
pub open spec fn scan_lines(text: Seq<char>) -> (Seq<Seq<char>>, Seq<char>)
    decreases text.len(),
{
    if text.len() == 0 {
        (Seq::empty(), Seq::empty())
    } else {
        let (closed, open) = scan_lines(text.drop_last());
        if text.last() == '\n' {
            (closed.push(without_carriage_return(open)), Seq::empty())
        } else {
            (closed, open.push(text.last()))
        }
    }
}

/// The records of `text`: it is cut at every line feed, and the line feed
/// behind the last record is optional. An empty text has no record.
pub open spec fn split_lines(text: Seq<char>) -> Seq<Seq<char>> {
    let (closed, open) = scan_lines(text);
    if open.len() > 0 {
        closed.push(open)
    } else {
        closed
    }
}

/// The lines of a buffer that is filled from `text`: its records, or one
/// empty line where there is none.
pub open spec fn lines_of_text(text: Seq<char>) -> Seq<Seq<char>> {
    if split_lines(text).len() == 0 {
        seq![Seq::<char>::empty()]
    } else {
        split_lines(text)
    }
}

/// No line holds a line feed, and none ends in a carriage return: the
/// lines that come back unchanged from their stored form.
pub open spec fn storable(lines: Seq<Seq<char>>) -> bool {
    forall|i: int|
        0 <= i < lines.len() ==> !(#[trigger] lines[i]).contains('\n') && !(lines[i].len() > 0
            && lines[i].last() == '\r')
}

/// Inserting a character and then deleting it again, with a backspace
/// directly behind it, leaves every line as it was.
pub proof fn lemma_insert_then_delete(lines: Seq<Seq<char>>, row: int, col: int, c: char)
    requires
        valid_position(lines, row, col),
    ensures
        delete_char_at(insert_char_at(lines, row, col, c), row, col + 1) == lines,
{
    assert(lines[row].insert(col, c).remove(col) =~= lines[row]);
}

/// Splitting a line and then joining the two halves again, with a
/// backspace at the start of the new line, gives the buffer back.
pub proof fn lemma_split_then_join(lines: Seq<Seq<char>>, row: int, col: int)
    requires
        valid_position(lines, row, col),
    ensures
        delete_char_at(split_line_at(lines, row, col), row + 1, 0) == lines,
{
    assert(lines[row].take(col) + lines[row].skip(col) =~= lines[row]);
}

/// On a line of ASCII characters a column is also a byte offset: the
/// UTF-8 form of the line has one byte for each character, and a character
/// put in front of column `col` has its byte in front of byte `col`.
pub proof fn lemma_ascii_column_is_byte_offset(line: Seq<char>, col: int, c: char)
    requires
        0 <= col <= line.len(),
        is_ascii_chars(line),
        c <= '\u{7f}',
    ensures
        encode_utf8(line).len() == line.len(),
        encode_utf8(line.insert(col, c)) == encode_utf8(line).insert(col, c as u8),
{
    let longer = line.insert(col, c);
    assert(is_ascii_chars(longer));
    is_ascii_chars_encode_utf8(line);
    is_ascii_chars_encode_utf8(longer);
    assert(encode_utf8(longer) =~= encode_utf8(line).insert(col, c as u8));
}

/// Appending characters without a line feed to a text only extends the
/// record that is still open.
proof fn lemma_scan_append_open(text: Seq<char>, tail: Seq<char>)
    requires
        !tail.contains('\n'),
    ensures
        scan_lines(text + tail) == (scan_lines(text).0, scan_lines(text).1 + tail),
    decreases tail.len(),
{
    if tail.len() > 0 {
        let front = tail.drop_last();
        lemma_scan_append_open(text, front);
        assert((text + tail).drop_last() =~= text + front);
    }
}

/// Reading the stored form of storable lines closes exactly these lines
/// and leaves no record open.
proof fn lemma_scan_stored(lines: Seq<Seq<char>>)
    requires
        storable(lines),
    ensures
        scan_lines(text_of_lines(lines)) == (lines, Seq::<char>::empty()),
    decreases lines.len(),
{
    if lines.len() > 0 {
        let front = lines.drop_last();
        lemma_scan_stored(front);
        lemma_scan_append_open(text_of_lines(front), lines.last());
        assert(text_of_lines(lines).drop_last() =~= text_of_lines(front) + lines.last());
    }
}

/// Storing lines and reading them back gives the same lines, as long as
/// no line holds a line feed or ends in a carriage return.
pub proof fn lemma_store_then_load(lines: Seq<Seq<char>>)
    requires
        storable(lines),
    ensures
        split_lines(text_of_lines(lines)) == lines,
        lines.len() > 0 ==> lines_of_text(text_of_lines(lines)) == lines,
{
    lemma_scan_stored(lines);
}

/// The text being edited: its lines from top to bottom, each held as its
/// characters, and never fewer than one.
pub struct Buffer {
    lines: Vec<Vec<char>>,
}

impl View for Buffer {
    type V = Seq<Seq<char>>;

    closed spec fn view(&self) -> Seq<Seq<char>> {
        Seq::new(self.lines@.len(), |i: int| self.lines@[i]@)
    }
}

impl Buffer {
    /// A buffer always holds at least one line.
    pub open spec fn wf(&self) -> bool {
        self@.len() > 0
    }

    /// The number of lines and the length of every line can be counted in
    /// a `usize`.
    pub proof fn lemma_fits(&self)
        ensures
            self@.len() <= usize::MAX,
            forall|row: int| 0 <= row < self@.len() ==> (#[trigger] self@[row]).len() <= usize::MAX,
    {
        assert(self@.len() == self.lines.len());
        assert forall|row: int| 0 <= row < self@.len() implies (#[trigger] self@[row]).len()
            <= usize::MAX by {
            assert(self.lines@[row]@.len() == self.lines@[row].len());
        }
    }

    /// The buffer of a document that is new: one empty line.
    pub fn new() -> (buffer: Buffer)
        ensures
            buffer.wf(),
            buffer@ == seq![Seq::<char>::empty()],
    {
        let mut lines: Vec<Vec<char>> = Vec::new();
        lines.push(Vec::new());
        Buffer { lines }
    }

    /// The buffer of a document whose stored form is `text`: one line per
    /// record, in order, and a single empty line where `text` holds none.
    pub fn from_text(text: &str) -> (buffer: Buffer)
        ensures
            buffer.wf(),
            buffer@ == lines_of_text(text@),
    {
        broadcast use vstd::string::group_string_axioms;

        let mut lines: Vec<Vec<char>> = Vec::new();
        let mut open: Vec<char> = Vec::new();
        for c in it: text.chars()
            invariant
                it.seq() == text@,
                scan_lines(text@.take(it.index() as int)) == (
                    Seq::new(lines@.len(), |i: int| lines@[i]@),
                    open@,
                ),
        {
            assert(text@.take(it.index() + 1).drop_last() =~= text@.take(it.index() as int));
            if c == '\n' {
                let len = open.len();
                if len > 0 && open[len - 1] == '\r' {
                    open.pop();
                }
                lines.push(open);
                open = Vec::new();
            } else {
                open.push(c);
            }
        }
        assert(text@.take(text@.len() as int) =~= text@);
        if open.len() > 0 {
            lines.push(open);
        }
        if lines.len() == 0 {
            lines.push(Vec::new());
        }
        Buffer { lines }
    }

    /// The stored form of the buffer: each line followed by a line feed.
    pub fn to_text(&self) -> (text: String)
        ensures
            text@ == text_of_lines(self@),
    {
        let mut text = String::new();
        let mut row: usize = 0;
        while row < self.lines.len()
            invariant
                row <= self.lines.len(),
                text@ == text_of_lines(self@.take(row as int)),
            decreases self.lines.len() - row,
        {
            assert(self@.take(row + 1).drop_last() =~= self@.take(row as int));
            push_chars(&mut text, &self.lines[row]);
            push_char(&mut text, '\n');
            row += 1;
        }
        assert(self@.take(self.lines.len() as int) =~= self@);
        text
    }

    /// The number of lines.
    pub fn line_count(&self) -> (count: usize)
        ensures
            count == self@.len(),
    {
        self.lines.len()
    }

    /// The number of characters of line `row`.
    pub fn line_len(&self, row: usize) -> (len: usize)
        requires
            row < self@.len(),
        ensures
            len == self@[row as int].len(),
    {
        self.lines[row].len()
    }

    /// The characters of line `row`.
    pub fn line(&self, row: usize) -> (line: &Vec<char>)
        requires
            row < self@.len(),
        ensures
            line@ == self@[row as int],
    {
        &self.lines[row]
    }

    /// Line `row` as a string.
    pub fn line_text(&self, row: usize) -> (text: String)
        requires
            row < self@.len(),
        ensures
            text@ == self@[row as int],
    {
        let mut text = String::new();
        push_chars(&mut text, &self.lines[row]);
        text
    }

    /// Puts `c` into line `row` in front of column `col`.
    pub fn insert_char(&mut self, row: usize, col: usize, c: char)
        requires
            valid_position(old(self)@, row as int, col as int),
        ensures
            final(self)@ == insert_char_at(old(self)@, row as int, col as int, c),
            final(self).wf(),
    {
        self.lines[row].insert(col, c);
    }

    /// Cuts line `row` at column `col`; what stood behind the column becomes
    /// a new line directly below.
    pub fn split_line(&mut self, row: usize, col: usize)
        requires
            valid_position(old(self)@, row as int, col as int),
        ensures
            final(self)@ == split_line_at(old(self)@, row as int, col as int),
            final(self).wf(),
    {
        let tail = self.lines[row].split_off(col);
        assert(row < self.lines.len());
        self.lines.insert(row + 1, tail);
    }

    /// A backspace at `(row, col)`: removes the character in front of the
    /// column; at the start of a line below the first, joins the line onto
    /// the end of the one above; at the start of the buffer does nothing.
    pub fn delete_char(&mut self, row: usize, col: usize)
        requires
            valid_position(old(self)@, row as int, col as int),
        ensures
            final(self)@ == delete_char_at(old(self)@, row as int, col as int),
            final(self).wf(),
    {
        if col > 0 {
            self.lines[row].remove(col - 1);
        } else if row > 0 {
            let mut joined = self.lines.remove(row);
            self.lines[row - 1].append(&mut joined);
        }
    }
}

} // verus!
