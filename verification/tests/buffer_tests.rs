use modal_editor::Buffer;

fn lines_of(buffer: &Buffer) -> Vec<String> {
    (0..buffer.line_count()).map(|row| buffer.line_text(row)).collect()
}

#[test]
fn new_buffer_has_one_empty_line() {
    let buffer = Buffer::new();
    assert_eq!(buffer.line_count(), 1);
    assert_eq!(buffer.line_text(0), "");
    assert_eq!(buffer.line_len(0), 0);
    assert!(buffer.line(0).is_empty());
}

#[test]
fn from_text_makes_one_line_per_record() {
    let buffer = Buffer::from_text("a\nbb\n\n");
    assert_eq!(lines_of(&buffer), vec!["a", "bb", ""]);
}

#[test]
fn from_text_takes_last_record_without_line_feed() {
    let buffer = Buffer::from_text("first\nsecond");
    assert_eq!(lines_of(&buffer), vec!["first", "second"]);
}

#[test]
fn from_text_adds_no_line_after_final_line_feed() {
    let buffer = Buffer::from_text("only\n");
    assert_eq!(lines_of(&buffer), vec!["only"]);
}

#[test]
fn from_text_of_empty_text_is_one_empty_line() {
    let buffer = Buffer::from_text("");
    assert_eq!(lines_of(&buffer), vec![""]);
}

#[test]
fn from_text_of_single_line_feed_is_one_empty_line() {
    let buffer = Buffer::from_text("\n");
    assert_eq!(lines_of(&buffer), vec![""]);
}

#[test]
fn from_text_drops_carriage_return_before_line_feed_only() {
    let buffer = Buffer::from_text("a\r\nb\rc\r\r\nd\r");
    assert_eq!(lines_of(&buffer), vec!["a", "b\rc\r", "d\r"]);
}

#[test]
fn to_text_ends_every_line_with_a_line_feed() {
    let buffer = Buffer::from_text("a\nbb\n\n");
    assert_eq!(buffer.to_text(), "a\nbb\n\n");
    assert_eq!(Buffer::from_text("x\ny").to_text(), "x\ny\n");
    assert_eq!(Buffer::new().to_text(), "\n");
}

#[test]
fn stored_lines_come_back_unchanged() {
    let buffer = Buffer::from_text("a\nbb\n\n");
    assert_eq!(lines_of(&buffer), vec!["a", "bb", ""]);
    let reloaded = Buffer::from_text(&buffer.to_text());
    assert_eq!(lines_of(&reloaded), vec!["a", "bb", ""]);
}

#[test]
fn insert_char_at_start_middle_and_end() {
    let mut buffer = Buffer::from_text("bd\nxyz");
    buffer.insert_char(0, 0, 'a');
    assert_eq!(buffer.line_text(0), "abd");
    buffer.insert_char(0, 2, 'c');
    assert_eq!(buffer.line_text(0), "abcd");
    buffer.insert_char(0, 4, 'e');
    assert_eq!(buffer.line_text(0), "abcde");
    assert_eq!(buffer.line_text(1), "xyz");
    assert_eq!(buffer.line_count(), 2);
}

#[test]
fn split_line_keeps_head_and_moves_tail_below() {
    let mut buffer = Buffer::from_text("one\nhello world\nthree");
    buffer.split_line(1, 5);
    assert_eq!(lines_of(&buffer), vec!["one", "hello", " world", "three"]);
}

#[test]
fn split_line_at_start_and_at_end() {
    let mut buffer = Buffer::from_text("abc");
    buffer.split_line(0, 0);
    assert_eq!(lines_of(&buffer), vec!["", "abc"]);
    buffer.split_line(1, 3);
    assert_eq!(lines_of(&buffer), vec!["", "abc", ""]);
}

#[test]
fn delete_char_removes_the_character_before_the_column() {
    let mut buffer = Buffer::from_text("abc\ndef");
    buffer.delete_char(0, 2);
    assert_eq!(lines_of(&buffer), vec!["ac", "def"]);
    buffer.delete_char(1, 3);
    assert_eq!(lines_of(&buffer), vec!["ac", "de"]);
    buffer.delete_char(1, 1);
    assert_eq!(lines_of(&buffer), vec!["ac", "e"]);
}

#[test]
fn delete_char_at_line_start_joins_with_line_above() {
    let mut buffer = Buffer::from_text("ab\ncd\nef");
    buffer.delete_char(1, 0);
    assert_eq!(lines_of(&buffer), vec!["abcd", "ef"]);
    buffer.delete_char(1, 0);
    assert_eq!(lines_of(&buffer), vec!["abcdef"]);
}

#[test]
fn delete_char_at_buffer_start_changes_nothing() {
    let mut buffer = Buffer::from_text("ab\ncd");
    buffer.delete_char(0, 0);
    assert_eq!(lines_of(&buffer), vec!["ab", "cd"]);
}

#[test]
fn insert_then_delete_restores_the_line() {
    for col in 0..=5 {
        let mut buffer = Buffer::from_text("top\nhello\nend");
        buffer.insert_char(1, col, 'X');
        assert_eq!(buffer.line_len(1), 6);
        buffer.delete_char(1, col + 1);
        assert_eq!(lines_of(&buffer), vec!["top", "hello", "end"]);
    }
}

#[test]
fn split_then_join_restores_the_line() {
    for col in 0..=5 {
        let mut buffer = Buffer::from_text("top\nhello\nend");
        buffer.split_line(1, col);
        assert_eq!(buffer.line_count(), 4);
        buffer.delete_char(2, 0);
        assert_eq!(lines_of(&buffer), vec!["top", "hello", "end"]);
    }
}

#[test]
fn line_gives_the_characters() {
    let buffer = Buffer::from_text("ab\nc");
    assert_eq!(buffer.line(0), &vec!['a', 'b']);
    assert_eq!(buffer.line(1), &vec!['c']);
}

#[test]
fn columns_count_characters() {
    let mut buffer = Buffer::from_text("h\u{e9}llo");
    assert_eq!(buffer.line_len(0), 5);
    buffer.insert_char(0, 2, '\u{4e16}');
    assert_eq!(buffer.line_text(0), "h\u{e9}\u{4e16}llo");
    buffer.delete_char(0, 2);
    assert_eq!(buffer.line_text(0), "h\u{4e16}llo");
    buffer.split_line(0, 2);
    assert_eq!(lines_of(&buffer), vec!["h\u{4e16}", "llo"]);
}

#[test]
fn ascii_column_is_also_a_byte_offset() {
    for col in 0..=5 {
        let mut buffer = Buffer::from_text("hello");
        buffer.insert_char(0, col, 'X');
        let mut bytes = b"hello".to_vec();
        bytes.insert(col, b'X');
        assert_eq!(buffer.line_text(0).as_bytes(), &bytes[..]);
        assert_eq!(buffer.line_len(0), buffer.line_text(0).len());
    }
}
