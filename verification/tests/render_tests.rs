use modal_editor::render::mode_label;
use modal_editor::text::{
    clip, push_chars, push_decimal, push_prefix, push_repeated, right_aligned_decimal,
};
use modal_editor::{parse_command, visible_row_count, Color, Command, Draw, Editor, Key, Mode};

fn chars(s: &str) -> Vec<char> {
    s.chars().collect()
}

fn text(s: &str) -> Draw {
    Draw::Text(s.to_string())
}

fn move_to(column: u16, row: u16) -> Draw {
    Draw::MoveTo { column, row }
}

fn row(screen_row: u16, gutter: &str, shown: &str) -> Vec<Draw> {
    vec![
        move_to(1, screen_row),
        Draw::Foreground(Color::LightBlue),
        text(gutter),
        Draw::Foreground(Color::Reset),
        text(shown),
    ]
}

fn bar(width: usize, height: u16, status: &str) -> Vec<Draw> {
    vec![
        move_to(1, height - 1),
        Draw::Background(Color::Blue),
        text(&" ".repeat(width)),
        move_to(1, height),
        Draw::Foreground(Color::White),
        text(status),
        Draw::Foreground(Color::Reset),
        Draw::Background(Color::Reset),
    ]
}

#[test]
fn visible_rows_are_all_but_the_status_bar() {
    assert_eq!(visible_row_count(24), 22);
    assert_eq!(visible_row_count(3), 1);
    assert_eq!(visible_row_count(u16::MAX), 65533);
}

#[test]
fn visible_rows_of_a_tiny_terminal() {
    assert_eq!(visible_row_count(2), 1);
    assert_eq!(visible_row_count(1), 1);
    assert_eq!(visible_row_count(0), 1);
}

#[test]
fn decimal_numerals() {
    for (n, expected) in [
        (0u128, "0"),
        (7, "7"),
        (10, "10"),
        (42, "42"),
        (100, "100"),
        (9999, "9999"),
        (12345, "12345"),
        (18446744073709551616, "18446744073709551616"),
    ] {
        let mut out = String::from("n=");
        push_decimal(&mut out, n);
        assert_eq!(out, format!("n={}", expected));
    }
}

#[test]
fn numerals_are_right_aligned() {
    assert_eq!(right_aligned_decimal(1, 4), "   1");
    assert_eq!(right_aligned_decimal(42, 4), "  42");
    assert_eq!(right_aligned_decimal(9999, 4), "9999");
    assert_eq!(right_aligned_decimal(12345, 4), "12345");
    assert_eq!(right_aligned_decimal(5, 0), "5");
}

#[test]
fn repeated_characters() {
    let mut out = String::from("[");
    push_repeated(&mut out, '-', 3);
    push_repeated(&mut out, '+', 0);
    assert_eq!(out, "[---");
}

#[test]
fn characters_are_appended_in_order() {
    let mut out = String::from(">");
    push_chars(&mut out, &chars("abc"));
    assert_eq!(out, ">abc");
    push_prefix(&mut out, &chars("defg"), 2);
    assert_eq!(out, ">abcde");
    push_prefix(&mut out, &chars("xyz"), 0);
    push_chars(&mut out, &chars(""));
    assert_eq!(out, ">abcde");
}

#[test]
fn lines_that_fit_are_shown_whole() {
    assert_eq!(clip(&chars("hello"), 5), "hello");
    assert_eq!(clip(&chars("hello"), 80), "hello");
    assert_eq!(clip(&chars(""), 0), "");
}

#[test]
fn long_lines_end_in_dots() {
    assert_eq!(clip(&chars("abcdefghij"), 8), "abcde...");
    assert_eq!(clip(&chars("abcdefghij"), 9), "abcdef...");
    assert_eq!(clip(&chars("abcd"), 3), "...");
    assert_eq!(clip(&chars("abcd"), 1), "...");
    assert_eq!(clip(&chars("\u{e9}\u{e9}\u{e9}\u{e9}\u{e9}\u{e9}"), 5), "\u{e9}\u{e9}...");
}

#[test]
fn mode_labels() {
    assert_eq!(mode_label(Mode::Normal), "NORMAL");
    assert_eq!(mode_label(Mode::Insert), "INSERT");
    assert_eq!(mode_label(Mode::Command), "COMMAND");
}

#[test]
fn commands_match_exactly() {
    assert_eq!(parse_command("w"), Command::Write);
    assert_eq!(parse_command("q"), Command::Quit);
    assert_eq!(parse_command("wq"), Command::WriteQuit);
    for other in ["", "x", "qw", "ww", "wq ", " w", "W", "wqq", "xyz", "write"] {
        assert_eq!(parse_command(other), Command::Unknown);
    }
}

#[test]
fn status_line_shows_mode_position_and_message() {
    let mut editor = Editor::new("f", Some("abc\ndef\n"));
    assert_eq!(editor.status_line(), "-- NORMAL -- 1:1 --");
    editor.handle_key(Key::Down, 24);
    editor.handle_key(Key::Right, 24);
    editor.handle_key(Key::Right, 24);
    editor.handle_key(Key::Char('i'), 24);
    assert_eq!(editor.status_line(), "-- INSERT -- 2:3 --");
    editor.handle_key(Key::Esc, 24);
    editor.handle_key(Key::Char(':'), 24);
    editor.handle_key(Key::Char('w'), 24);
    assert_eq!(editor.status_line(), "-- COMMAND -- 2:3 --w");
    editor.handle_key(Key::Char('x'), 24);
    editor.handle_key(Key::Char('\n'), 24);
    assert_eq!(editor.status_line(), "-- NORMAL -- 2:3 --Invalid command");
}

#[test]
fn status_bar_is_drawn_on_the_last_two_rows() {
    let editor = Editor::new("f", None);
    assert_eq!(editor.draw_status_bar(12, 10), bar(12, 10, "-- NORMAL -- 1:1 --"));
}

#[test]
fn status_bar_of_a_terminal_without_rows() {
    let editor = Editor::new("f", None);
    let drawn = editor.draw_status_bar(0, 0);
    assert_eq!(drawn[0], move_to(1, 1));
    assert_eq!(drawn[2], text(""));
    assert_eq!(drawn[3], move_to(1, 1));
}

#[test]
fn frame_of_a_small_buffer() {
    let mut editor = Editor::new("f", Some("hello\nworld\n"));
    editor.handle_key(Key::Right, 10);
    editor.handle_key(Key::Right, 10);
    let mut expected = vec![Draw::ClearScreen, move_to(1, 1)];
    expected.extend(row(1, "   1 \u{2502} ", "hello"));
    expected.extend(row(2, "   2 \u{2502} ", "world"));
    expected.extend(bar(40, 10, "-- NORMAL -- 1:3 --"));
    expected.push(move_to(9, 1));
    expected.push(Draw::ShowCursor);
    assert_eq!(editor.display(40, 10), expected);
}

#[test]
fn frame_draws_only_the_visible_lines() {
    let contents: String = (1..=12).map(|n| format!("line {}\n", n)).collect();
    let mut editor = Editor::new("f", Some(&contents));
    for _ in 0..10 {
        editor.handle_key(Key::Down, 5);
    }
    assert_eq!(editor.cursor(), (10, 0));
    assert_eq!(editor.scroll_offset(), 8);
    let mut expected = vec![Draw::ClearScreen, move_to(1, 1)];
    expected.extend(row(1, "   9 \u{2502} ", "line 9"));
    expected.extend(row(2, "  10 \u{2502} ", "line 10"));
    expected.extend(row(3, "  11 \u{2502} ", "line 11"));
    expected.extend(bar(20, 5, "-- NORMAL -- 11:1 --"));
    expected.push(move_to(7, 3));
    expected.push(Draw::ShowCursor);
    assert_eq!(editor.display(20, 5), expected);
}

#[test]
fn frame_clips_long_lines_to_the_text_width() {
    let editor = Editor::new("f", Some("abcdefghijklmnopqrstuvwxyz\nshort\n"));
    let drawn = editor.display(17, 6);
    assert_eq!(drawn[6], text("abcdefg..."));
    assert_eq!(drawn[11], text("short"));
    let narrow = editor.display(7, 6);
    assert_eq!(narrow[6], text("..."));
}

#[test]
fn frame_stops_at_the_end_of_the_buffer() {
    let editor = Editor::new("f", Some("a\nb\n"));
    let drawn = editor.display(30, 24);
    assert_eq!(drawn.len(), 2 + 2 * 5 + 8 + 2);
}

#[test]
fn cursor_is_drawn_on_its_line_after_a_wrap_to_the_line_above() {
    let contents: String = (1..=9).map(|n| format!("{}\n", n)).collect();
    let mut editor = Editor::new("f", Some(&contents));
    for _ in 0..4 {
        editor.handle_key(Key::Down, 3);
    }
    assert_eq!((editor.cursor(), editor.scroll_offset()), ((4, 0), 4));
    editor.handle_key(Key::Left, 3);
    assert_eq!(editor.cursor(), (3, 1));
    assert_eq!(editor.scroll_offset(), 3);
    let mut expected = vec![Draw::ClearScreen, move_to(1, 1)];
    expected.extend(row(1, "   4 \u{2502} ", "4"));
    expected.extend(bar(30, 3, "-- NORMAL -- 4:2 --"));
    expected.push(move_to(8, 1));
    expected.push(Draw::ShowCursor);
    assert_eq!(editor.display(30, 3), expected);
}

#[test]
fn cursor_is_drawn_on_the_last_text_row_after_a_line_break() {
    let mut editor = Editor::new("f", Some("a\nb\nc\n"));
    let height: u16 = 4;
    editor.handle_key(Key::Char('i'), height);
    editor.handle_key(Key::Down, height);
    editor.handle_key(Key::Right, height);
    editor.handle_key(Key::Char('\n'), height);
    assert_eq!((editor.cursor(), editor.scroll_offset()), ((2, 0), 1));
    let mut expected = vec![Draw::ClearScreen, move_to(1, 1)];
    expected.extend(row(1, "   2 \u{2502} ", "b"));
    expected.extend(row(2, "   3 \u{2502} ", ""));
    expected.extend(bar(20, height, "-- INSERT -- 3:1 --"));
    expected.push(move_to(7, 2));
    expected.push(Draw::ShowCursor);
    assert_eq!(editor.display(20, height), expected);
}

#[test]
fn frame_on_a_smaller_terminal_after_following_the_cursor() {
    let contents: String = (1..=9).map(|n| format!("{}\n", n)).collect();
    let mut editor = Editor::new("f", Some(&contents));
    for _ in 0..6 {
        editor.handle_key(Key::Down, 24);
    }
    assert_eq!((editor.cursor(), editor.scroll_offset()), ((6, 0), 0));
    editor.follow_cursor(4);
    assert_eq!(editor.scroll_offset(), 5);
    let drawn = editor.display(30, 4);
    assert_eq!(drawn[4], text("   6 \u{2502} "));
    assert_eq!(drawn[drawn.len() - 2], move_to(7, 2));
}
