use kilo_rust::cursor::CursorState;
use kilo_rust::editor::{editor_process_keypress, EditorState, Key};
use kilo_rust::render::{
    editor_draw_rows, editor_frame, editor_refresh_screen, encode_ops, footer_message,
    footer_start_x, DrawOp,
};
use kilo_rust::text::{push_decimal, push_spaces};

fn lines(texts: &[&str]) -> Vec<String> {
    texts.iter().map(|text| text.to_string()).collect()
}

fn text(line: &str) -> DrawOp {
    DrawOp::Text(line.to_string())
}

fn decimal(n: usize) -> String {
    let mut out = String::new();
    push_decimal(&mut out, n);
    out
}

#[test]
fn decimal_numerals() {
    assert_eq!(decimal(0), "0");
    assert_eq!(decimal(7), "7");
    assert_eq!(decimal(9), "9");
    assert_eq!(decimal(10), "10");
    assert_eq!(decimal(99), "99");
    assert_eq!(decimal(100), "100");
    assert_eq!(decimal(1234567890), "1234567890");
    assert_eq!(decimal(65535), "65535");
    assert_eq!(decimal(usize::MAX), usize::MAX.to_string());
}

#[test]
fn decimal_is_appended() {
    let mut out = String::from("n=");
    push_decimal(&mut out, 42);
    push_decimal(&mut out, 0);
    assert_eq!(out, "n=420");
}

#[test]
fn spaces_are_appended() {
    let mut out = String::from("a");
    push_spaces(&mut out, 0);
    assert_eq!(out, "a");
    push_spaces(&mut out, 3);
    assert_eq!(out, "a   ");
}

#[test]
fn footer_is_centred() {
    assert_eq!(footer_start_x(80, 20), 30);
    assert_eq!(footer_start_x(80, 29), 25);
    assert_eq!(footer_start_x(80, 80), 0);
    assert_eq!(footer_start_x(80, 79), 0);
    assert_eq!(footer_start_x(80, 78), 1);
    assert_eq!(footer_start_x(80, 0), 40);
}

#[test]
fn footer_wider_than_the_row_starts_in_column_zero() {
    assert_eq!(footer_start_x(80, 81), 0);
    assert_eq!(footer_start_x(10, 20), 0);
    assert_eq!(footer_start_x(0, 1), 0);
    assert_eq!(footer_start_x(0, usize::MAX), 0);
}

#[test]
fn footer_message_at_origin() {
    let editor = EditorState::new(CursorState::new(80, 5), lines(&["a", "b", "c"]));
    assert_eq!(footer_message(&editor), "kilo-rust -- [1/80, 1/5, 1/3]");
}

#[test]
fn footer_message_counts_the_scrolled_lines() {
    let mut contents = Vec::new();
    for i in 0..120 {
        contents.push(format!("{}", i));
    }
    let mut editor = EditorState::new(CursorState::new(132, 10), contents);
    for _ in 0..50 {
        editor_process_keypress(Key::Down, &mut editor);
    }
    for _ in 0..11 {
        editor_process_keypress(Key::Right, &mut editor);
    }
    assert_eq!(editor.row_offset(), 41);
    assert_eq!(footer_message(&editor), "kilo-rust -- [12/132, 10/10, 51/120]");
}

#[test]
fn footer_message_of_an_empty_document() {
    let editor = EditorState::new(CursorState::new(1, 1), Vec::new());
    assert_eq!(footer_message(&editor), "kilo-rust -- [1/1, 1/1, 1/0]");
}

#[test]
fn three_lines_in_five_rows() {
    let editor = EditorState::new(CursorState::new(80, 5), lines(&["one", "two", "three"]));
    let ops = editor_draw_rows(&editor);
    let expected = vec![
        DrawOp::MoveTo { x: 1, y: 1 },
        DrawOp::ClearLine,
        text("one"),
        DrawOp::NewLine,
        DrawOp::ClearLine,
        text("two"),
        DrawOp::NewLine,
        DrawOp::ClearLine,
        text("three"),
        DrawOp::NewLine,
        DrawOp::ClearLine,
        DrawOp::Filler,
        DrawOp::NewLine,
        DrawOp::ClearLine,
        DrawOp::Filler,
        DrawOp::NewLine,
        DrawOp::ClearLine,
        DrawOp::Spaces(25),
        text("kilo-rust -- [1/80, 1/5, 1/3]"),
    ];
    assert_eq!(ops, expected);
}

#[test]
fn rows_show_the_lines_from_the_scroll_offset() {
    let mut editor =
        EditorState::new(CursorState::new(40, 2), lines(&["one", "two", "three", "four"]));
    for _ in 0..2 {
        editor_process_keypress(Key::Down, &mut editor);
    }
    assert_eq!(editor.row_offset(), 1);
    let ops = editor_draw_rows(&editor);
    let expected = vec![
        DrawOp::MoveTo { x: 1, y: 1 },
        DrawOp::ClearLine,
        text("two"),
        DrawOp::NewLine,
        DrawOp::ClearLine,
        text("three"),
        DrawOp::NewLine,
        DrawOp::ClearLine,
        DrawOp::Spaces(5),
        text("kilo-rust -- [1/40, 2/2, 3/4]"),
    ];
    assert_eq!(ops, expected);
}

#[test]
fn empty_document_shows_only_filler_rows() {
    let editor = EditorState::new(CursorState::new(30, 2), Vec::new());
    let ops = editor_draw_rows(&editor);
    let expected = vec![
        DrawOp::MoveTo { x: 1, y: 1 },
        DrawOp::ClearLine,
        DrawOp::Filler,
        DrawOp::NewLine,
        DrawOp::ClearLine,
        DrawOp::Filler,
        DrawOp::NewLine,
        DrawOp::ClearLine,
        DrawOp::Spaces(0),
        text("kilo-rust -- [1/30, 1/2, 1/0]"),
    ];
    assert_eq!(ops, expected);
}

#[test]
fn long_lines_are_drawn_whole() {
    let long = "x".repeat(200);
    let editor = EditorState::new(CursorState::new(10, 1), vec![long.clone()]);
    let ops = editor_draw_rows(&editor);
    assert_eq!(ops[2], DrawOp::Text(long));
}

#[test]
fn footer_wider_than_the_view_is_not_padded() {
    let editor = EditorState::new(CursorState::new(10, 1), Vec::new());
    let ops = editor_draw_rows(&editor);
    let n = ops.len();
    assert_eq!(ops[n - 3], DrawOp::ClearLine);
    assert_eq!(ops[n - 2], DrawOp::Spaces(0));
    assert_eq!(ops[n - 1], text("kilo-rust -- [1/10, 1/1, 1/0]"));
}

#[test]
fn frame_hides_the_cursor_draws_and_shows_it_again() {
    let mut editor = EditorState::new(CursorState::new(80, 5), lines(&["one", "two", "three"]));
    editor_process_keypress(Key::Right, &mut editor);
    editor_process_keypress(Key::Right, &mut editor);
    editor_process_keypress(Key::Down, &mut editor);
    let ops = editor_refresh_screen(&editor);
    let drawn = editor_draw_rows(&editor);
    assert_eq!(ops.len(), drawn.len() + 3);
    assert_eq!(ops[0], DrawOp::HideCursor);
    assert_eq!(&ops[1..drawn.len() + 1], &drawn[..]);
    assert_eq!(ops[drawn.len() + 1], DrawOp::MoveTo { x: 3, y: 2 });
    assert_eq!(ops[drawn.len() + 2], DrawOp::ShowCursor);
}

#[test]
fn operations_are_sent_as_control_sequences() {
    assert_eq!(encode_ops(&vec![DrawOp::HideCursor]), "\x1b[?25l");
    assert_eq!(encode_ops(&vec![DrawOp::ShowCursor]), "\x1b[?25h");
    assert_eq!(encode_ops(&vec![DrawOp::ClearLine]), "\x1b[2K");
    assert_eq!(encode_ops(&vec![DrawOp::MoveTo { x: 3, y: 7 }]), "\x1b[7;3H");
    assert_eq!(encode_ops(&vec![DrawOp::MoveTo { x: 1, y: 1 }]), "\x1b[1;1H");
    assert_eq!(encode_ops(&vec![DrawOp::MoveTo { x: 65535, y: 120 }]), "\x1b[120;65535H");
    assert_eq!(encode_ops(&vec![DrawOp::MoveTo { x: 0, y: 4 }]), "\x1b[4;0H");
    assert_eq!(encode_ops(&vec![DrawOp::Filler]), "~");
    assert_eq!(encode_ops(&vec![DrawOp::NewLine]), "\r\n");
    assert_eq!(encode_ops(&vec![DrawOp::Spaces(4)]), "    ");
    assert_eq!(encode_ops(&vec![DrawOp::Spaces(0)]), "");
    assert_eq!(encode_ops(&vec![text("a~b\u{e9}")]), "a~b\u{e9}");
    assert_eq!(encode_ops(&Vec::new()), "");
}

#[test]
fn operations_are_sent_in_order() {
    let ops = vec![
        DrawOp::ClearLine,
        text("one"),
        DrawOp::NewLine,
        DrawOp::ClearLine,
        DrawOp::Filler,
        DrawOp::Spaces(2),
        text("two"),
    ];
    assert_eq!(encode_ops(&ops), "\x1b[2Kone\r\n\x1b[2K~  two");
}

#[test]
fn frame_text_of_a_small_view() {
    let mut editor = EditorState::new(CursorState::new(40, 3), lines(&["one", "two"]));
    editor_process_keypress(Key::Right, &mut editor);
    editor_process_keypress(Key::Down, &mut editor);
    let expected = "\x1b[?25l\x1b[1;1H\
        \x1b[2Kone\r\n\
        \x1b[2Ktwo\r\n\
        \x1b[2K~\r\n\
        \x1b[2K     kilo-rust -- [2/40, 2/3, 2/2]\
        \x1b[2;2H\x1b[?25h";
    assert_eq!(editor_frame(&editor), expected);
    assert_eq!(editor_frame(&editor), encode_ops(&editor_refresh_screen(&editor)));
}

#[test]
fn message_starts_in_the_centring_column() {
    let editor = EditorState::new(CursorState::new(80, 1), Vec::new());
    let message = footer_message(&editor);
    let start = footer_start_x(80, message.len());
    let row = encode_ops(&editor_draw_rows(&editor));
    let footer = row.rsplit("\x1b[2K").next().unwrap();
    assert_eq!(footer.find("kilo-rust"), Some(start));
}
