use pyne::editor::buffer::Buffer;
use pyne::editor::cursor_movement::{
    move_cursor, move_down, move_left, move_line_end, move_line_start, move_right, move_up,
    CursorMovement,
};
use pyne::editor::Editor;
use ropey::Rope;

fn editor_at(text: &str, cursor: usize) -> Editor {
    let mut editor = Editor::new();
    editor.open_text(String::from("doc.txt"), text);
    for _ in 0..cursor {
        editor.move_cursor(CursorMovement::Right);
    }
    editor
}

fn cursor_of(editor: &Editor) -> usize {
    editor.get_current_buffer().unwrap().cursor_pos()
}

#[test]
fn move_up_keeps_the_column() {
    let mut editor = editor_at("abc\ndef\nghi", 5);
    editor.move_cursor(CursorMovement::Up);
    assert_eq!(cursor_of(&editor), 1);
    assert_eq!(editor.get_cursor_screen_position(), Some((0, 1)));
}

#[test]
fn move_down_keeps_the_column() {
    let mut editor = editor_at("abc\ndef\nghi", 5);
    editor.move_cursor(CursorMovement::Down);
    assert_eq!(cursor_of(&editor), 9);
    assert_eq!(editor.get_cursor_screen_position(), Some((2, 1)));
}

#[test]
fn move_up_on_first_line_does_nothing() {
    let mut editor = editor_at("abc\ndef", 2);
    editor.move_cursor(CursorMovement::Up);
    assert_eq!(cursor_of(&editor), 2);
}

#[test]
fn move_down_on_last_line_does_nothing() {
    let mut editor = editor_at("abc\ndef", 6);
    editor.move_cursor(CursorMovement::Down);
    assert_eq!(cursor_of(&editor), 6);
}

#[test]
fn move_up_clamps_to_a_shorter_line() {
    // From the end of "xyz" (offset 10, column 3) up to "de", which has
    // two characters: the cursor stops in front of its line feed.
    let rope = Rope::from_str("abc\nde\nxyz");
    assert_eq!(move_up(&rope, 10), 6);
}

#[test]
fn move_down_clamps_to_a_shorter_line() {
    let rope = Rope::from_str("abcdef\nxy\nz");
    assert_eq!(move_down(&rope, 5), 9);
    assert_eq!(move_down(&rope, 9), 11);
}

#[test]
fn move_down_into_an_empty_last_line() {
    let rope = Rope::from_str("abc\n");
    assert_eq!(move_down(&rope, 2), 4);
    assert_eq!(move_up(&rope, 4), 0);
}

#[test]
fn up_then_down_returns_to_the_column() {
    let rope = Rope::from_str("abcdef\nuvwxyz\n");
    let up = move_up(&rope, 11);
    assert_eq!(up, 4);
    assert_eq!(move_down(&rope, up), 11);
}

#[test]
fn up_then_down_loses_columns_over_a_shorter_line() {
    let rope = Rope::from_str("ab\nuvwxyz");
    let up = move_up(&rope, 8);
    assert_eq!(up, 2);
    assert_eq!(move_down(&rope, up), 5);
}

#[test]
fn move_left_and_right_stop_at_the_ends() {
    let rope = Rope::from_str("ab");
    assert_eq!(move_left(0), 0);
    assert_eq!(move_left(2), 1);
    assert_eq!(move_right(&rope, 1), 2);
    assert_eq!(move_right(&rope, 2), 2);
}

#[test]
fn line_start_and_line_end() {
    let rope = Rope::from_str("abc\ndef\nghi");
    assert_eq!(move_line_start(&rope, 5), 4);
    assert_eq!(move_line_end(&rope, 5), 7);
    assert_eq!(move_line_start(&rope, 7), 4);
    assert_eq!(move_line_end(&rope, 7), 7);
    assert_eq!(move_line_start(&rope, 0), 0);
    assert_eq!(move_line_end(&rope, 0), 3);
}

#[test]
fn line_end_of_the_last_line_is_the_end_of_the_text() {
    let rope = Rope::from_str("abc\ndef\nghi");
    assert_eq!(move_line_end(&rope, 9), 11);
    assert_eq!(move_line_end(&rope, 11), 11);
}

#[test]
fn line_of_only_a_line_feed_has_length_zero() {
    let rope = Rope::from_str("a\n\nb");
    assert_eq!(move_line_start(&rope, 2), 2);
    assert_eq!(move_line_end(&rope, 2), 2);
}

#[test]
fn empty_document_has_one_line_and_nothing_moves() {
    let rope = Rope::new();
    assert_eq!(rope.len_lines(), 1);
    for movement in [
        CursorMovement::Left,
        CursorMovement::Right,
        CursorMovement::Up,
        CursorMovement::Down,
        CursorMovement::LineStart,
        CursorMovement::LineEnd,
    ] {
        assert_eq!(move_cursor(&rope, 0, movement), 0);
    }
}

#[test]
fn carriage_return_does_not_break_a_line() {
    let rope = Rope::from_str("ab\rcd\r\nef");
    assert_eq!(move_line_start(&rope, 4), 0);
    assert_eq!(move_line_end(&rope, 0), 6);
    assert_eq!(move_line_start(&rope, 8), 7);
}

#[test]
fn buffer_moves_its_cursor() {
    let mut buffer = Buffer::from_text("abc\ndef");
    buffer.move_cursor(CursorMovement::LineEnd);
    assert_eq!(buffer.cursor_pos(), 3);
    buffer.move_cursor(CursorMovement::Down);
    assert_eq!(buffer.cursor_pos(), 7);
    buffer.move_cursor(CursorMovement::LineStart);
    assert_eq!(buffer.cursor_pos(), 4);
    assert_eq!(buffer.cursor_screen_position(), (1, 0));
}

#[test]
fn movement_without_a_document_does_nothing() {
    let mut editor = Editor::new();
    editor.move_cursor(CursorMovement::Down);
    assert_eq!(editor.get_cursor_screen_position(), None);
    assert!(editor.get_current_buffer().is_none());
}
