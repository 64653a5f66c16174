use pyne::editor::buffer::Buffer;
use pyne::editor::cursor_movement::CursorMovement;
use pyne::editor::Editor;

fn scratch() -> Editor {
    let mut editor = Editor::new();
    editor.open_text(String::from("scratch.txt"), "");
    editor
}

#[test]
fn insert_text_into_empty_document() {
    let mut editor = scratch();
    editor.set_viewport((10, 5));
    editor.insert_str(String::from("hello\nworld"));
    let buffer = editor.get_current_buffer().unwrap();
    assert_eq!(buffer.cursor_pos(), 11);
    assert_eq!(editor.get_cursor_screen_position(), Some((1, 5)));
    assert_eq!(editor.to_string(), Some(String::from("hello\nworld")));
    assert!(buffer.is_modified());
}

#[test]
fn insert_char_advances_the_cursor() {
    let mut editor = scratch();
    editor.insert('a');
    editor.insert('b');
    editor.move_cursor(CursorMovement::Left);
    editor.insert('x');
    assert_eq!(editor.to_string(), Some(String::from("axb")));
    assert_eq!(editor.get_current_buffer().unwrap().cursor_pos(), 2);
}

#[test]
fn insert_new_line_splits_the_line() {
    let mut editor = scratch();
    editor.insert_str(String::from("ab"));
    editor.move_cursor(CursorMovement::Left);
    editor.insert_new_line();
    assert_eq!(editor.to_string(), Some(String::from("a\nb")));
    assert_eq!(editor.get_cursor_screen_position(), Some((1, 0)));
}

#[test]
fn insert_str_counts_characters_not_bytes() {
    let mut editor = scratch();
    editor.insert_str(String::from("héllo"));
    assert_eq!(editor.get_current_buffer().unwrap().cursor_pos(), 5);
    editor.insert('!');
    assert_eq!(editor.to_string(), Some(String::from("héllo!")));
}

#[test]
fn delete_removes_the_character_before_the_cursor() {
    let mut editor = scratch();
    editor.insert_str(String::from("abc"));
    editor.move_cursor(CursorMovement::Left);
    editor.delete();
    assert_eq!(editor.to_string(), Some(String::from("ac")));
    assert_eq!(editor.get_current_buffer().unwrap().cursor_pos(), 1);
}

#[test]
fn delete_at_offset_zero_does_nothing() {
    let mut editor = Editor::new();
    editor.open_text(String::from("a.txt"), "abc");
    editor.delete();
    assert_eq!(editor.to_string(), Some(String::from("abc")));
    assert!(!editor.get_current_buffer().unwrap().is_modified());
}

#[test]
fn cursor_stays_inside_the_text_under_edits() {
    let mut editor = scratch();
    for step in 0..40usize {
        if step % 3 == 0 {
            editor.delete();
        } else if step % 5 == 0 {
            editor.insert_new_line();
        } else {
            editor.insert('x');
        }
        if step % 4 == 0 {
            editor.move_cursor(CursorMovement::Up);
        }
        let buffer = editor.get_current_buffer().unwrap();
        assert!(buffer.cursor_pos() <= buffer.len_chars());
    }
}

#[test]
fn edits_without_a_document_do_nothing() {
    let mut editor = Editor::new();
    editor.insert('a');
    editor.insert_str(String::from("abc"));
    editor.insert_new_line();
    editor.delete();
    assert_eq!(editor.to_string(), None);
    assert!(!editor.has_unsaved_changes());
}

#[test]
fn buffer_edits_without_scrolling() {
    let mut buffer = Buffer::new();
    buffer.insert_str("ab\ncd");
    buffer.insert_char('!');
    assert_eq!(buffer.to_string(), "ab\ncd!");
    assert_eq!(buffer.cursor_pos(), 6);
    assert_eq!(buffer.len_lines(), 2);
    buffer.delete_backward();
    assert_eq!(buffer.to_string(), "ab\ncd");
    assert_eq!(buffer.scroll_offset(), (0, 0));
}

#[test]
fn delete_backward_keeps_the_anchor_inside_the_text() {
    let mut buffer = Buffer::from_text("abc");
    buffer.move_cursor(CursorMovement::LineEnd);
    buffer.start_selection();
    assert_eq!(buffer.selection_start(), Some(3));
    buffer.delete_backward();
    assert_eq!(buffer.to_string(), "ab");
    assert_eq!(buffer.selection_start(), Some(2));
    buffer.delete_selection();
    assert_eq!(buffer.to_string(), "ab");
}

#[test]
fn buffer_reports_its_state() {
    let mut buffer = Buffer::from_text("aé\nb");
    assert_eq!(buffer.content().len_chars(), 4);
    assert_eq!(buffer.len_chars(), 4);
    assert_eq!(buffer.len_lines(), 2);
    assert!(!buffer.is_modified());
    buffer.move_cursor(CursorMovement::LineEnd);
    assert_eq!(buffer.cursor_pos(), 2);
    assert_eq!(buffer.cursor_byte(), 3);
    buffer.insert_char('!');
    assert!(buffer.is_modified());
    buffer.mark_saved();
    assert!(!buffer.is_modified());
    assert_eq!(buffer.to_string(), "aé!\nb");
}

#[test]
fn buffer_draws_and_splits_its_rows() {
    let mut buffer = Buffer::from_text("abc\ndef");
    buffer.move_cursor(CursorMovement::Right);
    buffer.start_selection();
    buffer.move_cursor(CursorMovement::Down);
    assert_eq!(buffer.get_selection(), Some((1, 5)));
    assert_eq!(buffer.copy_selection(), Some(String::from("bc\nd")));
    assert_eq!(buffer.visible_content((10, 5)), "abc\ndef");
    let spans = buffer.row_spans(1, "def");
    assert_eq!(spans.len(), 2);
    assert_eq!(spans[0].text, "d");
    assert!(spans[0].selected);
    assert_eq!(spans[1].text, "ef");
    assert!(!spans[1].selected);
    buffer.clear_selection();
    assert_eq!(buffer.get_selection(), None);
    assert_eq!(buffer.copy_selection(), None);
}

#[test]
fn buffer_scrolls_for_a_window() {
    let mut text = String::new();
    for _ in 0..50 {
        text.push_str("0123456789012345678901234567890123456789\n");
    }
    let mut buffer = Buffer::from_text(&text);
    for _ in 0..25 {
        buffer.move_cursor(CursorMovement::Down);
    }
    buffer.move_cursor(CursorMovement::LineEnd);
    assert_eq!(buffer.cursor_screen_position(), (25, 40));
    assert_eq!(buffer.scroll_offset(), (0, 0));
    buffer.scroll((30, 20));
    assert_eq!(buffer.scroll_offset(), (17, 12));
    buffer.scroll((30, 20));
    assert_eq!(buffer.scroll_offset(), (17, 12));
}
