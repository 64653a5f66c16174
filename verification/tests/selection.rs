use pyne::editor::buffer::Buffer;
use pyne::editor::cursor_movement::CursorMovement;
use pyne::editor::mode::Mode;
use pyne::editor::selection::{selected_part, split_line, Span};
use pyne::editor::Editor;

fn editor_at(text: &str, cursor: usize) -> Editor {
    let mut editor = Editor::new();
    editor.open_text(String::from("doc.txt"), text);
    for _ in 0..cursor {
        editor.move_cursor(CursorMovement::Right);
    }
    editor
}

fn span(text: &str, selected: bool) -> Span {
    Span { text: String::from(text), selected }
}

#[test]
fn selection_runs_from_anchor_to_cursor() {
    let mut editor = editor_at("abcdef", 2);
    editor.enter_visual_mode();
    assert_eq!(editor.get_mode(), Mode::Visual);
    assert_eq!(editor.get_selection(), Some((2, 2)));
    for _ in 0..3 {
        editor.move_cursor(CursorMovement::Right);
    }
    assert_eq!(editor.get_selection(), Some((2, 5)));
    assert_eq!(editor.copy_selection(), Some(String::from("cde")));
}

#[test]
fn selection_with_the_cursor_before_the_anchor() {
    let mut editor = editor_at("abcdef", 4);
    editor.enter_visual_mode();
    for _ in 0..3 {
        editor.move_cursor(CursorMovement::Left);
    }
    assert_eq!(editor.get_selection(), Some((1, 4)));
    assert_eq!(editor.copy_selection(), Some(String::from("bcd")));
}

#[test]
fn delete_selection_removes_the_range() {
    let mut editor = editor_at("abcdef", 2);
    editor.enter_visual_mode();
    for _ in 0..3 {
        editor.move_cursor(CursorMovement::Right);
    }
    editor.delete_selection();
    assert_eq!(editor.to_string(), Some(String::from("abf")));
    let buffer = editor.get_current_buffer().unwrap();
    assert_eq!(buffer.cursor_pos(), 2);
    assert_eq!(buffer.selection_start(), None);
    assert!(buffer.is_modified());
    assert_eq!(editor.get_mode(), Mode::Normal);
    assert_eq!(editor.get_selection(), None);
}

#[test]
fn delete_selection_backwards_leaves_the_cursor_at_the_start() {
    let mut editor = editor_at("abcdef", 5);
    editor.enter_visual_mode();
    for _ in 0..4 {
        editor.move_cursor(CursorMovement::Left);
    }
    editor.delete_selection();
    assert_eq!(editor.to_string(), Some(String::from("af")));
    assert_eq!(editor.get_current_buffer().unwrap().cursor_pos(), 1);
}

#[test]
fn delete_selection_without_an_anchor_only_sets_the_mode() {
    let mut editor = editor_at("abc", 1);
    editor.set_mode(Mode::Insert);
    editor.delete_selection();
    assert_eq!(editor.get_mode(), Mode::Normal);
    assert_eq!(editor.to_string(), Some(String::from("abc")));
    assert!(!editor.get_current_buffer().unwrap().is_modified());
}

#[test]
fn delete_selection_rescrolls() {
    let mut text = String::new();
    for _ in 0..40 {
        text.push_str("line\n");
    }
    let mut editor = editor_at(&text, 0);
    editor.enter_visual_mode();
    for _ in 0..30 {
        editor.move_cursor(CursorMovement::Down);
    }
    assert_eq!(editor.get_scroll_offset(), Some((0, 13)));
    editor.delete_selection();
    assert_eq!(editor.get_cursor_screen_position(), Some((0, 0)));
    assert_eq!(editor.get_scroll_offset(), Some((0, 0)));
}

#[test]
fn exit_visual_mode_keeps_the_text() {
    let mut editor = editor_at("abcdef", 2);
    editor.enter_visual_mode();
    editor.move_cursor(CursorMovement::Right);
    editor.exit_visual_mode();
    assert_eq!(editor.get_mode(), Mode::Normal);
    assert_eq!(editor.get_selection(), None);
    assert_eq!(editor.copy_selection(), None);
    assert_eq!(editor.to_string(), Some(String::from("abcdef")));
    assert_eq!(editor.get_current_buffer().unwrap().cursor_pos(), 3);
}

#[test]
fn visual_mode_without_a_document() {
    let mut editor = Editor::new();
    editor.enter_visual_mode();
    assert_eq!(editor.get_mode(), Mode::Normal);
    assert_eq!(editor.get_selection(), None);
    editor.exit_visual_mode();
    assert_eq!(editor.get_mode(), Mode::Normal);
}

#[test]
fn leaving_visual_mode_by_set_mode_drops_the_anchor() {
    let mut editor = editor_at("abc", 1);
    editor.enter_visual_mode();
    editor.set_mode(Mode::Normal);
    assert_eq!(editor.get_selection(), None);
    editor.set_mode(Mode::Visual);
    assert_eq!(editor.get_mode(), Mode::Visual);
    assert_eq!(editor.get_selection(), None);
}

#[test]
fn new_documents_have_no_selection() {
    let editor = editor_at("abc", 0);
    assert_eq!(editor.get_selection(), None);
    assert_eq!(Buffer::new().selection_start(), None);
    assert_eq!(Buffer::from_text("abc").get_selection(), None);
}

#[test]
fn selected_part_of_a_line() {
    assert_eq!(selected_part(10, 5, Some((12, 14))), Some((2, 4)));
    assert_eq!(selected_part(10, 5, Some((0, 12))), Some((0, 2)));
    assert_eq!(selected_part(10, 5, Some((12, 40))), Some((2, 5)));
    assert_eq!(selected_part(10, 5, Some((0, 40))), Some((0, 5)));
    assert_eq!(selected_part(10, 5, Some((0, 10))), None);
    assert_eq!(selected_part(10, 5, Some((15, 20))), None);
    assert_eq!(selected_part(10, 5, None), None);
    assert_eq!(selected_part(usize::MAX, usize::MAX, Some((0, usize::MAX))), None);
}

#[test]
fn split_line_into_three_spans() {
    assert_eq!(
        split_line("abcdef", 0, Some((2, 5))),
        vec![span("ab", false), span("cde", true), span("f", false)]
    );
}

#[test]
fn split_line_leaves_out_empty_ends() {
    assert_eq!(split_line("abc", 4, Some((0, 20))), vec![span("abc", true)]);
    assert_eq!(split_line("abc", 4, Some((5, 20))), vec![span("a", false), span("bc", true)]);
    assert_eq!(split_line("abc", 4, Some((0, 5))), vec![span("a", true), span("bc", false)]);
}

#[test]
fn split_line_outside_the_selection_is_one_span() {
    assert_eq!(split_line("abc", 4, Some((8, 9))), vec![span("abc", false)]);
    assert_eq!(split_line("abc", 4, None), vec![span("abc", false)]);
    assert_eq!(split_line("", 4, None), vec![span("", false)]);
}

#[test]
fn split_line_counts_characters() {
    assert_eq!(
        split_line("héllo", 0, Some((1, 3))),
        vec![span("h", false), span("él", true), span("lo", false)]
    );
}

#[test]
fn selection_spans_follow_the_rows_of_the_window() {
    let mut editor = editor_at("abc\ndef\nghi", 1);
    editor.enter_visual_mode();
    editor.move_cursor(CursorMovement::Down);
    editor.move_cursor(CursorMovement::Right);
    // The selection runs from offset 1 to offset 6.
    assert_eq!(editor.get_selection(), Some((1, 6)));
    assert_eq!(editor.selection_spans(0, "abc"), vec![span("a", false), span("bc", true)]);
    assert_eq!(editor.selection_spans(1, "def"), vec![span("de", true), span("f", false)]);
    assert_eq!(editor.selection_spans(2, "ghi"), vec![span("ghi", false)]);
}

#[test]
fn selection_spans_without_document_or_selection() {
    let editor = Editor::new();
    assert_eq!(editor.selection_spans(0, "abc"), vec![span("abc", false)]);
    let editor = editor_at("abc", 1);
    assert_eq!(editor.selection_spans(0, "abc"), vec![span("abc", false)]);
}

#[test]
fn row_offset_counts_from_the_scroll_offset() {
    let buffer = Buffer::from_text("abc\ndef\nghi");
    assert_eq!(buffer.row_offset(0), 0);
    assert_eq!(buffer.row_offset(1), 4);
    assert_eq!(buffer.row_offset(2), 8);
    assert_eq!(buffer.row_offset(3), 11);
    assert_eq!(buffer.row_offset(usize::MAX), 11);
}
