use pyne::editor::cursor_movement::CursorMovement;
use pyne::editor::render::render_visible;
use pyne::editor::Editor;
use ropey::Rope;

fn open(text: &str, viewport: (usize, usize)) -> Editor {
    let mut editor = Editor::new();
    editor.open_text(String::from("doc.txt"), text);
    editor.set_viewport(viewport);
    editor
}

#[test]
fn visible_content_of_a_small_document() {
    let editor = open("abc\ndef\nghi", (10, 5));
    assert_eq!(editor.get_visible_content(), Some(String::from("abc\ndef\nghi\n")));
}

#[test]
fn cursor_line_keeps_its_end() {
    let mut editor = open("abc\ndef\nghi", (10, 5));
    editor.move_cursor(CursorMovement::Down);
    editor.move_cursor(CursorMovement::Down);
    assert_eq!(editor.get_visible_content(), Some(String::from("abc\ndef\nghi")));
}

#[test]
fn visible_content_after_typing() {
    let mut editor = open("", (10, 5));
    editor.insert_str(String::from("hello\nworld"));
    assert_eq!(editor.get_visible_content(), Some(String::from("hello\nworld")));
}

#[test]
fn lines_are_clipped_to_the_width() {
    let editor = open("abc\ndef\nghi", (2, 5));
    assert_eq!(editor.get_visible_content(), Some(String::from("ab\nde\ngh\n")));
}

#[test]
fn lines_are_clipped_to_the_height() {
    let editor = open("a\nb\nc\nd\ne", (10, 3));
    assert_eq!(editor.get_visible_content(), Some(String::from("a\nb\nc\n")));
}

#[test]
fn trailing_blanks_are_trimmed_off_other_lines() {
    let mut editor = open("a  \nb  ", (10, 5));
    assert_eq!(editor.get_visible_content(), Some(String::from("a  \nb\n")));
    editor.move_cursor(CursorMovement::Down);
    assert_eq!(editor.get_visible_content(), Some(String::from("a\nb  ")));
}

#[test]
fn empty_lines_are_drawn_as_line_feeds() {
    let editor = open("a\n\n\nbc", (10, 5));
    assert_eq!(editor.get_visible_content(), Some(String::from("a\n\n\nbc\n")));
}

#[test]
fn line_scrolled_to_its_last_character_is_drawn_as_a_line_feed() {
    // Away from the cursor a line is drawn only if it reaches beyond the
    // window's first column by more than its last character.
    let rope = Rope::from_str("abc\nxy\nxyz\nx");
    assert_eq!(render_visible(&rope, 0, (0, 0), (10, 5)), "abc\nxy\nxyz\n\n");
    assert_eq!(render_visible(&rope, 0, (1, 0), (10, 5)), "bc\ny\nyz\n\n");
    assert_eq!(render_visible(&rope, 0, (2, 0), (10, 5)), "c\n\nz\n\n");
    assert_eq!(render_visible(&rope, 0, (3, 0), (10, 5)), "\n\n\n\n");
}

#[test]
fn empty_document_draws_nothing() {
    let editor = open("", (10, 5));
    assert_eq!(editor.get_visible_content(), Some(String::new()));
}

#[test]
fn no_document_no_content() {
    let editor = Editor::new();
    assert_eq!(editor.get_visible_content(), None);
}

#[test]
fn scrolled_window_starts_at_the_scroll_line() {
    let rope = Rope::from_str("l0\nl1\nl2\nl3\nl4\nl5");
    assert_eq!(render_visible(&rope, 9, (0, 2), (10, 3)), "l2\nl3\nl4\n");
    assert_eq!(render_visible(&rope, 9, (0, 4), (10, 3)), "l4\nl5\n");
    assert_eq!(render_visible(&rope, 9, (0, 6), (10, 3)), "");
    assert_eq!(render_visible(&rope, 9, (0, 9), (10, 3)), "");
}

#[test]
fn scrolled_sideways_shows_later_columns() {
    let rope = Rope::from_str("abcdefgh\nxy\n\nabcdefgh");
    // Cursor on line 0, window from column 3, four columns wide: line 0 is
    // cut in front of its line feed; "xy" lies left of the window; the empty
    // line too; the last line loses its first three characters.
    assert_eq!(render_visible(&rope, 5, (3, 0), (4, 10)), "defg\n\n\ndefg\n");
}

#[test]
fn cursor_line_scrolled_past_its_end_keeps_its_last_character() {
    let rope = Rope::from_str("ab\ncdefgh");
    // Cursor on line 0, window from column 4: the line's last character,
    // its line feed, is what is left of it.
    assert_eq!(render_visible(&rope, 1, (4, 0), (4, 10)), "\ngh\n");
    assert_eq!(render_visible(&rope, 1, (5, 0), (4, 10)), "\n\n");
}

#[test]
fn window_of_no_width() {
    let rope = Rope::from_str("ab\ncd");
    assert_eq!(render_visible(&rope, 0, (0, 0), (0, 5)), "\n\n");
}

#[test]
fn window_arithmetic_does_not_overflow() {
    let rope = Rope::from_str("ab\ncd");
    assert_eq!(render_visible(&rope, 0, (0, 1), (usize::MAX, usize::MAX)), "cd\n");
    assert_eq!(render_visible(&rope, 0, (usize::MAX, usize::MAX), (usize::MAX, usize::MAX)), "");
    assert_eq!(render_visible(&rope, 0, (usize::MAX, 0), (usize::MAX, 1)), "\n");
}

#[test]
fn rendering_is_repeatable() {
    let editor = open("one\ntwo  \nthree", (4, 2));
    let first = editor.get_visible_content();
    let second = editor.get_visible_content();
    assert_eq!(first, second);
    assert_eq!(first, Some(String::from("one\ntwo \n")));
}

#[test]
fn white_space_other_than_blanks_is_trimmed() {
    let rope = Rope::from_str("a\t \u{a0}\nb");
    assert_eq!(render_visible(&rope, 5, (0, 0), (10, 5)), "a\nb");
}
