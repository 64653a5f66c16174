use pyne::editor::Editor;
use pyne::ui::gutter::Gutter;
use pyne::ui::split::Split;
use pyne::utils::decimal::{align_right, digit_to_char, to_decimal};
use pyne::utils::error_handler::ErrorHandler;
use pyne::utils::help_handler::HelpHandler;

#[test]
fn error_handler_holds_the_last_message() {
    let mut handler = ErrorHandler::new();
    assert_eq!(handler.get_error(), None);
    handler.set_error(String::from("first"));
    handler.set_error(String::from("second"));
    assert_eq!(handler.get_error(), Some(&String::from("second")));
    handler.clear_error();
    assert_eq!(handler.get_error(), None);
}

#[test]
fn help_handler_shows_the_default_topic() {
    let handler = HelpHandler::new();
    assert_eq!(
        handler.get_help_text(),
        Some(&String::from("Welcome to the help system. Use :help <topic> for specific help."))
    );
}

#[test]
fn help_handler_shows_the_topic_asked_for() {
    let mut handler = HelpHandler::new();
    handler.set_help_topic("commands");
    let text = handler.get_help_text().unwrap();
    assert!(text.starts_with("Available commands:\n:q - Quit (if no unsaved changes)\n"));
    assert!(text.ends_with(":vsplit - Split view vertically (not implemented)"));
    assert_eq!(text.lines().count(), 11);
    handler.clear_help_topic();
    assert!(handler.get_help_text().unwrap().starts_with("Welcome"));
}

#[test]
fn help_handler_falls_back_to_the_default_topic() {
    let mut handler = HelpHandler::new();
    handler.set_help_topic("no such topic");
    assert!(handler.get_help_text().unwrap().starts_with("Welcome"));
}

#[test]
fn help_handler_takes_new_topics() {
    let mut handler = HelpHandler::new();
    handler.add_topic(String::from("quit"), String::from("Leaves the editor."));
    handler.set_help_topic("quit");
    assert_eq!(handler.get_help_text(), Some(&String::from("Leaves the editor.")));
    handler.add_topic(String::from("quit"), String::from("Bye."));
    assert_eq!(handler.get_help_text(), Some(&String::from("Bye.")));
    handler.add_topic(String::from("default"), String::from("Help!"));
    handler.clear_help_topic();
    assert_eq!(handler.get_help_text(), Some(&String::from("Help!")));
}

#[test]
fn split_starts_empty() {
    let split = Split::new();
    assert_eq!(split.buffer, None);
    assert_eq!(split.cursor_pos, 0);
    assert_eq!(split.scroll_offset, (0, 0));
}

#[test]
fn decimal_numbers() {
    assert_eq!(to_decimal(0), "0");
    assert_eq!(to_decimal(7), "7");
    assert_eq!(to_decimal(10), "10");
    assert_eq!(to_decimal(1234567890), "1234567890");
    assert_eq!(to_decimal(usize::MAX), usize::MAX.to_string());
    assert_eq!(digit_to_char(0), '0');
    assert_eq!(digit_to_char(9), '9');
}

#[test]
fn text_aligned_to_the_right() {
    assert_eq!(align_right("1", 4), "   1");
    assert_eq!(align_right("123", 4), " 123");
    assert_eq!(align_right("1234", 4), "1234");
    assert_eq!(align_right("12345", 4), "12345");
    assert_eq!(align_right("", 4), "    ");
    assert_eq!(align_right("é", 3), "  é");
    assert_eq!(align_right("x", 0), "x");
}

#[test]
fn gutter_numbers_the_visible_lines() {
    let mut editor = Editor::new();
    editor.open_text(String::from("a.txt"), "one\ntwo");
    editor.set_viewport((10, 5));
    assert_eq!(
        Gutter::get_visible_line_numbers(&editor),
        vec!["   1", "   2", "    ", "    ", "    "]
    );
}

#[test]
fn gutter_follows_the_scroll_offset() {
    let mut text = String::new();
    for _ in 0..1200 {
        text.push('\n');
    }
    let mut editor = Editor::new();
    editor.open_text(String::from("a.txt"), &text);
    editor.set_viewport((10, 14));
    for _ in 0..1004 {
        editor.move_cursor(pyne::editor::cursor_movement::CursorMovement::Down);
    }
    assert_eq!(editor.get_scroll_offset(), Some((0, 997)));
    let numbers = Gutter::get_visible_line_numbers(&editor);
    assert_eq!(numbers.len(), 14);
    assert_eq!(numbers[0], " 998");
    assert_eq!(numbers[1], " 999");
    assert_eq!(numbers[2], "1000");
    assert_eq!(numbers[13], "1011");
}

#[test]
fn gutter_without_a_document() {
    let mut editor = Editor::new();
    editor.set_viewport((10, 3));
    assert_eq!(Gutter::get_visible_line_numbers(&editor), vec!["   1", "    ", "    "]);
    editor.set_viewport((10, 0));
    assert!(Gutter::get_visible_line_numbers(&editor).is_empty());
}
