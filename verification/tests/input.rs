use pyne::editor::mode::Mode;
use pyne::editor::Editor;
use pyne::input::{
    handle_file_explorer_input, handle_input, handle_insert_mode, handle_normal_mode,
    handle_visual_mode, key_movement, Action, ExplorerAction, KeyCode, KeyEvent, KeyModifiers,
};
use pyne::editor::cursor_movement::CursorMovement;

fn key(code: KeyCode) -> KeyEvent {
    KeyEvent { code, modifiers: KeyModifiers::Plain }
}

fn shift(code: KeyCode) -> KeyEvent {
    KeyEvent { code, modifiers: KeyModifiers::Shift }
}

fn open(text: &str) -> Editor {
    let mut editor = Editor::new();
    editor.open_text(String::from("doc.txt"), text);
    editor
}

fn cursor(editor: &Editor) -> usize {
    editor.get_current_buffer().unwrap().cursor_pos()
}

#[test]
fn yank_copies_the_selection() {
    let mut editor = open("abcdef");
    handle_input(&mut editor, key(KeyCode::Right));
    handle_input(&mut editor, key(KeyCode::Right));
    assert_eq!(handle_input(&mut editor, key(KeyCode::Char('v'))), Action::Nothing);
    assert_eq!(editor.get_mode(), Mode::Visual);
    for _ in 0..3 {
        handle_input(&mut editor, key(KeyCode::Right));
    }
    assert_eq!(cursor(&editor), 5);
    let action = handle_input(&mut editor, key(KeyCode::Char('y')));
    assert_eq!(action, Action::CopyToClipboard(String::from("cde")));
    assert_eq!(editor.get_mode(), Mode::Normal);
    assert_eq!(editor.get_selection(), None);
    assert_eq!(editor.to_string(), Some(String::from("abcdef")));
}

#[test]
fn normal_mode_i_enters_insert_mode() {
    let mut editor = open("abc");
    assert_eq!(handle_normal_mode(&mut editor, key(KeyCode::Char('i'))), Action::Nothing);
    assert_eq!(editor.get_mode(), Mode::Insert);
    assert_eq!(editor.to_string(), Some(String::from("abc")));
}

#[test]
fn insert_mode_escape_returns_to_normal_mode() {
    let mut editor = open("abc");
    editor.set_mode(Mode::Insert);
    assert_eq!(handle_insert_mode(&mut editor, key(KeyCode::Esc)), Action::Nothing);
    assert_eq!(editor.get_mode(), Mode::Normal);
    assert!(!editor.has_unsaved_changes());
}

#[test]
fn visual_mode_escape_drops_the_selection() {
    let mut editor = open("abc");
    handle_input(&mut editor, key(KeyCode::Char('v')));
    handle_input(&mut editor, key(KeyCode::End));
    assert_eq!(editor.get_selection(), Some((0, 3)));
    assert_eq!(handle_input(&mut editor, key(KeyCode::Esc)), Action::Nothing);
    assert_eq!(editor.get_mode(), Mode::Normal);
    assert_eq!(editor.get_selection(), None);
    assert_eq!(editor.to_string(), Some(String::from("abc")));
}

#[test]
fn visual_mode_d_deletes_the_selection() {
    let mut editor = open("abc\ndef");
    handle_input(&mut editor, key(KeyCode::Right));
    handle_input(&mut editor, key(KeyCode::Char('v')));
    handle_input(&mut editor, key(KeyCode::Down));
    assert_eq!(handle_input(&mut editor, key(KeyCode::Char('d'))), Action::Nothing);
    assert_eq!(editor.get_mode(), Mode::Normal);
    assert_eq!(editor.to_string(), Some(String::from("aef")));
    assert_eq!(cursor(&editor), 1);
    assert_eq!(editor.get_selection(), None);
}

#[test]
fn visual_mode_moves_with_home_and_end() {
    let mut editor = open("abc\ndef");
    handle_input(&mut editor, key(KeyCode::Right));
    handle_input(&mut editor, key(KeyCode::Char('v')));
    handle_visual_mode(&mut editor, key(KeyCode::End));
    assert_eq!(editor.get_selection(), Some((1, 3)));
    handle_visual_mode(&mut editor, key(KeyCode::Home));
    assert_eq!(editor.get_selection(), Some((0, 1)));
    handle_visual_mode(&mut editor, key(KeyCode::Up));
    handle_visual_mode(&mut editor, key(KeyCode::Left));
    assert_eq!(editor.get_selection(), Some((0, 1)));
}

#[test]
fn visual_mode_ignores_keys_with_modifiers_and_other_keys() {
    let mut editor = open("abc");
    handle_input(&mut editor, key(KeyCode::Char('v')));
    assert_eq!(handle_input(&mut editor, shift(KeyCode::Char('y'))), Action::Nothing);
    assert_eq!(handle_input(&mut editor, shift(KeyCode::Esc)), Action::Nothing);
    assert_eq!(handle_input(&mut editor, key(KeyCode::Char('x'))), Action::Nothing);
    assert_eq!(handle_input(&mut editor, key(KeyCode::Enter)), Action::Nothing);
    assert_eq!(editor.get_mode(), Mode::Visual);
    assert_eq!(editor.get_selection(), Some((0, 0)));
    assert_eq!(editor.to_string(), Some(String::from("abc")));
}

#[test]
fn yank_of_an_empty_selection_copies_nothing_long() {
    let mut editor = open("abc");
    handle_input(&mut editor, key(KeyCode::Char('v')));
    assert_eq!(
        handle_input(&mut editor, key(KeyCode::Char('y'))),
        Action::CopyToClipboard(String::new())
    );
    assert_eq!(editor.get_mode(), Mode::Normal);
}

#[test]
fn insert_mode_types_and_deletes() {
    let mut editor = open("");
    editor.set_mode(Mode::Insert);
    for c in ['a', 'b', 'c'] {
        handle_input(&mut editor, key(KeyCode::Char(c)));
    }
    handle_input(&mut editor, key(KeyCode::Enter));
    handle_input(&mut editor, key(KeyCode::Tab));
    handle_input(&mut editor, shift(KeyCode::Char('D')));
    assert_eq!(editor.to_string(), Some(String::from("abc\n    D")));
    handle_input(&mut editor, key(KeyCode::Backspace));
    handle_input(&mut editor, key(KeyCode::Backspace));
    assert_eq!(editor.to_string(), Some(String::from("abc\n   ")));
    assert_eq!(editor.get_mode(), Mode::Insert);
}

#[test]
fn insert_mode_moves_the_cursor() {
    let mut editor = open("abc\ndef");
    editor.set_mode(Mode::Insert);
    handle_input(&mut editor, key(KeyCode::End));
    assert_eq!(cursor(&editor), 3);
    handle_input(&mut editor, key(KeyCode::Down));
    assert_eq!(cursor(&editor), 7);
    handle_input(&mut editor, key(KeyCode::Home));
    assert_eq!(cursor(&editor), 4);
    handle_input(&mut editor, key(KeyCode::Up));
    handle_input(&mut editor, key(KeyCode::Right));
    handle_input(&mut editor, key(KeyCode::Left));
    assert_eq!(cursor(&editor), 0);
    handle_input(&mut editor, key(KeyCode::BackTab));
    handle_input(&mut editor, key(KeyCode::Other));
    assert_eq!(editor.to_string(), Some(String::from("abc\ndef")));
}

#[test]
fn normal_mode_asks_for_command_bar_and_file_explorer() {
    let mut editor = open("abc");
    assert_eq!(handle_input(&mut editor, key(KeyCode::Char(':'))), Action::ActivateCommandBar);
    assert_eq!(handle_input(&mut editor, key(KeyCode::Char('f'))), Action::OpenFileExplorer);
    assert_eq!(handle_input(&mut editor, shift(KeyCode::Char('f'))), Action::Nothing);
    assert_eq!(editor.get_mode(), Mode::Normal);
}

#[test]
fn normal_mode_toggles_debug_info() {
    let mut editor = open("abc");
    handle_input(&mut editor, shift(KeyCode::Char('D')));
    assert!(editor.is_debug_info_visible());
    handle_input(&mut editor, key(KeyCode::Char('D')));
    assert!(editor.is_debug_info_visible());
    handle_input(&mut editor, shift(KeyCode::Char('D')));
    assert!(!editor.is_debug_info_visible());
}

#[test]
fn normal_mode_moves_with_the_arrow_keys_only() {
    let mut editor = open("abc\ndef");
    handle_input(&mut editor, key(KeyCode::Right));
    handle_input(&mut editor, key(KeyCode::Down));
    assert_eq!(cursor(&editor), 5);
    handle_input(&mut editor, key(KeyCode::End));
    handle_input(&mut editor, key(KeyCode::Home));
    handle_input(&mut editor, shift(KeyCode::Left));
    handle_input(&mut editor, key(KeyCode::Char('x')));
    handle_input(&mut editor, key(KeyCode::Backspace));
    assert_eq!(cursor(&editor), 5);
    handle_input(&mut editor, key(KeyCode::Up));
    handle_input(&mut editor, key(KeyCode::Left));
    assert_eq!(cursor(&editor), 0);
    assert_eq!(editor.to_string(), Some(String::from("abc\ndef")));
    assert!(!editor.has_unsaved_changes());
}

#[test]
fn keys_without_a_document() {
    let mut editor = Editor::new();
    assert_eq!(handle_input(&mut editor, key(KeyCode::Char('v'))), Action::Nothing);
    assert_eq!(editor.get_mode(), Mode::Normal);
    assert_eq!(handle_input(&mut editor, key(KeyCode::Char('i'))), Action::Nothing);
    assert_eq!(editor.get_mode(), Mode::Insert);
    assert_eq!(handle_input(&mut editor, key(KeyCode::Char('a'))), Action::Nothing);
    assert_eq!(editor.to_string(), None);
}

#[test]
fn keys_that_move() {
    assert_eq!(key_movement(KeyCode::Left), Some(CursorMovement::Left));
    assert_eq!(key_movement(KeyCode::Right), Some(CursorMovement::Right));
    assert_eq!(key_movement(KeyCode::Up), Some(CursorMovement::Up));
    assert_eq!(key_movement(KeyCode::Down), Some(CursorMovement::Down));
    assert_eq!(key_movement(KeyCode::Home), Some(CursorMovement::LineStart));
    assert_eq!(key_movement(KeyCode::End), Some(CursorMovement::LineEnd));
    assert_eq!(key_movement(KeyCode::Enter), None);
    assert_eq!(key_movement(KeyCode::Char('h')), None);
}

#[test]
fn mode_labels() {
    assert_eq!(Mode::Normal.to_string(), "NOR");
    assert_eq!(Mode::Insert.to_string(), "INS");
    assert_eq!(Mode::Visual.to_string(), "VIS");
}

#[test]
fn file_explorer_keys() {
    let browse = |k| handle_file_explorer_input(k, false);
    let search = |k| handle_file_explorer_input(k, true);
    assert_eq!(browse(key(KeyCode::Char('/'))), ExplorerAction::EnterSearchMode);
    assert_eq!(search(key(KeyCode::Char('/'))), ExplorerAction::SearchInput('/'));
    assert_eq!(browse(key(KeyCode::Char('a'))), ExplorerAction::Nothing);
    assert_eq!(search(key(KeyCode::Char('a'))), ExplorerAction::SearchInput('a'));
    assert_eq!(browse(key(KeyCode::Enter)), ExplorerAction::Select { refuse_binary: true });
    assert_eq!(search(key(KeyCode::Enter)), ExplorerAction::Select { refuse_binary: true });
    assert_eq!(browse(key(KeyCode::Right)), ExplorerAction::Select { refuse_binary: false });
    assert_eq!(search(key(KeyCode::Right)), ExplorerAction::Nothing);
    assert_eq!(browse(key(KeyCode::Esc)), ExplorerAction::Close);
    assert_eq!(search(key(KeyCode::Esc)), ExplorerAction::ExitSearchMode);
    assert_eq!(browse(key(KeyCode::Up)), ExplorerAction::MoveSelection(-1));
    assert_eq!(search(key(KeyCode::Down)), ExplorerAction::MoveSelection(1));
    assert_eq!(browse(key(KeyCode::Left)), ExplorerAction::GoUp);
    assert_eq!(search(key(KeyCode::Left)), ExplorerAction::Nothing);
    assert_eq!(browse(key(KeyCode::Backspace)), ExplorerAction::GoUp);
    assert_eq!(search(key(KeyCode::Backspace)), ExplorerAction::SearchBackspace);
    assert_eq!(browse(shift(KeyCode::Char('G'))), ExplorerAction::ToggleGlobalSearch);
    assert_eq!(search(shift(KeyCode::Char('G'))), ExplorerAction::ToggleGlobalSearch);
    assert_eq!(search(shift(KeyCode::Char('g'))), ExplorerAction::Nothing);
    assert_eq!(browse(shift(KeyCode::Enter)), ExplorerAction::Nothing);
    assert_eq!(browse(key(KeyCode::Tab)), ExplorerAction::Nothing);
}
