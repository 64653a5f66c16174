use pyne::editor::Editor;
use pyne::input::{handle_command_bar, KeyCode, KeyEvent, KeyModifiers};
use pyne::ui::command_bar::{Command, CommandBar, CommandKind, Effect, SUGGESTIONS_PER_PAGE};

fn key(code: KeyCode) -> KeyEvent {
    KeyEvent { code, modifiers: KeyModifiers::Plain }
}

fn bar_with(line: &str) -> CommandBar {
    let mut bar = CommandBar::new();
    bar.activate();
    for c in line.chars() {
        bar.input(c);
    }
    bar
}

fn message(text: &str) -> Effect {
    Effect::Message(String::from(text))
}

fn help(topic: &str) -> Effect {
    Effect::Help(String::from(topic))
}

fn run(line: &str, editor: &Editor) -> Vec<Effect> {
    bar_with(line).execute_command(editor)
}

fn open_editor() -> Editor {
    let mut editor = Editor::new();
    editor.open_text(String::from("notes.txt"), "text");
    editor
}

#[test]
fn new_command_bar_is_closed() {
    let bar = CommandBar::new();
    assert!(!bar.is_active());
    assert_eq!(bar.get_input(), "");
    assert_eq!(bar.get_suggestion_index(), 0);
    assert_eq!(bar.suggestion_page(), 0);
    assert_eq!(SUGGESTIONS_PER_PAGE, 5);
}

#[test]
fn command_table_in_order() {
    let bar = CommandBar::new();
    let names: Vec<&str> = bar.get_suggestions().iter().map(|c| c.name.as_str()).collect();
    assert_eq!(names, vec!["q", "q!", "w", "wq", "e", "help", "set", "split", "vsplit"]);
    let first: &Command = bar.get_suggestions()[0];
    assert_eq!(first.description, "Quit the editor");
    assert_eq!(first.kind, CommandKind::Quit);
    assert_eq!(first.help_topic, "quit");
    let last: &Command = bar.get_suggestions()[8];
    assert_eq!(last.description, "Split the window vertically");
    assert_eq!(last.kind, CommandKind::VSplit);
    assert_eq!(last.help_topic, "vsplit");
}

#[test]
fn typing_and_erasing() {
    let mut bar = CommandBar::new();
    bar.activate();
    assert!(bar.is_active());
    bar.input('w');
    bar.input('q');
    assert_eq!(bar.get_input(), "wq");
    bar.backspace();
    assert_eq!(bar.get_input(), "w");
    bar.backspace();
    bar.backspace();
    assert_eq!(bar.get_input(), "");
    bar.input('x');
    bar.deactivate();
    assert!(!bar.is_active());
    assert_eq!(bar.get_input(), "");
}

#[test]
fn get_command_ignores_white_space_around_the_name() {
    assert_eq!(bar_with("  wq \t").get_command().map(|c| c.kind), Some(CommandKind::SaveAndQuit));
    assert_eq!(bar_with("q!").get_command().map(|c| c.kind), Some(CommandKind::ForceQuit));
    assert!(bar_with("w q").get_command().is_none());
    assert!(bar_with("").get_command().is_none());
    assert!(bar_with("Q").get_command().is_none());
}

#[test]
fn cycling_goes_round_the_table() {
    let mut bar = CommandBar::new();
    bar.activate();
    assert_eq!(bar.get_current_command_description(), Some("Quit the editor"));
    bar.cycle_suggestion(true);
    assert_eq!(bar.get_suggestion_index(), 1);
    assert_eq!(bar.get_input(), "q!");
    assert_eq!(bar.get_current_command_description(), Some("Force quit without saving"));
    for _ in 0..4 {
        bar.cycle_suggestion(true);
    }
    assert_eq!(bar.get_suggestion_index(), 5);
    assert_eq!(bar.suggestion_page(), 1);
    assert_eq!(bar.get_input(), "help");
    for _ in 0..4 {
        bar.cycle_suggestion(true);
    }
    assert_eq!(bar.get_suggestion_index(), 0);
    assert_eq!(bar.suggestion_page(), 0);
    assert_eq!(bar.get_input(), "q");
    bar.cycle_suggestion(false);
    assert_eq!(bar.get_suggestion_index(), 8);
    assert_eq!(bar.suggestion_page(), 1);
    assert_eq!(bar.get_input(), "vsplit");
    bar.reset_suggestion_index();
    assert_eq!(bar.get_suggestion_index(), 0);
    assert_eq!(bar.get_input(), "vsplit");
}

#[test]
fn pages_go_round() {
    let mut bar = CommandBar::new();
    bar.next_suggestion_page();
    assert_eq!(bar.suggestion_page(), 1);
    bar.next_suggestion_page();
    assert_eq!(bar.suggestion_page(), 0);
    bar.prev_suggestion_page();
    assert_eq!(bar.suggestion_page(), 1);
    bar.prev_suggestion_page();
    assert_eq!(bar.suggestion_page(), 0);
}

#[test]
fn quit_is_refused_with_unsaved_changes() {
    let mut editor = open_editor();
    assert_eq!(run("q", &editor), vec![help("quit"), Effect::Quit]);
    editor.insert('x');
    assert_eq!(
        run("q", &editor),
        vec![help("quit"), message("Unsaved changes. Use :q! to force quit.")]
    );
    assert_eq!(run("q!", &editor), vec![help("force_quit"), Effect::Quit]);
}

#[test]
fn save_uses_the_current_path() {
    let editor = open_editor();
    assert_eq!(
        run("w", &editor),
        vec![
            help("save"),
            Effect::Save(String::from("notes.txt")),
            message("File saved successfully.")
        ]
    );
    assert_eq!(
        run("wq", &editor),
        vec![help("save_and_quit"), Effect::Save(String::from("notes.txt")), Effect::Quit]
    );
}

#[test]
fn save_without_a_document_is_answered_with_a_message() {
    let editor = Editor::new();
    assert_eq!(
        run("w", &editor),
        vec![help("save"), message("No file path set. Use :w <filename> to save.")]
    );
    assert_eq!(
        run("wq", &editor),
        vec![
            help("save_and_quit"),
            message("No file path set. Use :w <filename> to save before quitting.")
        ]
    );
}

#[test]
fn commands_with_an_argument() {
    let editor = open_editor();
    assert_eq!(
        run("w other.txt", &editor),
        vec![Effect::Save(String::from("other.txt")), message("File saved successfully.")]
    );
    assert_eq!(run("  e  a b.txt ", &editor), vec![Effect::Open(String::from(" a b.txt"))]);
    assert_eq!(run("help é topic", &editor), vec![help("é topic")]);
    assert_eq!(
        run("set number", &editor),
        vec![message("Setting option: number. (Not actually implemented)")]
    );
}

#[test]
fn commands_that_only_answer() {
    let editor = open_editor();
    assert_eq!(run("e", &editor), vec![help("edit"), message("Use :e <filename> to open a file.")]);
    assert_eq!(run("help", &editor), vec![help("help"), help("commands")]);
    assert_eq!(
        run("set", &editor),
        vec![help("set_options"), message("Use :set <option> to set an editor option.")]
    );
    assert_eq!(
        run("split", &editor),
        vec![help("split"), message("Split view not implemented yet.")]
    );
    assert_eq!(
        run("vsplit", &editor),
        vec![help("vsplit"), message("Vertical split view not implemented yet.")]
    );
}

#[test]
fn unknown_commands_are_answered_with_a_message() {
    let editor = open_editor();
    assert_eq!(run("  bogus ", &editor), vec![message("Unknown command: bogus")]);
    assert_eq!(run("", &editor), vec![message("Unknown command: ")]);
    assert_eq!(run("w ", &editor), vec![
        help("save"),
        Effect::Save(String::from("notes.txt")),
        message("File saved successfully.")
    ]);
}

#[test]
fn keys_in_the_open_command_bar() {
    let editor = open_editor();
    let mut bar = CommandBar::new();
    bar.activate();
    assert!(handle_command_bar(&mut bar, &editor, key(KeyCode::Char(':'))).is_empty());
    assert_eq!(bar.get_input(), "");
    for c in ['q', ':', '!'] {
        assert!(handle_command_bar(&mut bar, &editor, key(KeyCode::Char(c))).is_empty());
    }
    assert_eq!(bar.get_input(), "q:!");
    handle_command_bar(&mut bar, &editor, key(KeyCode::Backspace));
    handle_command_bar(&mut bar, &editor, key(KeyCode::Backspace));
    assert_eq!(bar.get_input(), "q");
    handle_command_bar(&mut bar, &editor, key(KeyCode::Right));
    assert_eq!(bar.suggestion_page(), 1);
    handle_command_bar(&mut bar, &editor, key(KeyCode::Left));
    assert_eq!(bar.suggestion_page(), 0);
    handle_command_bar(&mut bar, &editor, key(KeyCode::Up));
    assert_eq!(bar.get_input(), "q");
    let effects = handle_command_bar(&mut bar, &editor, key(KeyCode::Enter));
    assert_eq!(effects, vec![help("quit"), Effect::Quit]);
    assert!(!bar.is_active());
    assert_eq!(bar.get_input(), "");
}

#[test]
fn tab_keys_cycle_and_escape_closes() {
    let editor = open_editor();
    let mut bar = CommandBar::new();
    bar.activate();
    handle_command_bar(&mut bar, &editor, key(KeyCode::Tab));
    handle_command_bar(&mut bar, &editor, key(KeyCode::Tab));
    assert_eq!(bar.get_input(), "w");
    handle_command_bar(&mut bar, &editor, key(KeyCode::BackTab));
    assert_eq!(bar.get_input(), "q!");
    assert_eq!(bar.get_suggestion_index(), 1);
    assert!(handle_command_bar(&mut bar, &editor, key(KeyCode::Esc)).is_empty());
    assert!(!bar.is_active());
    assert_eq!(bar.get_input(), "");
    assert_eq!(bar.get_suggestion_index(), 0);
}
