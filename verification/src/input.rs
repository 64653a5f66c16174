//! The mode machine: what a key press does to the editor in each mode, and
//! what it asks of the surroundings.
//!
//! The editor decides; whoever drives it carries out the action that a key
//! press returns (putting text on the clipboard, opening the command bar or
//! the file explorer) and hands in the next key.

use crate::editor::buffer::{
    lemma_edit_keeps_wf, lemma_rescrolled_bounded, BufferView, Edit,
};
use crate::editor::cursor_movement::CursorMovement;
use crate::editor::mode::Mode;
use crate::editor::{Editor, EditorView};
use crate::ui::command_bar::{
    command_effects, effect_views, CommandBar, CommandBarView, Effect, EffectView,
};
use vstd::prelude::*;
use vstd::string::{StrSliceExecFns, StringExecFns};

verus! {

/// Which key was pressed.
#[derive(Clone, Copy, Debug, PartialEq, Eq, Structural)]
pub enum KeyCode {
    Char(char),
    Backspace,
    Enter,
    Left,
    Right,
    Up,
    Down,
    Home,
    End,
    Tab,
    BackTab,
    Esc,
    /// Any other key.
    Other,
}

/// Which modifier keys were held.
#[derive(Clone, Copy, Debug, PartialEq, Eq, Structural)]
pub enum KeyModifiers {
    /// No modifier.
    Plain,
    /// Shift alone.
    Shift,
    /// Any other combination.
    Other,
}

/// A key press.
#[derive(Clone, Copy, Debug, PartialEq, Eq, Structural)]
pub struct KeyEvent {
    pub code: KeyCode,
    pub modifiers: KeyModifiers,
}

/// What a key press asks of the surroundings of the editor.
#[derive(Clone, Debug, PartialEq, Eq)]
pub enum Action {
    /// Nothing.
    Nothing,
    /// Put this text on the clipboard.
    CopyToClipboard(String),
    /// Open the command bar.
    ActivateCommandBar,
    /// Open the file explorer.
    OpenFileExplorer,
}

/// An action, as plain values.
pub enum ActionView {
    Nothing,
    CopyToClipboard(Seq<char>),
    ActivateCommandBar,
    OpenFileExplorer,
}

impl View for Action {
    type V = ActionView;

    open spec fn view(&self) -> ActionView {
        match self {
            Action::Nothing => ActionView::Nothing,
            Action::CopyToClipboard(text) => ActionView::CopyToClipboard(text@),
            Action::ActivateCommandBar => ActionView::ActivateCommandBar,
            Action::OpenFileExplorer => ActionView::OpenFileExplorer,
        }
    }
}

/// The movement that a key stands for, where it stands for one.
pub open spec fn movement_of(code: KeyCode) -> Option<CursorMovement> {
    match code {
        KeyCode::Left => Some(CursorMovement::Left),
        KeyCode::Right => Some(CursorMovement::Right),
        KeyCode::Up => Some(CursorMovement::Up),
        KeyCode::Down => Some(CursorMovement::Down),
        KeyCode::Home => Some(CursorMovement::LineStart),
        KeyCode::End => Some(CursorMovement::LineEnd),
        _ => None,
    }
}

/// What a tab key inserts.
pub open spec fn tab_text() -> Seq<char> {
    "    "@
}

/// The editor after `key` was pressed in Normal mode: `v` enters Visual
/// mode, `i` Insert mode, shift-`D` toggles the diagnostic line, the arrow
/// keys move the cursor. Every other key leaves the editor as it is.
pub open spec fn after_normal_key(editor: EditorView, key: KeyEvent) -> EditorView {
    match (key.modifiers, key.code) {
        (KeyModifiers::Plain, KeyCode::Char('v')) => editor.visual_entered(),
        (KeyModifiers::Plain, KeyCode::Char('i')) => editor.mode_set(Mode::Insert),
        (KeyModifiers::Shift, KeyCode::Char('D')) => EditorView {
            show_debug_info: !editor.show_debug_info,
            ..editor
        },
        (KeyModifiers::Plain, KeyCode::Left) => editor.cursor_moved(CursorMovement::Left),
        (KeyModifiers::Plain, KeyCode::Right) => editor.cursor_moved(CursorMovement::Right),
        (KeyModifiers::Plain, KeyCode::Up) => editor.cursor_moved(CursorMovement::Up),
        (KeyModifiers::Plain, KeyCode::Down) => editor.cursor_moved(CursorMovement::Down),
        _ => editor,
    }
}

/// What `key` asks for in Normal mode: `:` the command bar, `f` the file
/// explorer.
pub open spec fn normal_action(key: KeyEvent) -> ActionView {
    match (key.modifiers, key.code) {
        (KeyModifiers::Plain, KeyCode::Char(':')) => ActionView::ActivateCommandBar,
        (KeyModifiers::Plain, KeyCode::Char('f')) => ActionView::OpenFileExplorer,
        _ => ActionView::Nothing,
    }
}

/// The editor after `key` was pressed in Insert mode: a character, the enter
/// key and the tab key insert, backspace deletes, arrows, home and end move
/// the cursor, escape returns to Normal mode.
pub open spec fn after_insert_key(editor: EditorView, key: KeyEvent) -> EditorView {
    match key.code {
        KeyCode::Char(c) => editor.inserted(seq![c]),
        KeyCode::Backspace => editor.deleted(),
        KeyCode::Enter => editor.inserted(seq!['\n']),
        KeyCode::Tab => editor.inserted(tab_text()),
        KeyCode::Esc => editor.mode_set(Mode::Normal),
        code => match movement_of(code) {
            Some(movement) => editor.cursor_moved(movement),
            None => editor,
        },
    }
}

/// The editor after `key` was pressed in Visual mode: escape and `y` leave
/// Visual mode and keep the text, `d` deletes the selection, arrows, home and
/// end move the cursor and with it the end of the selection.
pub open spec fn after_visual_key(editor: EditorView, key: KeyEvent) -> EditorView {
    if key.modifiers != KeyModifiers::Plain {
        editor
    } else {
        match key.code {
            KeyCode::Esc => editor.visual_exited(),
            KeyCode::Char('d') => editor.selection_deleted().visual_exited(),
            KeyCode::Char('y') => editor.visual_exited(),
            code => match movement_of(code) {
                Some(movement) => editor.cursor_moved(movement),
                None => editor,
            },
        }
    }
}

/// What `key` asks for in Visual mode: `y` asks for the selected text to be
/// put on the clipboard.
pub open spec fn visual_action(editor: EditorView, key: KeyEvent) -> ActionView {
    match (key.modifiers, key.code, editor.current()) {
        (KeyModifiers::Plain, KeyCode::Char('y'), Some(doc)) => match doc.selected_text() {
            Some(text) => ActionView::CopyToClipboard(text),
            None => ActionView::Nothing,
        },
        _ => ActionView::Nothing,
    }
}

/// The editor after `key` was pressed, in whatever mode it is.
pub open spec fn after_key(editor: EditorView, key: KeyEvent) -> EditorView {
    match editor.mode {
        Mode::Normal => after_normal_key(editor, key),
        Mode::Insert => after_insert_key(editor, key),
        Mode::Visual => after_visual_key(editor, key),
    }
}

/// The editor after the keys of `keys` were pressed, the first one first.
pub open spec fn after_keys(editor: EditorView, keys: Seq<KeyEvent>) -> EditorView
    decreases keys.len(),
{
    if keys.len() == 0 {
        editor
    } else {
        after_key(after_keys(editor, keys.drop_last()), keys.last())
    }
}

/// What `key` asks for, in whatever mode the editor is.
pub open spec fn action_of(editor: EditorView, key: KeyEvent) -> ActionView {
    match editor.mode {
        Mode::Normal => normal_action(key),
        Mode::Insert => ActionView::Nothing,
        Mode::Visual => visual_action(editor, key),
    }
}

/// Replacing the current document by a well-formed one whose window begins
/// at or before its cursor, and which has no anchor unless the mode is
/// Visual, keeps the editor well formed.
proof fn lemma_with_current_keeps_wf(editor: EditorView, doc: BufferView, mode: Mode)
    requires
        editor.wf(),
        doc.wf(),
        doc.scroll_bounded(),
        mode != Mode::Visual ==> doc.selection_start is None,
        editor.current_key is Some,
    ensures
        (EditorView { mode, ..editor.with_current(doc) }).wf(),
{
    let after = EditorView { mode, ..editor.with_current(doc) };
    assert forall|k: Seq<char>| after.documents.dom().contains(k) implies (
    #[trigger] after.documents[k]).wf() && after.documents[k].scroll_bounded() by {
        if k != editor.current_key->0 {
            assert(editor.documents.dom().contains(k));
        }
    }
}

/// An edit of the current document followed by a recomputation of its scroll
/// offset keeps the editor well formed, in whatever mode.
proof fn lemma_edit_keeps_editor_wf(editor: EditorView, edit: Edit)
    requires
        editor.wf(),
        editor.current() is Some,
        edit is Insert || edit is DeleteBackward || edit is Move || edit is DeleteSelection,
    ensures
        editor.with_current(editor.rescroll(editor.current()->0.applied(edit))).wf(),
        edit is DeleteSelection ==> (EditorView {
            mode: Mode::Normal,
            ..editor.with_current(editor.rescroll(editor.current()->0.applied(edit)))
        }).wf(),
{
    let doc = editor.current()->0;
    assert(editor.documents.dom().contains(editor.current_key->0));
    lemma_edit_keeps_wf(doc, edit);
    lemma_rescrolled_bounded(doc.applied(edit), editor.viewport.0, editor.viewport.1);
    let after = editor.rescroll(doc.applied(edit));
    lemma_with_current_keeps_wf(editor, after, editor.mode);
    if edit is DeleteSelection {
        lemma_with_current_keeps_wf(editor, after, Mode::Normal);
    }
}

/// The session invariant: whatever key is pressed in whatever mode, the
/// editor stays well formed. The cursor of every document stays inside its
/// text, and outside Visual mode the current document has no selection
/// anchor.
pub proof fn lemma_key_keeps_wf(editor: EditorView, key: KeyEvent)
    requires
        editor.wf(),
    ensures
        after_key(editor, key).wf(),
{
    if editor.current() is Some {
        let doc = editor.current()->0;
        assert(editor.documents.dom().contains(editor.current_key->0));
        lemma_with_current_keeps_wf(editor, doc.anchored(), Mode::Visual);
        lemma_with_current_keeps_wf(editor, doc.unanchored(), Mode::Normal);
        lemma_with_current_keeps_wf(editor, doc.unanchored(), Mode::Insert);
        lemma_edit_keeps_editor_wf(editor, Edit::DeleteBackward);
        lemma_edit_keeps_editor_wf(editor, Edit::DeleteSelection);
        lemma_edit_keeps_editor_wf(editor, Edit::Insert(tab_text()));
        lemma_edit_keeps_editor_wf(editor, Edit::Insert(seq!['\n']));
        if let KeyCode::Char(c) = key.code {
            lemma_edit_keeps_editor_wf(editor, Edit::Insert(seq![c]));
        }
        lemma_edit_keeps_editor_wf(editor, Edit::Move(CursorMovement::Left));
        lemma_edit_keeps_editor_wf(editor, Edit::Move(CursorMovement::Right));
        lemma_edit_keeps_editor_wf(editor, Edit::Move(CursorMovement::Up));
        lemma_edit_keeps_editor_wf(editor, Edit::Move(CursorMovement::Down));
        lemma_edit_keeps_editor_wf(editor, Edit::Move(CursorMovement::LineStart));
        lemma_edit_keeps_editor_wf(editor, Edit::Move(CursorMovement::LineEnd));
        if editor.mode == Mode::Visual && key.modifiers == KeyModifiers::Plain && key.code
            == KeyCode::Char('d') {
            let deleted = editor.selection_deleted();
            assert(deleted.wf());
            assert(deleted.documents.dom().contains(deleted.current_key->0));
            lemma_with_current_keeps_wf(deleted, deleted.current()->0.unanchored(), Mode::Normal);
        }
    }
}

/// The session invariant over a whole session: after any sequence of key
/// presses the editor is well formed.
pub proof fn lemma_keys_keep_wf(editor: EditorView, keys: Seq<KeyEvent>)
    requires
        editor.wf(),
    ensures
        after_keys(editor, keys).wf(),
    decreases keys.len(),
{
    if keys.len() > 0 {
        lemma_keys_keep_wf(editor, keys.drop_last());
        lemma_key_keeps_wf(after_keys(editor, keys.drop_last()), keys.last());
    }
}

/// The movement that the key `code` stands for.
pub fn key_movement(code: KeyCode) -> (movement: Option<CursorMovement>)
    ensures
        movement == movement_of(code),
{
    match code {
        KeyCode::Left => Some(CursorMovement::Left),
        KeyCode::Right => Some(CursorMovement::Right),
        KeyCode::Up => Some(CursorMovement::Up),
        KeyCode::Down => Some(CursorMovement::Down),
        KeyCode::Home => Some(CursorMovement::LineStart),
        KeyCode::End => Some(CursorMovement::LineEnd),
        _ => None,
    }
}

/// Handles a key pressed in Normal mode.
pub fn handle_normal_mode(editor: &mut Editor, key: KeyEvent) -> (action: Action)
    requires
        old(editor).wf(),
    ensures
        final(editor).wf(),
        final(editor)@ == after_normal_key(old(editor)@, key),
        action@ == normal_action(key),
{
    match (key.modifiers, key.code) {
        (KeyModifiers::Plain, KeyCode::Char(c)) => {
            if c == 'v' {
                editor.enter_visual_mode();
                Action::Nothing
            } else if c == ':' {
                Action::ActivateCommandBar
            } else if c == 'i' {
                editor.set_mode(Mode::Insert);
                Action::Nothing
            } else if c == 'f' {
                Action::OpenFileExplorer
            } else {
                Action::Nothing
            }
        },
        (KeyModifiers::Shift, KeyCode::Char(c)) => {
            if c == 'D' {
                editor.toggle_debug_info();
            }
            Action::Nothing
        },
        (KeyModifiers::Plain, KeyCode::Left) => {
            editor.move_cursor(CursorMovement::Left);
            Action::Nothing
        },
        (KeyModifiers::Plain, KeyCode::Right) => {
            editor.move_cursor(CursorMovement::Right);
            Action::Nothing
        },
        (KeyModifiers::Plain, KeyCode::Up) => {
            editor.move_cursor(CursorMovement::Up);
            Action::Nothing
        },
        (KeyModifiers::Plain, KeyCode::Down) => {
            editor.move_cursor(CursorMovement::Down);
            Action::Nothing
        },
        _ => Action::Nothing,
    }
}

/// Handles a key pressed in Insert mode.
pub fn handle_insert_mode(editor: &mut Editor, key: KeyEvent) -> (action: Action)
    requires
        old(editor).wf(),
    ensures
        final(editor).wf(),
        final(editor)@ == after_insert_key(old(editor)@, key),
        action@ == ActionView::Nothing,
{
    match key.code {
        KeyCode::Char(c) => editor.insert(c),
        KeyCode::Backspace => editor.delete(),
        KeyCode::Enter => editor.insert_new_line(),
        KeyCode::Tab => editor.insert_str(String::from_str("    ")),
        KeyCode::Esc => editor.set_mode(Mode::Normal),
        code => match key_movement(code) {
            Some(movement) => editor.move_cursor(movement),
            None => {},
        },
    }
    Action::Nothing
}

/// Handles a key pressed in Visual mode.
pub fn handle_visual_mode(editor: &mut Editor, key: KeyEvent) -> (action: Action)
    requires
        old(editor).wf(),
    ensures
        final(editor).wf(),
        final(editor)@ == after_visual_key(old(editor)@, key),
        action@ == visual_action(old(editor)@, key),
{
    if key.modifiers != KeyModifiers::Plain {
        return Action::Nothing;
    }
    match key.code {
        KeyCode::Esc => {
            editor.exit_visual_mode();
            Action::Nothing
        },
        KeyCode::Char(c) => {
            if c == 'd' {
                editor.delete_selection();
                editor.exit_visual_mode();
                Action::Nothing
            } else if c == 'y' {
                let copied = editor.copy_selection();
                editor.exit_visual_mode();
                match copied {
                    Some(text) => Action::CopyToClipboard(text),
                    None => Action::Nothing,
                }
            } else {
                Action::Nothing
            }
        },
        code => match key_movement(code) {
            Some(movement) => {
                editor.move_cursor(movement);
                Action::Nothing
            },
            None => Action::Nothing,
        },
    }
}

/// The command bar after `key` was pressed while it is open: characters are
/// typed, but a colon on an empty line is not; backspace deletes; the tab
/// keys mark the next or the previous suggestion; the arrow keys turn the
/// page; enter and escape close the bar.
pub open spec fn after_command_key(bar: CommandBarView, key: KeyEvent) -> CommandBarView {
    match key.code {
        KeyCode::Char(c) => if c == ':' && bar.input.len() == 0 {
            bar
        } else {
            bar.typed(c)
        },
        KeyCode::Backspace => bar.erased(),
        KeyCode::Tab => bar.cycled(true),
        KeyCode::BackTab => bar.cycled(false),
        KeyCode::Right => bar.page_turned(true),
        KeyCode::Left => bar.page_turned(false),
        KeyCode::Enter => bar.closed().unmarked(),
        KeyCode::Esc => bar.closed().unmarked(),
        _ => bar,
    }
}

/// What `key` asks for while the command bar is open: enter runs the line
/// typed so far.
pub open spec fn command_key_effects(
    bar: CommandBarView,
    editor: EditorView,
    key: KeyEvent,
) -> Seq<EffectView> {
    if key.code == KeyCode::Enter {
        command_effects(bar.input, editor)
    } else {
        Seq::empty()
    }
}

/// Handles a key pressed while the command bar is open.
pub fn handle_command_bar(command_bar: &mut CommandBar, editor: &Editor, key: KeyEvent) -> (effects:
    Vec<Effect>)
    requires
        old(command_bar).wf(),
        editor.wf(),
    ensures
        final(command_bar).wf(),
        final(command_bar)@ == after_command_key(old(command_bar)@, key),
        effect_views(effects@) == command_key_effects(old(command_bar)@, editor@, key),
{
    let mut effects: Vec<Effect> = Vec::new();
    match key.code {
        KeyCode::Char(c) => {
            if !(c == ':' && command_bar.get_input().unicode_len() == 0) {
                command_bar.input(c);
                command_bar.reset_suggestion_index();
            }
        },
        KeyCode::Backspace => {
            command_bar.backspace();
            command_bar.reset_suggestion_index();
        },
        KeyCode::Tab => command_bar.cycle_suggestion(true),
        KeyCode::BackTab => command_bar.cycle_suggestion(false),
        KeyCode::Right => command_bar.next_suggestion_page(),
        KeyCode::Left => command_bar.prev_suggestion_page(),
        KeyCode::Enter => {
            effects = command_bar.execute_command(editor);
            command_bar.deactivate();
            command_bar.reset_suggestion_index();
        },
        KeyCode::Esc => {
            command_bar.deactivate();
            command_bar.reset_suggestion_index();
        },
        _ => {},
    }
    effects
}

/// What a key press asks of the file explorer.
#[derive(Clone, Copy, Debug, PartialEq, Eq, Structural)]
pub enum ExplorerAction {
    /// Nothing.
    Nothing,
    /// Begin to type a search.
    EnterSearchMode,
    /// End the search.
    ExitSearchMode,
    /// Close the file explorer.
    Close,
    /// Enter the selected directory or open the selected file; with
    /// `refuse_binary`, a file that is no text is refused.
    Select { refuse_binary: bool },
    /// Move the selection by this many entries.
    MoveSelection(i32),
    /// Go to the parent directory.
    GoUp,
    /// Delete the last character of the search.
    SearchBackspace,
    /// Search in file names only, or below the directory as well.
    ToggleGlobalSearch,
    /// Type this character into the search.
    SearchInput(char),
}

/// What `key` asks of the file explorer, which is typing a search or not
/// (`searching`).
pub open spec fn explorer_action(key: KeyEvent, searching: bool) -> ExplorerAction {
    match (key.modifiers, key.code) {
        (KeyModifiers::Plain, KeyCode::Char(c)) => if c == '/' && !searching {
            ExplorerAction::EnterSearchMode
        } else if searching {
            ExplorerAction::SearchInput(c)
        } else {
            ExplorerAction::Nothing
        },
        (KeyModifiers::Plain, KeyCode::Enter) => ExplorerAction::Select { refuse_binary: true },
        (KeyModifiers::Plain, KeyCode::Esc) => if searching {
            ExplorerAction::ExitSearchMode
        } else {
            ExplorerAction::Close
        },
        (KeyModifiers::Plain, KeyCode::Up) => ExplorerAction::MoveSelection(-1i32),
        (KeyModifiers::Plain, KeyCode::Down) => ExplorerAction::MoveSelection(1i32),
        (KeyModifiers::Plain, KeyCode::Left) => if searching {
            ExplorerAction::Nothing
        } else {
            ExplorerAction::GoUp
        },
        (KeyModifiers::Plain, KeyCode::Right) => if searching {
            ExplorerAction::Nothing
        } else {
            ExplorerAction::Select { refuse_binary: false }
        },
        (KeyModifiers::Plain, KeyCode::Backspace) => if searching {
            ExplorerAction::SearchBackspace
        } else {
            ExplorerAction::GoUp
        },
        (KeyModifiers::Shift, KeyCode::Char(c)) => if c == 'G' {
            ExplorerAction::ToggleGlobalSearch
        } else {
            ExplorerAction::Nothing
        },
        _ => ExplorerAction::Nothing,
    }
}

/// Handles a key pressed while the file explorer is open.
pub fn handle_file_explorer_input(key: KeyEvent, searching: bool) -> (action: ExplorerAction)
    ensures
        action == explorer_action(key, searching),
{
    match (key.modifiers, key.code) {
        (KeyModifiers::Plain, KeyCode::Char(c)) => {
            if c == '/' && !searching {
                ExplorerAction::EnterSearchMode
            } else if searching {
                ExplorerAction::SearchInput(c)
            } else {
                ExplorerAction::Nothing
            }
        },
        (KeyModifiers::Plain, KeyCode::Enter) => ExplorerAction::Select { refuse_binary: true },
        (KeyModifiers::Plain, KeyCode::Esc) => {
            if searching {
                ExplorerAction::ExitSearchMode
            } else {
                ExplorerAction::Close
            }
        },
        (KeyModifiers::Plain, KeyCode::Up) => ExplorerAction::MoveSelection(-1),
        (KeyModifiers::Plain, KeyCode::Down) => ExplorerAction::MoveSelection(1),
        (KeyModifiers::Plain, KeyCode::Left) => {
            if searching {
                ExplorerAction::Nothing
            } else {
                ExplorerAction::GoUp
            }
        },
        (KeyModifiers::Plain, KeyCode::Right) => {
            if searching {
                ExplorerAction::Nothing
            } else {
                ExplorerAction::Select { refuse_binary: false }
            }
        },
        (KeyModifiers::Plain, KeyCode::Backspace) => {
            if searching {
                ExplorerAction::SearchBackspace
            } else {
                ExplorerAction::GoUp
            }
        },
        (KeyModifiers::Shift, KeyCode::Char(c)) => {
            if c == 'G' {
                ExplorerAction::ToggleGlobalSearch
            } else {
                ExplorerAction::Nothing
            }
        },
        _ => ExplorerAction::Nothing,
    }
}

/// Handles a key press in the mode the editor is in.
pub fn handle_input(editor: &mut Editor, key: KeyEvent) -> (action: Action)
    requires
        old(editor).wf(),
    ensures
        final(editor).wf(),
        final(editor)@ == after_key(old(editor)@, key),
        action@ == action_of(old(editor)@, key),
{
    match editor.get_mode() {
        Mode::Normal => handle_normal_mode(editor, key),
        Mode::Insert => handle_insert_mode(editor, key),
        Mode::Visual => handle_visual_mode(editor, key),
    }
}

} // verus!
