//! The command bar: the line in which a command is typed, the table of
//! commands it offers, and what a typed command asks for.
//!
//! The command bar decides and does nothing itself: a command comes out as a
//! list of effects (save here, load that, show this message, quit), which
//! whoever drives the editor carries out in order, stopping at the first that
//! fails.

use crate::editor::{Editor, EditorView};
use crate::utils::text::{has_prefix, str_starts_with, str_trim, trimmed};
use vstd::prelude::*;
use vstd::string::{StrSliceExecFns, StringExecFns};

verus! {

/// How many suggestions one page of the suggestion line holds.
pub const SUGGESTIONS_PER_PAGE: usize = 5;

/// What a command of the table does when it is run.
#[derive(Clone, Copy, Debug, PartialEq, Eq, Structural)]
pub enum CommandKind {
    Quit,
    ForceQuit,
    Save,
    SaveAndQuit,
    Edit,
    Help,
    SetOption,
    Split,
    VSplit,
}

/// A command of the table.
#[derive(Clone, Debug, PartialEq, Eq)]
pub struct Command {
    /// What is typed to run it.
    pub name: String,
    /// One line that says what it does.
    pub description: String,
    /// What it does.
    pub kind: CommandKind,
    /// The help topic that goes with it.
    pub help_topic: String,
}

/// A command, as plain values.
pub struct CommandView {
    pub name: Seq<char>,
    pub description: Seq<char>,
    pub kind: CommandKind,
    pub help_topic: Seq<char>,
}

impl View for Command {
    type V = CommandView;

    open spec fn view(&self) -> CommandView {
        CommandView {
            name: self.name@,
            description: self.description@,
            kind: self.kind,
            help_topic: self.help_topic@,
        }
    }
}

/// The commands, in the order in which they are suggested.
pub open spec fn command_table() -> Seq<CommandView> {
    seq![
        CommandView {
            name: "q"@,
            description: "Quit the editor"@,
            kind: CommandKind::Quit,
            help_topic: "quit"@,
        },
        CommandView {
            name: "q!"@,
            description: "Force quit without saving"@,
            kind: CommandKind::ForceQuit,
            help_topic: "force_quit"@,
        },
        CommandView {
            name: "w"@,
            description: "Save the current file"@,
            kind: CommandKind::Save,
            help_topic: "save"@,
        },
        CommandView {
            name: "wq"@,
            description: "Save and quit"@,
            kind: CommandKind::SaveAndQuit,
            help_topic: "save_and_quit"@,
        },
        CommandView {
            name: "e"@,
            description: "Edit a file"@,
            kind: CommandKind::Edit,
            help_topic: "edit"@,
        },
        CommandView {
            name: "help"@,
            description: "Show help information"@,
            kind: CommandKind::Help,
            help_topic: "help"@,
        },
        CommandView {
            name: "set"@,
            description: "Set editor options"@,
            kind: CommandKind::SetOption,
            help_topic: "set_options"@,
        },
        CommandView {
            name: "split"@,
            description: "Split the window horizontally"@,
            kind: CommandKind::Split,
            help_topic: "split"@,
        },
        CommandView {
            name: "vsplit"@,
            description: "Split the window vertically"@,
            kind: CommandKind::VSplit,
            help_topic: "vsplit"@,
        },
    ]
}

/// The first command of `table` with the name `name`.
pub open spec fn find_command(table: Seq<CommandView>, name: Seq<char>) -> Option<CommandView>
    decreases table.len(),
{
    if table.len() == 0 {
        None
    } else if table[0].name == name {
        Some(table[0])
    } else {
        find_command(table.drop_first(), name)
    }
}

/// One thing that a command asks for.
#[derive(Clone, Debug, PartialEq, Eq)]
pub enum Effect {
    /// Leave the editor.
    Quit,
    /// Show this message in the status line.
    Message(String),
    /// Show the help text of this topic.
    Help(String),
    /// Write the current document to the file that this path resolves to.
    Save(String),
    /// Load the file that this path resolves to.
    Open(String),
}

/// An effect, as plain values.
pub enum EffectView {
    Quit,
    Message(Seq<char>),
    Help(Seq<char>),
    Save(Seq<char>),
    Open(Seq<char>),
}

impl View for Effect {
    type V = EffectView;

    open spec fn view(&self) -> EffectView {
        match self {
            Effect::Quit => EffectView::Quit,
            Effect::Message(text) => EffectView::Message(text@),
            Effect::Help(topic) => EffectView::Help(topic@),
            Effect::Save(path) => EffectView::Save(path@),
            Effect::Open(path) => EffectView::Open(path@),
        }
    }
}

/// The views of effects.
pub open spec fn effect_views(effects: Seq<Effect>) -> Seq<EffectView> {
    effects.map_values(|effect: Effect| effect@)
}

/// The message shown after a document was saved.
pub open spec fn saved_message() -> Seq<char> {
    "File saved successfully."@
}

/// The message that answers the command to set `option`.
pub open spec fn set_option_message(option: Seq<char>) -> Seq<char> {
    "Setting option: "@ + option + ". (Not actually implemented)"@
}

/// What a command of the table asks for when it is run on `editor`.
pub open spec fn kind_effects(kind: CommandKind, editor: EditorView) -> Seq<EffectView> {
    match kind {
        CommandKind::Quit => if editor.has_unsaved() {
            seq![EffectView::Message("Unsaved changes. Use :q! to force quit."@)]
        } else {
            seq![EffectView::Quit]
        },
        CommandKind::ForceQuit => seq![EffectView::Quit],
        CommandKind::Save => match editor.current_key {
            Some(key) => seq![EffectView::Save(key), EffectView::Message(saved_message())],
            None => seq![EffectView::Message("No file path set. Use :w <filename> to save."@)],
        },
        CommandKind::SaveAndQuit => match editor.current_key {
            Some(key) => seq![EffectView::Save(key), EffectView::Quit],
            None => seq![
                EffectView::Message(
                    "No file path set. Use :w <filename> to save before quitting."@,
                ),
            ],
        },
        CommandKind::Edit => seq![EffectView::Message("Use :e <filename> to open a file."@)],
        CommandKind::Help => seq![EffectView::Help("commands"@)],
        CommandKind::SetOption => seq![
            EffectView::Message("Use :set <option> to set an editor option."@),
        ],
        CommandKind::Split => seq![EffectView::Message("Split view not implemented yet."@)],
        CommandKind::VSplit => seq![
            EffectView::Message("Vertical split view not implemented yet."@),
        ],
    }
}

/// What the typed line `typed` asks for when it is run on `editor`.
///
/// White space around the line does not count. `help`, `w`, `e` and `set`
/// followed by a blank take the rest of the line as their argument. Any
/// other line must be the name of a command of the table, which then shows
/// its help topic and does what it does; a line that is none is answered
/// with a message.
pub open spec fn command_effects(typed: Seq<char>, editor: EditorView) -> Seq<EffectView> {
    let line = trimmed(typed);
    if has_prefix(line, "help "@) {
        seq![EffectView::Help(line.skip(5))]
    } else if has_prefix(line, "w "@) {
        seq![EffectView::Save(line.skip(2)), EffectView::Message(saved_message())]
    } else if has_prefix(line, "e "@) {
        seq![EffectView::Open(line.skip(2))]
    } else if has_prefix(line, "set "@) {
        seq![EffectView::Message(set_option_message(line.skip(4)))]
    } else {
        match find_command(command_table(), line) {
            Some(command) => seq![EffectView::Help(command.help_topic)] + kind_effects(
                command.kind,
                editor,
            ),
            None => seq![EffectView::Message("Unknown command: "@ + line)],
        }
    }
}

/// Number of pages that `count` suggestions fill.
pub open spec fn page_count(count: int) -> int {
    (count + SUGGESTIONS_PER_PAGE - 1) / (SUGGESTIONS_PER_PAGE as int)
}

/// What a command bar is, as plain values.
pub struct CommandBarView {
    /// The line typed so far.
    pub input: Seq<char>,
    /// Whether the command bar is open.
    pub active: bool,
    /// Index of the suggestion that is marked.
    pub suggestion_index: int,
    /// Index of the page of suggestions that is shown.
    pub suggestion_page: int,
}

impl CommandBarView {
    /// A closed command bar with nothing typed.
    pub open spec fn initial() -> CommandBarView {
        CommandBarView {
            input: Seq::empty(),
            active: false,
            suggestion_index: 0,
            suggestion_page: 0,
        }
    }

    /// After the command bar was opened: the line is empty.
    pub open spec fn opened(self) -> CommandBarView {
        CommandBarView { active: true, input: Seq::empty(), ..self }
    }

    /// After the command bar was closed: the line is empty.
    pub open spec fn closed(self) -> CommandBarView {
        CommandBarView { active: false, input: Seq::empty(), ..self }
    }

    /// After `c` was typed: the first suggestion is marked again.
    pub open spec fn typed(self, c: char) -> CommandBarView {
        CommandBarView { input: self.input.push(c), suggestion_index: 0, ..self }
    }

    /// After the last character of the line was deleted, if there was one:
    /// the first suggestion is marked again.
    pub open spec fn erased(self) -> CommandBarView {
        CommandBarView {
            input: if self.input.len() > 0 {
                self.input.drop_last()
            } else {
                self.input
            },
            suggestion_index: 0,
            ..self
        }
    }

    /// After the first suggestion was marked again.
    pub open spec fn unmarked(self) -> CommandBarView {
        CommandBarView { suggestion_index: 0, ..self }
    }

    /// After the next page of suggestions (`forward`) or the one before was
    /// shown, going round the pages.
    pub open spec fn page_turned(self, forward: bool) -> CommandBarView {
        let pages = page_count(command_table().len() as int);
        CommandBarView {
            suggestion_page: if forward {
                (self.suggestion_page + 1) % pages
            } else {
                (self.suggestion_page + pages - 1) % pages
            },
            ..self
        }
    }

    /// After the next suggestion (`forward`) or the one before was marked:
    /// the marking goes round the table, the page follows it, and the name
    /// of the marked command becomes the line.
    pub open spec fn cycled(self, forward: bool) -> CommandBarView {
        let count = command_table().len() as int;
        let index = if forward {
            (self.suggestion_index + 1) % count
        } else {
            (self.suggestion_index + count - 1) % count
        };
        CommandBarView {
            input: command_table()[index].name,
            suggestion_index: index,
            suggestion_page: index / (SUGGESTIONS_PER_PAGE as int),
            ..self
        }
    }
}

/// The command bar.
pub struct CommandBar {
    input: String,
    active: bool,
    commands: Vec<Command>,
    suggestion_index: usize,
    suggestion_page: usize,
}

impl View for CommandBar {
    type V = CommandBarView;

    closed spec fn view(&self) -> CommandBarView {
        CommandBarView {
            input: self.input@,
            active: self.active,
            suggestion_index: self.suggestion_index as int,
            suggestion_page: self.suggestion_page as int,
        }
    }
}

/// The views of commands.
pub open spec fn command_views(commands: Seq<Command>) -> Seq<CommandView> {
    commands.map_values(|command: Command| command@)
}

/// A command of the table.
fn command(name: &str, description: &str, kind: CommandKind, help_topic: &str) -> (c: Command)
    ensures
        c@ == (CommandView {
            name: name@,
            description: description@,
            kind,
            help_topic: help_topic@,
        }),
{
    Command {
        name: String::from_str(name),
        description: String::from_str(description),
        kind,
        help_topic: String::from_str(help_topic),
    }
}

impl CommandBar {
    /// The invariant of a command bar: it holds the table of commands, and
    /// the marked suggestion is one of them.
    pub closed spec fn wf(&self) -> bool {
        &&& command_views(self.commands@) == command_table()
        &&& self.suggestion_index < self.commands.len()
    }

    /// A closed command bar.
    pub fn new() -> (bar: CommandBar)
        ensures
            bar.wf(),
            bar@ == CommandBarView::initial(),
    {
        let mut commands: Vec<Command> = Vec::new();
        commands.push(command("q", "Quit the editor", CommandKind::Quit, "quit"));
        commands.push(
            command("q!", "Force quit without saving", CommandKind::ForceQuit, "force_quit"),
        );
        commands.push(command("w", "Save the current file", CommandKind::Save, "save"));
        commands.push(command("wq", "Save and quit", CommandKind::SaveAndQuit, "save_and_quit"));
        commands.push(command("e", "Edit a file", CommandKind::Edit, "edit"));
        commands.push(command("help", "Show help information", CommandKind::Help, "help"));
        commands.push(command("set", "Set editor options", CommandKind::SetOption, "set_options"));
        commands.push(
            command("split", "Split the window horizontally", CommandKind::Split, "split"),
        );
        commands.push(
            command("vsplit", "Split the window vertically", CommandKind::VSplit, "vsplit"),
        );
        assert(command_views(commands@) =~= command_table());
        CommandBar {
            input: String::new(),
            active: false,
            commands,
            suggestion_index: 0,
            suggestion_page: 0,
        }
    }

    /// The command that the line names, white space around it not counted.
    pub fn get_command(&self) -> (found: Option<&Command>)
        requires
            self.wf(),
        ensures
            found is Some == find_command(command_table(), trimmed(self@.input)) is Some,
            found matches Some(c) ==> find_command(command_table(), trimmed(self@.input)) == Some(
                c@,
            ),
    {
        let name = String::from_str(str_trim(self.input.as_str()));
        let mut i: usize = 0;
        assert(command_table().skip(0) =~= command_table());
        while i < self.commands.len()
            invariant
                i <= self.commands.len(),
                self.commands.len() == command_table().len(),
                command_views(self.commands@) == command_table(),
                name@ == trimmed(self@.input),
                find_command(command_table(), name@) == find_command(
                    command_table().skip(i as int),
                    name@,
                ),
            decreases self.commands.len() - i,
        {
            proof {
                let rest = command_table().skip(i as int);
                assert(rest.drop_first() =~= command_table().skip(i + 1));
            }
            if self.commands[i].name == name {
                return Some(&self.commands[i]);
            }
            i = i + 1;
        }
        None
    }

    /// The commands to suggest: the whole table.
    pub fn get_suggestions(&self) -> (suggestions: Vec<&Command>)
        requires
            self.wf(),
        ensures
            suggestions.len() == command_table().len(),
            forall|i: int|
                0 <= i < suggestions.len() ==> (#[trigger] suggestions[i])@ == command_table()[i],
    {
        let mut suggestions: Vec<&Command> = Vec::new();
        let mut i: usize = 0;
        while i < self.commands.len()
            invariant
                i <= self.commands.len(),
                command_views(self.commands@) == command_table(),
                suggestions.len() == i,
                forall|j: int|
                    0 <= j < i ==> (#[trigger] suggestions[j])@ == command_table()[j],
            decreases self.commands.len() - i,
        {
            suggestions.push(&self.commands[i]);
            i = i + 1;
        }
        suggestions
    }

    /// Opens the command bar with an empty line.
    pub fn activate(&mut self)
        requires
            old(self).wf(),
        ensures
            final(self).wf(),
            final(self)@ == old(self)@.opened(),
    {
        self.active = true;
        self.input = String::new();
    }

    /// Closes the command bar and empties the line.
    pub fn deactivate(&mut self)
        requires
            old(self).wf(),
        ensures
            final(self).wf(),
            final(self)@ == old(self)@.closed(),
    {
        self.active = false;
        self.input = String::new();
    }

    /// Whether the command bar is open.
    pub fn is_active(&self) -> (active: bool)
        ensures
            active == self@.active,
    {
        self.active
    }

    /// Types `c` at the end of the line; the first suggestion is marked
    /// again.
    pub fn input(&mut self, c: char)
        requires
            old(self).wf(),
        ensures
            final(self).wf(),
            final(self)@ == old(self)@.typed(c),
    {
        self.input.push(c);
        self.suggestion_index = 0;
    }

    /// Deletes the last character of the line, if there is one; the first
    /// suggestion is marked again.
    pub fn backspace(&mut self)
        requires
            old(self).wf(),
        ensures
            final(self).wf(),
            final(self)@ == old(self)@.erased(),
    {
        let _ = self.input.pop();
        self.suggestion_index = 0;
    }

    /// The line typed so far.
    pub fn get_input(&self) -> (input: &str)
        ensures
            input@ == self@.input,
    {
        self.input.as_str()
    }

    /// The description of the marked suggestion.
    pub fn get_current_command_description(&self) -> (description: Option<&str>)
        requires
            self.wf(),
        ensures
            description matches Some(d) && d@
                == command_table()[self@.suggestion_index].description,
    {
        Some(self.commands[self.suggestion_index].description.as_str())
    }

    /// Index of the marked suggestion.
    pub fn get_suggestion_index(&self) -> (index: usize)
        requires
            self.wf(),
        ensures
            index == self@.suggestion_index,
            index < command_table().len(),
    {
        self.suggestion_index
    }

    /// Index of the page of suggestions that is shown.
    pub fn suggestion_page(&self) -> (page: usize)
        ensures
            page == self@.suggestion_page,
    {
        self.suggestion_page
    }

    /// Marks the first suggestion.
    pub fn reset_suggestion_index(&mut self)
        requires
            old(self).wf(),
        ensures
            final(self).wf(),
            final(self)@ == old(self)@.unmarked(),
    {
        self.suggestion_index = 0;
    }

    /// Marks the next suggestion (`forward`) or the one before, going round
    /// the table; shows the page it is on and puts its name in the line.
    pub fn cycle_suggestion(&mut self, forward: bool)
        requires
            old(self).wf(),
        ensures
            final(self).wf(),
            final(self)@ == old(self)@.cycled(forward),
    {
        let total = self.commands.len();
        assert(command_views(self.commands@).len() == self.commands.len());
        if forward {
            self.suggestion_index = (self.suggestion_index + 1) % total;
        } else {
            self.suggestion_index = (self.suggestion_index + total - 1) % total;
        }
        self.suggestion_page = self.suggestion_index / SUGGESTIONS_PER_PAGE;
        self.input = self.commands[self.suggestion_index].name.clone();
    }

    /// Shows the next page of suggestions, the first one after the last.
    pub fn next_suggestion_page(&mut self)
        requires
            old(self).wf(),
        ensures
            final(self).wf(),
            final(self)@ == old(self)@.page_turned(true),
    {
        assert(command_views(self.commands@).len() == self.commands.len());
        let total_pages = (self.commands.len() + SUGGESTIONS_PER_PAGE - 1) / SUGGESTIONS_PER_PAGE;
        let page = self.suggestion_page;
        assert((page % 2 + 1) % 2 == (page + 1) % 2);
        self.suggestion_page = (page % total_pages + 1) % total_pages;
    }

    /// Shows the page of suggestions before, the last one before the first.
    pub fn prev_suggestion_page(&mut self)
        requires
            old(self).wf(),
        ensures
            final(self).wf(),
            final(self)@ == old(self)@.page_turned(false),
    {
        let total_pages = (self.commands.len() + SUGGESTIONS_PER_PAGE - 1) / SUGGESTIONS_PER_PAGE;
        let page = self.suggestion_page;
        assert((page % 2 + 2 - 1) % 2 == (page + 2 - 1) % 2);
        self.suggestion_page = (page % total_pages + total_pages - 1) % total_pages;
    }

    /// What a command of the table asks for when it is run on `editor`.
    fn run(kind: CommandKind, editor: &Editor, effects: &mut Vec<Effect>)
        requires
            editor.wf(),
        ensures
            effect_views(final(effects)@) == effect_views(old(effects)@) + kind_effects(
                kind,
                editor@,
            ),
    {
        match kind {
            CommandKind::Quit => {
                if editor.has_unsaved_changes() {
                    effects.push(
                        Effect::Message(String::from_str("Unsaved changes. Use :q! to force quit.")),
                    );
                } else {
                    effects.push(Effect::Quit);
                }
            },
            CommandKind::ForceQuit => {
                effects.push(Effect::Quit);
            },
            CommandKind::Save => {
                match editor.get_current_file_path() {
                    Some(path) => {
                        effects.push(Effect::Save(path));
                        effects.push(Effect::Message(String::from_str("File saved successfully.")));
                    },
                    None => {
                        effects.push(
                            Effect::Message(
                                String::from_str("No file path set. Use :w <filename> to save."),
                            ),
                        );
                    },
                }
            },
            CommandKind::SaveAndQuit => {
                match editor.get_current_file_path() {
                    Some(path) => {
                        effects.push(Effect::Save(path));
                        effects.push(Effect::Quit);
                    },
                    None => {
                        effects.push(
                            Effect::Message(
                                String::from_str(
                                    "No file path set. Use :w <filename> to save before quitting.",
                                ),
                            ),
                        );
                    },
                }
            },
            CommandKind::Edit => {
                effects.push(Effect::Message(String::from_str("Use :e <filename> to open a file.")));
            },
            CommandKind::Help => {
                effects.push(Effect::Help(String::from_str("commands")));
            },
            CommandKind::SetOption => {
                effects.push(
                    Effect::Message(String::from_str("Use :set <option> to set an editor option.")),
                );
            },
            CommandKind::Split => {
                effects.push(Effect::Message(String::from_str("Split view not implemented yet.")));
            },
            CommandKind::VSplit => {
                effects.push(
                    Effect::Message(String::from_str("Vertical split view not implemented yet.")),
                );
            },
        }
    }

    /// What the line typed so far asks for when it is run on `editor`.
    pub fn execute_command(&self, editor: &Editor) -> (effects: Vec<Effect>)
        requires
            self.wf(),
            editor.wf(),
        ensures
            effect_views(effects@) == command_effects(self@.input, editor@),
    {
        let line = str_trim(self.input.as_str());
        let len = line.unicode_len();
        let mut effects: Vec<Effect> = Vec::new();
        proof {
            reveal_strlit("help ");
            reveal_strlit("w ");
            reveal_strlit("e ");
            reveal_strlit("set ");
        }
        if str_starts_with(line, "help ") {
            effects.push(Effect::Help(String::from_str(line.substring_char(5, len))));
        } else if str_starts_with(line, "w ") {
            effects.push(Effect::Save(String::from_str(line.substring_char(2, len))));
            effects.push(Effect::Message(String::from_str("File saved successfully.")));
        } else if str_starts_with(line, "e ") {
            effects.push(Effect::Open(String::from_str(line.substring_char(2, len))));
        } else if str_starts_with(line, "set ") {
            effects.push(Effect::Message(editor.handle_set_command(line.substring_char(4, len))));
        } else {
            match self.get_command() {
                Some(command) => {
                    effects.push(Effect::Help(command.help_topic.clone()));
                    Self::run(command.kind, editor, &mut effects);
                },
                None => {
                    effects.push(
                        Effect::Message(String::from_str("Unknown command: ").concat(line)),
                    );
                },
            }
        }
        effects
    }
}

} // verus!
