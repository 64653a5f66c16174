//! The store for help texts, each under its topic.

use vstd::hash_map::StringHashMap;
use vstd::prelude::*;
use vstd::string::StringExecFns;

verus! {

/// The topic whose text is shown where no other applies.
pub open spec fn default_topic() -> Seq<char> {
    "default"@
}

/// The topic that lists the commands.
pub open spec fn commands_topic() -> Seq<char> {
    "commands"@
}

/// The text of the default topic.
pub open spec fn default_help() -> Seq<char> {
    "Welcome to the help system. Use :help <topic> for specific help."@
}

/// The text that lists the commands.
pub open spec fn commands_help() -> Seq<char> {
    "Available commands:\n:q - Quit (if no unsaved changes)\n:q! - Force quit\n:w - Save current file\n:w <filename> - Save as <filename>\n:wq - Save and quit\n:e <filename> - Edit <filename>\n:help - Show this help message\n:set <option> - Set editor option\n:split - Split view horizontally (not implemented)\n:vsplit - Split view vertically (not implemented)"@
}

/// What a help store is, as plain values.
pub struct HelpView {
    /// The text of each topic.
    pub topics: Map<Seq<char>, Seq<char>>,
    /// The topic that was asked for, where one was.
    pub current_topic: Option<Seq<char>>,
}

impl HelpView {
    /// The text to show: that of the topic asked for, if the store has it,
    /// else that of the default topic, if the store has that.
    pub open spec fn help_text(self) -> Option<Seq<char>> {
        if self.current_topic is Some && self.topics.contains_key(self.current_topic->0) {
            Some(self.topics[self.current_topic->0])
        } else if self.topics.contains_key(default_topic()) {
            Some(self.topics[default_topic()])
        } else {
            None
        }
    }
}

/// Holds the help texts and the topic that was asked for.
pub struct HelpHandler {
    topics: StringHashMap<String>,
    current_topic: Option<String>,
}

impl View for HelpHandler {
    type V = HelpView;

    closed spec fn view(&self) -> HelpView {
        HelpView {
            topics: self.topics@.map_values(|text: String| text@),
            current_topic: match self.current_topic {
                Some(topic) => Some(topic@),
                None => None,
            },
        }
    }
}

impl HelpHandler {
    /// A store that holds the default topic and the list of commands, with no
    /// topic asked for.
    pub fn new() -> (handler: HelpHandler)
        ensures
            handler@.topics == Map::<Seq<char>, Seq<char>>::empty().insert(
                default_topic(),
                default_help(),
            ).insert(commands_topic(), commands_help()),
            handler@.current_topic is None,
    {
        let mut topics = StringHashMap::new();
        topics.insert(
            String::from_str("default"),
            String::from_str("Welcome to the help system. Use :help <topic> for specific help."),
        );
        topics.insert(
            String::from_str("commands"),
            String::from_str(
                "Available commands:\n:q - Quit (if no unsaved changes)\n:q! - Force quit\n:w - Save current file\n:w <filename> - Save as <filename>\n:wq - Save and quit\n:e <filename> - Edit <filename>\n:help - Show this help message\n:set <option> - Set editor option\n:split - Split view horizontally (not implemented)\n:vsplit - Split view vertically (not implemented)",
            ),
        );
        let handler = HelpHandler { topics, current_topic: None };
        handler
    }

    /// Asks for `topic`.
    pub fn set_help_topic(&mut self, topic: &str)
        ensures
            final(self)@ == (HelpView { current_topic: Some(topic@), ..old(self)@ }),
    {
        self.current_topic = Some(String::from_str(topic));
    }

    /// Asks for no topic.
    pub fn clear_help_topic(&mut self)
        ensures
            final(self)@ == (HelpView { current_topic: None, ..old(self)@ }),
    {
        self.current_topic = None;
    }

    /// The text to show: that of the topic asked for, if the store has it,
    /// else that of the default topic.
    pub fn get_help_text(&self) -> (text: Option<&String>)
        ensures
            text is Some == self@.help_text() is Some,
            text matches Some(t) ==> self@.help_text() == Some(t@),
    {
        let found = match &self.current_topic {
            Some(topic) => self.topics.get(topic.as_str()),
            None => None,
        };
        match found {
            Some(text) => Some(text),
            None => self.topics.get("default"),
        }
    }

    /// Stores `content` as the text of `topic`, in place of any text the
    /// topic had.
    pub fn add_topic(&mut self, topic: String, content: String)
        ensures
            final(self)@ == (HelpView {
                topics: old(self)@.topics.insert(topic@, content@),
                ..old(self)@
            }),
    {
        self.topics.insert(topic, content);
        assert(self@.topics =~= old(self)@.topics.insert(topic@, content@));
    }
}

} // verus!
