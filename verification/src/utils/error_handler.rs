//! The store for the message shown in the status line.

use vstd::prelude::*;

verus! {

/// Holds at most one message: the last one set and not yet cleared.
pub struct ErrorHandler {
    message: Option<String>,
}

impl View for ErrorHandler {
    type V = Option<Seq<char>>;

    closed spec fn view(&self) -> Option<Seq<char>> {
        match self.message {
            Some(m) => Some(m@),
            None => None,
        }
    }
}

impl ErrorHandler {
    /// A store that holds no message.
    pub fn new() -> (handler: ErrorHandler)
        ensures
            handler@ is None,
    {
        ErrorHandler { message: None }
    }

    /// Puts `message` in place of whatever was held.
    pub fn set_error(&mut self, message: String)
        ensures
            final(self)@ == Some(message@),
    {
        self.message = Some(message);
    }

    /// Drops the message.
    pub fn clear_error(&mut self)
        ensures
            final(self)@ is None,
    {
        self.message = None;
    }

    /// The message held, where there is one.
    pub fn get_error(&self) -> (message: Option<&String>)
        ensures
            message is Some == self@ is Some,
            message matches Some(m) ==> self@ == Some(m@),
    {
        self.message.as_ref()
    }
}

} // verus!
