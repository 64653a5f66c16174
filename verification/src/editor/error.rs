//! The failures the editor reports to its caller.

use vstd::prelude::*;
use vstd::string::StringExecFns;

verus! {

/// Why an operation of the editor failed. No failure ends the process, and
/// each leaves the editor as it was.
#[derive(Clone, Copy, Debug, PartialEq, Eq, Structural)]
pub enum EditorError {
    /// A file could not be read or written.
    IoFailure,
    /// The bytes to load are not UTF-8.
    InvalidUtf8,
    /// The operation needs a current document and there is none.
    NoActiveBuffer,
    /// The clipboard cannot be reached.
    ClipboardUnavailable,
}

impl EditorError {
    /// The text shown for the failure.
    pub open spec fn text(self) -> Seq<char> {
        match self {
            EditorError::IoFailure => "File could not be read or written"@,
            EditorError::InvalidUtf8 => "File is not valid UTF-8"@,
            EditorError::NoActiveBuffer => "No active buffer to save"@,
            EditorError::ClipboardUnavailable => "Clipboard not available"@,
        }
    }

    /// The text shown for the failure, as a string.
    pub fn message(&self) -> (s: String)
        ensures
            s@ == self.text(),
    {
        match self {
            EditorError::IoFailure => String::from_str("File could not be read or written"),
            EditorError::InvalidUtf8 => String::from_str("File is not valid UTF-8"),
            EditorError::NoActiveBuffer => String::from_str("No active buffer to save"),
            EditorError::ClipboardUnavailable => String::from_str("Clipboard not available"),
        }
    }
}

} // verus!
