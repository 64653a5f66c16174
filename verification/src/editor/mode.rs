//! The editing modes.

use vstd::prelude::*;
use vstd::string::StringExecFns;

verus! {

/// The mode the editor is in. Every session starts in `Normal`.
#[derive(Clone, Copy, Debug, PartialEq, Eq, Structural)]
pub enum Mode {
    Normal,
    Insert,
    Visual,
}

impl Mode {
    /// The three letters that stand for the mode in a status line.
    pub open spec fn label(self) -> Seq<char> {
        match self {
            Mode::Normal => "NOR"@,
            Mode::Insert => "INS"@,
            Mode::Visual => "VIS"@,
        }
    }

    /// The mode's label as a string.
    pub fn to_string(&self) -> (s: String)
        ensures
            s@ == self.label(),
    {
        match self {
            Mode::Normal => String::from_str("NOR"),
            Mode::Insert => String::from_str("INS"),
            Mode::Visual => String::from_str("VIS"),
        }
    }
}

} // verus!
