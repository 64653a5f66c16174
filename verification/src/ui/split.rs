//! A split of the window.

use vstd::prelude::*;

verus! {

/// One part of a split window: the key of the document it shows, and its own
/// cursor and scroll offset.
pub struct Split {
    pub buffer: Option<String>,
    pub cursor_pos: usize,
    pub scroll_offset: (usize, usize),
}

impl Split {
    /// A split that shows no document.
    pub fn new() -> (split: Split)
        ensures
            split.buffer is None,
            split.cursor_pos == 0,
            split.scroll_offset == (0usize, 0usize),
    {
        Split { buffer: None, cursor_pos: 0, scroll_offset: (0, 0) }
    }
}

} // verus!
