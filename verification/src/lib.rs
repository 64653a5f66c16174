//! The text-editing core of a modal terminal editor: documents backed by a
//! rope, cursor navigation, viewport scrolling, visible-content rendering and
//! the Normal/Insert/Visual mode machine, with machine-checked contracts.

pub mod editor;
pub mod input;
pub mod ui;
pub mod utils;
