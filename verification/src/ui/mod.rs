//! What the editor shows beside the text.

pub mod command_bar;
pub mod gutter;
pub mod split;
pub mod status_line;
