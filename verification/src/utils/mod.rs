//! Helpers around the editor: number formatting, string functions and the
//! stores for the messages shown to the user.

pub mod decimal;
pub mod error_handler;
pub mod file_explorer;
pub mod help_handler;
pub mod text;
