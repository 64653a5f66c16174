//! Documents, the store that owns them, and the operations of the editor.

pub mod buffer;
pub mod cursor_movement;
pub mod error;
pub mod lines;
pub mod mode;
pub mod path;
pub mod render;
pub mod rope;
pub mod scroll;
pub mod selection;
pub mod store;
pub mod utf8;

pub use store::{Editor, EditorView};
