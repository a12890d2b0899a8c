//! The editing engine of a small modal text editor: a line buffer, a cursor
//! with a scrolling viewport, the Normal / Insert / Command key dispatch, the
//! colon-command interpreter and the projection of the state into drawing
//! instructions. Terminal and file I/O are left to the caller.

pub mod buffer;
pub mod command;
pub mod editor;
pub mod model;
pub mod render;
pub mod text;

pub use crate::buffer::Buffer;
pub use crate::command::{parse_command, Command};
pub use crate::editor::{visible_row_count, Editor};
pub use crate::model::{Action, Key, Mode};
pub use crate::render::{Color, Draw};
