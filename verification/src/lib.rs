//! A keyboard-driven task board with three ordered columns (Todo, Doing,
//! Done), a Unicode-aware text editor for entering new task labels, and a
//! durable JSON representation of the board between sessions.
//!
//! The board state machine, the columns and the editor are verified; screen
//! drawing and file handling live outside this crate and only feed discrete
//! commands in and read snapshots of the state back out.

pub mod footer;
pub mod input_box;
pub mod kanban;
pub mod kanban_column;
pub mod persistence;

pub use footer::Footer;
pub use input_box::InputBox;
pub use kanban::{Command, InputMode, Kanban, SelectedColumn};
pub use kanban_column::KanbanColumn;
pub use persistence::Persistence;
