//! The logic behind the Neovim events: how the arguments Neovim hands to a
//! callback become edits, and what each callback decides to do.

pub mod buffer_edited;
pub mod context;
pub mod cursor;
pub mod decoration;
pub mod events;
pub mod progress;
