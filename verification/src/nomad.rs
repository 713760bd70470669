//! The plugin's registry: the names of modules and actions, the commands
//! each module offers, and how the `:Mad` command dispatches to them.

pub mod action;
pub mod autocmd;
pub mod commands;
pub mod cursor;
pub mod diagnostics;
pub mod events;
pub mod maybe;
