//! Verified core of the Nomad editor plugin: the text buffer kept in sync
//! with its CRDT replica, the decisions taken on Neovim events, and the
//! command and module registry.

pub mod actor_map;
pub mod ids;
pub mod laws;
pub mod log;
pub mod macros;
pub mod neovim;
pub mod nomad;
pub mod params;
pub mod strings;
pub mod text;
