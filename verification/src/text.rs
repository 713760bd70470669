//! Text buffers: the rope that holds the bytes, the CRDT replica that tracks
//! them, and the buffer state that keeps the two in sync.

pub mod buffer;
pub mod buffer_state;
pub mod points;
pub mod replica;
pub mod replacement;
pub mod rope;
