//! The cursor of the focused buffer.

use vstd::prelude::*;

use super::buffer_edited::Point;
use crate::ids::BufferId;

verus! {

/// The cursor of a focused buffer.
#[derive(Clone, Copy, Debug, PartialEq, Eq, Structural)]
pub struct NeovimCursor {
    buffer: BufferId,
}

impl NeovimCursor {
    /// The buffer the cursor is in.
    pub closed spec fn buffer(&self) -> BufferId {
        self.buffer
    }

    /// The cursor of the focused `buffer`.
    pub fn new(buffer: BufferId) -> (cursor: NeovimCursor)
        ensures
            cursor.buffer() == buffer,
    {
        NeovimCursor { buffer }
    }

    /// The id of the buffer the cursor is in.
    pub fn buffer_id(&self) -> (id: BufferId)
        ensures
            id == self.buffer(),
    {
        self.buffer
    }

    /// The id of the cursor, which is that of its buffer.
    pub fn id(&self) -> (id: BufferId)
        ensures
            id == self.buffer(),
    {
        self.buffer
    }
}

/// The point of a window cursor: Neovim counts rows from one and columns from
/// zero, points count lines from zero.
pub fn point_of_window_cursor(row: usize, col: usize) -> (point: Point)
    requires
        row >= 1,
    ensures
        point == (Point { line_idx: (row - 1) as usize, byte_offset: col }),
{
    Point { line_idx: row - 1, byte_offset: col }
}

/// The window cursor of a point: the inverse of `point_of_window_cursor`.
pub fn window_cursor_of_point(point: Point) -> (cursor: (usize, usize))
    requires
        point.line_idx < usize::MAX,
    ensures
        cursor == ((point.line_idx + 1) as usize, point.byte_offset),
{
    (point.line_idx + 1, point.byte_offset)
}

} // verus!
