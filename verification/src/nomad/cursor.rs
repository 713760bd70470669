//! Cursor events.

use vstd::prelude::*;

use crate::ids::ActorId;
use crate::neovim::buffer_edited::Point;

verus! {

/// What happened to the cursor.
#[derive(Clone, Copy, Debug, PartialEq, Eq, Structural)]
pub enum CursorAction {
    /// The cursor has been moved into the buffer at the given point.
    Created(Point),
    /// The cursor has been moved to the given point.
    Moved(Point),
    /// The cursor has been moved away from the buffer.
    Removed,
}

/// A cursor event: what happened, and who did it.
#[derive(Clone, Copy, Debug, PartialEq, Eq, Structural)]
pub struct Cursor {
    action: CursorAction,
    moved_by: ActorId,
}

impl Cursor {
    /// The event's action.
    pub closed spec fn spec_action(&self) -> CursorAction {
        self.action
    }

    /// The actor that moved the cursor.
    pub closed spec fn spec_moved_by(&self) -> ActorId {
        self.moved_by
    }

    /// The event of `action` done by `moved_by`.
    pub fn new(action: CursorAction, moved_by: ActorId) -> (cursor: Cursor)
        ensures
            cursor.spec_action() == action,
            cursor.spec_moved_by() == moved_by,
    {
        Cursor { action, moved_by }
    }

    /// What happened to the cursor.
    pub fn action(&self) -> (action: CursorAction)
        ensures
            action == self.spec_action(),
    {
        self.action
    }

    /// The actor that moved the cursor.
    pub fn moved_by(&self) -> (actor: ActorId)
        ensures
            actor == self.spec_moved_by(),
    {
        self.moved_by
    }
}

/// The event that runs the action `A` on cursor events.
pub struct CursorEvent<A> {
    action: A,
}

impl<A> CursorEvent<A> {
    /// The action it runs.
    pub closed spec fn action(&self) -> A {
        self.action
    }

    /// The event that runs `action`.
    pub fn new(action: A) -> (event: Self)
        ensures
            event.action() == action,
    {
        CursorEvent { action }
    }

    /// The action to run.
    pub fn into_action(self) -> (action: A)
        ensures
            action == self.action(),
    {
        self.action
    }
}

} // verus!
