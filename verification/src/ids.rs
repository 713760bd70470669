//! Identifiers shared across the crate.

use vstd::prelude::*;

verus! {

/// The identifier of an actor: the peer, plugin or user that made an edit or
/// took an action. The id zero stands for an unknown actor.
#[derive(Clone, Copy, Debug, PartialEq, Eq, Structural)]
pub struct ActorId {
    pub id: u64,
}

impl ActorId {
    /// The id of an actor that is not known.
    pub open spec fn spec_unknown() -> ActorId {
        ActorId { id: 0 }
    }

    /// The id of an actor that is not known.
    pub fn unknown() -> (actor: ActorId)
        ensures
            actor == ActorId::spec_unknown(),
    {
        ActorId { id: 0 }
    }

    /// Whether this is the unknown actor.
    pub fn is_unknown(&self) -> (b: bool)
        ensures
            b == (*self == ActorId::spec_unknown()),
    {
        self.id == 0
    }
}

/// The handle of a Neovim buffer.
#[derive(Clone, Copy, Debug, PartialEq, Eq, Structural)]
pub struct BufferId {
    pub handle: i32,
}

} // verus!
