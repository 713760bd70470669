//! Autocommands registered by actions.

use vstd::prelude::*;

use crate::actor_map::{recorded_actor, ActorMap};
use crate::ids::{ActorId, BufferId};

verus! {

/// Whether an autocommand should be removed after its callback ran.
#[derive(Clone, Copy, Debug, PartialEq, Eq, Structural)]
pub enum ShouldDetach {
    Yes,
    No,
}

impl From<bool> for ShouldDetach {
    fn from(b: bool) -> (detach: ShouldDetach) {
        if b {
            ShouldDetach::Yes
        } else {
            ShouldDetach::No
        }
    }
}

impl vstd::std_specs::convert::FromSpecImpl<bool> for ShouldDetach {
    open spec fn obeys_from_spec() -> bool {
        true
    }

    open spec fn from_spec(b: bool) -> ShouldDetach {
        if b {
            ShouldDetach::Yes
        } else {
            ShouldDetach::No
        }
    }
}

impl From<()> for ShouldDetach {
    fn from(_unit: ()) -> (detach: ShouldDetach) {
        ShouldDetach::No
    }
}

impl vstd::std_specs::convert::FromSpecImpl<()> for ShouldDetach {
    open spec fn obeys_from_spec() -> bool {
        true
    }

    open spec fn from_spec(_unit: ()) -> ShouldDetach {
        ShouldDetach::No
    }
}

/// The id of an autocommand.
#[derive(Clone, Copy, Debug, PartialEq, Eq, Structural)]
pub struct AutocmdId {
    pub id: u32,
}

impl From<u32> for AutocmdId {
    fn from(id: u32) -> (autocmd: AutocmdId) {
        AutocmdId { id }
    }
}

impl vstd::std_specs::convert::FromSpecImpl<u32> for AutocmdId {
    open spec fn obeys_from_spec() -> bool {
        true
    }

    open spec fn from_spec(id: u32) -> AutocmdId {
        AutocmdId { id }
    }
}

/// What an autocommand's callback returns to Neovim after its action ran:
/// whether to detach, and the error to report, if the action failed. A
/// failed action keeps the autocommand.
pub fn callback_outcome<E>(result: Result<ShouldDetach, E>) -> (outcome: (bool, Option<E>))
    ensures
        outcome == match result {
            Ok(ShouldDetach::Yes) => (true, None),
            Ok(ShouldDetach::No) => (false, None),
            Err(e) => (false, Some(e)),
        },
{
    match result {
        Ok(ShouldDetach::Yes) => (true, None),
        Ok(ShouldDetach::No) => (false, None),
        Err(e) => (false, Some(e)),
    }
}

/// What a buffer-attached callback returns after its action ran: the
/// action's own answer, or to detach when the action failed (the error is
/// then reported).
pub fn attach_outcome<E>(result: Result<ShouldDetach, E>) -> (outcome: (ShouldDetach, Option<E>))
    ensures
        outcome == match result {
            Ok(detach) => (detach, None),
            Err(e) => (ShouldDetach::Yes, Some(e)),
        },
{
    match result {
        Ok(detach) => (detach, None),
        Err(e) => (ShouldDetach::Yes, Some(e)),
    }
}

/// An autocommand on `BufAdd` that runs the action `A`.
pub struct BufAdd<A>(pub A);

/// The arguments of a `BufAdd` action.
#[derive(Clone, Copy, Debug, PartialEq, Eq, Structural)]
pub struct BufAddArgs {
    /// The actor that added the buffer.
    pub actor_id: ActorId,
    /// The buffer that was added.
    pub buffer_id: BufferId,
}

impl<A> BufAdd<A> {
    /// The action to run.
    pub fn into_action(self) -> (action: A)
        ensures
            action == self.0,
    {
        self.0
    }

    /// The events the autocommand listens to.
    pub fn on_events(&self) -> (events: Vec<&'static str>)
        ensures
            events@.len() == 1,
            events@[0]@ == "BufAdd"@,
    {
        let mut events = Vec::new();
        events.push("BufAdd");
        events
    }
}

impl BufAddArgs {
    /// The arguments for the addition of `buffer_id`: the actor recorded as
    /// having added it (taken back from the map), or the unknown actor.
    pub fn from_ctx(actor_map: &mut ActorMap, buffer_id: BufferId) -> (args: BufAddArgs)
        ensures
            args.buffer_id == buffer_id,
            args.actor_id == recorded_actor(old(actor_map).additions(), buffer_id),
            final(actor_map).additions() == old(actor_map).additions().remove(buffer_id.handle),
            final(actor_map).edits() == old(actor_map).edits(),
    {
        let actor_id = actor_map.take_added_buffer(buffer_id);
        BufAddArgs { actor_id, buffer_id }
    }
}

/// An autocommand on `BufUnload` that runs the action `A`.
pub struct BufUnload<A> {
    action: A,
}

/// The arguments of a `BufUnload` action.
#[derive(Clone, Copy, Debug, PartialEq, Eq, Structural)]
pub struct BufUnloadArgs {
    /// The actor that unloaded the buffer.
    pub actor_id: ActorId,
    /// The buffer that was unloaded.
    pub buffer_id: BufferId,
}

impl<A> BufUnload<A> {
    /// The action it holds.
    pub closed spec fn action(&self) -> A {
        self.action
    }

    /// An autocommand that runs `action`.
    pub fn new(action: A) -> (this: Self)
        ensures
            this.action() == action,
    {
        BufUnload { action }
    }

    /// The action to run.
    pub fn into_action(self) -> (action: A)
        ensures
            action == self.action(),
    {
        self.action
    }

    /// The events the autocommand listens to.
    pub fn on_events(&self) -> (events: Vec<&'static str>)
        ensures
            events@.len() == 1,
            events@[0]@ == "BufUnload"@,
    {
        let mut events = Vec::new();
        events.push("BufUnload");
        events
    }

    /// The actor behind an unload, which is never known.
    pub fn take_actor_id() -> (actor: ActorId)
        ensures
            actor == ActorId::spec_unknown(),
    {
        ActorId::unknown()
    }
}

impl BufUnloadArgs {
    /// The arguments for the unload of the current buffer by `actor_id`.
    pub fn new(actor_id: ActorId, current_buffer: BufferId) -> (args: BufUnloadArgs)
        ensures
            args == (BufUnloadArgs { actor_id, buffer_id: current_buffer }),
    {
        BufUnloadArgs { actor_id, buffer_id: current_buffer }
    }
}

} // verus!
