//! What the callbacks behind the buffer and cursor events decide.
//!
//! Neovim fires an autocommand; the callback then either skips the event,
//! asks Neovim to detach it (there is nobody left to notify), or fires the
//! registered callbacks with the actor that caused the event.

use vstd::prelude::*;

use super::buffer_edited::{
    edit_of_on_bytes, eol_replacement, fix_on_bytes_args, replacement_is,
    replacement_of_on_bytes, spec_eol_change, spec_fix_on_bytes_args, Edit, OnBytesArgs,
};
use crate::actor_map::{recorded_actor, ActorRegistry};
use crate::ids::{ActorId, BufferId};
use crate::strings::str_eq;

verus! {

/// What an autocommand callback does with an event.
#[derive(Clone, Copy, Debug, PartialEq, Eq, Structural)]
pub enum CallbackDecision {
    /// The event is not one to report; the autocommand stays.
    Skip,
    /// Nobody listens any more; the autocommand is removed.
    Detach,
    /// The registered callbacks run with the actor that caused the event.
    Fire(ActorId),
}

impl CallbackDecision {
    /// The value the callback returns to Neovim: whether to remove the
    /// autocommand.
    pub fn should_detach(&self) -> (detach: bool)
        ensures
            detach == (*self == CallbackDecision::Detach),
    {
        match self {
            CallbackDecision::Detach => true,
            _ => false,
        }
    }
}

/// Whether `event` names Neovim's `BufFilePost` event.
pub fn is_buf_file_post(event: &str) -> (b: bool)
    ensures
        b == (event@ == "BufFilePost"@),
{
    str_eq(event, "BufFilePost")
}

/// The decision for a buffer creation (`BufReadPost`, `BufNewFile`, or a
/// `BufFilePost` rename). A buffer that no longer exists is skipped. A rename
/// counts as a creation only when the old name was empty.
pub open spec fn spec_buffer_created(
    old_name_was_empty: bool,
    registry: Map<i32, ActorId>,
    buffer: BufferId,
    is_rename: bool,
    buffer_exists: bool,
    has_callbacks: bool,
) -> CallbackDecision {
    if !buffer_exists {
        CallbackDecision::Skip
    } else if is_rename && !old_name_was_empty {
        CallbackDecision::Skip
    } else if !has_callbacks {
        CallbackDecision::Detach
    } else {
        CallbackDecision::Fire(recorded_actor(registry, buffer))
    }
}

/// The decision for a buffer removal (`BufUnload`, or a `BufFilePost` rename).
/// A rename counts as a removal only when the old name was not empty and the
/// new one is.
pub open spec fn spec_buffer_removed(
    old_name_was_empty: bool,
    registry: Map<i32, ActorId>,
    buffer: BufferId,
    is_rename: bool,
    new_name_is_empty: bool,
    has_callbacks: bool,
) -> CallbackDecision {
    if is_rename && (old_name_was_empty || !new_name_is_empty) {
        CallbackDecision::Skip
    } else if !has_callbacks {
        CallbackDecision::Detach
    } else {
        CallbackDecision::Fire(recorded_actor(registry, buffer))
    }
}

/// The state behind the creation and removal events of buffers: whether the
/// buffer being renamed had an empty name before the rename.
pub struct RenameState {
    pub old_name_was_empty: bool,
}

impl RenameState {
    /// A state where no rename is under way.
    pub fn new() -> (state: RenameState)
        ensures
            !state.old_name_was_empty,
    {
        RenameState { old_name_was_empty: false }
    }

    /// On `BufFilePre`: remembers whether the name before the rename is empty.
    pub fn on_buf_file_pre(&mut self, name_is_empty: bool)
        ensures
            final(self).old_name_was_empty == name_is_empty,
    {
        self.old_name_was_empty = name_is_empty;
    }

    /// Takes the remembered flag, leaving it cleared.
    fn take(&mut self) -> (was_empty: bool)
        ensures
            was_empty == old(self).old_name_was_empty,
            !final(self).old_name_was_empty,
    {
        let was_empty = self.old_name_was_empty;
        self.old_name_was_empty = false;
        was_empty
    }

    /// Decides what the creation callback does. A rename consumes the
    /// remembered flag; firing consumes the actor recorded for the buffer.
    pub fn on_buffer_created(
        &mut self,
        created_by: &mut ActorRegistry,
        buffer: BufferId,
        event: &str,
        buffer_exists: bool,
        has_callbacks: bool,
    ) -> (decision: CallbackDecision)
        ensures
            decision == spec_buffer_created(
                old(self).old_name_was_empty,
                old(created_by)@,
                buffer,
                event@ == "BufFilePost"@,
                buffer_exists,
                has_callbacks,
            ),
            final(self).old_name_was_empty == if buffer_exists && event@ == "BufFilePost"@ {
                false
            } else {
                old(self).old_name_was_empty
            },
            final(created_by)@ == if decision is Fire {
                old(created_by)@.remove(buffer.handle)
            } else {
                old(created_by)@
            },
    {
        if !buffer_exists {
            return CallbackDecision::Skip;
        }
        if is_buf_file_post(event) && !self.take() {
            return CallbackDecision::Skip;
        }
        if !has_callbacks {
            return CallbackDecision::Detach;
        }
        CallbackDecision::Fire(created_by.take(buffer))
    }

    /// Decides what the removal callback does. A rename consumes the
    /// remembered flag; firing consumes the actor recorded for the buffer.
    pub fn on_buffer_removed(
        &mut self,
        removed_by: &mut ActorRegistry,
        buffer: BufferId,
        event: &str,
        new_name_is_empty: bool,
        has_callbacks: bool,
    ) -> (decision: CallbackDecision)
        ensures
            decision == spec_buffer_removed(
                old(self).old_name_was_empty,
                old(removed_by)@,
                buffer,
                event@ == "BufFilePost"@,
                new_name_is_empty,
                has_callbacks,
            ),
            final(self).old_name_was_empty == if event@ == "BufFilePost"@ {
                false
            } else {
                old(self).old_name_was_empty
            },
            final(removed_by)@ == if decision is Fire {
                old(removed_by)@.remove(buffer.handle)
            } else {
                old(removed_by)@
            },
    {
        if is_buf_file_post(event) {
            if self.take() {
                return CallbackDecision::Skip;
            }
            if !new_name_is_empty {
                return CallbackDecision::Skip;
            }
        }
        if !has_callbacks {
            return CallbackDecision::Detach;
        }
        CallbackDecision::Fire(removed_by.take(buffer))
    }
}

/// An unload (any removal event but a rename) fires with the actor recorded
/// for the buffer when it has callbacks, and detaches otherwise, whatever
/// the buffer's names: they only matter to renames.
pub proof fn unload_fires_with_recorded_actor(
    old_name_was_empty: bool,
    registry: Map<i32, ActorId>,
    buffer: BufferId,
    new_name_is_empty: bool,
    has_callbacks: bool,
)
    ensures
        spec_buffer_removed(
            old_name_was_empty,
            registry,
            buffer,
            false,
            new_name_is_empty,
            has_callbacks,
        ) == if has_callbacks {
            CallbackDecision::Fire(recorded_actor(registry, buffer))
        } else {
            CallbackDecision::Detach
        },
{
}

/// A creation event that is not a rename is skipped when the buffer no
/// longer exists; otherwise it fires with the actor recorded for the buffer
/// when it has callbacks, and detaches when it has none.
pub proof fn creation_fires_with_recorded_actor(
    old_name_was_empty: bool,
    registry: Map<i32, ActorId>,
    buffer: BufferId,
    buffer_exists: bool,
    has_callbacks: bool,
)
    ensures
        spec_buffer_created(
            old_name_was_empty,
            registry,
            buffer,
            false,
            buffer_exists,
            has_callbacks,
        ) == if !buffer_exists {
            CallbackDecision::Skip
        } else if has_callbacks {
            CallbackDecision::Fire(recorded_actor(registry, buffer))
        } else {
            CallbackDecision::Detach
        },
{
}

/// A rename is reported as a removal exactly when it takes a named buffer
/// to an empty name, and as a creation exactly when it gives a name to an
/// unnamed buffer (of one that exists); so no rename is both.
pub proof fn rename_is_creation_or_removal(
    old_name_was_empty: bool,
    registry: Map<i32, ActorId>,
    buffer: BufferId,
    new_name_is_empty: bool,
    has_callbacks: bool,
)
    ensures
        !(spec_buffer_removed(
            old_name_was_empty,
            registry,
            buffer,
            true,
            new_name_is_empty,
            has_callbacks,
        ) is Skip) <==> (!old_name_was_empty && new_name_is_empty),
        !(spec_buffer_created(old_name_was_empty, registry, buffer, true, true, has_callbacks)
            is Skip) <==> old_name_was_empty,
        !(spec_buffer_removed(
            old_name_was_empty,
            registry,
            buffer,
            true,
            new_name_is_empty,
            has_callbacks,
        ) is Skip) ==> spec_buffer_created(
            old_name_was_empty,
            registry,
            buffer,
            true,
            true,
            has_callbacks,
        ) is Skip,
{
}

/// The state behind the save event of one buffer: the actor that is about to
/// save it.
pub struct SaveState {
    pub saved_by: ActorId,
}

impl SaveState {
    /// A state where nobody announced a save.
    pub fn new() -> (state: SaveState)
        ensures
            state.saved_by == ActorId::spec_unknown(),
    {
        SaveState { saved_by: ActorId::unknown() }
    }

    /// Records the actor that is about to save the buffer.
    pub fn set_saved_by(&mut self, actor: ActorId)
        ensures
            final(self).saved_by == actor,
    {
        self.saved_by = actor;
    }

    /// Decides what the `BufWritePost` callback does. A buffer that no longer
    /// exists, or that nobody listens to, detaches the autocommand; otherwise
    /// the callbacks fire with the recorded actor, which is reset to unknown.
    pub fn on_buffer_saved(&mut self, buffer_exists: bool, has_callbacks: bool) -> (decision:
        CallbackDecision)
        ensures
            decision == if !buffer_exists || !has_callbacks {
                CallbackDecision::Detach
            } else {
                CallbackDecision::Fire(old(self).saved_by)
            },
            final(self).saved_by == if decision is Fire {
                ActorId::spec_unknown()
            } else {
                old(self).saved_by
            },
    {
        if !buffer_exists || !has_callbacks {
            return CallbackDecision::Detach;
        }
        let saved_by = self.saved_by;
        self.saved_by = ActorId::unknown();
        CallbackDecision::Fire(saved_by)
    }
}

/// The state behind the cursor creation event: the buffer the cursor was
/// last in, and whether that buffer had no name.
pub struct CursorState {
    pub old_buffer: BufferId,
    pub old_buffer_was_unnamed: bool,
}

/// The decision for a `BufEnter` into `buffer`. Entering the buffer the
/// cursor is already in is skipped (commands like `:edit` or `:split` fire
/// `BufEnter` more than once), unless that buffer was unnamed: editing a new
/// file from an unnamed buffer loads it into the same buffer.
pub open spec fn spec_cursor_created(
    state: CursorState,
    registry: Map<i32, ActorId>,
    buffer: BufferId,
    buffer_exists: bool,
    has_callbacks: bool,
) -> CallbackDecision {
    if state.old_buffer == buffer && !state.old_buffer_was_unnamed {
        CallbackDecision::Skip
    } else if !buffer_exists {
        CallbackDecision::Skip
    } else if !has_callbacks {
        CallbackDecision::Detach
    } else {
        CallbackDecision::Fire(recorded_actor(registry, buffer))
    }
}

/// Entering a buffer other than the one the cursor was in, whether or not
/// the buffer left was unnamed, is skipped only when the buffer no longer
/// exists; otherwise it fires with the actor recorded for it when it has
/// callbacks, and detaches when it has none.
pub proof fn entering_another_buffer_fires(
    state: CursorState,
    registry: Map<i32, ActorId>,
    buffer: BufferId,
    buffer_exists: bool,
    has_callbacks: bool,
)
    requires
        state.old_buffer != buffer,
    ensures
        spec_cursor_created(state, registry, buffer, buffer_exists, has_callbacks) == if !buffer_exists {
            CallbackDecision::Skip
        } else if has_callbacks {
            CallbackDecision::Fire(recorded_actor(registry, buffer))
        } else {
            CallbackDecision::Detach
        },
{
}

/// Entering again the unnamed buffer the cursor is in (a file loaded into
/// it) is reported as entering it from another, named, buffer would be.
pub proof fn entering_unnamed_buffer_again(
    registry: Map<i32, ActorId>,
    buffer: BufferId,
    buffer_exists: bool,
    has_callbacks: bool,
    other: BufferId,
)
    requires
        other != buffer,
    ensures
        spec_cursor_created(
            CursorState { old_buffer: buffer, old_buffer_was_unnamed: true },
            registry,
            buffer,
            buffer_exists,
            has_callbacks,
        ) == spec_cursor_created(
            CursorState { old_buffer: other, old_buffer_was_unnamed: false },
            registry,
            buffer,
            buffer_exists,
            has_callbacks,
        ),
{
}

impl CursorState {
    /// The state when the cursor is in `buffer`.
    pub fn new(buffer: BufferId, buffer_is_unnamed: bool) -> (state: CursorState)
        ensures
            state.old_buffer == buffer,
            state.old_buffer_was_unnamed == buffer_is_unnamed,
    {
        CursorState { old_buffer: buffer, old_buffer_was_unnamed: buffer_is_unnamed }
    }

    /// Decides what the `BufEnter` callback does, and moves the state to the
    /// entered buffer. Firing consumes the actor recorded for the buffer.
    pub fn on_buf_enter(
        &mut self,
        created_by: &mut ActorRegistry,
        buffer: BufferId,
        buffer_is_unnamed: bool,
        buffer_exists: bool,
        has_callbacks: bool,
    ) -> (decision: CallbackDecision)
        ensures
            decision == spec_cursor_created(
                *old(self),
                old(created_by)@,
                buffer,
                buffer_exists,
                has_callbacks,
            ),
            final(self).old_buffer == buffer,
            final(self).old_buffer_was_unnamed == buffer_is_unnamed,
            final(created_by)@ == if decision is Fire {
                old(created_by)@.remove(buffer.handle)
            } else {
                old(created_by)@
            },
    {
        let old_buffer_was_unnamed = self.old_buffer_was_unnamed;
        let old_buffer = self.old_buffer;
        self.old_buffer_was_unnamed = buffer_is_unnamed;
        self.old_buffer = buffer;
        if old_buffer == buffer && !old_buffer_was_unnamed {
            return CallbackDecision::Skip;
        }
        if !buffer_exists {
            return CallbackDecision::Skip;
        }
        if !has_callbacks {
            return CallbackDecision::Detach;
        }
        CallbackDecision::Fire(created_by.take(buffer))
    }
}

/// What the `on_bytes` callback of an edited buffer does.
pub enum BytesAction {
    /// Report the queued edits, made by the plugin, instead of the raw bytes.
    ReplayQueued(Vec<Edit>),
    /// Turn the (fixed) `on_bytes` arguments into an edit and report it.
    Translate(OnBytesArgs),
}

/// The edits queued to be reported, in order, held in a `smallvec::SmallVec`
/// that keeps up to two of them inline.
#[verifier::external_body]
pub struct QueuedEdits {
    inner: smallvec::SmallVec<[Edit; 2]>,
}

/// The edits that `queue` holds, in order.
pub uninterp spec fn queued_held(queue: QueuedEdits) -> Seq<Edit>;

/// `SmallVec::new`: no edit.
#[verifier::external_body]
fn queued_new() -> (queue: QueuedEdits)
    ensures
        queued_held(queue) == Seq::<Edit>::empty(),
{
    QueuedEdits { inner: smallvec::SmallVec::new() }
}

/// `SmallVec::push`: appends an edit.
#[verifier::external_body]
fn queued_push(queue: &mut QueuedEdits, edit: Edit)
    ensures
        queued_held(*final(queue)) == queued_held(*old(queue)).push(edit),
{
    queue.inner.push(edit)
}

/// `core::mem::take` on the small vector: takes all the edits, leaving it
/// empty.
#[verifier::external_body]
fn queued_take(queue: &mut QueuedEdits) -> (taken: QueuedEdits)
    ensures
        queued_held(taken) == queued_held(*old(queue)),
        queued_held(*final(queue)) == Seq::<Edit>::empty(),
{
    QueuedEdits { inner: core::mem::take(&mut queue.inner) }
}

/// `SmallVec::into_vec`: the edits, in order, as a `Vec`.
#[verifier::external_body]
fn queued_into_vec(queue: QueuedEdits) -> (edits: Vec<Edit>)
    ensures
        edits@ == queued_held(queue),
{
    queue.inner.into_vec()
}

/// The state behind the edit event of one buffer: the edits queued to be
/// reported on the next trigger, and the actor of the next edit.
pub struct EditedState {
    queued: QueuedEdits,
    agent_id: ActorId,
}

impl EditedState {
    /// The queued edits.
    pub closed spec fn queued(&self) -> Seq<Edit> {
        queued_held(self.queued)
    }

    /// The actor recorded for the next edit.
    pub closed spec fn agent_id(&self) -> ActorId {
        self.agent_id
    }

    /// A state with nothing queued and no actor recorded.
    pub fn new() -> (state: EditedState)
        ensures
            state.queued() == Seq::<Edit>::empty(),
            state.agent_id() == ActorId::spec_unknown(),
    {
        EditedState { queued: queued_new(), agent_id: ActorId::unknown() }
    }

    /// Queues an edit to report on the next trigger.
    pub fn enqueue(&mut self, edit: Edit)
        ensures
            final(self).queued() == old(self).queued().push(edit),
            final(self).agent_id() == old(self).agent_id(),
    {
        queued_push(&mut self.queued, edit);
    }

    /// Records the actor of the next edit.
    pub fn set_agent_id(&mut self, agent_id: ActorId)
        ensures
            final(self).agent_id() == agent_id,
            final(self).queued() == old(self).queued(),
    {
        self.agent_id = agent_id;
    }

    /// Takes the actor recorded for the next edit, leaving the unknown actor.
    pub fn take_agent_id(&mut self) -> (agent_id: ActorId)
        ensures
            agent_id == old(self).agent_id(),
            final(self).agent_id() == ActorId::spec_unknown(),
            final(self).queued() == old(self).queued(),
    {
        let agent_id = self.agent_id;
        self.agent_id = ActorId::unknown();
        agent_id
    }

    /// The edit that fixed `on_bytes` arguments describe, made by the actor
    /// recorded for the next edit, which is taken: the replacement of the
    /// deleted bytes by `inserted_text` (the text Neovim holds between the
    /// inserted points, empty when nothing was inserted), followed by the
    /// change to the end of line that is not part of the text, if the edit
    /// causes one.
    pub fn translate(
        &mut self,
        args: &OnBytesArgs,
        inserted_text: &str,
        has_uneditable_eol: bool,
        num_bytes: usize,
        buffer_is_empty: bool,
    ) -> (edit: Edit)
        requires
            args.start_offset + args.old_end_len <= usize::MAX,
            inserted_text.len() < usize::MAX,
        ensures
            edit.made_by == old(self).agent_id(),
            final(self).agent_id() == ActorId::spec_unknown(),
            final(self).queued() == old(self).queued(),
            edit.replacements.view_seq().len() >= 1,
            replacement_is(
                edit.replacements.view_seq()[0],
                (
                    args.start_offset as int,
                    args.start_offset + args.old_end_len,
                    if args.new_end_len == 0 {
                        Seq::<char>::empty()
                    } else {
                        inserted_text@
                    },
                ),
            ),
            match spec_eol_change(
                has_uneditable_eol,
                inserted_text@,
                inserted_text.len() as int,
                num_bytes,
                buffer_is_empty,
                args.old_end_col,
            ) {
                Some(change) => edit.replacements.view_seq().len() == 2 && replacement_is(
                    edit.replacements.view_seq()[1],
                    change,
                ),
                None => edit.replacements.view_seq().len() == 1,
            },
    {
        let replacement = replacement_of_on_bytes(args, inserted_text);
        let eol = eol_replacement(
            has_uneditable_eol,
            inserted_text,
            num_bytes,
            buffer_is_empty,
            args.old_end_col,
        );
        let made_by = self.take_agent_id();
        edit_of_on_bytes(made_by, replacement, eol)
    }

    /// Takes all the queued edits, in order, leaving the queue empty.
    pub fn take_queued(&mut self) -> (edits: Vec<Edit>)
        ensures
            edits@ == old(self).queued(),
            final(self).queued() == Seq::<Edit>::empty(),
            final(self).agent_id() == old(self).agent_id(),
    {
        let taken = queued_take(&mut self.queued);
        queued_into_vec(taken)
    }

    /// Decides what the `on_bytes` callback does: queued edits are reported
    /// in place of the raw bytes; otherwise the raw bytes are translated, after
    /// fixing their arguments.
    pub fn on_bytes(&mut self, args: OnBytesArgs, buffer_is_empty: bool) -> (action: BytesAction)
        ensures
            final(self).queued() == Seq::<Edit>::empty(),
            final(self).agent_id() == old(self).agent_id(),
            old(self).queued().len() > 0 ==> (action matches BytesAction::ReplayQueued(edits)
                && edits@ == old(self).queued()),
            old(self).queued().len() == 0 ==> action == BytesAction::Translate(
                spec_fix_on_bytes_args(args, buffer_is_empty),
            ),
    {
        let queued = self.take_queued();
        if queued.len() > 0 {
            BytesAction::ReplayQueued(queued)
        } else {
            BytesAction::Translate(fix_on_bytes_args(args, buffer_is_empty))
        }
    }

    /// Decides what the manual trigger does: for the current buffer, the
    /// queued edits (if any) are taken to be reported; for another buffer
    /// nothing happens.
    pub fn on_manual_trigger(&mut self, is_current_buffer: bool) -> (edits: Option<Vec<Edit>>)
        ensures
            final(self).agent_id() == old(self).agent_id(),
            !is_current_buffer ==> edits is None && final(self).queued() == old(self).queued(),
            is_current_buffer ==> final(self).queued() == Seq::<Edit>::empty(),
            is_current_buffer && old(self).queued().len() == 0 ==> edits is None,
            is_current_buffer && old(self).queued().len() > 0 ==> (edits matches Some(e) && e@
                == old(self).queued()),
    {
        if !is_current_buffer {
            return None;
        }
        let queued = self.take_queued();
        if queued.len() > 0 {
            Some(queued)
        } else {
            None
        }
    }
}

/// Decides what reporting edits of a buffer does: without callbacks the
/// `on_bytes` attachment is dropped; otherwise every callback sees every
/// edit. Edits are only reported for a buffer that still exists: a report
/// for one that does not is an error, which the precondition rules out.
pub fn on_edits(buffer_exists: bool, has_callbacks: bool) -> (decision: CallbackDecision)
    requires
        buffer_exists,
    ensures
        decision == if has_callbacks {
            CallbackDecision::Fire(ActorId::spec_unknown())
        } else {
            CallbackDecision::Detach
        },
{
    if has_callbacks {
        CallbackDecision::Fire(ActorId::unknown())
    } else {
        CallbackDecision::Detach
    }
}

/// Whether a selection's callback runs when the cursor moves: only while the
/// selection is alive.
pub fn selection_cursor_moved(is_selection_alive: bool) -> (fire: bool)
    ensures
        fire == is_selection_alive,
{
    is_selection_alive
}

/// Decides what a selection does when the mode changes in `buffer`: a change
/// in another buffer, or after the selection died, is ignored; a mode that
/// still shows a selected range fires the callback; any other mode ends the
/// selection.
pub fn selection_mode_changed(
    is_selection_alive: &mut bool,
    in_selection_buffer: bool,
    new_mode_has_selected_range: bool,
) -> (fire: bool)
    ensures
        fire == (in_selection_buffer && *old(is_selection_alive) && new_mode_has_selected_range),
        *final(is_selection_alive) == if in_selection_buffer && *old(is_selection_alive)
            && !new_mode_has_selected_range {
            false
        } else {
            *old(is_selection_alive)
        },
{
    if !in_selection_buffer || !*is_selection_alive {
        return false;
    }
    if new_mode_has_selected_range {
        true
    } else {
        *is_selection_alive = false;
        false
    }
}

/// Whether a selection in a buffer was removed by a mode change there: the
/// old mode showed a selected range and the new one does not.
pub fn selection_removed(
    in_selection_buffer: bool,
    old_mode_has_selected_range: bool,
    new_mode_has_selected_range: bool,
) -> (removed: bool)
    ensures
        removed == (in_selection_buffer && old_mode_has_selected_range
            && !new_mode_has_selected_range),
{
    in_selection_buffer && old_mode_has_selected_range && !new_mode_has_selected_range
}

/// Whether a mode's first character, as `mode()` names modes, is that of a
/// visual mode (`v`, `V`, CTRL-V) or a select mode (`s`, `S`, CTRL-S).
pub open spec fn is_selection_mode_char(c: char) -> bool {
    c == 'v' || c == 'V' || c == '\u{16}' || c == 's' || c == 'S' || c == '\u{13}'
}

/// Whether the mode named `mode` shows a selected range: a visual or a
/// select mode.
pub fn mode_has_selected_range(mode: &str) -> (b: bool)
    ensures
        b == (mode@.len() > 0 && is_selection_mode_char(mode@[0])),
{
    if mode.unicode_len() == 0 {
        return false;
    }
    let c = mode.get_char(0);
    c == 'v' || c == 'V' || c == '\u{16}' || c == 's' || c == 'S' || c == '\u{13}'
}

/// An event that a selection listens to.
#[derive(Clone, Copy, Debug, PartialEq, Eq, Structural)]
pub enum SelectionEvent {
    /// The cursor moved in the buffer.
    CursorMoved(BufferId),
    /// The mode changed in the buffer; the flag says whether the new mode
    /// shows a selected range.
    ModeChanged(BufferId, bool),
}

/// The state of a selection: the buffer it is in, and whether it is still
/// alive.
#[derive(Clone, Copy, Debug, PartialEq, Eq, Structural)]
pub struct SelectionState {
    pub buffer: BufferId,
    pub alive: bool,
}

/// One event seen by a selection: the state after it, and whether the
/// selection's callback runs. Events in other buffers change nothing and run
/// nothing; a cursor move runs the callback while the selection is alive; a
/// mode change runs it when the new mode shows a selected range and ends the
/// selection otherwise.
pub open spec fn selection_step(state: SelectionState, event: SelectionEvent) -> (
    SelectionState,
    bool,
) {
    match event {
        SelectionEvent::CursorMoved(buffer) => (
            state,
            buffer == state.buffer && state.alive,
        ),
        SelectionEvent::ModeChanged(buffer, has_selected_range) => {
            if buffer != state.buffer || !state.alive {
                (state, false)
            } else if has_selected_range {
                (state, true)
            } else {
                (SelectionState { alive: false, ..state }, false)
            }
        },
    }
}

/// The state of a selection after a sequence of events.
pub open spec fn selection_state_after(state: SelectionState, events: Seq<SelectionEvent>) -> SelectionState
    decreases events.len(),
{
    if events.len() == 0 {
        state
    } else {
        selection_step(selection_state_after(state, events.drop_last()), events.last()).0
    }
}

/// Whether the selection's callback runs on the last of a sequence of
/// events.
pub open spec fn selection_fires_on_last(state: SelectionState, events: Seq<SelectionEvent>) -> bool {
    events.len() > 0 && selection_step(
        selection_state_after(state, events.drop_last()),
        events.last(),
    ).1
}

/// The buffer an event happened in.
pub open spec fn selection_event_buffer(event: SelectionEvent) -> BufferId {
    match event {
        SelectionEvent::CursorMoved(buffer) => buffer,
        SelectionEvent::ModeChanged(buffer, _) => buffer,
    }
}

impl SelectionState {
    /// A live selection in `buffer`.
    pub fn new(buffer: BufferId) -> (state: SelectionState)
        ensures
            state == (SelectionState { buffer, alive: true }),
    {
        SelectionState { buffer, alive: true }
    }

    /// Handles an event, and returns whether the selection's callback runs.
    pub fn on_event(&mut self, event: SelectionEvent) -> (fire: bool)
        ensures
            (*final(self), fire) == selection_step(*old(self), event),
    {
        match event {
            SelectionEvent::CursorMoved(buffer) => {
                buffer.handle == self.buffer.handle && selection_cursor_moved(self.alive)
            },
            SelectionEvent::ModeChanged(buffer, has_selected_range) => {
                let in_buffer = buffer.handle == self.buffer.handle;
                selection_mode_changed(&mut self.alive, in_buffer, has_selected_range)
            },
        }
    }
}

/// A selection never stops being in its buffer, and a dead selection stays
/// dead.
pub proof fn selection_state_monotone(state: SelectionState, events: Seq<SelectionEvent>)
    ensures
        selection_state_after(state, events).buffer == state.buffer,
        !state.alive ==> !selection_state_after(state, events).alive,
    decreases events.len(),
{
    if events.len() > 0 {
        selection_state_monotone(state, events.drop_last());
    }
}

/// Events in other buffers never run a selection's callback.
pub proof fn selection_ignores_other_buffers(state: SelectionState, events: Seq<SelectionEvent>)
    requires
        events.len() > 0,
        selection_event_buffer(events.last()) != state.buffer,
    ensures
        !selection_fires_on_last(state, events),
{
    selection_state_monotone(state, events.drop_last());
}

/// Once a mode change in the selection's buffer leaves the selected range,
/// the callback never runs again.
pub proof fn selection_ends_for_good(
    state: SelectionState,
    before: Seq<SelectionEvent>,
    after: Seq<SelectionEvent>,
)
    requires
        before.len() > 0,
        before.last() == SelectionEvent::ModeChanged(state.buffer, false),
        after.len() > 0,
    ensures
        !selection_fires_on_last(state, before + after),
{
    let mid = selection_state_after(state, before);
    assert(!mid.alive) by {
        selection_state_monotone(state, before.drop_last());
    }
    let all = before + after;
    assert(all.drop_last() =~= before + after.drop_last());
    selection_state_after_concat(state, before, after.drop_last());
    selection_state_monotone(mid, after.drop_last());
}

/// Running two sequences of events one after the other is running their
/// concatenation.
pub proof fn selection_state_after_concat(
    state: SelectionState,
    first: Seq<SelectionEvent>,
    second: Seq<SelectionEvent>,
)
    ensures
        selection_state_after(state, first + second) == selection_state_after(
            selection_state_after(state, first),
            second,
        ),
    decreases second.len(),
{
    if second.len() == 0 {
        assert(first + second =~= first);
    } else {
        assert((first + second).drop_last() =~= first + second.drop_last());
        selection_state_after_concat(state, first, second.drop_last());
    }
}

/// While a selection is alive, a cursor move in its buffer, or a mode change
/// there to a mode with a selected range, runs its callback.
pub proof fn selection_fires_while_alive(state: SelectionState, events: Seq<SelectionEvent>)
    requires
        events.len() > 0,
        selection_state_after(state, events.drop_last()).alive,
        events.last() == SelectionEvent::CursorMoved(state.buffer) || events.last()
            == SelectionEvent::ModeChanged(state.buffer, true),
    ensures
        selection_fires_on_last(state, events),
{
    selection_state_monotone(state, events.drop_last());
}

} // verus!
