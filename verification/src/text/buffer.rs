//! A buffer bound to an editor: its state, and the queue of edits that were
//! applied to it and whose echo from the editor must not be applied again.

use std::collections::VecDeque;
use vstd::prelude::*;

use super::buffer_state::{
    remote_deletion_applied, remote_insertion_applied, replica_after_deleting, replica_after_edit,
    replica_after_replacement, AppliedDeletion, AppliedInsertion, BufferInner, BufferSnapshot,
    OffsetNotOnCharBoundary,
};
use core::ops::Range;
use super::replica::{
    deletion_clone, forked_replica, insertion_clone, insertion_len, insertion_text_len,
    recorded_deletion, recorded_insertion,
};
use super::replacement::Replacement;
use super::replica::replica_len;
use super::rope::{is_char_range, splice};
use crate::ids::ActorId;

verus! {

/// An edit applied to a buffer, with the actor that made it.
pub enum AppliedEdit {
    Deletion(AppliedDeletion, ActorId),
    Insertion(AppliedInsertion, ActorId),
}

impl AppliedEdit {
    /// An applied deletion made by `actor`.
    pub fn deletion(deletion: AppliedDeletion, actor: ActorId) -> (edit: AppliedEdit)
        ensures
            edit == AppliedEdit::Deletion(deletion, actor),
    {
        AppliedEdit::Deletion(deletion, actor)
    }

    /// An applied insertion made by `actor`.
    pub fn insertion(insertion: AppliedInsertion, actor: ActorId) -> (edit: AppliedEdit)
        ensures
            edit == AppliedEdit::Insertion(insertion, actor),
    {
        AppliedEdit::Insertion(insertion, actor)
    }

    /// The actor that made the edit.
    pub open spec fn made_by(&self) -> ActorId {
        match self {
            AppliedEdit::Deletion(_, actor) => *actor,
            AppliedEdit::Insertion(_, actor) => *actor,
        }
    }
}

/// A first-in first-out queue of applied edits.
pub struct AppliedEditQueue {
    inner: VecDeque<AppliedEdit>,
}

impl View for AppliedEditQueue {
    type V = Seq<AppliedEdit>;

    closed spec fn view(&self) -> Seq<AppliedEdit> {
        self.inner@
    }
}

impl AppliedEditQueue {
    /// An empty queue.
    pub fn new() -> (queue: AppliedEditQueue)
        ensures
            queue@ == Seq::<AppliedEdit>::empty(),
    {
        AppliedEditQueue { inner: VecDeque::new() }
    }

    /// Removes and returns the edit at the front of the queue, if any.
    pub fn pop_front(&mut self) -> (edit: Option<AppliedEdit>)
        ensures
            old(self)@.len() == 0 ==> edit is None && final(self)@ == old(self)@,
            old(self)@.len() > 0 ==> edit == Some(old(self)@[0]) && final(self)@ == old(
                self,
            )@.drop_first(),
    {
        let edit = self.inner.pop_front();
        proof {
            if old(self)@.len() > 0 {
                assert(final(self)@ =~= old(self)@.drop_first());
            }
        }
        edit
    }

    /// Adds an edit at the back of the queue.
    pub fn push_back(&mut self, edit: AppliedEdit)
        ensures
            final(self)@ == old(self)@.push(edit),
    {
        self.inner.push_back(edit);
    }

    /// The number of edits in the queue.
    pub fn len(&self) -> (n: usize)
        ensures
            n == self@.len(),
    {
        self.inner.len()
    }
}

/// The state of a buffer together with the queue of edits already applied
/// to it.
pub struct Buffer {
    applied_queue: AppliedEditQueue,
    state: BufferInner,
}

impl Buffer {
    /// The buffer's text and replica.
    pub closed spec fn state(&self) -> BufferInner {
        self.state
    }

    /// The edits already applied whose echo is still expected.
    pub closed spec fn queue(&self) -> Seq<AppliedEdit> {
        self.applied_queue@
    }

    /// A buffer over the given state, with no edit waiting for its echo.
    pub fn new(state: BufferInner) -> (buffer: Buffer)
        ensures
            buffer.state() == state,
            buffer.queue() == Seq::<AppliedEdit>::empty(),
    {
        Buffer { applied_queue: AppliedEditQueue::new(), state }
    }

    /// The buffer's state.
    pub fn state_ref(&self) -> (state: &BufferInner)
        ensures
            *state == self.state(),
    {
        &self.state
    }

    /// The number of applied edits whose echo is still expected.
    pub fn pending_echoes(&self) -> (n: usize)
        ensures
            n == self.queue().len(),
    {
        self.applied_queue.len()
    }

    /// Records that `edit` was applied to the editor's copy of the buffer, so
    /// that its echo is broadcast and not applied a second time.
    pub fn push_applied(&mut self, edit: AppliedEdit)
        ensures
            final(self).state() == old(self).state(),
            final(self).queue() == old(self).queue().push(edit),
    {
        self.applied_queue.push_back(edit);
    }

    /// Handles a replacement that the editor reports on its copy of the
    /// buffer, and returns the edits to broadcast. When an applied edit is
    /// waiting for its echo, this is that echo: the edit leaves the queue
    /// and is broadcast, and the state is left alone. Otherwise the change
    /// came from the user or another plugin: it is applied to the state, and
    /// its deletion and insertion are broadcast as made by an unknown actor.
    pub fn on_edit(&mut self, replacement: &Replacement<usize>) -> (broadcast: Vec<AppliedEdit>)
        requires
            old(self).state().wf(),
            old(self).queue().len() == 0 ==> is_char_range(
                old(self).state().text(),
                replacement.spec_start() as int,
                replacement.spec_end() as int,
            ),
            old(self).queue().len() == 0 ==> old(self).state().text().len()
                + replacement.spec_bytes().len() <= usize::MAX,
        ensures
            final(self).state().wf(),
            old(self).queue().len() > 0 ==> {
                &&& broadcast@ == seq![old(self).queue()[0]]
                &&& final(self).queue() == old(self).queue().drop_first()
                &&& final(self).state() == old(self).state()
            },
            old(self).queue().len() == 0 ==> {
                let deleted = replacement.spec_start() < replacement.spec_end();
                let inserted = replacement.spec_text().len() > 0;
                &&& final(self).queue() == old(self).queue()
                &&& final(self).state().text() == splice(
                    old(self).state().text(),
                    replacement.spec_start() as int,
                    replacement.spec_end() as int,
                    replacement.spec_bytes(),
                )
                &&& broadcast@.len() == (if deleted { 1int } else { 0 }) + (if inserted {
                    1int
                } else {
                    0
                })
                &&& final(self).state().replica_state() == replica_after_edit(
                    old(self).state().replica_state(),
                    replacement.spec_start(),
                    replacement.spec_end(),
                    replacement.spec_bytes().len() as usize,
                )
                &&& deleted ==> broadcast@[0] == AppliedEdit::Deletion(
                    AppliedDeletion {
                        deletion: recorded_deletion(
                            old(self).state().replica_state(),
                            replacement.spec_start(),
                            replacement.spec_end(),
                        ).1,
                    },
                    ActorId::spec_unknown(),
                )
                &&& inserted ==> match broadcast@.last() {
                    AppliedEdit::Insertion(ins, _) => {
                        &&& ins.text@ == replacement.spec_text()
                        &&& ins.insertion == recorded_insertion(
                            replica_after_deleting(
                                old(self).state().replica_state(),
                                replacement.spec_start(),
                                replacement.spec_end(),
                            ),
                            replacement.spec_start(),
                            replacement.spec_bytes().len() as usize,
                        ).1
                    },
                    _ => false,
                }
                &&& forall|i: int|
                    0 <= i < broadcast@.len() ==> #[trigger] broadcast@[i].made_by()
                        == ActorId::spec_unknown()
            },
    {
        let mut broadcast: Vec<AppliedEdit> = Vec::new();
        if let Some(edit) = self.applied_queue.pop_front() {
            broadcast.push(edit);
            assert(broadcast@ =~= seq![old(self).queue()[0]]);
        } else {
            let (del, ins) = self.state.edit(replacement);
            let id = ActorId::unknown();
            if let Some(deletion) = del {
                broadcast.push(AppliedEdit::deletion(deletion, id));
            }
            if let Some(insertion) = ins {
                broadcast.push(AppliedEdit::insertion(insertion, id));
            }
        }
        broadcast
    }

    /// Applies a local replacement made by `_editor` to the buffer's state.
    pub fn edit(&mut self, replacement: &Replacement<usize>, _editor: ActorId)
        requires
            old(self).state().wf(),
            is_char_range(
                old(self).state().text(),
                replacement.spec_start() as int,
                replacement.spec_end() as int,
            ),
            old(self).state().text().len() + replacement.spec_bytes().len() <= usize::MAX,
        ensures
            final(self).state().wf(),
            final(self).queue() == old(self).queue(),
            final(self).state().text() == splice(
                old(self).state().text(),
                replacement.spec_start() as int,
                replacement.spec_end() as int,
                replacement.spec_bytes(),
            ),
            final(self).state().replica_state() == replica_after_replacement(
                old(self).state().replica_state(),
                replacement.spec_start(),
                replacement.spec_end(),
                replacement.spec_bytes().len() as usize,
            ),
            final(self).state().replica_state() == recorded_insertion(
                recorded_deletion(
                    old(self).state().replica_state(),
                    replacement.spec_start(),
                    replacement.spec_end(),
                ).0,
                replacement.spec_start(),
                replacement.spec_bytes().len() as usize,
            ).0,
    {
        self.state.apply_replacement(replacement);
    }

    /// Applies a remote insertion of `text`, made by `actor`, to the buffer's
    /// state, as `BufferInner::apply_insertion` does. When the text went in,
    /// the editor is about to show it too, and its echo is expected: the
    /// insertion is recorded at the back of the queue.
    pub fn apply_remote_insertion(
        &mut self,
        insertion: &cola::Insertion,
        text: &str,
        actor: ActorId,
    ) -> (res: Result<Option<usize>, OffsetNotOnCharBoundary>)
        requires
            old(self).state().wf(),
            old(self).state().text().len() + insertion_len(*insertion) <= usize::MAX,
        ensures
            remote_insertion_applied(old(self).state(), final(self).state(), *insertion, text@, res),
            res matches Ok(Some(_)) ==> {
                &&& final(self).queue().len() == old(self).queue().len() + 1
                &&& final(self).queue().drop_last() == old(self).queue()
                &&& match final(self).queue().last() {
                    AppliedEdit::Insertion(ins, by) => {
                        &&& ins.insertion == *insertion
                        &&& ins.text@ == text@
                        &&& by == actor
                    },
                    _ => false,
                }
            },
            !(res matches Ok(Some(_))) ==> final(self).queue() == old(self).queue(),
    {
        let res = self.state.apply_insertion(insertion, text);
        if let Ok(Some(_)) = &res {
            let copy = insertion_clone(insertion);
            let echo = AppliedEdit::insertion(
                AppliedInsertion { insertion: copy, text: text.to_owned() },
                actor,
            );
            self.applied_queue.push_back(echo);
            assert(self.queue().drop_last() =~= old(self).queue());
        }
        res
    }

    /// Applies a remote insertion, as `apply_remote_insertion` does, when the
    /// text can grow by the insertion's length; otherwise leaves the buffer
    /// as it is and returns nothing.
    pub fn try_apply_remote_insertion(
        &mut self,
        insertion: &cola::Insertion,
        text: &str,
        actor: ActorId,
    ) -> (res: Option<Result<Option<usize>, OffsetNotOnCharBoundary>>)
        requires
            old(self).state().wf(),
        ensures
            res is None <==> old(self).state().text().len() + insertion_len(*insertion)
                > usize::MAX,
            res is None ==> final(self).state() == old(self).state() && final(self).queue()
                == old(self).queue(),
            res matches Some(r) ==> {
                &&& remote_insertion_applied(
                    old(self).state(),
                    final(self).state(),
                    *insertion,
                    text@,
                    r,
                )
                &&& r matches Ok(Some(_)) ==> final(self).queue().drop_last() == old(
                    self,
                ).queue()
                &&& !(r matches Ok(Some(_))) ==> final(self).queue() == old(self).queue()
            },
    {
        let len = insertion_text_len(insertion);
        let text_len = self.state.byte_len();
        if len > usize::MAX - text_len {
            return None;
        }
        Some(self.apply_remote_insertion(insertion, text, actor))
    }

    /// Applies a remote deletion, made by `actor`, to the buffer's state, as
    /// `BufferInner::apply_deletion` does. When the ranges went, the editor
    /// is about to remove each of them too, and an echo of each is expected:
    /// the deletion is recorded at the back of the queue once per range.
    pub fn apply_remote_deletion(&mut self, deletion: &cola::Deletion, actor: ActorId) -> (res:
        Result<Vec<Range<usize>>, OffsetNotOnCharBoundary>)
        requires
            old(self).state().wf(),
        ensures
            remote_deletion_applied(old(self).state(), final(self).state(), *deletion, res),
            match res {
                Ok(ranges) => final(self).queue() == old(self).queue() + Seq::new(
                    ranges@.len(),
                    |i: int| deletion_echo(*deletion, actor),
                ),
                Err(_) => final(self).queue() == old(self).queue(),
            },
    {
        let res = self.state.apply_deletion(deletion);
        if let Ok(ranges) = &res {
            let n = ranges.len();
            let ghost after = self.state();
            let mut k: usize = 0;
            while k < n
                invariant
                    k <= n,
                    self.state() == after,
                    self.queue() == old(self).queue() + Seq::new(
                        k as nat,
                        |i: int| deletion_echo(*deletion, actor),
                    ),
                decreases n - k,
            {
                let copy = deletion_clone(deletion);
                self.applied_queue.push_back(
                    AppliedEdit::deletion(AppliedDeletion { deletion: copy }, actor),
                );
                assert(self.queue() =~= old(self).queue() + Seq::new(
                    (k + 1) as nat,
                    |i: int| deletion_echo(*deletion, actor),
                ));
                k += 1;
            }
        }
        res
    }

    /// A copy of the buffer's state.
    pub fn snapshot(&self) -> (snapshot: BufferSnapshot)
        ensures
            snapshot.replica == forked_replica(
                self.state().replica_state(),
                self.state().replica_id(),
            ),
            snapshot.text_bytes() == self.state().text(),
            replica_len(snapshot.replica) == self.state().replica_len(),
    {
        self.state.snapshot()
    }
}

/// The record of a remote deletion by `actor` whose echo is expected.
pub open spec fn deletion_echo(deletion: cola::Deletion, actor: ActorId) -> AppliedEdit {
    AppliedEdit::Deletion(AppliedDeletion { deletion }, actor)
}

/// The echoes of applied edits are matched with the edits in the order they
/// were applied: after recording `edit`, the next echo takes the oldest edit
/// still waiting, and `edit` waits behind the others.
pub proof fn echoes_follow_application_order(queue: Seq<AppliedEdit>, edit: AppliedEdit)
    ensures
        queue.push(edit)[0] == if queue.len() == 0 {
            edit
        } else {
            queue[0]
        },
        queue.push(edit).drop_first() == if queue.len() == 0 {
            queue
        } else {
            queue.drop_first().push(edit)
        },
{
    if queue.len() == 0 {
        assert(queue.push(edit).drop_first() =~= queue);
    } else {
        assert(queue.push(edit).drop_first() =~= queue.drop_first().push(edit));
    }
}

} // verus!
