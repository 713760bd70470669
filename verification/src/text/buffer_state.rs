//! The state of a buffer: its text and the CRDT replica that tracks it.
//!
//! The text and the replica must stay in sync: the replica tracks exactly as
//! many bytes as the text holds. Every operation here keeps them so.

use core::ops::Range;
use vstd::prelude::*;
use vstd::utf8::encode_utf8;

use super::replacement::Replacement;
use super::replica::{
    insertion_len, ranges_ascending_within, ranges_total, replica_deleted, replica_fork,
    replica_id, replica_id_of, replica_inserted, replica_integrate_deletion,
    replica_integrate_insertion, replica_len, replica_new, integrated_insertion_offset,
    integrated_deletion_ranges, recorded_deletion, recorded_insertion, replica_length,
    forked_replica, new_replica,
    insertion_text_len,
};
use super::rope::{
    is_char_boundary_at, is_char_range, rope_byte_len, rope_bytes, rope_clone, rope_delete,
    rope_from_str, rope_insert, rope_is_char_boundary, rope_replace, splice,
};

verus! {

/// The bytes left after removing `ranges[k..]` from `bytes`, the last range
/// first.
pub open spec fn remove_ranges_from(bytes: Seq<u8>, ranges: Seq<Range<usize>>, k: int) -> Seq<u8>
    decreases ranges.len() - k,
{
    if k < 0 || k >= ranges.len() {
        bytes
    } else {
        let rest = remove_ranges_from(bytes, ranges, k + 1);
        splice(rest, ranges[k].start as int, ranges[k].end as int, Seq::empty())
    }
}

/// The bytes left after removing all the `ranges` from `bytes`.
pub open spec fn remove_ranges(bytes: Seq<u8>, ranges: Seq<Range<usize>>) -> Seq<u8> {
    remove_ranges_from(bytes, ranges, 0)
}

/// The first end of a range of `ranges[i..]`, taking the ranges in order and
/// the start of each before its end, that does not lie on a character
/// boundary of `bytes`; nothing when every end does.
pub open spec fn first_bad_endpoint_from(bytes: Seq<u8>, ranges: Seq<Range<usize>>, i: int) -> Option<
    usize,
>
    decreases ranges.len() - i,
{
    if i < 0 || i >= ranges.len() {
        None
    } else if !is_char_boundary_at(bytes, ranges[i].start as int) {
        Some(ranges[i].start)
    } else if !is_char_boundary_at(bytes, ranges[i].end as int) {
        Some(ranges[i].end)
    } else {
        first_bad_endpoint_from(bytes, ranges, i + 1)
    }
}

/// The replica after a local edit deletes `start..end`, when that range is
/// not empty, and then inserts `len` bytes at `start`, when `len` is not
/// zero.
pub open spec fn replica_after_edit(
    replica: cola::Replica,
    start: usize,
    end: usize,
    len: usize,
) -> cola::Replica {
    let deleted = replica_after_deleting(replica, start, end);
    if len > 0 {
        recorded_insertion(deleted, start, len).0
    } else {
        deleted
    }
}

/// The replica after a local edit deletes `start..end`, when that range is
/// not empty.
pub open spec fn replica_after_deleting(replica: cola::Replica, start: usize, end: usize) -> cola::Replica {
    if start < end {
        recorded_deletion(replica, start, end).0
    } else {
        replica
    }
}

/// The replica after a replacement of `start..end` by `len` bytes is
/// recorded as a deletion of the range followed by an insertion at its
/// start, both made even when empty.
pub open spec fn replica_after_replacement(
    replica: cola::Replica,
    start: usize,
    end: usize,
    len: usize,
) -> cola::Replica {
    recorded_insertion(recorded_deletion(replica, start, end).0, start, len).0
}

/// A replacement is recorded as `delete` and then `insert` record it: the
/// replica after the replacement is the one that recording the deletion of
/// `start..end` from `replica` (giving `deleted`) and then the insertion of
/// `len` bytes at `start` into `deleted` (giving `inserted`) leaves. The
/// replaced bytes are gone from the replica before the new ones arrive, so
/// it tracks the same text as the rope.
pub proof fn replacement_is_deletion_then_insertion(
    replica: cola::Replica,
    start: usize,
    end: usize,
    len: usize,
    deleted: cola::Replica,
    deletion: cola::Deletion,
    inserted: cola::Replica,
    insertion: cola::Insertion,
)
    requires
        (deleted, deletion) == recorded_deletion(replica, start, end),
        (inserted, insertion) == recorded_insertion(deleted, start, len),
    ensures
        replica_after_replacement(replica, start, end, len) == inserted,
{
}

/// A replacement of a non-empty range by non-empty text leaves the replica
/// in the state that a local `edit` of the same range and text leaves it:
/// replacing in one step and deleting then inserting record the same
/// operations.
pub proof fn replacement_agrees_with_edit(
    replica: cola::Replica,
    start: usize,
    end: usize,
    len: usize,
)
    requires
        start < end,
        len > 0,
    ensures
        replica_after_replacement(replica, start, end, len) == replica_after_edit(
            replica,
            start,
            end,
            len,
        ),
{
}

/// What applying the remote `insertion` of `text` to `old` does, giving
/// `new` and the result `res`. The replica decides where the insertion goes
/// (`integrated_insertion_offset`): nowhere leaves the text as it is; an
/// offset on a character boundary receives the text; an offset inside a
/// character is returned as an error and leaves the text as it is.
pub open spec fn remote_insertion_applied(
    old: BufferInner,
    new: BufferInner,
    insertion: cola::Insertion,
    text: Seq<char>,
    res: Result<Option<usize>, OffsetNotOnCharBoundary>,
) -> bool {
    &&& new.replica_id() == old.replica_id()
    &&& match integrated_insertion_offset(old.replica_state(), insertion) {
        None => {
            &&& res == Ok::<Option<usize>, OffsetNotOnCharBoundary>(None)
            &&& new.text() == old.text()
            &&& new.replica_len() == old.replica_len()
        },
        Some(offset) => {
            &&& offset <= old.text().len()
            &&& new.replica_len() == old.replica_len() + insertion_len(insertion)
            &&& if is_char_boundary_at(old.text(), offset as int) {
                &&& res == Ok::<Option<usize>, OffsetNotOnCharBoundary>(Some(offset))
                &&& new.text() == splice(
                    old.text(),
                    offset as int,
                    offset as int,
                    encode_utf8(text),
                )
            } else {
                &&& res matches Err(e) && e.offset == offset
                &&& new.text() == old.text()
            }
        },
    }
    &&& encode_utf8(text).len() == insertion_len(insertion) && res is Ok ==> new.wf()
}

/// What applying the remote `deletion` to `old` does, giving `new` and the
/// result `res`. The replica decides which ranges go
/// (`integrated_deletion_ranges`). When all their ends lie on character
/// boundaries they are removed and returned; otherwise the first end that
/// does not, taking the ranges in order, is returned as an error and the
/// text is left as it is.
pub open spec fn remote_deletion_applied(
    old: BufferInner,
    new: BufferInner,
    deletion: cola::Deletion,
    res: Result<Vec<Range<usize>>, OffsetNotOnCharBoundary>,
) -> bool {
    let ranges = integrated_deletion_ranges(old.replica_state(), deletion);
    &&& new.replica_id() == old.replica_id()
    &&& ranges_ascending_within(ranges, old.text().len())
    &&& res matches Ok(r) ==> {
        &&& first_bad_endpoint_from(old.text(), ranges, 0) is None
        &&& r@ == ranges
        &&& new.text() == remove_ranges(old.text(), r@)
        &&& new.wf()
    }
    &&& res matches Err(e) ==> {
        &&& first_bad_endpoint_from(old.text(), ranges, 0) == Some(e.offset)
        &&& e.offset <= old.text().len()
        &&& !is_char_boundary_at(old.text(), e.offset as int)
        &&& new.text() == old.text()
    }
}

/// A deletion that was applied to a buffer, ready to be sent to other peers.
pub struct AppliedDeletion {
    pub deletion: cola::Deletion,
}

/// An insertion that was applied to a buffer, with the text it inserted.
pub struct AppliedInsertion {
    pub insertion: cola::Insertion,
    pub text: String,
}

/// An edit whose text offset lies inside a character.
pub struct OffsetNotOnCharBoundary {
    pub offset: usize,
}

/// The text of a buffer and the replica that tracks it.
pub struct BufferInner {
    replica: cola::Replica,
    rope: crop::Rope,
}

/// A copy of a buffer's state at one moment.
pub struct BufferSnapshot {
    pub replica: cola::Replica,
    pub text: crop::Rope,
}

impl BufferSnapshot {
    /// The bytes of the snapshot's text.
    pub open spec fn text_bytes(&self) -> Seq<u8> {
        rope_bytes(self.text)
    }
}

impl BufferInner {
    /// The bytes of the buffer's text.
    pub closed spec fn text(&self) -> Seq<u8> {
        rope_bytes(self.rope)
    }

    /// The length that the replica tracks.
    pub closed spec fn replica_len(&self) -> nat {
        replica_len(self.replica)
    }

    /// The buffer's replica.
    pub closed spec fn replica_state(&self) -> cola::Replica {
        self.replica
    }

    /// The id of the buffer's replica.
    pub closed spec fn replica_id(&self) -> u64 {
        replica_id_of(self.replica)
    }

    /// The text and the replica are in sync.
    pub open spec fn wf(&self) -> bool {
        self.text().len() == self.replica_len()
    }

    /// A buffer state from a text and a replica that tracks it. The two must
    /// be in sync.
    pub fn new(text: crop::Rope, replica: cola::Replica) -> (this: Self)
        requires
            rope_bytes(text).len() == replica_len(replica),
        ensures
            this.wf(),
            this.text() == rope_bytes(text),
            this.replica_state() == replica,
            this.replica_id() == replica_id_of(replica),
    {
        BufferInner { replica, rope: text }
    }

    /// A buffer state from a text and a replica, or nothing when the replica
    /// does not track a text of the rope's length.
    pub fn try_new(text: crop::Rope, replica: cola::Replica) -> (this: Option<Self>)
        ensures
            this is Some <==> rope_bytes(text).len() == replica_len(replica),
            this matches Some(state) ==> {
                &&& state.wf()
                &&& state.text() == rope_bytes(text)
                &&& state.replica_state() == replica
            },
    {
        if rope_byte_len(&text) == replica_length(&replica) {
            Some(BufferInner::new(text, replica))
        } else {
            None
        }
    }

    /// A buffer state holding `text`, tracked by a new replica with the
    /// given id.
    pub fn from_text(text: &str, replica_id: u64) -> (this: Self)
        requires
            replica_id != 0,
        ensures
            this.wf(),
            this.text() == encode_utf8(text@),
            this.replica_state() == new_replica(replica_id, encode_utf8(text@).len() as usize),
            this.replica_id() == replica_id,
    {
        let rope = rope_from_str(text);
        let len = rope_byte_len(&rope);
        let replica = replica_new(replica_id, len);
        BufferInner { replica, rope }
    }

    /// The number of bytes in the text.
    pub fn byte_len(&self) -> (n: usize)
        ensures
            n == self.text().len(),
    {
        rope_byte_len(&self.rope)
    }

    /// The id of the buffer's replica.
    pub fn id(&self) -> (id: u64)
        ensures
            id == self.replica_id(),
    {
        replica_id(&self.replica)
    }

    /// The buffer's text.
    pub fn rope(&self) -> (rope: &crop::Rope)
        ensures
            rope_bytes(*rope) == self.text(),
    {
        &self.rope
    }

    /// Deletes the bytes in `start..end` and records the deletion in the
    /// replica.
    pub fn delete(&mut self, start: usize, end: usize) -> (deletion: cola::Deletion)
        requires
            old(self).wf(),
            is_char_range(old(self).text(), start as int, end as int),
        ensures
            final(self).wf(),
            final(self).replica_id() == old(self).replica_id(),
            final(self).text() == splice(old(self).text(), start as int, end as int, Seq::empty()),
            (final(self).replica_state(), deletion) == recorded_deletion(
                old(self).replica_state(),
                start,
                end,
            ),
    {
        rope_delete(&mut self.rope, start, end);
        replica_deleted(&mut self.replica, start, end)
    }

    /// Inserts `text` at `offset` and records the insertion in the replica.
    pub fn insert(&mut self, offset: usize, text: &str) -> (insertion: cola::Insertion)
        requires
            old(self).wf(),
            is_char_range(old(self).text(), offset as int, offset as int),
            old(self).text().len() + encode_utf8(text@).len() <= usize::MAX,
        ensures
            final(self).wf(),
            final(self).replica_id() == old(self).replica_id(),
            final(self).text() == splice(
                old(self).text(),
                offset as int,
                offset as int,
                encode_utf8(text@),
            ),
            insertion_len(insertion) == encode_utf8(text@).len(),
            (final(self).replica_state(), insertion) == recorded_insertion(
                old(self).replica_state(),
                offset,
                encode_utf8(text@).len() as usize,
            ),
    {
        let len = text.len();
        rope_insert(&mut self.rope, offset, text);
        replica_inserted(&mut self.replica, offset, len)
    }

    /// Applies a local replacement by deleting its range, if not empty, and
    /// then inserting its text, if not empty. Returns the deletion and the
    /// insertion that were made.
    pub fn edit(&mut self, replacement: &Replacement<usize>) -> (applied: (
        Option<AppliedDeletion>,
        Option<AppliedInsertion>,
    ))
        requires
            old(self).wf(),
            is_char_range(
                old(self).text(),
                replacement.spec_start() as int,
                replacement.spec_end() as int,
            ),
            old(self).text().len() + replacement.spec_bytes().len() <= usize::MAX,
        ensures
            final(self).wf(),
            final(self).replica_id() == old(self).replica_id(),
            final(self).text() == splice(
                old(self).text(),
                replacement.spec_start() as int,
                replacement.spec_end() as int,
                replacement.spec_bytes(),
            ),
            applied.0 is Some <==> replacement.spec_start() < replacement.spec_end(),
            applied.1 is Some <==> replacement.spec_text().len() > 0,
            match applied.1 {
                Some(ins) => ins.text@ == replacement.spec_text() && insertion_len(ins.insertion)
                    == replacement.spec_bytes().len(),
                None => true,
            },
            final(self).replica_state() == replica_after_edit(
                old(self).replica_state(),
                replacement.spec_start(),
                replacement.spec_end(),
                replacement.spec_bytes().len() as usize,
            ),
            match applied.0 {
                Some(del) => del.deletion == recorded_deletion(
                    old(self).replica_state(),
                    replacement.spec_start(),
                    replacement.spec_end(),
                ).1,
                None => true,
            },
            match applied.1 {
                Some(ins) => ins.insertion == recorded_insertion(
                    replica_after_deleting(
                        old(self).replica_state(),
                        replacement.spec_start(),
                        replacement.spec_end(),
                    ),
                    replacement.spec_start(),
                    replacement.spec_bytes().len() as usize,
                ).1,
                None => true,
            },
    {
        let start = replacement.start();
        let end = replacement.end();
        let text = replacement.text();
        let ghost old_text = self.text();
        let ghost bytes = encode_utf8(text@);
        let mut applied_del = None;
        let mut applied_ins = None;

        if start < end {
            let del = self.delete(start, end);
            applied_del = Some(AppliedDeletion { deletion: del });
        }
        let ghost mid = self.text();
        assert(mid =~= splice(old_text, start as int, end as int, Seq::empty()));
        assert(is_char_boundary_at(mid, start as int)) by {
            if (start as int) < mid.len() {
                assert(mid[start as int] == old_text[end as int]);
            }
        }

        if !text.is_empty() {
            let ins = self.insert(start, text);
            applied_ins = Some(AppliedInsertion { insertion: ins, text: text.to_owned() });
            assert(self.text() =~= splice(old_text, start as int, end as int, bytes));
        } else {
            assert(bytes =~= Seq::<u8>::empty());
            assert(self.text() =~= splice(old_text, start as int, end as int, bytes));
        }
        (applied_del, applied_ins)
    }

    /// Applies a local replacement by replacing the text in one step and
    /// recording the deletion and the insertion in the replica.
    pub fn apply_replacement(&mut self, replacement: &Replacement<usize>)
        requires
            old(self).wf(),
            is_char_range(
                old(self).text(),
                replacement.spec_start() as int,
                replacement.spec_end() as int,
            ),
            old(self).text().len() + replacement.spec_bytes().len() <= usize::MAX,
        ensures
            final(self).wf(),
            final(self).replica_id() == old(self).replica_id(),
            final(self).text() == splice(
                old(self).text(),
                replacement.spec_start() as int,
                replacement.spec_end() as int,
                replacement.spec_bytes(),
            ),
            final(self).replica_state() == replica_after_replacement(
                old(self).replica_state(),
                replacement.spec_start(),
                replacement.spec_end(),
                replacement.spec_bytes().len() as usize,
            ),
            final(self).replica_state() == recorded_insertion(
                recorded_deletion(
                    old(self).replica_state(),
                    replacement.spec_start(),
                    replacement.spec_end(),
                ).0,
                replacement.spec_start(),
                replacement.spec_bytes().len() as usize,
            ).0,
    {
        let start = replacement.start();
        let end = replacement.end();
        let text = replacement.text();
        rope_replace(&mut self.rope, start, end, text);
        let _deletion = replica_deleted(&mut self.replica, start, end);
        let _insertion = replica_inserted(&mut self.replica, start, text.len());
    }

    /// Applies a replacement whose range was given by anchors, once the
    /// anchors have been resolved to offsets. When either anchor could not be
    /// resolved nothing happens.
    pub fn apply_resolved<T: Copy>(
        &mut self,
        replacement: &Replacement<T>,
        start: Option<usize>,
        end: Option<usize>,
    )
        requires
            old(self).wf(),
            start is Some && end is Some ==> is_char_range(
                old(self).text(),
                start->0 as int,
                end->0 as int,
            ),
            old(self).text().len() + replacement.spec_bytes().len() <= usize::MAX,
        ensures
            final(self).wf(),
            final(self).replica_id() == old(self).replica_id(),
            final(self).text() == if start is Some && end is Some {
                splice(
                    old(self).text(),
                    start->0 as int,
                    end->0 as int,
                    replacement.spec_bytes(),
                )
            } else {
                old(self).text()
            },
            final(self).replica_state() == if start is Some && end is Some {
                replica_after_replacement(
                    old(self).replica_state(),
                    start->0,
                    end->0,
                    replacement.spec_bytes().len() as usize,
                )
            } else {
                old(self).replica_state()
            },
    {
        if let (Some(start), Some(end)) = (start, end) {
            let resolved = replacement.with_range(start, end);
            self.apply_replacement(&resolved);
        }
    }

    /// Integrates a remote insertion and inserts its `text` where the replica
    /// says it goes. Returns the offset where it went, or nothing when the
    /// replica did not integrate it. When that offset lies inside a
    /// character, the text is left unchanged and the offset is returned as
    /// an error.
    pub fn apply_insertion(&mut self, insertion: &cola::Insertion, text: &str) -> (res: Result<
        Option<usize>,
        OffsetNotOnCharBoundary,
    >)
        requires
            old(self).wf(),
            old(self).text().len() + insertion_len(*insertion) <= usize::MAX,
        ensures
            remote_insertion_applied(*old(self), *final(self), *insertion, text@, res),
    {
        match replica_integrate_insertion(&mut self.replica, insertion) {
            Some(offset) => {
                if rope_is_char_boundary(&self.rope, offset) {
                    rope_insert(&mut self.rope, offset, text);
                    Ok(Some(offset))
                } else {
                    Err(OffsetNotOnCharBoundary { offset })
                }
            },
            None => Ok(None),
        }
    }

    /// Applies a remote insertion, as `apply_insertion` does, when the text
    /// can grow by the insertion's length; otherwise leaves the buffer as it
    /// is and returns nothing.
    pub fn try_apply_insertion(&mut self, insertion: &cola::Insertion, text: &str) -> (res: Option<
        Result<Option<usize>, OffsetNotOnCharBoundary>,
    >)
        requires
            old(self).wf(),
        ensures
            res is None <==> old(self).text().len() + insertion_len(*insertion) > usize::MAX,
            res is None ==> *final(self) == *old(self),
            res matches Some(r) ==> remote_insertion_applied(
                *old(self),
                *final(self),
                *insertion,
                text@,
                r,
            ),
    {
        let len = insertion_text_len(insertion);
        let text_len = rope_byte_len(&self.rope);
        if len > usize::MAX - text_len {
            return None;
        }
        Some(self.apply_insertion(insertion, text))
    }

    /// Integrates a remote deletion and removes from the text the ranges that
    /// the replica returns, the last one first. Returns those ranges. When an
    /// end of a range lies inside a character, the text is left unchanged
    /// and the first such end, taking the ranges in order and the start of
    /// each before its end, is returned as an error.
    pub fn apply_deletion(&mut self, deletion: &cola::Deletion) -> (res: Result<
        Vec<Range<usize>>,
        OffsetNotOnCharBoundary,
    >)
        requires
            old(self).wf(),
        ensures
            remote_deletion_applied(*old(self), *final(self), *deletion, res),
    {
        let ghost old_text = self.text();
        let ghost old_id = self.replica_id();
        let ghost old_replica = self.replica_state();
        let ranges = replica_integrate_deletion(&mut self.replica, deletion);
        let ghost new_replica_len = self.replica_len();
        let n = ranges.len();

        let mut i: usize = 0;
        while i < n
            invariant
                0 <= i <= n,
                n == ranges@.len(),
                self.text() == old_text,
                old_text == old(self).text(),
                old_id == old(self).replica_id(),
                old_replica == old(self).replica_state(),
                ranges@ == integrated_deletion_ranges(old_replica, *deletion),
                first_bad_endpoint_from(old_text, ranges@, 0) == first_bad_endpoint_from(
                    old_text,
                    ranges@,
                    i as int,
                ),
                self.replica_id() == old_id,
                self.replica_len() == new_replica_len,
                ranges_ascending_within(ranges@, old_text.len()),
                forall|j: int|
                    0 <= j < i ==> is_char_range(
                        old_text,
                        #[trigger] ranges@[j].start as int,
                        ranges@[j].end as int,
                    ),
            decreases n - i,
        {
            let start = ranges[i].start;
            let end = ranges[i].end;
            assert(start < end <= old_text.len()) by {
                assert(ranges@[i as int].start < ranges@[i as int].end <= old_text.len());
            }
            if !rope_is_char_boundary(&self.rope, start) {
                return Err(OffsetNotOnCharBoundary { offset: start });
            }
            if !rope_is_char_boundary(&self.rope, end) {
                return Err(OffsetNotOnCharBoundary { offset: end });
            }
            i += 1;
        }

        let mut k: usize = n;
        while k > 0
            invariant
                0 <= k <= n,
                n == ranges@.len(),
                old_replica == old(self).replica_state(),
                ranges@ == integrated_deletion_ranges(old_replica, *deletion),
                first_bad_endpoint_from(old_text, ranges@, 0) is None,
                ranges_ascending_within(ranges@, old_text.len()),
                forall|j: int|
                    0 <= j < n ==> is_char_range(
                        old_text,
                        #[trigger] ranges@[j].start as int,
                        ranges@[j].end as int,
                    ),
                self.text() == remove_ranges_from(old_text, ranges@, k as int),
                k < n ==> ranges@[k as int].start <= self.text().len(),
                k < n ==> self.text().subrange(0, ranges@[k as int].start as int)
                    == old_text.subrange(0, ranges@[k as int].start as int),
                k == n ==> self.text() == old_text,
                self.replica_id() == old_id,
                self.replica_len() == new_replica_len,
                new_replica_len + ranges_total(ranges@) == old_text.len(),
                self.text().len() + ranges_total(ranges@.subrange(k as int, n as int))
                    == old_text.len(),
            decreases k,
        {
            let ghost cur = self.text();
            let start = ranges[k - 1].start;
            let end = ranges[k - 1].end;
            let ghost j = (k - 1) as int;
            assert(ranges@[j].start < ranges@[j].end <= old_text.len());
            assert(is_char_range(cur, start as int, end as int)) by {
                if k < n {
                    assert(ranges@[j].end < ranges@[k as int].start);
                    let p = ranges@[k as int].start as int;
                    assert(cur.subrange(0, p)[start as int] == cur[start as int]);
                    assert(old_text.subrange(0, p)[start as int] == old_text[start as int]);
                    assert(cur.subrange(0, p)[end as int] == cur[end as int]);
                    assert(old_text.subrange(0, p)[end as int] == old_text[end as int]);
                }
            }
            rope_delete(&mut self.rope, start, end);
            proof {
                let next = self.text();
                assert(next == splice(cur, start as int, end as int, Seq::empty()));
                assert(next.subrange(0, start as int) =~= old_text.subrange(0, start as int)) by {
                    if k < n {
                        let p = ranges@[k as int].start as int;
                        assert(cur.subrange(0, start as int) =~= cur.subrange(0, p).subrange(
                            0,
                            start as int,
                        ));
                        assert(old_text.subrange(0, start as int) =~= old_text.subrange(
                            0,
                            p,
                        ).subrange(0, start as int));
                    }
                }
                assert(ranges@.subrange(j, n as int).drop_first() =~= ranges@.subrange(
                    k as int,
                    n as int,
                ));
                assert(ranges@.subrange(j, n as int)[0] == ranges@[j]);
            }
            k -= 1;
        }

        proof {
            assert(ranges@.subrange(0, n as int) =~= ranges@);
        }
        Ok(ranges)
    }

    /// A copy of the buffer's state: its text, and a fork of its replica
    /// under the same id. `cola::Replica` cannot be cloned, so the copy is a
    /// fork: it tracks the same text, but the fork starts the id's own edit
    /// counters afresh, so it is not fit to record new edits under that id.
    pub fn snapshot(&self) -> (snapshot: BufferSnapshot)
        ensures
            snapshot.replica == forked_replica(self.replica_state(), self.replica_id()),
            snapshot.text_bytes() == self.text(),
            replica_len(snapshot.replica) == self.replica_len(),
            replica_id_of(snapshot.replica) == self.replica_id(),
    {
        let id = replica_id(&self.replica);
        BufferSnapshot { replica: replica_fork(&self.replica, id), text: rope_clone(&self.rope) }
    }
}

} // verus!
