//! The CRDT replica of a buffer, a `cola::Replica`.
//!
//! The replica does not hold the text itself: it tracks the length of the
//! text and the edits made to it, and tells where remote edits land.

use core::ops::Range;
use vstd::prelude::*;

verus! {

#[verifier::external_type_specification]
#[verifier::external_body]
pub struct ExReplica(cola::Replica);

#[verifier::external_type_specification]
#[verifier::external_body]
pub struct ExInsertion(cola::Insertion);

#[verifier::external_type_specification]
#[verifier::external_body]
pub struct ExDeletion(cola::Deletion);

/// The length of the text that a replica tracks.
pub uninterp spec fn replica_len(replica: cola::Replica) -> nat;

/// The id of a replica.
pub uninterp spec fn replica_id_of(replica: cola::Replica) -> u64;

/// The number of characters that an insertion inserts.
pub uninterp spec fn insertion_len(insertion: cola::Insertion) -> nat;

/// What `cola::Replica::deleted` does on `replica` for the range
/// `start..end`: the replica after it records the deletion, and the deletion
/// it returns to send to the other peers.
pub uninterp spec fn recorded_deletion(replica: cola::Replica, start: usize, end: usize) -> (
    cola::Replica,
    cola::Deletion,
);

/// What `cola::Replica::inserted` does on `replica` for `len` characters at
/// `offset`: the replica after it records the insertion, and the insertion
/// it returns to send to the other peers.
pub uninterp spec fn recorded_insertion(replica: cola::Replica, offset: usize, len: usize) -> (
    cola::Replica,
    cola::Insertion,
);

/// Where `cola::Replica::integrate_insertion`, called on `replica`, puts the
/// insertion: an offset, or nothing when the replica does not integrate it.
/// The replica's history decides which, and it is part of the replica.
pub uninterp spec fn integrated_insertion_offset(
    replica: cola::Replica,
    insertion: cola::Insertion,
) -> Option<usize>;

/// The ranges that `cola::Replica::integrate_deletion`, called on `replica`,
/// returns for the deletion.
pub uninterp spec fn integrated_deletion_ranges(
    replica: cola::Replica,
    deletion: cola::Deletion,
) -> Seq<Range<usize>>;

/// The total length of a sequence of ranges.
pub open spec fn ranges_total(ranges: Seq<Range<usize>>) -> nat
    decreases ranges.len(),
{
    if ranges.len() == 0 {
        0
    } else {
        ((ranges[0].end - ranges[0].start) + ranges_total(ranges.drop_first())) as nat
    }
}

/// The ranges are non-empty, lie within `0..len`, come in ascending order and
/// neither overlap nor touch.
pub open spec fn ranges_ascending_within(ranges: Seq<Range<usize>>, len: nat) -> bool {
    &&& forall|i: int| 0 <= i < ranges.len() ==> #[trigger] ranges[i].start < ranges[i].end <= len
    &&& forall|i: int, j: int|
        0 <= i < j < ranges.len() ==> #[trigger] ranges[i].end < #[trigger] ranges[j].start
}

/// The replica that `cola::Replica::new` builds for the id and the length.
pub uninterp spec fn new_replica(id: u64, len: usize) -> cola::Replica;

/// The replica that `cola::Replica::fork` builds from `replica` under `id`.
pub uninterp spec fn forked_replica(replica: cola::Replica, id: u64) -> cola::Replica;

/// `cola::Replica::new`: a replica with the given id for a text of `len`
/// characters, named by `new_replica`, a function of the two. It panics on
/// the id zero, which the precondition rules out.
#[verifier::external_body]
pub(crate) fn replica_new(id: u64, len: usize) -> (replica: cola::Replica)
    requires
        id != 0,
    ensures
        replica == new_replica(id, len),
        replica_len(replica) == len,
        replica_id_of(replica) == id,
{
    cola::Replica::new(id, len)
}

/// `cola::Replica::len`: the length of the text that the replica tracks.
#[verifier::external_body]
pub(crate) fn replica_length(replica: &cola::Replica) -> (len: usize)
    ensures
        len == replica_len(*replica),
{
    replica.len()
}

/// `cola::Replica::id`: the id of the replica, which is never zero: every
/// way this crate builds a replica (`new`, `fork`, `decode`) panics on the
/// id zero.
#[verifier::external_body]
pub(crate) fn replica_id(replica: &cola::Replica) -> (id: u64)
    ensures
        id == replica_id_of(*replica),
        id != 0,
{
    replica.id()
}

/// `cola::Replica::fork`: a replica with the same text state under another
/// id, named by `forked_replica`, a function of the replica and the id. It
/// panics on the id zero, which the precondition rules out.
#[verifier::external_body]
pub(crate) fn replica_fork(replica: &cola::Replica, id: u64) -> (forked: cola::Replica)
    requires
        id != 0,
    ensures
        forked == forked_replica(*replica, id),
        replica_len(forked) == replica_len(*replica),
        replica_id_of(forked) == id,
{
    replica.fork(id)
}

/// `cola::Replica::deleted`: records the local deletion of `start..end`,
/// which shortens the tracked text by the range's length. The new replica and
/// the deletion are named by `recorded_deletion`, a function of the replica
/// and the range. It panics on a
/// reversed or out-of-bounds range, which the precondition rules out.
#[verifier::external_body]
pub(crate) fn replica_deleted(replica: &mut cola::Replica, start: usize, end: usize) -> (deletion:
    cola::Deletion)
    requires
        start <= end <= replica_len(*old(replica)),
    ensures
        (*final(replica), deletion) == recorded_deletion(*old(replica), start, end),
        replica_len(*final(replica)) == replica_len(*old(replica)) - (end - start),
        replica_id_of(*final(replica)) == replica_id_of(*old(replica)),
{
    replica.deleted(start..end)
}

/// `cola::Replica::inserted`: records the local insertion of `len`
/// characters at `offset`, which lengthens the tracked text by `len`; the
/// returned insertion inserts `len` characters. The new replica and the
/// insertion are named by `recorded_insertion`, a function of the replica,
/// the offset and the length. It panics on an offset past
/// the end, which the precondition rules out.
#[verifier::external_body]
pub(crate) fn replica_inserted(replica: &mut cola::Replica, offset: usize, len: usize) -> (insertion:
    cola::Insertion)
    requires
        offset <= replica_len(*old(replica)),
        replica_len(*old(replica)) + len <= usize::MAX,
    ensures
        (*final(replica), insertion) == recorded_insertion(*old(replica), offset, len),
        replica_len(*final(replica)) == replica_len(*old(replica)) + len,
        replica_id_of(*final(replica)) == replica_id_of(*old(replica)),
        insertion_len(insertion) == len,
{
    replica.inserted(offset, len)
}

/// `<cola::Insertion as Clone>::clone`, which is derived: the same
/// insertion.
#[verifier::external_body]
pub(crate) fn insertion_clone(insertion: &cola::Insertion) -> (copy: cola::Insertion)
    ensures
        copy == *insertion,
{
    insertion.clone()
}

/// `<cola::Deletion as Clone>::clone`, which is derived: the same deletion.
#[verifier::external_body]
pub(crate) fn deletion_clone(deletion: &cola::Deletion) -> (copy: cola::Deletion)
    ensures
        copy == *deletion,
{
    deletion.clone()
}

/// `cola::Insertion::text` and `cola::Text::temporal_range`: the number of
/// characters that the insertion inserts.
#[verifier::external_body]
pub(crate) fn insertion_text_len(insertion: &cola::Insertion) -> (len: usize)
    ensures
        len == insertion_len(*insertion),
{
    insertion.text().temporal_range().len()
}

/// `cola::Replica::integrate_insertion`: integrates a remote insertion. When
/// it returns an offset, the insertion's text goes there: the offset lies
/// within the text and the tracked text grows by the insertion's length.
/// When it returns nothing (the insertion was already integrated, or waits
/// for edits not seen yet), the tracked length is unchanged. Which of the two
/// happens is named by `integrated_insertion_offset`, a function of the
/// replica (whose history decides it) and the insertion.
#[verifier::external_body]
pub(crate) fn replica_integrate_insertion(
    replica: &mut cola::Replica,
    insertion: &cola::Insertion,
) -> (offset: Option<usize>)
    ensures
        offset == integrated_insertion_offset(*old(replica), *insertion),
        replica_id_of(*final(replica)) == replica_id_of(*old(replica)),
        match offset {
            Some(o) => {
                &&& o <= replica_len(*old(replica))
                &&& replica_len(*final(replica)) == replica_len(*old(replica)) + insertion_len(
                    *insertion,
                )
            },
            None => replica_len(*final(replica)) == replica_len(*old(replica)),
        },
{
    replica.integrate_insertion(insertion)
}

/// `cola::Replica::integrate_deletion`: integrates a remote deletion and
/// returns the ranges to delete from the text. As documented, they are
/// sorted in ascending order and neither overlap nor touch; they lie within
/// the text, which the tracked length loses in total. Which ranges come out
/// is named by `integrated_deletion_ranges`, a function of the replica (whose
/// history decides them) and the deletion.
#[verifier::external_body]
pub(crate) fn replica_integrate_deletion(
    replica: &mut cola::Replica,
    deletion: &cola::Deletion,
) -> (ranges: Vec<Range<usize>>)
    ensures
        ranges@ == integrated_deletion_ranges(*old(replica), *deletion),
        replica_id_of(*final(replica)) == replica_id_of(*old(replica)),
        ranges_ascending_within(ranges@, replica_len(*old(replica))),
        replica_len(*final(replica)) + ranges_total(ranges@) == replica_len(*old(replica)),
{
    replica.integrate_deletion(deletion)
}

} // verus!
