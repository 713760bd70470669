//! Properties that hold across the library's operations.

use core::ops::Range;
use vstd::prelude::*;

use crate::actor_map::recorded_actor;
use crate::ids::{ActorId, BufferId};
use crate::neovim::buffer_edited::{spec_fix_on_bytes_args, OnBytesArgs};
use crate::neovim::events::{spec_buffer_created, spec_cursor_created, CallbackDecision, CursorState};
use crate::nomad::action::ActionName;
use crate::nomad::commands::{command_names, find_command, find_module, module_names, ModuleCommands};
use crate::strings::{bytes_order, NameOrder};
use crate::text::buffer_state::{remove_ranges, remove_ranges_from};
use crate::text::replica::{ranges_ascending_within, ranges_total};
use crate::text::rope::{is_char_boundary_at, is_char_range, splice};

verus! {

/// Deleting a range and then inserting text at its start gives the same
/// bytes as replacing the range with the text in one step, and the start is
/// still a character boundary after the deletion. This is why a buffer's
/// `edit` (delete, then insert) and `apply_replacement` (replace) agree.
pub proof fn delete_then_insert_is_replace(bytes: Seq<u8>, start: int, end: int, inserted: Seq<u8>)
    requires
        is_char_range(bytes, start, end),
    ensures
        is_char_boundary_at(splice(bytes, start, end, Seq::empty()), start),
        splice(splice(bytes, start, end, Seq::empty()), start, start, inserted) == splice(
            bytes,
            start,
            end,
            inserted,
        ),
{
    let mid = splice(bytes, start, end, Seq::empty());
    assert(mid =~= bytes.subrange(0, start) + bytes.subrange(end, bytes.len() as int));
    if start < mid.len() {
        assert(mid[start] == bytes[end]);
    }
    assert(mid.subrange(0, start) =~= bytes.subrange(0, start));
    assert(mid.subrange(start, mid.len() as int) =~= bytes.subrange(end, bytes.len() as int));
    assert(splice(mid, start, start, inserted) =~= splice(bytes, start, end, inserted));
}

/// A replacement changes the length of the text by the inserted length minus
/// the deleted length: what keeps the text and the replica in sync.
pub proof fn splice_len(bytes: Seq<u8>, start: int, end: int, inserted: Seq<u8>)
    requires
        0 <= start <= end <= bytes.len(),
    ensures
        splice(bytes, start, end, inserted).len() == bytes.len() - (end - start) + inserted.len(),
{
}

/// Replacing a range with the bytes it already holds leaves the text
/// unchanged.
pub proof fn splice_same_is_identity(bytes: Seq<u8>, start: int, end: int)
    requires
        0 <= start <= end <= bytes.len(),
    ensures
        splice(bytes, start, end, bytes.subrange(start, end)) == bytes,
{
    assert(splice(bytes, start, end, bytes.subrange(start, end)) =~= bytes);
}

/// Removing the ranges that a replica hands back after integrating a
/// deletion shortens the text by their total length.
pub proof fn remove_ranges_len(bytes: Seq<u8>, ranges: Seq<Range<usize>>)
    requires
        ranges_ascending_within(ranges, bytes.len()),
    ensures
        remove_ranges(bytes, ranges).len() + ranges_total(ranges) == bytes.len(),
{
    remove_ranges_from_len(bytes, ranges, 0);
    assert(ranges.subrange(0, ranges.len() as int) =~= ranges);
}

proof fn remove_ranges_from_len(bytes: Seq<u8>, ranges: Seq<Range<usize>>, k: int)
    requires
        ranges_ascending_within(ranges, bytes.len()),
        0 <= k <= ranges.len(),
    ensures
        remove_ranges_from(bytes, ranges, k).len() + ranges_total(
            ranges.subrange(k, ranges.len() as int),
        ) == bytes.len(),
        k < ranges.len() ==> ranges[k].start <= remove_ranges_from(bytes, ranges, k).len(),
    decreases ranges.len() - k,
{
    if k == ranges.len() {
        assert(ranges.subrange(k, ranges.len() as int) =~= Seq::<Range<usize>>::empty());
    } else {
        let r = ranges[k];
        assert(r.start < r.end <= bytes.len());
        remove_ranges_from_len(bytes, ranges, k + 1);
        if k + 1 < ranges.len() {
            assert(ranges[k].end < ranges[k + 1].start);
        }
        assert(ranges.subrange(k, ranges.len() as int).drop_first() =~= ranges.subrange(
            k + 1,
            ranges.len() as int,
        ));
        assert(ranges.subrange(k, ranges.len() as int)[0] == ranges[k]);
    }
}

/// What an actor records for a buffer is what the next take gives back.
pub proof fn take_returns_recorded(registry: Map<i32, ActorId>, buffer: BufferId, actor: ActorId)
    ensures
        recorded_actor(registry.insert(buffer.handle, actor), buffer) == actor,
{
}

/// A record is taken back only once: the take after a take gives the
/// unknown actor.
pub proof fn second_take_is_unknown(registry: Map<i32, ActorId>, buffer: BufferId)
    ensures
        recorded_actor(registry.remove(buffer.handle), buffer) == ActorId::spec_unknown(),
{
}

/// Records for one buffer do not affect what is taken for another.
pub proof fn records_are_per_buffer(
    registry: Map<i32, ActorId>,
    buffer: BufferId,
    other: BufferId,
    actor: ActorId,
)
    requires
        buffer.handle != other.handle,
    ensures
        recorded_actor(registry.insert(buffer.handle, actor), other) == recorded_actor(
            registry,
            other,
        ),
        recorded_actor(registry.remove(buffer.handle), other) == recorded_actor(registry, other),
{
}

/// A command registered under a name that was free is the one a call with
/// that name reaches.
pub proof fn registered_command_is_found<C>(
    entries: Seq<(ActionName, C)>,
    name: ActionName,
    command: C,
)
    requires
        !command_names(entries).contains(name.spec_str()),
    ensures
        find_command(entries.push((name, command)), name.spec_str()) == Some(command),
    decreases entries.len(),
{
    if entries.len() > 0 {
        let pushed = entries.push((name, command));
        assert(pushed[0] == entries[0]);
        assert(command_names(entries)[0] == entries[0].0.spec_str());
        assert(pushed.drop_first() =~= entries.drop_first().push((name, command)));
        assert(!command_names(entries.drop_first()).contains(name.spec_str())) by {
            if command_names(entries.drop_first()).contains(name.spec_str()) {
                let j = choose|j: int|
                    0 <= j < command_names(entries.drop_first()).len() && command_names(
                        entries.drop_first(),
                    )[j] == name.spec_str();
                assert(command_names(entries)[j + 1] == name.spec_str());
            }
        }
        registered_command_is_found(entries.drop_first(), name, command);
    }
}

/// Registering a command leaves every other name reaching what it reached
/// before.
pub proof fn registering_keeps_other_commands<C>(
    entries: Seq<(ActionName, C)>,
    name: ActionName,
    command: C,
    other: Seq<char>,
)
    requires
        other != name.spec_str(),
    ensures
        find_command(entries.push((name, command)), other) == find_command(entries, other),
    decreases entries.len(),
{
    let pushed = entries.push((name, command));
    if entries.len() == 0 {
        assert(pushed.drop_first() =~= Seq::<(ActionName, C)>::empty());
    } else {
        assert(pushed[0] == entries[0]);
        assert(pushed.drop_first() =~= entries.drop_first().push((name, command)));
        registering_keeps_other_commands(entries.drop_first(), name, command, other);
    }
}

/// A module added under a name that was free is the one a call with that
/// name reaches.
pub proof fn added_module_is_found<C>(modules: Seq<ModuleCommands<C>>, module: ModuleCommands<C>)
    requires
        !module_names(modules).contains(module.module()),
    ensures
        find_module(modules.push(module), module.module()) == Some(module),
    decreases modules.len(),
{
    if modules.len() > 0 {
        let pushed = modules.push(module);
        assert(pushed[0] == modules[0]);
        assert(module_names(modules)[0] == modules[0].module());
        assert(pushed.drop_first() =~= modules.drop_first().push(module));
        assert(!module_names(modules.drop_first()).contains(module.module())) by {
            if module_names(modules.drop_first()).contains(module.module()) {
                let j = choose|j: int|
                    0 <= j < module_names(modules.drop_first()).len() && module_names(
                        modules.drop_first(),
                    )[j] == module.module();
                assert(module_names(modules)[j + 1] == module.module());
            }
        }
        added_module_is_found(modules.drop_first(), module);
    }
}

/// Names compare equal exactly when their bytes are the same.
pub proof fn bytes_order_equal_iff_same(a: Seq<u8>, b: Seq<u8>)
    ensures
        (bytes_order(a, b) == NameOrder::Equal) <==> a == b,
    decreases a.len(),
{
    if a.len() > 0 && b.len() > 0 && a[0] == b[0] {
        bytes_order_equal_iff_same(a.drop_first(), b.drop_first());
        if a.drop_first() == b.drop_first() {
            assert(a =~= seq![a[0]] + a.drop_first());
            assert(b =~= seq![b[0]] + b.drop_first());
        }
        if a == b {
            assert(a.drop_first() == b.drop_first());
        }
    } else if a.len() == 0 && b.len() == 0 {
        assert(a =~= b);
    }
}

/// Swapping two names reverses their order.
pub proof fn bytes_order_antisymmetric(a: Seq<u8>, b: Seq<u8>)
    ensures
        (bytes_order(a, b) == NameOrder::Less) <==> (bytes_order(b, a) == NameOrder::Greater),
        (bytes_order(a, b) == NameOrder::Equal) <==> (bytes_order(b, a) == NameOrder::Equal),
    decreases a.len(),
{
    if a.len() > 0 && b.len() > 0 && a[0] == b[0] {
        bytes_order_antisymmetric(a.drop_first(), b.drop_first());
    }
}

/// The order of names is transitive.
pub proof fn bytes_order_transitive(a: Seq<u8>, b: Seq<u8>, c: Seq<u8>)
    requires
        bytes_order(a, b) == NameOrder::Less,
        bytes_order(b, c) == NameOrder::Less,
    ensures
        bytes_order(a, c) == NameOrder::Less,
    decreases a.len(),
{
    if a.len() > 0 && b.len() > 0 && c.len() > 0 && a[0] == b[0] && b[0] == c[0] {
        bytes_order_transitive(a.drop_first(), b.drop_first(), c.drop_first());
    }
}

/// Fixing the arguments of `on_bytes` a second time changes nothing.
pub proof fn fix_on_bytes_args_idempotent(args: OnBytesArgs, buffer_is_empty: bool)
    ensures
        spec_fix_on_bytes_args(spec_fix_on_bytes_args(args, buffer_is_empty), buffer_is_empty)
            == spec_fix_on_bytes_args(args, buffer_is_empty),
{
}

/// Entering again the named buffer the cursor is in reports no new cursor:
/// after a `BufEnter` into a named buffer, a second one into it is skipped.
pub proof fn reentering_named_buffer_is_skipped(
    registry: Map<i32, ActorId>,
    buffer: BufferId,
    buffer_exists: bool,
    has_callbacks: bool,
)
    ensures
        spec_cursor_created(
            CursorState { old_buffer: buffer, old_buffer_was_unnamed: false },
            registry,
            buffer,
            buffer_exists,
            has_callbacks,
        ) == CallbackDecision::Skip,
{
}

/// A rename reports a buffer creation only when the buffer had no name
/// before: with a remembered non-empty old name the rename is skipped, with
/// an empty one it is reported like any creation.
pub proof fn rename_creates_only_unnamed_buffers(
    registry: Map<i32, ActorId>,
    buffer: BufferId,
    has_callbacks: bool,
)
    ensures
        spec_buffer_created(false, registry, buffer, true, true, has_callbacks)
            == CallbackDecision::Skip,
        spec_buffer_created(true, registry, buffer, true, true, has_callbacks)
            == spec_buffer_created(true, registry, buffer, false, true, has_callbacks),
{
}

} // verus!
