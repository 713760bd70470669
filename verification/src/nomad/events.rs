//! The events that modules subscribe to, and how they are told apart.
//!
//! Two subscriptions to equal events share one registration with Neovim, so
//! each event is ordered by what identifies it: command and function events
//! by module name then by their own name, config events by module name, edit
//! events by buffer, and buffer openings are all the same event.

use vstd::prelude::*;

use crate::ids::{ActorId, BufferId};
use crate::neovim::buffer_edited::{OnBytesArgs, Point};
use crate::strings::{compare_strs, str_order, NameOrder};

verus! {

/// The order of two pairs of names: by the first names, then by the second.
pub open spec fn pair_order(
    first_a: Seq<char>,
    second_a: Seq<char>,
    first_b: Seq<char>,
    second_b: Seq<char>,
) -> NameOrder {
    match str_order(first_a, first_b) {
        NameOrder::Equal => str_order(second_a, second_b),
        other => other,
    }
}

/// The event of a module's command being run.
pub struct CommandEvent {
    pub module_name: &'static str,
    pub command_name: &'static str,
}

impl CommandEvent {
    /// Orders by module name, then by command name.
    pub fn compare(&self, other: &CommandEvent) -> (order: NameOrder)
        ensures
            order == pair_order(
                self.module_name@,
                self.command_name@,
                other.module_name@,
                other.command_name@,
            ),
    {
        match compare_strs(self.module_name, other.module_name) {
            NameOrder::Equal => compare_strs(self.command_name, other.command_name),
            order => order,
        }
    }

    /// Whether the two events are the same.
    pub fn same_as(&self, other: &CommandEvent) -> (eq: bool)
        ensures
            eq == (pair_order(
                self.module_name@,
                self.command_name@,
                other.module_name@,
                other.command_name@,
            ) == NameOrder::Equal),
    {
        self.compare(other) == NameOrder::Equal
    }
}

/// The event of a module's function being called.
pub struct FunctionEvent {
    pub module_name: &'static str,
    pub function_name: &'static str,
}

impl FunctionEvent {
    /// Orders by module name, then by function name.
    pub fn compare(&self, other: &FunctionEvent) -> (order: NameOrder)
        ensures
            order == pair_order(
                self.module_name@,
                self.function_name@,
                other.module_name@,
                other.function_name@,
            ),
    {
        match compare_strs(self.module_name, other.module_name) {
            NameOrder::Equal => compare_strs(self.function_name, other.function_name),
            order => order,
        }
    }
}

/// The event of a module's configuration changing.
pub struct ConfigEvent {
    pub module_name: &'static str,
}

impl ConfigEvent {
    /// Orders by module name.
    pub fn compare(&self, other: &ConfigEvent) -> (order: NameOrder)
        ensures
            order == str_order(self.module_name@, other.module_name@),
    {
        compare_strs(self.module_name, other.module_name)
    }
}

/// The event of a buffer being edited.
pub struct EditEvent {
    pub id: BufferId,
}

impl EditEvent {
    /// Orders by buffer handle.
    pub fn compare(&self, other: &EditEvent) -> (order: NameOrder)
        ensures
            order == if self.id.handle < other.id.handle {
                NameOrder::Less
            } else if self.id.handle == other.id.handle {
                NameOrder::Equal
            } else {
                NameOrder::Greater
            },
    {
        if self.id.handle < other.id.handle {
            NameOrder::Less
        } else if self.id.handle == other.id.handle {
            NameOrder::Equal
        } else {
            NameOrder::Greater
        }
    }
}

/// The event of a buffer being opened. There is only one such event.
pub struct OpenBufferEvent {
    pub send_current: bool,
}

impl OpenBufferEvent {
    /// Any two buffer-opening events are the same.
    pub fn compare(&self, _other: &OpenBufferEvent) -> (order: NameOrder)
        ensures
            order == NameOrder::Equal,
    {
        NameOrder::Equal
    }
}

/// A buffer that was opened, and who opened it.
#[derive(Clone, Copy, Debug, PartialEq, Eq, Structural)]
pub struct OpenBuffer {
    id: BufferId,
    opened_by: ActorId,
}

impl OpenBuffer {
    /// The opened buffer.
    pub closed spec fn spec_id(&self) -> BufferId {
        self.id
    }

    /// The actor that opened it.
    pub closed spec fn spec_opened_by(&self) -> ActorId {
        self.opened_by
    }

    /// The opening of `id` by `opened_by`.
    pub fn new(id: BufferId, opened_by: ActorId) -> (open: OpenBuffer)
        ensures
            open.spec_id() == id,
            open.spec_opened_by() == opened_by,
    {
        OpenBuffer { id, opened_by }
    }

    /// The opened buffer.
    pub fn id(&self) -> (id: BufferId)
        ensures
            id == self.spec_id(),
    {
        self.id
    }

    /// The actor that opened it.
    pub fn opened_by(&self) -> (actor: ActorId)
        ensures
            actor == self.spec_opened_by(),
    {
        self.opened_by
    }
}

/// Whether a buffer whose 'buftype' option is `buftype` holds text to edit:
/// a normal buffer, whose 'buftype' is empty, rather than a help, terminal,
/// prompt or other special buffer.
pub fn is_text_buftype(buftype: &str) -> (b: bool)
    ensures
        b == (buftype@.len() == 0),
{
    buftype.unicode_len() == 0
}

/// Takes the actor announced for the next event, or the unknown actor when
/// none was announced. The announcement is consumed.
pub fn take_next_actor(next: &mut Option<ActorId>) -> (actor: ActorId)
    ensures
        actor == match *old(next) {
            Some(a) => a,
            None => ActorId::spec_unknown(),
        },
        *final(next) is None,
{
    match next.take() {
        Some(actor) => actor,
        None => ActorId::unknown(),
    }
}

/// The buffers among `buffers` whose flag in `is_text` is set, in order.
pub open spec fn text_buffers(buffers: Seq<BufferId>, is_text: Seq<bool>) -> Seq<BufferId>
    decreases buffers.len(),
{
    if buffers.len() == 0 {
        Seq::empty()
    } else {
        let rest = text_buffers(buffers.drop_last(), is_text.drop_last());
        if is_text.last() {
            rest.push(buffers.last())
        } else {
            rest
        }
    }
}

/// Every listed buffer whose flag is set is among the text buffers.
pub proof fn text_buffers_complete(buffers: Seq<BufferId>, is_text: Seq<bool>, i: int)
    requires
        buffers.len() == is_text.len(),
        0 <= i < buffers.len(),
        is_text[i],
    ensures
        text_buffers(buffers, is_text).contains(buffers[i]),
    decreases buffers.len(),
{
    let all = text_buffers(buffers, is_text);
    let rest = text_buffers(buffers.drop_last(), is_text.drop_last());
    if i == buffers.len() - 1 {
        assert(all[rest.len() as int] == buffers[i]);
    } else {
        text_buffers_complete(buffers.drop_last(), is_text.drop_last(), i);
        let k = choose|k: int| 0 <= k < rest.len() && rest[k] == buffers[i];
        assert(all[k] == buffers[i]);
    }
}

/// Every text buffer is a listed buffer whose flag is set.
pub proof fn text_buffers_sound(buffers: Seq<BufferId>, is_text: Seq<bool>, j: int)
    requires
        buffers.len() == is_text.len(),
        0 <= j < text_buffers(buffers, is_text).len(),
    ensures
        exists|i: int|
            0 <= i < buffers.len() && is_text[i] && buffers[i] == text_buffers(
                buffers,
                is_text,
            )[j],
    decreases buffers.len(),
{
    let all = text_buffers(buffers, is_text);
    let rest = text_buffers(buffers.drop_last(), is_text.drop_last());
    let last = buffers.len() - 1;
    if j < rest.len() {
        text_buffers_sound(buffers.drop_last(), is_text.drop_last(), j);
        let i = choose|i: int|
            0 <= i < buffers.drop_last().len() && is_text.drop_last()[i]
                && buffers.drop_last()[i] == rest[j];
        assert(0 <= i < buffers.len() && is_text[i] && buffers[i] == all[j]);
    } else {
        assert(0 <= last < buffers.len() && is_text[last] && buffers[last] == all[j]);
    }
}

/// The text buffers of one listed buffer: itself when its flag is set,
/// none otherwise.
pub proof fn text_buffers_single(buffer: BufferId, is_text: bool)
    ensures
        text_buffers(seq![buffer], seq![is_text]) == if is_text {
            seq![buffer]
        } else {
            Seq::<BufferId>::empty()
        },
{
    assert(seq![buffer].drop_last() =~= Seq::<BufferId>::empty());
    assert(seq![is_text].drop_last() =~= Seq::<bool>::empty());
    assert(text_buffers(Seq::<BufferId>::empty(), Seq::<bool>::empty()) =~= Seq::<BufferId>::empty());
    if is_text {
        assert(Seq::<BufferId>::empty().push(buffer) =~= seq![buffer]);
    }
}

/// Listing buffers one after the other lists their text buffers one after
/// the other: the text buffers keep the listed order.
pub proof fn text_buffers_concat(
    buffers1: Seq<BufferId>,
    is_text1: Seq<bool>,
    buffers2: Seq<BufferId>,
    is_text2: Seq<bool>,
)
    requires
        buffers1.len() == is_text1.len(),
        buffers2.len() == is_text2.len(),
    ensures
        text_buffers(buffers1 + buffers2, is_text1 + is_text2) == text_buffers(buffers1, is_text1)
            + text_buffers(buffers2, is_text2),
    decreases buffers2.len(),
{
    if buffers2.len() == 0 {
        assert(buffers1 + buffers2 =~= buffers1);
        assert(is_text1 + is_text2 =~= is_text1);
        assert(text_buffers(buffers1, is_text1) + text_buffers(buffers2, is_text2)
            =~= text_buffers(buffers1, is_text1));
    } else {
        text_buffers_concat(buffers1, is_text1, buffers2.drop_last(), is_text2.drop_last());
        assert((buffers1 + buffers2).drop_last() =~= buffers1 + buffers2.drop_last());
        assert((is_text1 + is_text2).drop_last() =~= is_text1 + is_text2.drop_last());
        let a = text_buffers(buffers1, is_text1);
        let b = text_buffers(buffers2.drop_last(), is_text2.drop_last());
        assert((a + b).push(buffers2.last()) =~= a + b.push(buffers2.last()));
    }
}

/// The first listed buffer, when it holds text, is the first text buffer.
pub proof fn text_buffers_first(buffers: Seq<BufferId>, is_text: Seq<bool>)
    requires
        buffers.len() == is_text.len(),
        buffers.len() > 0,
        is_text[0],
    ensures
        text_buffers(buffers, is_text).len() > 0,
        text_buffers(buffers, is_text)[0] == buffers[0],
{
    assert(buffers =~= seq![buffers[0]] + buffers.skip(1));
    assert(is_text =~= seq![is_text[0]] + is_text.skip(1));
    text_buffers_concat(seq![buffers[0]], seq![is_text[0]], buffers.skip(1), is_text.skip(1));
    text_buffers_single(buffers[0], is_text[0]);
}

/// The buffers of some openings.
pub open spec fn opened_ids(opened: Seq<OpenBuffer>) -> Seq<BufferId> {
    opened.map_values(|o: OpenBuffer| o.spec_id())
}

/// The buffer openings to report when subscribing: one for each listed
/// buffer that holds text, in order. The first one takes the announced
/// actor; the rest are by the unknown actor.
pub fn current_buffer_openings(
    buffers: &Vec<BufferId>,
    is_text_buffer: &Vec<bool>,
    next: &mut Option<ActorId>,
) -> (opened: Vec<OpenBuffer>)
    requires
        buffers@.len() == is_text_buffer@.len(),
    ensures
        opened_ids(opened@) == text_buffers(buffers@, is_text_buffer@),
        forall|i: int|
            0 <= i < buffers@.len() && #[trigger] is_text_buffer@[i] ==> opened_ids(
                opened@,
            ).contains(buffers@[i]),
        opened@.len() > 0 ==> opened@[0].spec_opened_by() == match *old(next) {
            Some(a) => a,
            None => ActorId::spec_unknown(),
        },
        forall|i: int|
            0 < i < opened@.len() ==> #[trigger] opened@[i].spec_opened_by()
                == ActorId::spec_unknown(),
        opened@.len() > 0 ==> *final(next) is None,
        opened@.len() == 0 ==> *final(next) == *old(next),
{
    let n = buffers.len();
    let mut opened: Vec<OpenBuffer> = Vec::new();
    let mut i: usize = 0;
    while i < n
        invariant
            n == buffers@.len(),
            n == is_text_buffer@.len(),
            i <= n,
            opened_ids(opened@) == text_buffers(
                buffers@.subrange(0, i as int),
                is_text_buffer@.subrange(0, i as int),
            ),
            opened@.len() > 0 ==> opened@[0].spec_opened_by() == match *old(next) {
                Some(a) => a,
                None => ActorId::spec_unknown(),
            },
            forall|j: int|
                0 < j < opened@.len() ==> #[trigger] opened@[j].spec_opened_by()
                    == ActorId::spec_unknown(),
            opened@.len() > 0 ==> *next is None,
            opened@.len() == 0 ==> *next == *old(next),
        decreases n - i,
    {
        let ghost before = opened@;
        proof {
            assert(buffers@.subrange(0, i + 1).drop_last() =~= buffers@.subrange(0, i as int));
            assert(is_text_buffer@.subrange(0, i + 1).drop_last() =~= is_text_buffer@.subrange(
                0,
                i as int,
            ));
        }
        if is_text_buffer[i] {
            let opened_by = take_next_actor(next);
            opened.push(OpenBuffer::new(buffers[i], opened_by));
            proof {
                assert(opened_ids(opened@) =~= opened_ids(before).push(buffers@[i as int]));
            }
        }
        i += 1;
    }
    proof {
        assert(buffers@.subrange(0, n as int) =~= buffers@);
        assert(is_text_buffer@.subrange(0, n as int) =~= is_text_buffer@);
        assert forall|i: int|
            0 <= i < buffers@.len() && #[trigger] is_text_buffer@[i] implies opened_ids(
                opened@,
            ).contains(buffers@[i]) by {
            text_buffers_complete(buffers@, is_text_buffer@, i);
        }
    }
    opened
}

/// The points of the text that an `on_bytes` edit inserted: from the start
/// row at the start offset, to the new end.
pub fn hunk_points(args: &OnBytesArgs) -> (points: (Point, Point))
    requires
        args.start_row + args.new_end_row <= usize::MAX,
        args.start_col + args.new_end_col <= usize::MAX,
    ensures
        points.0 == (Point { line_idx: args.start_row, byte_offset: args.start_offset }),
        points.1.line_idx == args.start_row + args.new_end_row,
        points.1.byte_offset == if args.new_end_row == 0 {
            args.start_col + args.new_end_col
        } else {
            args.new_end_col as int
        },
{
    let start = Point { line_idx: args.start_row, byte_offset: args.start_offset };
    let col = if args.new_end_row == 0 {
        args.start_col + args.new_end_col
    } else {
        args.new_end_col
    };
    (start, Point { line_idx: args.start_row + args.new_end_row, byte_offset: col })
}

/// Whether an edit between the two points inserted nothing: they coincide.
pub fn hunk_is_empty(start: Point, end: Point) -> (empty: bool)
    ensures
        empty == (start == end),
{
    start.line_idx == end.line_idx && start.byte_offset == end.byte_offset
}

} // verus!
