//! The highlight ranges that the decoration provider draws on each redraw.
//!
//! On every redraw of a buffer, the provider draws each of its highlight
//! ranges as an ephemeral extmark, except the ranges that were dropped since
//! the last redraw, which it forgets instead.

use vstd::prelude::*;

use super::buffer_edited::Point;

verus! {

/// A highlight range of a buffer.
#[derive(Clone, Copy, Debug, PartialEq, Eq, Structural)]
pub struct HighlightRange {
    pub extmark_id: u32,
    pub start: Point,
    pub end: Point,
    pub was_dropped: bool,
}

/// An extmark to draw: its id and the points it spans.
#[derive(Clone, Copy, Debug, PartialEq, Eq, Structural)]
pub struct Extmark {
    pub extmark_id: u32,
    pub start: Point,
    pub end: Point,
}

/// The extmark that draws a range.
pub open spec fn extmark_of(range: HighlightRange) -> Extmark {
    Extmark { extmark_id: range.extmark_id, start: range.start, end: range.end }
}

/// The extmarks of the ranges that were not dropped, in order.
pub open spec fn extmarks_to_draw(ranges: Seq<HighlightRange>) -> Seq<Extmark>
    decreases ranges.len(),
{
    if ranges.len() == 0 {
        Seq::empty()
    } else {
        let rest = extmarks_to_draw(ranges.drop_last());
        if ranges.last().was_dropped {
            rest
        } else {
            rest.push(extmark_of(ranges.last()))
        }
    }
}

/// The positions of the ranges that were dropped, in ascending order.
pub open spec fn dropped_positions(ranges: Seq<HighlightRange>) -> Seq<usize>
    decreases ranges.len(),
{
    if ranges.len() == 0 {
        Seq::empty()
    } else {
        let rest = dropped_positions(ranges.drop_last());
        if ranges.last().was_dropped {
            rest.push((ranges.len() - 1) as usize)
        } else {
            rest
        }
    }
}

/// The positions of the ranges that were not dropped, in ascending order:
/// the ranges that the extmarks to draw come from, one for one.
pub open spec fn drawn_positions(ranges: Seq<HighlightRange>) -> Seq<usize>
    decreases ranges.len(),
{
    if ranges.len() == 0 {
        Seq::empty()
    } else {
        let rest = drawn_positions(ranges.drop_last());
        if ranges.last().was_dropped {
            rest
        } else {
            rest.push((ranges.len() - 1) as usize)
        }
    }
}

/// Each extmark to draw comes from the range at the matching drawn position,
/// and that range was not dropped (for as many ranges as a `Vec` can hold).
pub proof fn drawn_positions_match_extmarks(ranges: Seq<HighlightRange>)
    requires
        ranges.len() <= usize::MAX,
    ensures
        drawn_positions(ranges).len() == extmarks_to_draw(ranges).len(),
        forall|i: int|
            0 <= i < drawn_positions(ranges).len() ==> {
                &&& 0 <= #[trigger] drawn_positions(ranges)[i] < ranges.len()
                &&& !ranges[drawn_positions(ranges)[i] as int].was_dropped
                &&& extmarks_to_draw(ranges)[i] == extmark_of(
                    ranges[drawn_positions(ranges)[i] as int],
                )
            },
    decreases ranges.len(),
{
    if ranges.len() > 0 {
        let rest = ranges.drop_last();
        drawn_positions_match_extmarks(rest);
        let d = drawn_positions(ranges);
        let e = extmarks_to_draw(ranges);
        assert forall|i: int| 0 <= i < d.len() implies {
            &&& 0 <= #[trigger] d[i] < ranges.len()
            &&& !ranges[d[i] as int].was_dropped
            &&& e[i] == extmark_of(ranges[d[i] as int])
        } by {
            if i < drawn_positions(rest).len() {
                assert(d[i] == drawn_positions(rest)[i]);
                assert(e[i] == extmarks_to_draw(rest)[i]);
                assert(0 <= drawn_positions(rest)[i] < rest.len());
                assert(ranges[d[i] as int] == rest[d[i] as int]);
            } else {
                assert(!ranges.last().was_dropped);
                assert(d[i] == ranges.len() - 1);
            }
        }
    }
}

/// What a redraw does with the ranges of a buffer, in the order the buffer
/// holds them: the extmarks to draw, the positions of the ranges to forget,
/// and the positions of the ranges that the extmarks come from.
pub fn redraw_plan(ranges: &Vec<HighlightRange>) -> (plan: (Vec<Extmark>, Vec<usize>, Vec<usize>))
    ensures
        plan.0@ == extmarks_to_draw(ranges@),
        plan.1@ == dropped_positions(ranges@),
        plan.2@ == drawn_positions(ranges@),
{
    let n = ranges.len();
    let mut draw: Vec<Extmark> = Vec::new();
    let mut dropped: Vec<usize> = Vec::new();
    let mut drawn: Vec<usize> = Vec::new();
    let mut i: usize = 0;
    while i < n
        invariant
            n == ranges@.len(),
            i <= n,
            draw@ == extmarks_to_draw(ranges@.subrange(0, i as int)),
            dropped@ == dropped_positions(ranges@.subrange(0, i as int)),
            drawn@ == drawn_positions(ranges@.subrange(0, i as int)),
        decreases n - i,
    {
        let range = ranges[i];
        proof {
            let prefix = ranges@.subrange(0, i + 1);
            assert(prefix.drop_last() =~= ranges@.subrange(0, i as int));
            assert(prefix.last() == ranges@[i as int]);
        }
        if range.was_dropped {
            dropped.push(i);
        } else {
            draw.push(Extmark { extmark_id: range.extmark_id, start: range.start, end: range.end });
            drawn.push(i);
        }
        i += 1;
    }
    proof {
        assert(ranges@.subrange(0, n as int) =~= ranges@);
    }
    (draw, dropped, drawn)
}

/// Whether a redraw cycle has anything to draw: some buffer has ranges.
pub fn should_redraw(num_buffers_with_ranges: usize) -> (redraw: bool)
    ensures
        redraw == (num_buffers_with_ranges > 0),
{
    num_buffers_with_ranges > 0
}

} // verus!
