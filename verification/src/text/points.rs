//! Conversions between byte offsets of a text and points, that is line
//! indices and byte columns.

use vstd::prelude::*;

use super::rope::{
    is_char_boundary_at,
    rope_byte_len,
    rope_is_char_boundary,
    is_line_start,
    newlines_before,
    rope_byte_of_line,
    rope_bytes,
    rope_line_of_byte,
};
use crate::neovim::buffer_edited::Point;

verus! {

/// The number of bytes between the last newline among the first `end` bytes
/// (or the beginning of the bytes) and `end`: the column of offset `end`.
pub open spec fn column_at(bytes: Seq<u8>, end: int) -> nat
    decreases end,
{
    if end <= 0 {
        0
    } else if bytes[end - 1] == 10u8 {
        0
    } else {
        column_at(bytes, end - 1) + 1
    }
}

/// More bytes hold at least as many newlines.
pub proof fn lemma_newlines_monotone(bytes: Seq<u8>, i: int, j: int)
    requires
        0 <= i <= j,
    ensures
        newlines_before(bytes, i) <= newlines_before(bytes, j),
    decreases j - i,
{
    if i < j {
        lemma_newlines_monotone(bytes, i, j - 1);
    }
}

/// The start of the line that holds offset `end` lies at or before `end`,
/// and `end` lies `column_at(bytes, end)` bytes after it.
pub proof fn lemma_line_start_before(bytes: Seq<u8>, start: int, end: int)
    requires
        0 <= end <= bytes.len(),
        is_line_start(bytes, start, newlines_before(bytes, end)),
    ensures
        start <= end,
        column_at(bytes, end) == end - start,
    decreases end,
{
    if start > end {
        lemma_newlines_monotone(bytes, end, start - 1);
        assert(newlines_before(bytes, start) == newlines_before(bytes, start - 1) + 1);
    } else if start < end {
        lemma_newlines_monotone(bytes, start, end - 1);
        assert(newlines_before(bytes, end - 1) == newlines_before(bytes, end));
        lemma_line_start_before(bytes, start, end - 1);
    }
}

/// A line starts at one offset only.
pub proof fn lemma_line_start_unique(bytes: Seq<u8>, s1: int, s2: int, line: nat)
    requires
        is_line_start(bytes, s1, line),
        is_line_start(bytes, s2, line),
    ensures
        s1 == s2,
{
    if s1 < s2 {
        lemma_newlines_monotone(bytes, s1, s2 - 1);
        assert(newlines_before(bytes, s2) == newlines_before(bytes, s2 - 1) + 1);
    } else if s2 < s1 {
        lemma_newlines_monotone(bytes, s2, s1 - 1);
        assert(newlines_before(bytes, s1) == newlines_before(bytes, s1 - 1) + 1);
    }
}

/// The point of a byte offset of the rope's text, which must lie on a
/// character boundary: its line index is the number of newlines before it,
/// its column the number of bytes since the last of them.
pub fn point_of_offset(rope: &crop::Rope, offset: usize) -> (point: Point)
    requires
        offset <= rope_bytes(*rope).len(),
        is_char_boundary_at(rope_bytes(*rope), offset as int),
    ensures
        point.line_idx == newlines_before(rope_bytes(*rope), offset as int),
        point.byte_offset == column_at(rope_bytes(*rope), offset as int),
{
    let ghost bytes = rope_bytes(*rope);
    let line = rope_line_of_byte(rope, offset);
    proof {
        lemma_newlines_monotone(bytes, offset as int, bytes.len() as int);
    }
    let start = rope_byte_of_line(rope, line);
    proof {
        lemma_line_start_before(bytes, start as int, offset as int);
    }
    Point { line_idx: line, byte_offset: offset - start }
}

/// The byte offset of a point of the rope's text: `point.byte_offset` bytes
/// after the start of line `point.line_idx`. The line must be one of the
/// text's lines.
pub fn offset_of_point(rope: &crop::Rope, point: Point) -> (offset: usize)
    requires
        point.line_idx <= newlines_before(rope_bytes(*rope), rope_bytes(*rope).len() as int),
        rope_bytes(*rope).len() + point.byte_offset <= usize::MAX,
    ensures
        offset >= point.byte_offset,
        is_line_start(
            rope_bytes(*rope),
            offset - point.byte_offset,
            point.line_idx as nat,
        ),
{
    let start = rope_byte_of_line(rope, point.line_idx);
    start + point.byte_offset
}

/// The point of a byte offset of the rope's text, as `point_of_offset`
/// gives it, or nothing when the offset lies past the end of the text or
/// inside a character.
pub fn try_point_of_offset(rope: &crop::Rope, offset: usize) -> (point: Option<Point>)
    ensures
        point is Some <==> offset <= rope_bytes(*rope).len() && is_char_boundary_at(
            rope_bytes(*rope),
            offset as int,
        ),
        point matches Some(p) ==> {
            &&& p.line_idx == newlines_before(rope_bytes(*rope), offset as int)
            &&& p.byte_offset == column_at(rope_bytes(*rope), offset as int)
        },
{
    if offset > rope_byte_len(rope) || !rope_is_char_boundary(rope, offset) {
        return None;
    }
    Some(point_of_offset(rope, offset))
}

/// The byte offset of a point of the rope's text, as `offset_of_point`
/// gives it, or nothing when the point's line is not one of the text's
/// lines or the offset would not fit in a `usize`.
pub fn try_offset_of_point(rope: &crop::Rope, point: Point) -> (offset: Option<usize>)
    ensures
        offset is Some <==> point.line_idx <= newlines_before(
            rope_bytes(*rope),
            rope_bytes(*rope).len() as int,
        ) && rope_bytes(*rope).len() + point.byte_offset <= usize::MAX,
        offset matches Some(o) ==> {
            &&& o >= point.byte_offset
            &&& is_line_start(rope_bytes(*rope), o - point.byte_offset, point.line_idx as nat)
        },
{
    let len = rope_byte_len(rope);
    let lines = rope_line_of_byte(rope, len);
    if point.line_idx > lines || point.byte_offset > usize::MAX - len {
        return None;
    }
    Some(offset_of_point(rope, point))
}

/// A byte offset turned into a point and back is the same offset: for the
/// point of `offset` (its line and column), the offset that lies `column`
/// bytes after the start of that line is `offset`.
pub proof fn offset_point_round_trip(bytes: Seq<u8>, offset: int, back: int)
    requires
        0 <= offset <= bytes.len(),
        back >= column_at(bytes, offset),
        is_line_start(bytes, back - column_at(bytes, offset), newlines_before(bytes, offset)),
    ensures
        back == offset,
{
    lemma_line_start_before(bytes, back - column_at(bytes, offset), offset);
}

/// A point turned into an offset and back is the same point, when its
/// column stays within its line: no newline lies between the start of the
/// line and the column.
pub proof fn point_offset_round_trip(bytes: Seq<u8>, start: int, line: nat, column: nat)
    requires
        is_line_start(bytes, start, line),
        start + column <= bytes.len(),
        forall|i: int| start <= i < start + column ==> bytes[i] != 10u8,
    ensures
        newlines_before(bytes, start + column) == line,
        column_at(bytes, start + column) == column,
    decreases column,
{
    if column > 0 {
        point_offset_round_trip(bytes, start, line, (column - 1) as nat);
        assert(bytes[start + column - 1] != 10u8);
    }
}

} // verus!
