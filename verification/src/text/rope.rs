//! The text of a buffer, held in a `crop::Rope`.
//!
//! A rope is a sequence of UTF-8 bytes. Its offsets are byte offsets, and the
//! editing methods only accept offsets that lie on a character boundary.

use vstd::prelude::*;
use vstd::utf8::encode_utf8;

verus! {

#[verifier::external_type_specification]
#[verifier::external_body]
pub struct ExRope(crop::Rope);

/// The bytes that a rope holds.
pub uninterp spec fn rope_bytes(rope: crop::Rope) -> Seq<u8>;

/// Whether `offset` lies on a character boundary of the UTF-8 `bytes`: it is
/// the end of the bytes, or the byte there is not a continuation byte.
pub open spec fn is_char_boundary_at(bytes: Seq<u8>, offset: int) -> bool {
    offset == bytes.len() || (0 <= offset < bytes.len() && !(0x80 <= bytes[offset] < 0xc0))
}

/// The bytes obtained by replacing `bytes[start..end]` with `inserted`.
pub open spec fn splice(bytes: Seq<u8>, start: int, end: int, inserted: Seq<u8>) -> Seq<u8> {
    bytes.subrange(0, start) + inserted + bytes.subrange(end, bytes.len() as int)
}

/// Whether `start..end` is a range of `bytes` whose ends lie on character
/// boundaries.
pub open spec fn is_char_range(bytes: Seq<u8>, start: int, end: int) -> bool {
    &&& 0 <= start <= end <= bytes.len()
    &&& is_char_boundary_at(bytes, start)
    &&& is_char_boundary_at(bytes, end)
}

/// The number of newline bytes among the first `end` bytes.
pub open spec fn newlines_before(bytes: Seq<u8>, end: int) -> nat
    decreases end,
{
    if end <= 0 {
        0
    } else {
        newlines_before(bytes, end - 1) + if bytes[end - 1] == 10u8 {
            1nat
        } else {
            0nat
        }
    }
}

/// Whether the line with index `line` starts at byte `start`: `start` is
/// the beginning of the bytes or follows a newline, and `line` newlines come
/// before it.
pub open spec fn is_line_start(bytes: Seq<u8>, start: int, line: nat) -> bool {
    &&& 0 <= start <= bytes.len()
    &&& newlines_before(bytes, start) == line
    &&& (start == 0 || bytes[start - 1] == 10u8)
}

/// `crop::Rope::from(&str)`: a rope holding the UTF-8 bytes of `text`.
#[verifier::external_body]
pub(crate) fn rope_from_str(text: &str) -> (rope: crop::Rope)
    ensures
        rope_bytes(rope) == encode_utf8(text@),
{
    crop::Rope::from(text)
}

/// `crop::Rope::byte_len`: the number of bytes in the rope.
#[verifier::external_body]
pub(crate) fn rope_byte_len(rope: &crop::Rope) -> (n: usize)
    ensures
        n == rope_bytes(*rope).len(),
{
    rope.byte_len()
}

/// `crop::Rope::is_char_boundary`: whether the byte offset lies on a
/// character boundary. The rope panics on an offset past its end, which the
/// precondition rules out.
#[verifier::external_body]
pub(crate) fn rope_is_char_boundary(rope: &crop::Rope, offset: usize) -> (b: bool)
    requires
        offset <= rope_bytes(*rope).len(),
    ensures
        b == is_char_boundary_at(rope_bytes(*rope), offset as int),
{
    rope.is_char_boundary(offset)
}

/// `crop::Rope::replace`: replaces the bytes in `start..end` with the bytes
/// of `text`. The rope panics when the range is reversed, out of bounds or
/// not on character boundaries, which the precondition rules out.
#[verifier::external_body]
pub(crate) fn rope_replace(rope: &mut crop::Rope, start: usize, end: usize, text: &str)
    requires
        is_char_range(rope_bytes(*old(rope)), start as int, end as int),
    ensures
        rope_bytes(*final(rope)) == splice(
            rope_bytes(*old(rope)),
            start as int,
            end as int,
            encode_utf8(text@),
        ),
{
    rope.replace(start..end, text)
}

/// `crop::Rope::insert`: inserts the bytes of `text` at `offset`. The rope
/// panics when the offset is out of bounds or not on a character boundary,
/// which the precondition rules out.
#[verifier::external_body]
pub(crate) fn rope_insert(rope: &mut crop::Rope, offset: usize, text: &str)
    requires
        is_char_range(rope_bytes(*old(rope)), offset as int, offset as int),
    ensures
        rope_bytes(*final(rope)) == splice(
            rope_bytes(*old(rope)),
            offset as int,
            offset as int,
            encode_utf8(text@),
        ),
{
    rope.insert(offset, text)
}

/// `crop::Rope::delete`: removes the bytes in `start..end`. The rope panics
/// when the range is reversed, out of bounds or not on character boundaries,
/// which the precondition rules out.
#[verifier::external_body]
pub(crate) fn rope_delete(rope: &mut crop::Rope, start: usize, end: usize)
    requires
        is_char_range(rope_bytes(*old(rope)), start as int, end as int),
    ensures
        rope_bytes(*final(rope)) == splice(
            rope_bytes(*old(rope)),
            start as int,
            end as int,
            Seq::empty(),
        ),
{
    rope.delete(start..end)
}

/// `crop::Rope::line_of_byte`: the index of the line holding the byte
/// offset, which is the number of newlines before it. The rope panics on an
/// offset past its end or inside a character, which the precondition rules
/// out.
#[verifier::external_body]
pub(crate) fn rope_line_of_byte(rope: &crop::Rope, offset: usize) -> (line: usize)
    requires
        offset <= rope_bytes(*rope).len(),
        is_char_boundary_at(rope_bytes(*rope), offset as int),
    ensures
        line == newlines_before(rope_bytes(*rope), offset as int),
{
    rope.line_of_byte(offset)
}

/// `crop::Rope::byte_of_line`: the byte offset where the line with the given
/// index starts, just after the newline that ends the line before it. Only
/// indices up to the number of newlines are passed, which the precondition
/// states; the rope panics only on indices past its line count.
#[verifier::external_body]
pub(crate) fn rope_byte_of_line(rope: &crop::Rope, line: usize) -> (start: usize)
    requires
        line <= newlines_before(rope_bytes(*rope), rope_bytes(*rope).len() as int),
    ensures
        is_line_start(rope_bytes(*rope), start as int, line as nat),
{
    rope.byte_of_line(line)
}

/// `<crop::Rope as Clone>::clone`: a rope holding the same bytes.
#[verifier::external_body]
pub(crate) fn rope_clone(rope: &crop::Rope) -> (copy: crop::Rope)
    ensures
        rope_bytes(copy) == rope_bytes(*rope),
{
    rope.clone()
}

} // verus!
