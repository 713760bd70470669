//! Buffer edits reported by Neovim's `on_bytes` callback.

use vstd::prelude::*;
use vstd::utf8::encode_utf8;

use crate::ids::ActorId;
use crate::strings::str_eq;
use crate::text::replacement::Replacement;

verus! {

/// A position in a buffer: a line index and a byte offset in that line.
#[derive(Clone, Copy, Debug, PartialEq, Eq, Structural)]
pub struct Point {
    pub line_idx: usize,
    pub byte_offset: usize,
}

/// The numeric arguments that Neovim passes to an `on_bytes` callback, in
/// Neovim's order (the changed bytes and the buffer handle aside).
#[derive(Clone, Copy, Debug, PartialEq, Eq, Structural)]
pub struct OnBytesArgs {
    pub changedtick: u32,
    pub start_row: usize,
    pub start_col: usize,
    pub start_offset: usize,
    pub old_end_row: usize,
    pub old_end_col: usize,
    pub old_end_len: usize,
    pub new_end_row: usize,
    pub new_end_col: usize,
    pub new_end_len: usize,
}

/// The replacements of an edit, in order, held in a `smallvec::SmallVec`
/// that keeps up to two of them inline.
#[verifier::external_body]
pub struct Replacements {
    inner: smallvec::SmallVec<[Replacement<usize>; 2]>,
}

/// The replacements that `replacements` holds, in order.
pub uninterp spec fn replacements_held(replacements: Replacements) -> Seq<Replacement<usize>>;

/// `SmallVec::new`: no replacement.
#[verifier::external_body]
fn replacements_new() -> (replacements: Replacements)
    ensures
        replacements_held(replacements) == Seq::<Replacement<usize>>::empty(),
{
    Replacements { inner: smallvec::SmallVec::new() }
}

/// `SmallVec::push`: appends a replacement.
#[verifier::external_body]
fn replacements_push(replacements: &mut Replacements, replacement: Replacement<usize>)
    ensures
        replacements_held(*final(replacements)) == replacements_held(*old(replacements)).push(
            replacement,
        ),
{
    replacements.inner.push(replacement)
}

/// `SmallVec::len`: the number of replacements.
#[verifier::external_body]
fn replacements_len(replacements: &Replacements) -> (len: usize)
    ensures
        len == replacements_held(*replacements).len(),
{
    replacements.inner.len()
}

/// `SmallVec::as_slice`: the replacements as a slice.
#[verifier::external_body]
fn replacements_slice(replacements: &Replacements) -> (slice: &[Replacement<usize>])
    ensures
        slice@ == replacements_held(*replacements),
{
    replacements.inner.as_slice()
}

impl Replacements {
    /// The replacements, in order.
    pub open spec fn view_seq(&self) -> Seq<Replacement<usize>> {
        replacements_held(*self)
    }

    /// No replacement.
    pub fn new() -> (replacements: Replacements)
        ensures
            replacements.view_seq() == Seq::<Replacement<usize>>::empty(),
    {
        replacements_new()
    }

    /// Appends a replacement.
    pub fn push(&mut self, replacement: Replacement<usize>)
        ensures
            final(self).view_seq() == old(self).view_seq().push(replacement),
    {
        replacements_push(self, replacement)
    }

    /// The number of replacements.
    pub fn len(&self) -> (len: usize)
        ensures
            len == self.view_seq().len(),
    {
        replacements_len(self)
    }

    /// The replacements as a slice, in order.
    pub fn as_slice(&self) -> (slice: &[Replacement<usize>])
        ensures
            slice@ == self.view_seq(),
    {
        replacements_slice(self)
    }
}

/// An edit: the replacements it made, and who made it.
pub struct Edit {
    pub made_by: ActorId,
    pub replacements: Replacements,
}

/// The text `"\n"`.
pub open spec fn newline() -> Seq<char> {
    seq!['\n']
}

/// `fix_on_bytes_args` on plain values.
pub open spec fn spec_fix_on_bytes_args(args: OnBytesArgs, buffer_is_empty: bool) -> OnBytesArgs {
    if args.start_row == 0 && args.start_col == 0 && args.new_end_row == 1 && args.new_end_col == 0
        && buffer_is_empty {
        OnBytesArgs { new_end_row: 0, new_end_col: 0, new_end_len: 0, ..args }
    } else {
        args
    }
}

/// Fixes the arguments of `on_bytes` in the edge cases (like `dd` in a
/// buffer with a single line, or `dG` from the first line) where the whole
/// buffer was deleted but the new end position lies past it: the new end is
/// then reset to the start of the empty buffer.
pub fn fix_on_bytes_args(args: OnBytesArgs, buffer_is_empty: bool) -> (fixed: OnBytesArgs)
    ensures
        fixed == spec_fix_on_bytes_args(args, buffer_is_empty),
{
    if args.start_row == 0 && args.start_col == 0 && args.new_end_row == 1 && args.new_end_col == 0
        && buffer_is_empty {
        OnBytesArgs { new_end_row: 0, new_end_col: 0, new_end_len: 0, ..args }
    } else {
        args
    }
}

/// The byte range that an `on_bytes` edit deleted: from the start offset,
/// as long as the old end length.
pub fn deleted_range_of_on_bytes(args: &OnBytesArgs) -> (range: (usize, usize))
    requires
        args.start_offset + args.old_end_len <= usize::MAX,
    ensures
        range == (args.start_offset, (args.start_offset + args.old_end_len) as usize),
{
    (args.start_offset, args.start_offset + args.old_end_len)
}

/// The points between which an `on_bytes` edit inserted its text, or nothing
/// for a pure deletion. The end lies `new_end_row` lines below the start; on
/// the start line its column is counted from the start column, on a later
/// line from the line's beginning.
pub fn inserted_points_of_on_bytes(args: &OnBytesArgs) -> (points: Option<(Point, Point)>)
    requires
        args.start_row + args.new_end_row <= usize::MAX,
        args.start_col + args.new_end_col <= usize::MAX,
    ensures
        args.new_end_len == 0 <==> points is None,
        match points {
            Some((start, end)) => {
                &&& start == Point { line_idx: args.start_row, byte_offset: args.start_col }
                &&& end.line_idx == args.start_row + args.new_end_row
                &&& end.byte_offset == if args.new_end_row == 0 {
                    args.start_col + args.new_end_col
                } else {
                    args.new_end_col as int
                }
            },
            None => true,
        },
{
    if args.new_end_len == 0 {
        return None;
    }
    let start = Point { line_idx: args.start_row, byte_offset: args.start_col };
    let col = if args.new_end_row == 0 {
        args.start_col + args.new_end_col
    } else {
        args.new_end_col
    };
    let end = Point { line_idx: args.start_row + args.new_end_row, byte_offset: col };
    Some((start, end))
}

/// The replacement that an `on_bytes` edit made, given the text found
/// between its inserted points (ignored for a pure deletion).
pub fn replacement_of_on_bytes(args: &OnBytesArgs, inserted_text: &str) -> (repl: Replacement<
    usize,
>)
    requires
        args.start_offset + args.old_end_len <= usize::MAX,
    ensures
        repl.spec_start() == args.start_offset,
        repl.spec_end() == args.start_offset + args.old_end_len,
        repl.spec_text() == if args.new_end_len == 0 {
            Seq::<char>::empty()
        } else {
            inserted_text@
        },
{
    let (start, end) = deleted_range_of_on_bytes(args);
    if args.new_end_len == 0 {
        Replacement::deletion(start, end)
    } else {
        Replacement::new(start, end, inserted_text)
    }
}

/// Whether the text ends with a newline.
pub fn ends_with_newline(text: &str) -> (b: bool)
    ensures
        b == (text@.len() > 0 && text@.last() == '\n'),
{
    let n = text.unicode_len();
    n > 0 && text.get_char(n - 1) == '\n'
}

/// Whether Neovim writes a newline after the last line of a buffer, one
/// that is not part of the buffer's text: when 'endofline' is set, or when
/// 'fixendofline' is set and 'binary' is not.
pub fn has_uneditable_eol(eol: bool, fixeol: bool, binary: bool) -> (b: bool)
    ensures
        b == (eol || (fixeol && !binary)),
{
    eol || (fixeol && !binary)
}

/// Whether the buffer had, and has, a newline after its last line that is
/// not part of its text, once the option named `option` ('endofline',
/// 'fixendofline' or 'binary') changed from `old_value` to the current
/// values `eol`, `fixeol` and `binary`. A change to any other option changes
/// nothing.
pub fn uneditable_eol_change(
    option: &str,
    old_value: bool,
    eol: bool,
    fixeol: bool,
    binary: bool,
) -> (change: (bool, bool))
    ensures
        change.1 == (eol || (fixeol && !binary)),
        change.0 == if option@ == "endofline"@ {
            old_value || (fixeol && !binary)
        } else if option@ == "fixendofline"@ {
            eol || (old_value && !binary)
        } else if option@ == "binary"@ {
            eol || (fixeol && !old_value)
        } else {
            eol || (fixeol && !binary)
        },
{
    let new_value = has_uneditable_eol(eol, fixeol, binary);
    let old = if str_eq(option, "endofline") {
        has_uneditable_eol(old_value, fixeol, binary)
    } else if str_eq(option, "fixendofline") {
        has_uneditable_eol(eol, old_value, binary)
    } else if str_eq(option, "binary") {
        has_uneditable_eol(eol, fixeol, old_value)
    } else {
        new_value
    };
    (old, new_value)
}

/// The change that an edit makes to the end of line that is not part of the
/// buffer's text, as (start, end, inserted text): when the buffer has such
/// an end of line and the inserted text (of `inserted_len` bytes) does not
/// end with a newline, a buffer that goes from empty to not empty gains the
/// newline after the inserted text, and one that goes from not empty to
/// empty loses the newline at offset zero, unless the edit's old end column
/// is zero.
pub open spec fn spec_eol_change(
    has_uneditable_eol: bool,
    inserted: Seq<char>,
    inserted_len: int,
    num_bytes: usize,
    buffer_is_empty: bool,
    old_end_col: usize,
) -> Option<(int, int, Seq<char>)> {
    let applies = has_uneditable_eol && !(inserted.len() > 0 && inserted.last() == '\n');
    let was_empty = num_bytes == inserted_len + 1;
    if applies && was_empty && !buffer_is_empty {
        Some((inserted_len, inserted_len, newline()))
    } else if applies && !was_empty && buffer_is_empty && old_end_col != 0 {
        Some((0, 1, Seq::<char>::empty()))
    } else {
        None
    }
}

/// Whether the buffer was empty before an edit is decided in bytes: a
/// buffer that is not empty now gains the newline exactly when it has one
/// that is not part of its text, the inserted text does not end with a
/// newline, and all its bytes are the inserted bytes plus that newline; the
/// newline then goes right after the inserted bytes, whatever characters
/// the text holds.
pub proof fn eol_added_after_inserted_bytes(
    has_uneditable_eol: bool,
    inserted: Seq<char>,
    num_bytes: usize,
    old_end_col: usize,
)
    ensures
        spec_eol_change(
            has_uneditable_eol,
            inserted,
            encode_utf8(inserted).len() as int,
            num_bytes,
            false,
            old_end_col,
        ) is Some <==> (has_uneditable_eol && !(inserted.len() > 0 && inserted.last() == '\n')
            && num_bytes == encode_utf8(inserted).len() + 1),
        has_uneditable_eol && !(inserted.len() > 0 && inserted.last() == '\n') && num_bytes
            == encode_utf8(inserted).len() + 1 ==> spec_eol_change(
            has_uneditable_eol,
            inserted,
            encode_utf8(inserted).len() as int,
            num_bytes,
            false,
            old_end_col,
        ) == Some(
            (encode_utf8(inserted).len() as int, encode_utf8(inserted).len() as int, newline()),
        ),
{
}

/// A buffer that is empty after an edit loses the newline that is not part
/// of its text, at offset zero, exactly when it has one, the inserted text
/// does not end with a newline, its bytes before were not just the inserted
/// bytes plus that newline, and the edit's old end column is not zero.
pub proof fn eol_removed_when_emptied(
    has_uneditable_eol: bool,
    inserted: Seq<char>,
    num_bytes: usize,
    old_end_col: usize,
)
    ensures
        spec_eol_change(
            has_uneditable_eol,
            inserted,
            encode_utf8(inserted).len() as int,
            num_bytes,
            true,
            old_end_col,
        ) == if has_uneditable_eol && !(inserted.len() > 0 && inserted.last() == '\n')
            && num_bytes != encode_utf8(inserted).len() + 1 && old_end_col != 0 {
            Some((0int, 1int, Seq::<char>::empty()))
        } else {
            None
        },
{
}

/// Whether the replacement replaces `change.0..change.1` with `change.2`.
pub open spec fn replacement_is(replacement: Replacement<usize>, change: (int, int, Seq<char>)) -> bool {
    &&& replacement.spec_start() == change.0
    &&& replacement.spec_end() == change.1
    &&& replacement.spec_text() =~= change.2
}

/// The replacement that Neovim's uneditable trailing newline adds to an
/// edit, if any. When the buffer has one and the inserted text does not end
/// with a newline: a buffer that goes from empty (all its bytes are the
/// inserted text plus the newline) to not empty gains the newline after the
/// inserted text; a buffer that goes from not empty to empty loses the
/// newline at offset zero, unless the edit's old end column is zero, in
/// which case the edit already deleted it.
pub fn eol_replacement(
    has_uneditable_eol: bool,
    inserted_text: &str,
    num_bytes: usize,
    buffer_is_empty: bool,
    old_end_col: usize,
) -> (repl: Option<Replacement<usize>>)
    requires
        inserted_text.len() < usize::MAX,
    ensures
        match spec_eol_change(
            has_uneditable_eol,
            inserted_text@,
            inserted_text.len() as int,
            num_bytes,
            buffer_is_empty,
            old_end_col,
        ) {
            Some(change) => repl matches Some(r) && replacement_is(r, change),
            None => repl is None,
        },
{
    if has_uneditable_eol && !ends_with_newline(inserted_text) {
        let len = inserted_text.len();
        let was_empty = num_bytes == len + 1;
        if was_empty && !buffer_is_empty {
            let nl = "\n";
            proof {
                reveal_strlit("\n");
            }
            Some(Replacement::insertion(len, nl))
        } else if !was_empty && buffer_is_empty {
            if old_end_col == 0 {
                None
            } else {
                Some(Replacement::deletion(0, 1))
            }
        } else {
            None
        }
    } else {
        None
    }
}

/// The edit that an `on_bytes` callback reports: its replacement, followed by
/// the end-of-line replacement if there is one, made by `made_by`.
pub fn edit_of_on_bytes(
    made_by: ActorId,
    replacement: Replacement<usize>,
    eol: Option<Replacement<usize>>,
) -> (edit: Edit)
    ensures
        edit.made_by == made_by,
        edit.replacements.view_seq() == match eol {
            Some(extra) => seq![replacement, extra],
            None => seq![replacement],
        },
{
    let mut replacements = Replacements::new();
    replacements.push(replacement);
    if let Some(extra) = eol {
        replacements.push(extra);
    }
    proof {
        assert(replacements.view_seq() =~= match eol {
            Some(extra) => seq![replacement, extra],
            None => seq![replacement],
        });
    }
    Edit { made_by, replacements }
}

/// The replacement that a change of the `fixeol` option makes to a buffer of
/// `num_bytes` bytes, if any. An empty buffer has no end of line to change.
/// Turning the option off deletes the trailing newline at `num_bytes`;
/// turning it on inserts one before the last byte.
pub fn fixeol_replacement(num_bytes: usize, old_value: bool, new_value: bool) -> (repl: Option<
    Replacement<usize>,
>)
    requires
        num_bytes < usize::MAX,
    ensures
        if num_bytes == 0 || old_value == new_value {
            repl is None
        } else if old_value {
            repl is Some && repl->0.spec_start() == num_bytes && repl->0.spec_end() == num_bytes
                + 1 && repl->0.spec_text() == Seq::<char>::empty()
        } else {
            repl is Some && repl->0.spec_start() == num_bytes - 1 && repl->0.spec_end()
                == num_bytes - 1 && repl->0.spec_text() == newline()
        },
{
    if num_bytes == 0 {
        return None;
    }
    if old_value && !new_value {
        Some(Replacement::deletion(num_bytes, num_bytes + 1))
    } else if !old_value && new_value {
        let nl = "\n";
        proof {
            reveal_strlit("\n");
        }
        Some(Replacement::insertion(num_bytes - 1, nl))
    } else {
        None
    }
}

} // verus!
