//! Replacements: an edit that replaces a range of a text with new text.

use vstd::prelude::*;
use vstd::utf8::encode_utf8;

verus! {

/// An edit that replaces the range `start..end` with `text`. The offsets are
/// of type `T`: byte offsets, points, or anything else that locates a
/// position in a buffer.
pub struct Replacement<T> {
    start: T,
    end: T,
    text: String,
}

impl<T: Copy> Replacement<T> {
    /// The start of the replaced range.
    pub closed spec fn spec_start(&self) -> T {
        self.start
    }

    /// The end of the replaced range.
    pub closed spec fn spec_end(&self) -> T {
        self.end
    }

    /// The inserted text.
    pub closed spec fn spec_text(&self) -> Seq<char> {
        self.text@
    }

    /// The UTF-8 bytes of the inserted text.
    pub open spec fn spec_bytes(&self) -> Seq<u8> {
        encode_utf8(self.spec_text())
    }

    /// A replacement of `start..end` with `text`.
    pub fn new(start: T, end: T, text: &str) -> (repl: Self)
        ensures
            repl.spec_start() == start,
            repl.spec_end() == end,
            repl.spec_text() == text@,
    {
        Replacement { start, end, text: text.to_owned() }
    }

    /// A replacement that inserts `text` at `at` without deleting anything.
    pub fn insertion(at: T, text: &str) -> (repl: Self)
        ensures
            repl.spec_start() == at,
            repl.spec_end() == at,
            repl.spec_text() == text@,
    {
        Replacement { start: at, end: at, text: text.to_owned() }
    }

    /// A replacement that deletes `start..end` without inserting anything.
    pub fn deletion(start: T, end: T) -> (repl: Self)
        ensures
            repl.spec_start() == start,
            repl.spec_end() == end,
            repl.spec_text() == Seq::<char>::empty(),
    {
        Replacement { start, end, text: String::new() }
    }

    /// The start of the replaced range.
    pub fn start(&self) -> (start: T)
        ensures
            start == self.spec_start(),
    {
        self.start
    }

    /// The end of the replaced range.
    pub fn end(&self) -> (end: T)
        ensures
            end == self.spec_end(),
    {
        self.end
    }

    /// The inserted text.
    pub fn text(&self) -> (text: &str)
        ensures
            text@ == self.spec_text(),
    {
        self.text.as_str()
    }

    /// The same replacement over another range.
    pub fn with_range<U: Copy>(&self, start: U, end: U) -> (repl: Replacement<U>)
        ensures
            repl.spec_start() == start,
            repl.spec_end() == end,
            repl.spec_text() == self.spec_text(),
    {
        Replacement { start, end, text: self.text.as_str().to_owned() }
    }
}

} // verus!
