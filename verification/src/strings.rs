//! Comparisons of string slices.

use vstd::prelude::*;
use vstd::utf8::encode_utf8;

verus! {

/// Whether the two strings hold the same characters.
pub fn str_eq(a: &str, b: &str) -> (eq: bool)
    ensures
        eq == (a@ == b@),
{
    let n = a.unicode_len();
    let m = b.unicode_len();
    if n != m {
        return false;
    }
    let mut i: usize = 0;
    while i < n
        invariant
            n == a@.len(),
            m == b@.len(),
            n == m,
            i <= n,
            forall|j: int| 0 <= j < i ==> a@[j] == b@[j],
        decreases n - i,
    {
        if a.get_char(i) != b.get_char(i) {
            return false;
        }
        i += 1;
    }
    assert(a@ =~= b@);
    true
}

/// The order between two names.
#[derive(Clone, Copy, Debug, PartialEq, Eq, Structural)]
pub enum NameOrder {
    Less,
    Equal,
    Greater,
}

/// The lexicographic order of two byte sequences, as `str`'s `Ord` compares
/// the UTF-8 bytes: the first differing byte decides, and otherwise the
/// shorter sequence comes first.
pub open spec fn bytes_order(a: Seq<u8>, b: Seq<u8>) -> NameOrder
    decreases a.len(),
{
    if a.len() == 0 && b.len() == 0 {
        NameOrder::Equal
    } else if a.len() == 0 {
        NameOrder::Less
    } else if b.len() == 0 {
        NameOrder::Greater
    } else if a[0] < b[0] {
        NameOrder::Less
    } else if a[0] > b[0] {
        NameOrder::Greater
    } else {
        bytes_order(a.drop_first(), b.drop_first())
    }
}

/// The order of two strings by their UTF-8 bytes.
pub open spec fn str_order(a: Seq<char>, b: Seq<char>) -> NameOrder {
    bytes_order(encode_utf8(a), encode_utf8(b))
}

/// Compares two strings by their UTF-8 bytes.
pub fn compare_strs(a: &str, b: &str) -> (order: NameOrder)
    ensures
        order == str_order(a@, b@),
{
    let x = a.as_bytes();
    let y = b.as_bytes();
    let n = x.len();
    let m = y.len();
    let mut i: usize = 0;
    assert(x@.subrange(0, n as int) =~= x@);
    assert(y@.subrange(0, m as int) =~= y@);
    while i < n && i < m
        invariant
            n == x@.len(),
            m == y@.len(),
            x@ == encode_utf8(a@),
            y@ == encode_utf8(b@),
            i <= n,
            i <= m,
            bytes_order(x@, y@) == bytes_order(x@.subrange(i as int, n as int), y@.subrange(
                i as int,
                m as int,
            )),
        decreases n - i,
    {
        let ghost xs = x@.subrange(i as int, n as int);
        let ghost ys = y@.subrange(i as int, m as int);
        assert(xs[0] == x@[i as int]);
        assert(ys[0] == y@[i as int]);
        if x[i] < y[i] {
            return NameOrder::Less;
        }
        if x[i] > y[i] {
            return NameOrder::Greater;
        }
        assert(xs.drop_first() =~= x@.subrange(i + 1, n as int));
        assert(ys.drop_first() =~= y@.subrange(i + 1, m as int));
        i += 1;
    }
    proof {
        assert(x@.subrange(0, n as int) =~= x@);
        assert(y@.subrange(0, m as int) =~= y@);
    }
    if n == m {
        NameOrder::Equal
    } else if i == n {
        NameOrder::Less
    } else {
        NameOrder::Greater
    }
}

} // verus!
