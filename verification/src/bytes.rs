//! Comparing byte strings and lists of them.

use vstd::prelude::*;

verus! {

/// The byte strings that a list of borrowed byte strings holds.
pub open spec fn slices_view(list: Seq<&[u8]>) -> Seq<Seq<u8>> {
    Seq::new(list.len(), |i: int| list[i]@)
}

/// The bytes of an optional byte string.
pub open spec fn optional_bytes(bytes: Option<&[u8]>) -> Option<Seq<u8>> {
    match bytes {
        Some(b) => Some(b@),
        None => None,
    }
}

/// Whether two byte strings hold the same bytes.
pub fn bytes_eq(a: &[u8], b: &[u8]) -> (equal: bool)
    ensures
        equal == (a@ == b@),
{
    if a.len() != b.len() {
        return false;
    }
    let mut i: usize = 0;
    while i < a.len()
        invariant
            a@.len() == b@.len(),
            i <= a@.len(),
            a@.take(i as int) == b@.take(i as int),
        decreases a@.len() - i,
    {
        if a[i] != b[i] {
            return false;
        }
        assert(a@.take(i + 1) =~= a@.take(i as int).push(a@[i as int]));
        assert(b@.take(i + 1) =~= b@.take(i as int).push(b@[i as int]));
        i += 1;
    }
    assert(a@ =~= a@.take(i as int));
    assert(b@ =~= b@.take(i as int));
    true
}

/// Whether two optional byte strings are both absent, or both present with
/// the same bytes.
pub fn optional_bytes_eq(a: Option<&[u8]>, b: Option<&[u8]>) -> (equal: bool)
    ensures
        equal == (optional_bytes(a) == optional_bytes(b)),
{
    match (a, b) {
        (Some(x), Some(y)) => bytes_eq(x, y),
        (None, None) => true,
        _ => false,
    }
}

/// Whether two lists hold the same byte strings in the same order.
pub fn slices_eq(a: &Vec<&[u8]>, b: &Vec<&[u8]>) -> (equal: bool)
    ensures
        equal == (slices_view(a@) == slices_view(b@)),
{
    if a.len() != b.len() {
        assert(slices_view(a@).len() != slices_view(b@).len());
        return false;
    }
    let mut i: usize = 0;
    while i < a.len()
        invariant
            a@.len() == b@.len(),
            i <= a@.len(),
            forall|j: int| 0 <= j < i ==> a@[j]@ == b@[j]@,
        decreases a@.len() - i,
    {
        if !bytes_eq(a[i], b[i]) {
            assert(slices_view(a@)[i as int] != slices_view(b@)[i as int]);
            return false;
        }
        i += 1;
    }
    assert(slices_view(a@) =~= slices_view(b@));
    true
}

} // verus!
