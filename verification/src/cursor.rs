//! A cursor over the indices of a counted array.

use vstd::prelude::*;
use crate::walk::Walk;
use crate::walk::MAX_POSITION;

verus! {

/// The indices `0, 1, .., count - 1`, in order.
pub open spec fn indices(count: nat) -> Seq<u32> {
    Seq::new(count, |i: int| i as u32)
}

/// A lazy iterator over the indices of an array of `count` elements.
///
/// The count is taken once, when the cursor is made. The cursor never yields
/// an index at or above it.
#[derive(Clone, Copy, Debug)]
pub struct Cursor {
    /// Element count. When `current >= count` the cursor is done.
    count: u32,
    /// The index that the next step yields.
    current: u32,
}

impl View for Cursor {
    type V = Walk<u32>;

    closed spec fn view(&self) -> Walk<u32> {
        Walk { items: indices(self.count as nat), pos: self.current as nat }
    }
}

impl Cursor {
    /// The number of elements of the array that the cursor walks.
    pub open spec fn total(&self) -> nat {
        self@.items.len()
    }

    /// A cursor before the first of `count` indices.
    pub fn new(count: u32) -> (cursor: Cursor)
        ensures
            cursor@ == Walk::fresh(indices(count as nat)),
    {
        Cursor { count, current: 0 }
    }

    /// Yields the index at the position and moves one further; yields nothing
    /// once the indices are used up, and then stays where it is.
    pub fn next(&mut self) -> (index: Option<u32>)
        ensures
            index == old(self)@.peek(),
            final(self)@ == old(self)@.step(),
            index matches Some(i) ==> i < old(self).total() && i == old(self)@.pos,
    {
        if self.current < self.count {
            let index = self.current;
            self.current = self.current.saturating_add(1);
            Some(index)
        } else {
            None
        }
    }

    /// Moves to position `n`, or to the largest position if `n` lies beyond
    /// it, and then yields as `next` does.
    pub fn nth(&mut self, n: usize) -> (index: Option<u32>)
        ensures
            index == old(self)@.seek(n as nat).peek(),
            final(self)@ == old(self)@.seek(n as nat).step(),
            index matches Some(i) ==> i < old(self).total() && i == n,
            index is Some <==> n < old(self).total(),
    {
        self.current = if n > MAX_POSITION as usize {
            MAX_POSITION
        } else {
            n as u32
        };
        self.next()
    }

    /// Yields the last index, or nothing if there is no index at all.
    pub fn last(self) -> (index: Option<u32>)
        ensures
            index == self@.seek_last().peek(),
            index matches Some(i) ==> i + 1 == self.total(),
            index is Some <==> self.total() > 0,
    {
        let mut cursor = self;
        cursor.current = cursor.count.saturating_sub(1);
        cursor.next()
    }

    /// The number of indices that are left.
    pub fn len(&self) -> (len: usize)
        ensures
            len == self@.remaining(),
    {
        self.count.saturating_sub(self.current) as usize
    }

    /// The number of indices that are left, as a lower and an upper bound:
    /// the two agree.
    pub fn size_hint(&self) -> (hint: (usize, Option<usize>))
        ensures
            hint.0 == self@.remaining(),
            hint.1 == Some(hint.0),
    {
        let len = self.len();
        (len, Some(len))
    }

    /// Uses up the cursor and returns how many indices were left, without
    /// yielding them one by one.
    pub fn count(self) -> (len: usize)
        ensures
            len == self@.remaining(),
    {
        self.len()
    }
}

} // verus!
