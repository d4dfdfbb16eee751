//! The mathematical model of a walk over a counted array.

use vstd::prelude::*;

verus! {

/// Largest position that a walk can stand at: positions are 32-bit indices.
pub const MAX_POSITION: u32 = 0xffff_ffff;

/// A walk over a finite sequence: all the items of the sequence, and the
/// index of the item that the next step yields.
///
/// A walk whose position is at or past the end of the items is done. The
/// position of a walk that is done may lie anywhere at or past the end.
pub struct Walk<T> {
    pub items: Seq<T>,
    pub pos: nat,
}

impl<T> Walk<T> {
    /// The walk that stands before the first item.
    pub open spec fn fresh(items: Seq<T>) -> Walk<T> {
        Walk { items, pos: 0 }
    }

    /// No item is left.
    pub open spec fn done(self) -> bool {
        self.pos >= self.items.len()
    }

    /// How many items are left.
    pub open spec fn remaining(self) -> nat {
        if self.done() {
            0
        } else {
            (self.items.len() - self.pos) as nat
        }
    }

    /// The items that are left, in order.
    pub open spec fn rest(self) -> Seq<T> {
        if self.done() {
            Seq::empty()
        } else {
            self.items.skip(self.pos as int)
        }
    }

    /// What the next step yields: the item at the position, or nothing when
    /// the walk is done.
    pub open spec fn peek(self) -> Option<T> {
        if self.done() {
            None
        } else {
            Some(self.items[self.pos as int])
        }
    }

    /// The walk after one step: one position further, unless it is done, in
    /// which case it does not move.
    pub open spec fn step(self) -> Walk<T> {
        if self.done() {
            self
        } else {
            Walk { items: self.items, pos: self.pos + 1 }
        }
    }

    /// The walk after `k` steps.
    pub open spec fn steps(self, k: nat) -> Walk<T>
        decreases k,
    {
        if k == 0 {
            self
        } else {
            self.step().steps((k - 1) as nat)
        }
    }

    /// The walk moved to position `n`, or to the largest position if `n` lies
    /// beyond it. The position is absolute: it does not depend on where the
    /// walk stood.
    pub open spec fn seek(self, n: nat) -> Walk<T> {
        Walk {
            items: self.items,
            pos: if n <= MAX_POSITION {
                n
            } else {
                MAX_POSITION as nat
            },
        }
    }

    /// The walk moved to the last item, or to position 0 if there is no item.
    pub open spec fn seek_last(self) -> Walk<T> {
        Walk {
            items: self.items,
            pos: if self.items.len() == 0 {
                0
            } else {
                (self.items.len() - 1) as nat
            },
        }
    }

    /// A walk can only be carried out over at most `MAX_POSITION` items.
    pub open spec fn bounded(self) -> bool {
        self.items.len() <= MAX_POSITION
    }
}

/// The item at `index` of a counted array, or nothing if the array has no
/// such index.
pub open spec fn element<T>(items: Seq<T>, index: u32) -> Option<T> {
    if index < items.len() {
        Some(items[index as int])
    } else {
        None
    }
}

/// Steps never change the items, and move the position forward by one each
/// until the end of the items is reached.
pub proof fn lemma_steps<T>(w: Walk<T>, k: nat)
    ensures
        w.steps(k).items == w.items,
        w.done() ==> w.steps(k) == w,
        !w.done() && w.pos + k <= w.items.len() ==> w.steps(k).pos == w.pos + k,
        !w.done() && w.pos + k > w.items.len() ==> w.steps(k).pos == w.items.len(),
    decreases k,
{
    if k > 0 {
        lemma_steps(w.step(), (k - 1) as nat);
    }
}

/// A walk that is done stays done: whatever number of further steps is
/// taken, each of them yields nothing and the walk does not move.
pub proof fn lemma_done_stays_done<T>(w: Walk<T>, k: nat)
    requires
        w.done(),
    ensures
        w.steps(k) == w,
        w.steps(k).done(),
        w.steps(k).peek() is None,
{
    lemma_steps(w, k);
}

/// After `k` steps the number of items left is the number that was left
/// before, less the items that the steps yielded: `k` of them, or all that
/// were left if there were fewer.
pub proof fn lemma_remaining_after_steps<T>(w: Walk<T>, k: nat)
    ensures
        k <= w.remaining() ==> w.steps(k).remaining() == w.remaining() - k,
        k > w.remaining() ==> w.steps(k).remaining() == 0,
{
    lemma_steps(w, k);
}

/// Moving a bounded walk to position `n` and taking one step yields what the
/// step after `n` steps of a fresh walk yields: the item at index `n` if
/// there is one, and nothing otherwise.
pub proof fn lemma_seek_is_repeated_step<T>(w: Walk<T>, n: nat)
    requires
        w.bounded(),
    ensures
        w.seek(n).peek() == Walk::fresh(w.items).steps(n).peek(),
        n < w.items.len() ==> w.seek(n).peek() == Some(w.items[n as int]),
        n >= w.items.len() ==> w.seek(n).peek() is None,
        n < w.items.len() ==> w.seek(n).step() == Walk::fresh(w.items).steps(n + 1),
{
    lemma_steps(Walk::fresh(w.items), n);
    lemma_steps(Walk::fresh(w.items), n + 1);
}

/// The element at an index of a counted array is what a fresh walk over the
/// array yields at the step that follows `index` steps; at an index at or
/// above the count there is no element.
pub proof fn lemma_element_is_step_of_fresh_walk<T>(items: Seq<T>, index: u32)
    ensures
        element(items, index) == Walk::fresh(items).steps(index as nat).peek(),
        index < items.len() ==> element(items, index) == Some(items[index as int]),
        index >= items.len() ==> element(items, index) is None,
{
    lemma_steps(Walk::fresh(items), index as nat);
}

/// The last item of a walk is the item at the last index; a walk over no
/// items has none.
pub proof fn lemma_seek_last<T>(w: Walk<T>)
    ensures
        w.items.len() == 0 ==> w.seek_last().peek() is None,
        w.items.len() > 0 ==> w.seek_last().peek() == Some(w.items[w.items.len() - 1]),
        w.items.len() > 0 ==> w.seek_last().peek() == Some(w.items.last()),
        w.seek_last().step().done(),
{
}

/// The items that are left after a step are those that were left before,
/// without the first of them.
pub proof fn lemma_rest_after_step<T>(w: Walk<T>)
    ensures
        w.rest().len() == w.remaining(),
        !w.done() ==> w.peek() == Some(w.rest()[0]),
        !w.done() ==> w.step().rest() == w.rest().drop_first(),
        w.done() ==> w.step().rest() == w.rest(),
{
    if !w.done() {
        assert(w.step().rest() =~= w.rest().drop_first());
    }
}

} // verus!
