//! The capabilities of a sequence: length, indexed access, mutable indexed
//! access with its non-aliasing guarantee, and iteration.

use vstd::prelude::*;

verus! {

/// The element at index `i` of `s`, or `None` when `i` is out of bounds.
pub open spec fn item_at<T>(s: Seq<T>, i: int) -> Option<T> {
    if 0 <= i < s.len() {
        Some(s[i])
    } else {
        None
    }
}

/// A finite sequence of known length.
///
/// `items` is the mathematical content of the sequence; `wf` is the invariant
/// that a constructor establishes once (an index in bounds, equal lengths) so
/// that no access has to check it again. Items are handed out by value: a
/// sequence that borrows or owns storage hands out copies of its elements and,
/// through [`RandomAccessSequenceMut`], mutable references to them.
pub trait SequenceGeneric {
    /// The type of the items of the sequence.
    type Item;

    spec fn items(&self) -> Seq<Self::Item>;

    spec fn wf(&self) -> bool;

    /// Returns the length of the sequence.
    fn len(&self) -> (r: usize)
        requires
            self.wf(),
        ensures
            r == self.items().len(),
    ;

    /// Returns `true` if the sequence is empty.
    fn is_empty(&self) -> (r: bool)
        requires
            self.wf(),
        ensures
            r == (self.items().len() == 0),
    {
        self.len() == 0
    }
}

/// A sequence with random access to its items.
pub trait RandomAccessSequence: SequenceGeneric {
    /// Returns the item at the given index, or `None` if it is out of bounds.
    fn get(&self, index: usize) -> (r: Option<Self::Item>)
        requires
            self.wf(),
        ensures
            r == item_at(self.items(), index as int),
    ;

    /// Returns the item at the given index counted from the back, or `None`.
    fn rget(&self, rindex: usize) -> (r: Option<Self::Item>)
        requires
            self.wf(),
        ensures
            r == item_at(self.items(), self.items().len() - 1 - rindex),
    {
        let n = self.len();
        if rindex < n {
            self.get(n - 1 - rindex)
        } else {
            None
        }
    }

    /// Returns the first item, or `None` if the sequence is empty.
    fn first(&self) -> (r: Option<Self::Item>)
        requires
            self.wf(),
        ensures
            r == item_at(self.items(), 0),
    {
        self.get(0)
    }

    /// Returns the last item, or `None` if the sequence is empty.
    fn last(&self) -> (r: Option<Self::Item>)
        requires
            self.wf(),
        ensures
            r == item_at(self.items(), self.items().len() - 1),
    {
        let n = self.len();
        if n == 0 {
            None
        } else {
            self.get(n - 1)
        }
    }
}

/// A sequence whose items can be changed in place.
///
/// `unique` is the non-aliasing capability: distinct indices address distinct
/// elements, so a write through the reference returned for one index changes
/// no other index. It holds of contiguous storage and is carried through the
/// adaptors by structure: a reversal, a concatenation or a compression of
/// unique sequences is unique, and so is a selection of a unique sequence by
/// indices that are pairwise distinct.
pub trait RandomAccessSequenceMut: RandomAccessSequence {
    spec fn unique(&self) -> bool;

    /// Returns a mutable reference to the item at the given index, or `None`.
    fn get_mut(&mut self, index: usize) -> (r: Option<&mut Self::Item>)
        requires
            old(self).wf(),
            old(self).unique(),
        ensures
            final(self).wf(),
            final(self).unique(),
            index < old(self).items().len() ==> r is Some && *r.unwrap() == old(self).items()[index as int]
                && final(self).items() == old(self).items().update(index as int, *final(r.unwrap())),
            index >= old(self).items().len() ==> r is None && final(self).items() == old(self).items(),
    ;

    /// Returns a mutable reference to the item at the given index counted from
    /// the back, or `None`.
    fn rget_mut(&mut self, rindex: usize) -> (r: Option<&mut Self::Item>)
        requires
            old(self).wf(),
            old(self).unique(),
        ensures
            final(self).wf(),
            final(self).unique(),
            rindex < old(self).items().len() ==> r is Some
                && *r.unwrap() == old(self).items()[old(self).items().len() - 1 - rindex]
                && final(self).items() == old(self).items().update(
                    old(self).items().len() - 1 - rindex,
                    *final(r.unwrap()),
                ),
            rindex >= old(self).items().len() ==> r is None && final(self).items() == old(self).items(),
    {
        let n = self.len();
        if rindex < n {
            self.get_mut(n - 1 - rindex)
        } else {
            None
        }
    }

    /// Returns a mutable reference to the first item, or `None` if the sequence is empty.
    fn first_mut(&mut self) -> (r: Option<&mut Self::Item>)
        requires
            old(self).wf(),
            old(self).unique(),
        ensures
            final(self).wf(),
            final(self).unique(),
            0 < old(self).items().len() ==> r is Some && *r.unwrap() == old(self).items()[0]
                && final(self).items() == old(self).items().update(0, *final(r.unwrap())),
            0 == old(self).items().len() ==> r is None && final(self).items() == old(self).items(),
    {
        self.get_mut(0)
    }

    /// Returns a mutable reference to the last item, or `None` if the sequence is empty.
    fn last_mut(&mut self) -> (r: Option<&mut Self::Item>)
        requires
            old(self).wf(),
            old(self).unique(),
        ensures
            final(self).wf(),
            final(self).unique(),
            0 < old(self).items().len() ==> r is Some && *r.unwrap() == old(self).items().last()
                && final(self).items() == old(self).items().update(
                    old(self).items().len() - 1,
                    *final(r.unwrap()),
                ),
            0 == old(self).items().len() ==> r is None && final(self).items() == old(self).items(),
    {
        let n = self.len();
        if n == 0 {
            None
        } else {
            self.get_mut(n - 1)
        }
    }
}


/// An iterator over the items of a sequence, from the front or from the back.
///
/// `remaining` is what the iterator has still to hand out, front first.
pub trait SequenceIterator {
    type Item;

    spec fn remaining(&self) -> Seq<Self::Item>;

    spec fn valid(&self) -> bool;

    /// Returns the next item from the front, or `None` when exhausted.
    fn next(&mut self) -> (r: Option<Self::Item>)
        requires
            old(self).valid(),
        ensures
            final(self).valid(),
            r == item_at(old(self).remaining(), 0),
            final(self).remaining() == if old(self).remaining().len() > 0 {
                old(self).remaining().drop_first()
            } else {
                old(self).remaining()
            },
    ;

    /// Returns the next item from the back, or `None` when exhausted.
    fn next_back(&mut self) -> (r: Option<Self::Item>)
        requires
            old(self).valid(),
        ensures
            final(self).valid(),
            r == item_at(old(self).remaining(), old(self).remaining().len() - 1),
            final(self).remaining() == if old(self).remaining().len() > 0 {
                old(self).remaining().drop_last()
            } else {
                old(self).remaining()
            },
    ;
}

/// An iterator that knows how many items it has left.
pub trait ExactSizeSequenceIterator: SequenceIterator {
    /// Returns the number of items left, as a lower and an upper bound.
    fn size_hint(&self) -> (r: (usize, Option<usize>))
        requires
            self.valid(),
        ensures
            r.0 == self.remaining().len(),
            r.1 == Some(r.0),
    ;
}

/// A sequence with an iterator of its own, borrowed for the lifetime `'a`.
pub trait IterableSequence<'a>: SequenceGeneric {
    type Iter: SequenceIterator<Item = Self::Item>;

    /// Returns an iterator over the items of the sequence.
    fn iter(&'a self) -> (r: Self::Iter)
        requires
            self.wf(),
        ensures
            r.valid(),
            r.remaining() == self.items(),
    ;
}


/// The smallest and the largest item of a sequence of indices or counts.
pub trait MinMaxSequence: RandomAccessSequence<Item = usize> {
    /// Returns the smallest item, or `None` if the sequence is empty.
    fn min(&self) -> (r: Option<usize>)
        requires
            self.wf(),
        ensures
            r is None <==> self.items().len() == 0,
            r matches Some(m) ==> self.items().contains(m) && forall|i: int|
                0 <= i < self.items().len() ==> m <= #[trigger] self.items()[i],
    {
        let n = self.len();
        if n == 0 {
            return None;
        }
        let mut best = self.get(0).unwrap();
        let mut k: usize = 1;
        while k < n
            invariant
                self.wf(),
                n == self.items().len(),
                1 <= k <= n,
                self.items().contains(best),
                forall|i: int| 0 <= i < k ==> best <= #[trigger] self.items()[i],
            decreases n - k,
        {
            let x = self.get(k).unwrap();
            if x < best {
                best = x;
            }
            k = k + 1;
        }
        Some(best)
    }

    /// Returns the largest item, or `None` if the sequence is empty.
    fn max(&self) -> (r: Option<usize>)
        requires
            self.wf(),
        ensures
            r is None <==> self.items().len() == 0,
            r matches Some(m) ==> self.items().contains(m) && forall|i: int|
                0 <= i < self.items().len() ==> #[trigger] self.items()[i] <= m,
    {
        let n = self.len();
        if n == 0 {
            return None;
        }
        let mut best = self.get(0).unwrap();
        let mut k: usize = 1;
        while k < n
            invariant
                self.wf(),
                n == self.items().len(),
                1 <= k <= n,
                self.items().contains(best),
                forall|i: int| 0 <= i < k ==> #[trigger] self.items()[i] <= best,
            decreases n - k,
        {
            let x = self.get(k).unwrap();
            if x > best {
                best = x;
            }
            k = k + 1;
        }
        Some(best)
    }
}

impl<S: RandomAccessSequence<Item = usize>> MinMaxSequence for S {}

} // verus!
