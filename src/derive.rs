//! Iteration derived from indexed access, for sequences without a native iterator.

use crate::traits::{
    ExactSizeSequenceIterator, RandomAccessSequence, RandomAccessSequenceMut,
    SequenceGeneric, SequenceIterator,
};
use vstd::prelude::*;

verus! {

/// Iterator that repeatedly calls [`RandomAccessSequence::get`] on a borrowed sequence.
pub struct Iter<'s, S> {
    seq: &'s S,
    front: usize,
    back: usize,
}

impl<'s, S: RandomAccessSequence> Iter<'s, S> {
    /// Returns an iterator over all items of `seq`.
    pub fn new(seq: &'s S) -> (r: Self)
        requires
            seq.wf(),
        ensures
            r.valid(),
            r.remaining() == seq.items(),
    {
        let back = seq.len();
        let r = Iter { seq, front: 0, back };
        assert(r.remaining() =~= seq.items());
        r
    }
}

impl<'s, S: RandomAccessSequence> SequenceIterator for Iter<'s, S> {
    type Item = S::Item;

    closed spec fn remaining(&self) -> Seq<S::Item> {
        self.seq.items().subrange(self.front as int, self.back as int)
    }

    closed spec fn valid(&self) -> bool {
        self.seq.wf() && self.front <= self.back <= self.seq.items().len()
    }

    fn next(&mut self) -> (r: Option<S::Item>) {
        if self.front < self.back {
            let item = self.seq.get(self.front);
            self.front = self.front + 1;
            assert(self.remaining() =~= old(self).remaining().drop_first());
            item
        } else {
            None
        }
    }

    fn next_back(&mut self) -> (r: Option<S::Item>) {
        if self.front < self.back {
            self.back = self.back - 1;
            assert(self.remaining() =~= old(self).remaining().drop_last());
            self.seq.get(self.back)
        } else {
            None
        }
    }
}

impl<'s, S: RandomAccessSequence> ExactSizeSequenceIterator for Iter<'s, S> {
    fn size_hint(&self) -> (r: (usize, Option<usize>)) {
        let n = self.back - self.front;
        (n, Some(n))
    }
}

/// Iterator that repeatedly calls [`RandomAccessSequence::get`] on a sequence it owns.
pub struct IntoIter<S> {
    seq: S,
    front: usize,
    back: usize,
}

impl<S: RandomAccessSequence> IntoIter<S> {
    /// Returns an iterator that takes ownership of `seq`.
    pub fn new(seq: S) -> (r: Self)
        requires
            seq.wf(),
        ensures
            r.valid(),
            r.remaining() == seq.items(),
    {
        let back = seq.len();
        let r = IntoIter { seq, front: 0, back };
        assert(r.remaining() =~= r.seq.items());
        r
    }
}

impl<S: RandomAccessSequence> SequenceIterator for IntoIter<S> {
    type Item = S::Item;

    closed spec fn remaining(&self) -> Seq<S::Item> {
        self.seq.items().subrange(self.front as int, self.back as int)
    }

    closed spec fn valid(&self) -> bool {
        self.seq.wf() && self.front <= self.back <= self.seq.items().len()
    }

    fn next(&mut self) -> (r: Option<S::Item>) {
        if self.front < self.back {
            let item = self.seq.get(self.front);
            self.front = self.front + 1;
            assert(self.remaining() =~= old(self).remaining().drop_first());
            item
        } else {
            None
        }
    }

    fn next_back(&mut self) -> (r: Option<S::Item>) {
        if self.front < self.back {
            self.back = self.back - 1;
            assert(self.remaining() =~= old(self).remaining().drop_last());
            self.seq.get(self.back)
        } else {
            None
        }
    }
}

impl<S: RandomAccessSequence> ExactSizeSequenceIterator for IntoIter<S> {
    fn size_hint(&self) -> (r: (usize, Option<usize>)) {
        let n = self.back - self.front;
        (n, Some(n))
    }
}

/// Mutable iterator that repeatedly calls [`RandomAccessSequenceMut::get_mut`].
///
/// Each step hands out a mutable reference to the item at the next index; the
/// reference is borrowed from the iterator and ends before the next step.
pub struct IterMut<'s, S> {
    seq: &'s mut S,
    front: usize,
    back: usize,
}

impl<'s, S: RandomAccessSequenceMut> IterMut<'s, S> {
    /// The current content of the iterated sequence.
    pub closed spec fn parent(&self) -> S {
        *self.seq
    }

    /// The indices that are still to come, front first.
    pub closed spec fn pending(&self) -> Seq<usize> {
        Seq::new((self.back - self.front) as nat, |k: int| (self.front + k) as usize)
    }

    pub closed spec fn valid(&self) -> bool {
        &&& self.seq.wf()
        &&& self.seq.unique()
        &&& self.front <= self.back <= self.seq.items().len()
    }

    /// The indices still to come are increasing and within the sequence.
    pub proof fn lemma_pending(&self)
        requires
            self.valid(),
        ensures
            forall|k: int|
                0 <= k < self.pending().len() ==> #[trigger] self.pending()[k]
                    < self.parent().items().len(),
            forall|a: int, b: int|
                0 <= a < b < self.pending().len() ==> #[trigger] self.pending()[a]
                    < #[trigger] self.pending()[b],
    {
    }

    /// Returns an iterator over mutable references to all items of `seq`.
    pub fn new(seq: &'s mut S) -> (r: Self)
        requires
            old(seq).wf(),
            old(seq).unique(),
        ensures
            r.valid(),
            r.parent() == *old(seq),
            r.pending() == Seq::new(old(seq).items().len(), |k: int| k as usize),
    {
        let back = seq.len();
        let r = IterMut { seq, front: 0, back };
        assert(r.pending() =~= Seq::new(old(seq).items().len(), |k: int| k as usize));
        r
    }

    /// Returns a mutable reference to the item at the next index, or `None`.
    pub fn next(&mut self) -> (r: Option<&mut S::Item>)
        requires
            old(self).valid(),
        ensures
            final(self).valid(),
            old(self).pending().len() == 0 ==> r is None && final(self).parent().items() == old(
                self,
            ).parent().items() && final(self).pending() == old(self).pending(),
            old(self).pending().len() > 0 ==> r is Some && *r.unwrap() == old(
                self,
            ).parent().items()[old(self).pending()[0] as int] && final(self).parent().items()
                == old(self).parent().items().update(
                old(self).pending()[0] as int,
                *final(r.unwrap()),
            ) && final(self).pending() == old(self).pending().drop_first(),
    {
        if self.front < self.back {
            let i = self.front;
            self.front = self.front + 1;
            assert(self.pending() =~= old(self).pending().drop_first());
            self.seq.get_mut(i)
        } else {
            None
        }
    }

    /// Returns a mutable reference to the item at the last index still to
    /// come, or `None`.
    pub fn next_back(&mut self) -> (r: Option<&mut S::Item>)
        requires
            old(self).valid(),
        ensures
            final(self).valid(),
            old(self).pending().len() == 0 ==> r is None && final(self).parent().items() == old(
                self,
            ).parent().items() && final(self).pending() == old(self).pending(),
            old(self).pending().len() > 0 ==> r is Some && *r.unwrap() == old(
                self,
            ).parent().items()[old(self).pending().last() as int] && final(self).parent().items()
                == old(self).parent().items().update(
                old(self).pending().last() as int,
                *final(r.unwrap()),
            ) && final(self).pending() == old(self).pending().drop_last(),
    {
        if self.front < self.back {
            self.back = self.back - 1;
            assert(self.pending() =~= old(self).pending().drop_last());
            let i = self.back;
            self.seq.get_mut(i)
        } else {
            None
        }
    }

    /// Returns the number of steps left, as a lower and an upper bound.
    pub fn size_hint(&self) -> (r: (usize, Option<usize>))
        requires
            self.valid(),
        ensures
            r.0 == self.pending().len(),
            r.1 == Some(r.0),
    {
        let n = self.back - self.front;
        (n, Some(n))
    }
}

} // verus!
