//! Reversal of a sequence.

use crate::traits::{
    ExactSizeSequenceIterator, IterableSequence, RandomAccessSequence, RandomAccessSequenceMut,
    SequenceGeneric, SequenceIterator,
};
use crate::derive::IterMut;
use vstd::prelude::*;

verus! {

/// The items of `s` in reverse order.
pub open spec fn reversed<T>(s: Seq<T>) -> Seq<T> {
    Seq::new(s.len(), |i: int| s[s.len() - 1 - i])
}

/// A sequence that reads its parent from the back.
pub struct Rev<S> {
    sequence: S,
}

impl<S> Rev<S> {
    /// The reversed sequence.
    pub closed spec fn parent(&self) -> S {
        self.sequence
    }

    /// Returns the reversal of `sequence`.
    pub fn new(sequence: S) -> (r: Self)
        ensures
            r.parent() == sequence,
    {
        Rev { sequence }
    }
}

impl<S: SequenceGeneric> SequenceGeneric for Rev<S> {
    type Item = S::Item;

    open spec fn items(&self) -> Seq<S::Item> {
        reversed(self.parent().items())
    }

    open spec fn wf(&self) -> bool {
        self.parent().wf()
    }

    fn len(&self) -> (r: usize) {
        self.sequence.len()
    }

    fn is_empty(&self) -> (r: bool) {
        self.sequence.is_empty()
    }
}

impl<S: RandomAccessSequence> RandomAccessSequence for Rev<S> {
    fn get(&self, index: usize) -> (r: Option<S::Item>) {
        self.sequence.rget(index)
    }

    fn rget(&self, rindex: usize) -> (r: Option<S::Item>) {
        self.sequence.get(rindex)
    }

    fn first(&self) -> (r: Option<S::Item>) {
        self.sequence.last()
    }

    fn last(&self) -> (r: Option<S::Item>) {
        self.sequence.first()
    }
}

impl<S: RandomAccessSequenceMut> RandomAccessSequenceMut for Rev<S> {
    /// Any permutation of a unique sequence is unique.
    open spec fn unique(&self) -> bool {
        self.parent().unique()
    }

    fn get_mut(&mut self, index: usize) -> (r: Option<&mut S::Item>) {
        let r = self.sequence.rget_mut(index);
        proof {
            let n = old(self).items().len();
            if index < n {
                let v = *final(r.unwrap());
                assert(reversed(old(self).parent().items().update(n - 1 - index, v)) =~= old(
                    self,
                ).items().update(index as int, v));
            }
        }
        r
    }
}

/// Iterator over a reversal: drives the parent's iterator from the back.
pub struct RevIter<It> {
    iter: It,
}

impl<It: SequenceIterator> SequenceIterator for RevIter<It> {
    type Item = It::Item;

    closed spec fn remaining(&self) -> Seq<It::Item> {
        reversed(self.iter.remaining())
    }

    closed spec fn valid(&self) -> bool {
        self.iter.valid()
    }

    fn next(&mut self) -> (r: Option<It::Item>) {
        let r = self.iter.next_back();
        assert(self.remaining() =~= if old(self).remaining().len() > 0 {
            old(self).remaining().drop_first()
        } else {
            old(self).remaining()
        });
        r
    }

    fn next_back(&mut self) -> (r: Option<It::Item>) {
        let r = self.iter.next();
        assert(self.remaining() =~= if old(self).remaining().len() > 0 {
            old(self).remaining().drop_last()
        } else {
            old(self).remaining()
        });
        r
    }
}

impl<It: ExactSizeSequenceIterator> ExactSizeSequenceIterator for RevIter<It> {
    fn size_hint(&self) -> (r: (usize, Option<usize>)) {
        self.iter.size_hint()
    }
}

impl<'a, S: SequenceGeneric + IterableSequence<'a> + 'a> IterableSequence<'a> for Rev<S> {
    type Iter = RevIter<S::Iter>;

    fn iter(&'a self) -> (r: Self::Iter) {
        let r = RevIter { iter: self.sequence.iter() };
        r
    }
}

impl<S: RandomAccessSequenceMut> Rev<S> {
    /// Returns an iterator over mutable references to the items, one index
    /// after the other.
    pub fn iter_mut(&mut self) -> (r: IterMut<'_, Self>)
        requires
            old(self).wf(),
            old(self).unique(),
        ensures
            r.valid(),
            r.parent() == *old(self),
            r.pending() == Seq::new(old(self).items().len(), |k: int| k as usize),
    {
        IterMut::new(self)
    }
}

} // verus!
