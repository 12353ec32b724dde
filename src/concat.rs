//! Concatenation of two sequences.

use crate::traits::{
    IterableSequence, RandomAccessSequence, RandomAccessSequenceMut, SequenceGeneric,
    SequenceIterator,
};
use crate::derive::IterMut;
use vstd::prelude::*;

verus! {

/// Concatenation of two sequences with the same item type.
///
/// Created by [`Concat::new`], which refuses a pair whose total length does
/// not fit in `usize`.
pub struct Concat<A, B> {
    first: A,
    second: B,
}

impl<A, B> Concat<A, B> {
    /// The sequence in front.
    pub closed spec fn front(&self) -> A {
        self.first
    }

    /// The sequence at the back.
    pub closed spec fn back(&self) -> B {
        self.second
    }
}

impl<A: SequenceGeneric, B: SequenceGeneric<Item = A::Item>> Concat<A, B> {
    /// Returns the concatenation of `first` and `second`, or `None` if the sum
    /// of their lengths overflows `usize`.
    pub fn new(first: A, second: B) -> (r: Option<Self>)
        requires
            first.wf(),
            second.wf(),
        ensures
            r is Some <==> first.items().len() + second.items().len() <= usize::MAX,
            r matches Some(c) ==> c.wf() && c.front() == first && c.back() == second,
    {
        match first.len().checked_add(second.len()) {
            Some(_) => Some(Concat { first, second }),
            None => None,
        }
    }
}

impl<A: SequenceGeneric, B: SequenceGeneric<Item = A::Item>> SequenceGeneric for Concat<A, B> {
    type Item = A::Item;

    open spec fn items(&self) -> Seq<A::Item> {
        self.front().items() + self.back().items()
    }

    open spec fn wf(&self) -> bool {
        &&& self.front().wf()
        &&& self.back().wf()
        &&& self.front().items().len() + self.back().items().len() <= usize::MAX
    }

    fn len(&self) -> (r: usize) {
        self.first.len() + self.second.len()
    }

    fn is_empty(&self) -> (r: bool) {
        self.first.is_empty() && self.second.is_empty()
    }
}

impl<A: RandomAccessSequence, B: RandomAccessSequence<Item = A::Item>> RandomAccessSequence for Concat<
    A,
    B,
> {
    fn get(&self, index: usize) -> (r: Option<A::Item>) {
        let n = self.first.len();
        if index < n {
            self.first.get(index)
        } else {
            self.second.get(index - n)
        }
    }

    fn first(&self) -> (r: Option<A::Item>) {
        match self.first.first() {
            Some(x) => Some(x),
            None => self.second.first(),
        }
    }

    fn last(&self) -> (r: Option<A::Item>) {
        match self.second.last() {
            Some(x) => Some(x),
            None => self.first.last(),
        }
    }
}

impl<A: RandomAccessSequenceMut, B: RandomAccessSequenceMut<Item = A::Item>> RandomAccessSequenceMut for Concat<
    A,
    B,
> {
    open spec fn unique(&self) -> bool {
        self.front().unique() && self.back().unique()
    }

    fn get_mut(&mut self, index: usize) -> (r: Option<&mut A::Item>)
        ensures
            index < old(self).front().items().len() ==> final(self).front().items()
                == old(self).front().items().update(index as int, *final(r.unwrap()))
                && final(self).back() == old(self).back(),
            old(self).front().items().len() <= index < old(self).items().len()
                ==> final(self).front() == old(self).front() && final(self).back().items()
                == old(self).back().items().update(
                index - old(self).front().items().len(),
                *final(r.unwrap()),
            ),
            index >= old(self).items().len() ==> final(self).front() == old(self).front()
                && final(self).back().items() == old(self).back().items(),
    {
        let n = self.first.len();
        if index < n {
            let r = self.first.get_mut(index);
            proof {
                let v = *final(r.unwrap());
                assert(old(self).front().items().update(index as int, v) + old(self).back().items()
                    =~= old(self).items().update(index as int, v));
            }
            r
        } else {
            let r = self.second.get_mut(index - n);
            proof {
                if index < old(self).items().len() {
                    let v = *final(r.unwrap());
                    assert(old(self).front().items() + old(self).back().items().update(
                        index - n,
                        v,
                    ) =~= old(self).items().update(index as int, v));
                }
            }
            r
        }
    }
}

/// Iterator over a concatenation: exhausts the first iterator, then the second.
pub struct ConcatIter<IA, IB> {
    first: IA,
    second: IB,
}

impl<IA: SequenceIterator, IB: SequenceIterator<Item = IA::Item>> SequenceIterator for ConcatIter<
    IA,
    IB,
> {
    type Item = IA::Item;

    closed spec fn remaining(&self) -> Seq<IA::Item> {
        self.first.remaining() + self.second.remaining()
    }

    closed spec fn valid(&self) -> bool {
        self.first.valid() && self.second.valid()
    }

    fn next(&mut self) -> (r: Option<IA::Item>) {
        match self.first.next() {
            Some(x) => {
                assert(self.remaining() =~= old(self).remaining().drop_first());
                Some(x)
            },
            None => {
                let r = self.second.next();
                assert(self.remaining() =~= if old(self).remaining().len() > 0 {
                    old(self).remaining().drop_first()
                } else {
                    old(self).remaining()
                });
                r
            },
        }
    }

    fn next_back(&mut self) -> (r: Option<IA::Item>) {
        match self.second.next_back() {
            Some(x) => {
                assert(self.remaining() =~= old(self).remaining().drop_last());
                Some(x)
            },
            None => {
                let r = self.first.next_back();
                assert(self.remaining() =~= if old(self).remaining().len() > 0 {
                    old(self).remaining().drop_last()
                } else {
                    old(self).remaining()
                });
                r
            },
        }
    }
}

impl<
    'a,
    A: SequenceGeneric + IterableSequence<'a> + 'a,
    B: SequenceGeneric<Item = A::Item> + IterableSequence<'a> + 'a,
> IterableSequence<'a> for Concat<A, B> {
    type Iter = ConcatIter<A::Iter, B::Iter>;

    fn iter(&'a self) -> (r: Self::Iter) {
        ConcatIter { first: self.first.iter(), second: self.second.iter() }
    }
}

/// Mutable iterator over a concatenation: exhausts a mutable iterator over
/// the first part, then one over the second.
///
/// Each step hands out a mutable reference borrowed from the iterator; it
/// ends before the next step.
pub struct ConcatIterMut<'s, A, B> {
    first: IterMut<'s, A>,
    second: IterMut<'s, B>,
}

impl<'s, A: RandomAccessSequenceMut, B: RandomAccessSequenceMut<Item = A::Item>> ConcatIterMut<
    's,
    A,
    B,
> {
    /// The current items of both parts, the first part in front.
    pub closed spec fn parent_items(&self) -> Seq<A::Item> {
        self.first.parent().items() + self.second.parent().items()
    }

    /// The length of the first part.
    pub closed spec fn split(&self) -> nat {
        self.first.parent().items().len()
    }

    /// The positions, within both parts together, that are still to come.
    pub closed spec fn pending(&self) -> Seq<usize> {
        self.first.pending() + self.second.pending().map_values(
            |k: usize| (k + self.split()) as usize,
        )
    }

    pub closed spec fn valid(&self) -> bool {
        &&& self.first.valid()
        &&& self.second.valid()
        &&& self.split() + self.second.parent().items().len() <= usize::MAX
    }

    /// Returns a mutable reference to the item at the next position, or
    /// `None` when both parts are exhausted.
    pub fn next(&mut self) -> (r: Option<&mut A::Item>)
        requires
            old(self).valid(),
        ensures
            final(self).valid(),
            final(self).split() == old(self).split(),
            old(self).pending().len() == 0 ==> r is None && final(self).parent_items()
                == old(self).parent_items() && final(self).pending() == old(self).pending(),
            old(self).pending().len() > 0 ==> r is Some && *r.unwrap()
                == old(self).parent_items()[old(self).pending()[0] as int]
                && final(self).parent_items() == old(self).parent_items().update(
                old(self).pending()[0] as int,
                *final(r.unwrap()),
            ) && final(self).pending() == old(self).pending().drop_first(),
    {
        let ghost a0 = self.first.parent().items();
        let ghost b0 = self.second.parent().items();
        let ghost n = self.split();
        proof {
            self.first.lemma_pending();
            self.second.lemma_pending();
        }
        match self.first.next() {
            Some(r) => {
                proof {
                    let v = *final(r);
                    assert(a0.update(old(self).first.pending()[0] as int, v) + b0
                        =~= old(self).parent_items().update(old(self).pending()[0] as int, v));
                }
                Some(r)
            },
            None => {
                let r = self.second.next();
                proof {
                    assert(old(self).pending() =~= old(self).second.pending().map_values(
                        |k: usize| (k + n) as usize,
                    ));
                    if old(self).pending().len() > 0 {
                        let v = *final(r.unwrap());
                        let k0 = old(self).second.pending()[0] as int;
                        assert(a0 + b0.update(k0, v) =~= old(self).parent_items().update(
                            k0 + n,
                            v,
                        ));
                        }
                }
                r
            },
        }
    }

    /// Returns a mutable reference to the item at the last position still to
    /// come, or `None` when both parts are exhausted.
    pub fn next_back(&mut self) -> (r: Option<&mut A::Item>)
        requires
            old(self).valid(),
        ensures
            final(self).valid(),
            final(self).split() == old(self).split(),
            old(self).pending().len() == 0 ==> r is None && final(self).parent_items()
                == old(self).parent_items() && final(self).pending() == old(self).pending(),
            old(self).pending().len() > 0 ==> r is Some && *r.unwrap()
                == old(self).parent_items()[old(self).pending().last() as int]
                && final(self).parent_items() == old(self).parent_items().update(
                old(self).pending().last() as int,
                *final(r.unwrap()),
            ) && final(self).pending() == old(self).pending().drop_last(),
    {
        let ghost a0 = self.first.parent().items();
        let ghost b0 = self.second.parent().items();
        let ghost n = self.split();
        proof {
            self.first.lemma_pending();
            self.second.lemma_pending();
        }
        match self.second.next_back() {
            Some(r) => {
                proof {
                    let v = *final(r);
                    let k0 = old(self).second.pending().last() as int;
                    assert(a0 + b0.update(k0, v) =~= old(self).parent_items().update(k0 + n, v));
                }
                Some(r)
            },
            None => {
                let r = self.first.next_back();
                proof {
                    assert(old(self).second.pending().map_values(|k: usize| (k + n) as usize)
                        =~= seq![]);
                    assert(old(self).pending() =~= old(self).first.pending());
                    if old(self).pending().len() > 0 {
                        let v = *final(r.unwrap());
                        assert(a0.update(old(self).first.pending().last() as int, v) + b0
                            =~= old(self).parent_items().update(
                            old(self).pending().last() as int,
                            v,
                        ));
                    }
                }
                r
            },
        }
    }
}

impl<A: RandomAccessSequenceMut, B: RandomAccessSequenceMut<Item = A::Item>> Concat<A, B> {
    /// Returns an iterator over mutable references to the items: through the
    /// first part, then through the second.
    pub fn iter_mut(&mut self) -> (r: ConcatIterMut<'_, A, B>)
        requires
            old(self).wf(),
            old(self).unique(),
        ensures
            r.valid(),
            r.parent_items() == old(self).items(),
            r.split() == old(self).front().items().len(),
            r.pending() == Seq::new(old(self).items().len(), |k: int| k as usize),
    {
        let r = ConcatIterMut { first: IterMut::new(&mut self.first), second: IterMut::new(&mut self.second) };
        assert(r.pending() =~= Seq::new(old(self).items().len(), |k: int| k as usize));
        r
    }
}

} // verus!
