//! Pairwise zipping of two sequences of equal length.

use crate::traits::{
    IterableSequence, RandomAccessSequence, RandomAccessSequenceMut, SequenceGeneric,
    SequenceIterator,
};
use vstd::prelude::*;

verus! {

/// The pairs of items of `a` and `b` at equal positions.
pub open spec fn zip_items<X, Y>(a: Seq<X>, b: Seq<Y>) -> Seq<(X, Y)> {
    Seq::new(a.len(), |i: int| (a[i], b[i]))
}

/// A sequence of pairs of items of two sequences of equal length.
///
/// Created by [`Zip::new`], which refuses sequences of different lengths.
pub struct Zip<A, B> {
    first: A,
    second: B,
}

impl<A, B> Zip<A, B> {
    /// The sequence of first components.
    pub closed spec fn left(&self) -> A {
        self.first
    }

    /// The sequence of second components.
    pub closed spec fn right(&self) -> B {
        self.second
    }
}

impl<A: SequenceGeneric, B: SequenceGeneric> Zip<A, B> {
    /// Returns the zip of `first` and `second`, or `None` if their lengths differ.
    pub fn new(first: A, second: B) -> (r: Option<Self>)
        requires
            first.wf(),
            second.wf(),
        ensures
            r is Some <==> first.items().len() == second.items().len(),
            r matches Some(z) ==> z.wf() && z.left() == first && z.right() == second,
    {
        if first.len() == second.len() {
            Some(Zip { first, second })
        } else {
            None
        }
    }
}

impl<A: SequenceGeneric, B: SequenceGeneric> SequenceGeneric for Zip<A, B> {
    type Item = (A::Item, B::Item);

    open spec fn items(&self) -> Seq<(A::Item, B::Item)> {
        zip_items(self.left().items(), self.right().items())
    }

    open spec fn wf(&self) -> bool {
        &&& self.left().wf()
        &&& self.right().wf()
        &&& self.left().items().len() == self.right().items().len()
    }

    fn len(&self) -> (r: usize) {
        self.first.len()
    }

    fn is_empty(&self) -> (r: bool) {
        self.first.is_empty()
    }
}

impl<A: RandomAccessSequence, B: RandomAccessSequence> RandomAccessSequence for Zip<A, B> {
    fn get(&self, index: usize) -> (r: Option<(A::Item, B::Item)>) {
        match self.first.get(index) {
            Some(x) => match self.second.get(index) {
                Some(y) => Some((x, y)),
                None => None,
            },
            None => None,
        }
    }
}

impl<A: RandomAccessSequenceMut, B: RandomAccessSequenceMut> Zip<A, B> {
    /// Returns mutable references to both items at the given index, or `None`.
    ///
    /// The two references come from two distinct sequences, so they never alias.
    pub fn get_mut(&mut self, index: usize) -> (r: Option<(&mut A::Item, &mut B::Item)>)
        requires
            old(self).wf(),
            old(self).left().unique(),
            old(self).right().unique(),
        ensures
            final(self).wf(),
            final(self).left().unique(),
            final(self).right().unique(),
            index < old(self).items().len() ==> r is Some && *r.unwrap().0 == old(
                self,
            ).left().items()[index as int] && *r.unwrap().1 == old(self).right().items()[index as int]
                && final(self).left().items() == old(self).left().items().update(
                index as int,
                *final(r.unwrap().0),
            ) && final(self).right().items() == old(self).right().items().update(
                index as int,
                *final(r.unwrap().1),
            ),
            index >= old(self).items().len() ==> r is None && final(self).items() == old(
                self,
            ).items(),
    {
        if index < self.first.len() {
            let x = self.first.get_mut(index).unwrap();
            let y = self.second.get_mut(index).unwrap();
            Some((x, y))
        } else {
            None
        }
    }
}

/// Iterator over a zip: advances both iterators together.
pub struct ZipIter<IA, IB> {
    first: IA,
    second: IB,
}

impl<IA: SequenceIterator, IB: SequenceIterator> SequenceIterator for ZipIter<IA, IB> {
    type Item = (IA::Item, IB::Item);

    closed spec fn remaining(&self) -> Seq<(IA::Item, IB::Item)> {
        zip_items(self.first.remaining(), self.second.remaining())
    }

    closed spec fn valid(&self) -> bool {
        &&& self.first.valid()
        &&& self.second.valid()
        &&& self.first.remaining().len() == self.second.remaining().len()
    }

    fn next(&mut self) -> (r: Option<(IA::Item, IB::Item)>) {
        let x = self.first.next();
        let y = self.second.next();
        assert(self.remaining() =~= if old(self).remaining().len() > 0 {
            old(self).remaining().drop_first()
        } else {
            old(self).remaining()
        });
        match x {
            Some(x) => match y {
                Some(y) => Some((x, y)),
                None => None,
            },
            None => None,
        }
    }

    fn next_back(&mut self) -> (r: Option<(IA::Item, IB::Item)>) {
        let x = self.first.next_back();
        let y = self.second.next_back();
        assert(self.remaining() =~= if old(self).remaining().len() > 0 {
            old(self).remaining().drop_last()
        } else {
            old(self).remaining()
        });
        match x {
            Some(x) => match y {
                Some(y) => Some((x, y)),
                None => None,
            },
            None => None,
        }
    }
}

impl<
    'a,
    A: SequenceGeneric + IterableSequence<'a> + 'a,
    B: SequenceGeneric + IterableSequence<'a> + 'a,
> IterableSequence<'a> for Zip<A, B> {
    type Iter = ZipIter<A::Iter, B::Iter>;

    fn iter(&'a self) -> (r: Self::Iter) {
        ZipIter { first: self.first.iter(), second: self.second.iter() }
    }
}

} // verus!
