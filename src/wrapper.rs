//! Wrappers that let adaptors, which take sequences by value, be applied to a
//! sequence that is owned or borrowed elsewhere.

use crate::traits::{
    IterableSequence, RandomAccessSequence, RandomAccessSequenceMut, SequenceGeneric,
};
use crate::derive::IterMut;
use vstd::prelude::*;

verus! {

/// Wrapper that owns a sequence and forwards every call to it.
pub struct Wrapper<S> {
    sequence: S,
}

/// Wraps a sequence; [`Wrapper::unwrap`] gives it back.
pub fn wrap<S>(sequence: S) -> (r: Wrapper<S>)
    ensures
        r.inner() == sequence,
{
    Wrapper { sequence }
}

impl<S> Wrapper<S> {
    /// The wrapped sequence.
    pub closed spec fn inner(&self) -> S {
        self.sequence
    }

    /// Returns the wrapped sequence.
    pub fn unwrap(self) -> (r: S)
        ensures
            r == self.inner(),
    {
        self.sequence
    }

    /// Returns a reference to the wrapped sequence.
    pub fn as_ref(&self) -> (r: &S)
        ensures
            *r == self.inner(),
    {
        &self.sequence
    }

    /// Returns a mutable reference to the wrapped sequence.
    pub fn as_mut(&mut self) -> (r: &mut S)
        ensures
            *r == old(self).inner(),
            final(self).inner() == *final(r),
    {
        &mut self.sequence
    }
}

impl<S: SequenceGeneric> SequenceGeneric for Wrapper<S> {
    type Item = S::Item;

    open spec fn items(&self) -> Seq<S::Item> {
        self.inner().items()
    }

    open spec fn wf(&self) -> bool {
        self.inner().wf()
    }

    fn len(&self) -> (r: usize) {
        self.sequence.len()
    }

    fn is_empty(&self) -> (r: bool) {
        self.sequence.is_empty()
    }
}

impl<S: RandomAccessSequence> RandomAccessSequence for Wrapper<S> {
    fn get(&self, index: usize) -> (r: Option<S::Item>) {
        self.sequence.get(index)
    }

    fn first(&self) -> (r: Option<S::Item>) {
        self.sequence.first()
    }

    fn last(&self) -> (r: Option<S::Item>) {
        self.sequence.last()
    }
}

impl<S: RandomAccessSequenceMut> RandomAccessSequenceMut for Wrapper<S> {
    /// All a wrapper does is forward, so it inherits uniqueness.
    open spec fn unique(&self) -> bool {
        self.inner().unique()
    }

    fn get_mut(&mut self, index: usize) -> (r: Option<&mut S::Item>) {
        self.sequence.get_mut(index)
    }

    fn first_mut(&mut self) -> (r: Option<&mut S::Item>) {
        self.sequence.first_mut()
    }

    fn last_mut(&mut self) -> (r: Option<&mut S::Item>) {
        self.sequence.last_mut()
    }
}

impl<'a, S: SequenceGeneric + IterableSequence<'a> + 'a> IterableSequence<'a> for Wrapper<S> {
    type Iter = S::Iter;

    fn iter(&'a self) -> (r: Self::Iter) {
        self.sequence.iter()
    }
}

/// A sequence that borrows another one, immutably (`SequenceWrapper<&S>`) or
/// mutably (`SequenceWrapper<&mut S>`), and forwards every call to it.
pub struct SequenceWrapper<R> {
    reference: R,
}

impl<R> SequenceWrapper<R> {
    /// The reference held.
    pub closed spec fn inner(&self) -> R {
        self.reference
    }

    /// Returns a sequence that forwards to the referenced one.
    pub fn new(reference: R) -> (r: Self)
        ensures
            r.inner() == reference,
    {
        SequenceWrapper { reference }
    }

    /// Returns the reference held.
    pub fn into_inner(self) -> (r: R)
        ensures
            r == self.inner(),
    {
        self.reference
    }
}

impl<'s, S: SequenceGeneric> SequenceGeneric for SequenceWrapper<&'s S> {
    type Item = S::Item;

    open spec fn items(&self) -> Seq<S::Item> {
        self.inner().items()
    }

    open spec fn wf(&self) -> bool {
        self.inner().wf()
    }

    fn len(&self) -> (r: usize) {
        self.reference.len()
    }
}

impl<'s, S: RandomAccessSequence> RandomAccessSequence for SequenceWrapper<&'s S> {
    fn get(&self, index: usize) -> (r: Option<S::Item>) {
        self.reference.get(index)
    }
}

impl<'a, 's, S: SequenceGeneric + IterableSequence<'a> + 'a> IterableSequence<'a> for SequenceWrapper<
    &'s S,
> where 's: 'a {
    type Iter = S::Iter;

    fn iter(&'a self) -> (r: Self::Iter) {
        self.reference.iter()
    }
}

impl<'s, S: SequenceGeneric> SequenceGeneric for SequenceWrapper<&'s mut S> {
    type Item = S::Item;

    open spec fn items(&self) -> Seq<S::Item> {
        (*self.inner()).items()
    }

    open spec fn wf(&self) -> bool {
        (*self.inner()).wf()
    }

    fn len(&self) -> (r: usize) {
        self.reference.len()
    }
}

impl<'s, S: RandomAccessSequence> RandomAccessSequence for SequenceWrapper<&'s mut S> {
    fn get(&self, index: usize) -> (r: Option<S::Item>) {
        self.reference.get(index)
    }
}

impl<'s, S: RandomAccessSequenceMut> RandomAccessSequenceMut for SequenceWrapper<&'s mut S> {
    open spec fn unique(&self) -> bool {
        (*self.inner()).unique()
    }

    fn get_mut(&mut self, index: usize) -> (r: Option<&mut S::Item>) {
        self.reference.get_mut(index)
    }
}

impl<S: RandomAccessSequenceMut> Wrapper<S> {
    /// Returns an iterator over mutable references to the items, one index
    /// after the other.
    pub fn iter_mut(&mut self) -> (r: IterMut<'_, Self>)
        requires
            old(self).wf(),
            old(self).unique(),
        ensures
            r.valid(),
            r.parent() == *old(self),
            r.pending() == Seq::new(old(self).items().len(), |k: int| k as usize),
    {
        IterMut::new(self)
    }
}

} // verus!
