//! Elementwise mapping of a sequence.

use crate::traits::{
    IterableSequence, RandomAccessSequence, SequenceGeneric, SequenceIterator,
};
use vstd::prelude::*;

verus! {

/// `f` may be called on every item of `s` and gives one result for each.
pub open spec fn is_pure_on<A, B, F: Fn(A) -> B>(f: F, s: Seq<A>) -> bool {
    &&& forall|i: int| 0 <= i < s.len() ==> call_requires(f, (#[trigger] s[i],))
    &&& forall|i: int, b1: B, b2: B|
        0 <= i < s.len() && #[trigger] call_ensures(f, (s[i],), b1) && #[trigger] call_ensures(
            f,
            (s[i],),
            b2,
        ) ==> b1 == b2
}

/// What holds of `f` on all items of `s` holds on the items of any part of it
/// that is taken in order from a position on.
pub proof fn lemma_pure_on_subrange<A, B, F: Fn(A) -> B>(f: F, s: Seq<A>, lo: int, hi: int)
    requires
        is_pure_on(f, s),
        0 <= lo <= hi <= s.len(),
    ensures
        is_pure_on(f, s.subrange(lo, hi)),
{
    let t = s.subrange(lo, hi);
    assert forall|i: int| 0 <= i < t.len() implies call_requires(f, (#[trigger] t[i],)) by {
        assert(t[i] == s[i + lo]);
    }
    assert forall|i: int, b1: B, b2: B|
        0 <= i < t.len() && #[trigger] call_ensures(f, (t[i],), b1) && #[trigger] call_ensures(
            f,
            (t[i],),
            b2,
        ) implies b1 == b2 by {
        assert(t[i] == s[i + lo]);
    }
}

/// The result of `f` on `a`.
pub open spec fn apply<A, B, F: Fn(A) -> B>(f: F, a: A) -> B {
    choose|b: B| call_ensures(f, (a,), b)
}

/// The items of `s`, each mapped by `f`.
pub open spec fn map_items<A, B, F: Fn(A) -> B>(s: Seq<A>, f: F) -> Seq<B> {
    s.map_values(|a: A| apply(f, a))
}

/// A sequence that maps the items of its parent on access.
///
/// The function is called anew on every access: nothing is cached.
pub struct Mapped<S, F> {
    sequence: S,
    f: F,
}

impl<S, F> Mapped<S, F> {
    /// The mapped sequence.
    pub closed spec fn parent(&self) -> S {
        self.sequence
    }

    /// The function applied to each item.
    pub closed spec fn function(&self) -> F {
        self.f
    }
}

impl<S: SequenceGeneric, B, F: Fn(S::Item) -> B> Mapped<S, F> {
    /// Returns the sequence of the items of `sequence` mapped by `f`.
    pub fn new(sequence: S, f: F) -> (r: Self)
        ensures
            r.parent() == sequence,
            r.function() == f,
    {
        Mapped { sequence, f }
    }
}

impl<S: SequenceGeneric, B, F: Fn(S::Item) -> B> SequenceGeneric for Mapped<S, F> {
    type Item = B;

    open spec fn items(&self) -> Seq<B> {
        map_items(self.parent().items(), self.function())
    }

    open spec fn wf(&self) -> bool {
        self.parent().wf() && is_pure_on(self.function(), self.parent().items())
    }

    fn len(&self) -> (r: usize) {
        self.sequence.len()
    }

    fn is_empty(&self) -> (r: bool) {
        self.sequence.is_empty()
    }
}

impl<S: RandomAccessSequence, B, F: Fn(S::Item) -> B> RandomAccessSequence for Mapped<S, F> {
    fn get(&self, index: usize) -> (r: Option<B>) {
        match self.sequence.get(index) {
            Some(a) => Some((self.f)(a)),
            None => None,
        }
    }

    fn rget(&self, rindex: usize) -> (r: Option<B>) {
        match self.sequence.rget(rindex) {
            Some(a) => Some((self.f)(a)),
            None => None,
        }
    }

    fn first(&self) -> (r: Option<B>) {
        match self.sequence.first() {
            Some(a) => Some((self.f)(a)),
            None => None,
        }
    }

    fn last(&self) -> (r: Option<B>) {
        match self.sequence.last() {
            Some(a) => Some((self.f)(a)),
            None => None,
        }
    }
}

/// Iterator over a mapped sequence: maps each item of the parent's iterator.
pub struct MapIter<'s, It, F> {
    iter: It,
    f: &'s F,
}

impl<'s, It: SequenceIterator, B, F: Fn(It::Item) -> B> SequenceIterator for MapIter<'s, It, F> {
    type Item = B;

    closed spec fn remaining(&self) -> Seq<B> {
        map_items(self.iter.remaining(), *self.f)
    }

    closed spec fn valid(&self) -> bool {
        self.iter.valid() && is_pure_on(*self.f, self.iter.remaining())
    }

    fn next(&mut self) -> (r: Option<B>) {
        proof {
            let s = self.iter.remaining();
            if s.len() > 0 {
                lemma_pure_on_subrange(*self.f, s, 1, s.len() as int);
                assert(s.subrange(1, s.len() as int) == s.drop_first());
            }
        }
        let r = match self.iter.next() {
            Some(a) => Some((self.f)(a)),
            None => None,
        };
        assert(self.remaining() =~= if old(self).remaining().len() > 0 {
            old(self).remaining().drop_first()
        } else {
            old(self).remaining()
        });
        r
    }

    fn next_back(&mut self) -> (r: Option<B>) {
        proof {
            let s = self.iter.remaining();
            if s.len() > 0 {
                lemma_pure_on_subrange(*self.f, s, 0, s.len() - 1);
                assert(s.subrange(0, s.len() - 1) == s.drop_last());
            }
        }
        let r = match self.iter.next_back() {
            Some(a) => Some((self.f)(a)),
            None => None,
        };
        assert(self.remaining() =~= if old(self).remaining().len() > 0 {
            old(self).remaining().drop_last()
        } else {
            old(self).remaining()
        });
        r
    }
}

impl<'a, S: SequenceGeneric + IterableSequence<'a> + 'a, B, F: Fn(S::Item) -> B + 'a> IterableSequence<
    'a,
> for Mapped<S, F> {
    type Iter = MapIter<'a, S::Iter, F>;

    fn iter(&'a self) -> (r: Self::Iter) {
        MapIter { iter: self.sequence.iter(), f: &self.f }
    }
}

} // verus!
