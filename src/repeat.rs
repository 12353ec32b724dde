//! Repetition of a sequence.

use crate::traits::{
    ExactSizeSequenceIterator, IterableSequence, RandomAccessSequence, SequenceGeneric,
    SequenceIterator,
};
use vstd::prelude::*;

verus! {

/// `s` repeated `n` times.
pub open spec fn repeat_items<T>(s: Seq<T>, n: nat) -> Seq<T> {
    Seq::new(s.len() * n, |i: int| s[i % (s.len() as int)])
}

/// A sequence that repeats its parent a number of times.
///
/// Repetition hands out the same element at several indices, so it offers no
/// mutable access: a write through one index would show at others.
pub struct Repeat<S> {
    sequence: S,
    nreps: usize,
}

impl<S> Repeat<S> {
    /// The repeated sequence.
    pub closed spec fn parent(&self) -> S {
        self.sequence
    }

    /// The number of repetitions.
    pub closed spec fn count(&self) -> nat {
        self.nreps as nat
    }
}

impl<S: SequenceGeneric> Repeat<S> {
    /// Returns `sequence` repeated `nreps` times. The total length must fit in
    /// `usize`.
    pub fn new(sequence: S, nreps: usize) -> (r: Self)
        requires
            sequence.wf(),
            sequence.items().len() * nreps <= usize::MAX,
        ensures
            r.wf(),
            r.parent() == sequence,
            r.count() == nreps,
    {
        Repeat { sequence, nreps }
    }
}

impl<S: SequenceGeneric> SequenceGeneric for Repeat<S> {
    type Item = S::Item;

    open spec fn items(&self) -> Seq<S::Item> {
        repeat_items(self.parent().items(), self.count())
    }

    open spec fn wf(&self) -> bool {
        self.parent().wf() && self.parent().items().len() * self.count() <= usize::MAX
    }

    fn len(&self) -> (r: usize) {
        self.sequence.len() * self.nreps
    }

    fn is_empty(&self) -> (r: bool) {
        proof {
            let n = self.parent().items().len();
            let k = self.count();
            assert((n * k == 0) == (n == 0 || k == 0)) by (nonlinear_arith);
        }
        self.nreps == 0 || self.sequence.is_empty()
    }
}

impl<S: RandomAccessSequence> RandomAccessSequence for Repeat<S> {
    fn get(&self, index: usize) -> (r: Option<S::Item>) {
        let n = self.sequence.len();
        let total = n * self.nreps;
        if index < total {
            assert(n > 0) by (nonlinear_arith)
                requires
                    index < total,
                    total == n * self.nreps,
            ;
            self.sequence.get(index % n)
        } else {
            None
        }
    }

    fn first(&self) -> (r: Option<S::Item>) {
        if self.nreps > 0 {
            proof {
                let n = self.parent().items().len();
                assert(n * self.count() >= n) by (nonlinear_arith)
                    requires
                        self.count() > 0,
                ;
                if n > 0 {
                    assert(0int % (n as int) == 0);
                }
            }
            self.sequence.first()
        } else {
            proof {
                let n = self.parent().items().len();
                assert(n * self.count() == 0) by (nonlinear_arith)
                    requires
                        self.count() == 0,
                ;
            }
            None
        }
    }
}

/// Iterator over a repetition.
///
/// Keeps the positions of the next item from the front and from the back
/// within the repetition, and reads the parent at those positions modulo its
/// length.
pub struct RepeatIter<'s, S> {
    seq: &'s S,
    front: usize,
    back: usize,
    nreps: Ghost<nat>,
}

impl<'s, S: RandomAccessSequence> SequenceIterator for RepeatIter<'s, S> {
    type Item = S::Item;

    closed spec fn remaining(&self) -> Seq<S::Item> {
        repeat_items(self.seq.items(), self.nreps@).subrange(self.front as int, self.back as int)
    }

    closed spec fn valid(&self) -> bool {
        &&& self.seq.wf()
        &&& self.front <= self.back <= self.seq.items().len() * self.nreps@
    }

    fn next(&mut self) -> (r: Option<S::Item>) {
        if self.front < self.back {
            let n = self.seq.len();
            proof {
                assert(n > 0) by (nonlinear_arith)
                    requires
                        self.front < self.back <= n * self.nreps@,
                ;
            }
            let i = self.front;
            self.front = i + 1;
            assert(self.remaining() =~= old(self).remaining().drop_first());
            self.seq.get(i % n)
        } else {
            None
        }
    }

    fn next_back(&mut self) -> (r: Option<S::Item>) {
        if self.front < self.back {
            let n = self.seq.len();
            proof {
                assert(n > 0) by (nonlinear_arith)
                    requires
                        self.front < self.back <= n * self.nreps@,
                ;
            }
            self.back = self.back - 1;
            assert(self.remaining() =~= old(self).remaining().drop_last());
            self.seq.get(self.back % n)
        } else {
            None
        }
    }
}

impl<'s, S: RandomAccessSequence> ExactSizeSequenceIterator for RepeatIter<'s, S> {
    fn size_hint(&self) -> (r: (usize, Option<usize>)) {
        let k = self.back - self.front;
        (k, Some(k))
    }
}

impl<'a, S: RandomAccessSequence + 'a> IterableSequence<'a> for Repeat<S> {
    type Iter = RepeatIter<'a, S>;

    fn iter(&'a self) -> (r: Self::Iter) {
        let back = self.len();
        let r = RepeatIter {
            seq: &self.sequence,
            front: 0,
            back,
            nreps: Ghost(self.nreps as nat),
        };
        assert(r.remaining() =~= self.items());
        r
    }
}

} // verus!
