//! Selection of the items of a sequence by a sequence of indices.

use crate::traits::{
    ExactSizeSequenceIterator, IterableSequence, RandomAccessSequence, RandomAccessSequenceMut,
    SequenceGeneric, SequenceIterator,
};
use crate::laws::{law_select_writes_do_not_alias, write_through};
use vstd::prelude::*;

verus! {

/// The items of `s` at the positions listed in `idx`, in the order of `idx`.
pub open spec fn select_items<T>(s: Seq<T>, idx: Seq<usize>) -> Seq<T> {
    idx.map_values(|j: usize| s[j as int])
}

/// Every index in `idx` is in bounds of a sequence of length `len`.
pub open spec fn indices_in_bounds(idx: Seq<usize>, len: nat) -> bool {
    forall|k: int| 0 <= k < idx.len() ==> (#[trigger] idx[k]) < len
}

/// Writing `v` at the `k`-th selected position of a selection by distinct
/// indices is writing `v` at position `k` of the selection.
pub proof fn lemma_select_update<T>(s: Seq<T>, idx: Seq<usize>, k: int, v: T)
    requires
        indices_in_bounds(idx, s.len()),
        idx.no_duplicates(),
        0 <= k < idx.len(),
    ensures
        select_items(s.update(idx[k] as int, v), idx) == select_items(s, idx).update(k, v),
{
    assert(select_items(s.update(idx[k] as int, v), idx) =~= select_items(s, idx).update(k, v));
}

/// Selection of a sequence.
///
/// Created by [`Select::new`]: every index is checked once, at construction.
pub struct Select<S, I> {
    sequence: S,
    indices: I,
}

impl<S, I> Select<S, I> {
    /// The selected sequence.
    pub closed spec fn parent(&self) -> S {
        self.sequence
    }

    /// The sequence of indices.
    pub closed spec fn selection(&self) -> I {
        self.indices
    }
}

impl<S: SequenceGeneric, I: RandomAccessSequence<Item = usize>> Select<S, I> {
    /// Returns a selection of `sequence` by `indices`, or `None` if any index
    /// is out of bounds. An empty list of indices is always valid.
    pub fn new(sequence: S, indices: I) -> (r: Option<Self>)
        requires
            sequence.wf(),
            indices.wf(),
        ensures
            r is Some <==> indices_in_bounds(indices.items(), sequence.items().len()),
            r matches Some(s) ==> s.wf() && s.parent() == sequence && s.selection() == indices,
    {
        let n = sequence.len();
        let m = indices.len();
        let mut k: usize = 0;
        while k < m
            invariant
                sequence.wf(),
                indices.wf(),
                n == sequence.items().len(),
                m == indices.items().len(),
                k <= m,
                forall|q: int| 0 <= q < k ==> (#[trigger] indices.items()[q]) < n,
            decreases m - k,
        {
            let j = indices.get(k).unwrap();
            if j >= n {
                return None;
            }
            k = k + 1;
        }
        Some(Select { sequence, indices })
    }
}

impl<S: SequenceGeneric, I: SequenceGeneric<Item = usize>> SequenceGeneric for Select<S, I> {
    type Item = S::Item;

    open spec fn items(&self) -> Seq<S::Item> {
        select_items(self.parent().items(), self.selection().items())
    }

    open spec fn wf(&self) -> bool {
        &&& self.parent().wf()
        &&& self.selection().wf()
        &&& indices_in_bounds(self.selection().items(), self.parent().items().len())
    }

    fn len(&self) -> (r: usize) {
        self.indices.len()
    }
}

impl<S: RandomAccessSequence, I: RandomAccessSequence<Item = usize>> RandomAccessSequence for Select<
    S,
    I,
> {
    fn get(&self, index: usize) -> (r: Option<S::Item>) {
        match self.indices.get(index) {
            Some(j) => self.sequence.get(j),
            None => None,
        }
    }
}

impl<S: RandomAccessSequenceMut, I: RandomAccessSequence<Item = usize>> RandomAccessSequenceMut for Select<
    S,
    I,
> {
    open spec fn unique(&self) -> bool {
        self.parent().unique() && self.selection().items().no_duplicates()
    }

    fn get_mut(&mut self, index: usize) -> (r: Option<&mut S::Item>)
        ensures
            final(self).selection() == old(self).selection(),
            index < old(self).items().len() ==> final(self).parent().items()
                == old(self).parent().items().update(
                old(self).selection().items()[index as int] as int,
                *final(r.unwrap()),
            ),
            index >= old(self).items().len() ==> final(self).parent() == old(self).parent(),
    {
        match self.indices.get(index) {
            Some(j) => {
                let r = self.sequence.get_mut(j);
                proof {
                    lemma_select_update(
                        old(self).parent().items(),
                        old(self).selection().items(),
                        index as int,
                        *final(r.unwrap()),
                    );
                }
                r
            },
            None => None,
        }
    }
}

/// Iterator over a selection: draws the next index and reads the parent there.
pub struct SelectIter<'s, S, It> {
    sequence: &'s S,
    indices: It,
}

impl<'s, S: RandomAccessSequence, It: SequenceIterator<Item = usize>> SequenceIterator for SelectIter<
    's,
    S,
    It,
> {
    type Item = S::Item;

    closed spec fn remaining(&self) -> Seq<S::Item> {
        select_items(self.sequence.items(), self.indices.remaining())
    }

    closed spec fn valid(&self) -> bool {
        &&& self.sequence.wf()
        &&& self.indices.valid()
        &&& indices_in_bounds(self.indices.remaining(), self.sequence.items().len())
    }

    fn next(&mut self) -> (r: Option<S::Item>) {
        match self.indices.next() {
            Some(j) => {
                assert(self.remaining() =~= old(self).remaining().drop_first());
                self.sequence.get(j)
            },
            None => None,
        }
    }

    fn next_back(&mut self) -> (r: Option<S::Item>) {
        match self.indices.next_back() {
            Some(j) => {
                assert(self.remaining() =~= old(self).remaining().drop_last());
                self.sequence.get(j)
            },
            None => None,
        }
    }
}

impl<
    's,
    S: RandomAccessSequence,
    It: ExactSizeSequenceIterator<Item = usize>,
> ExactSizeSequenceIterator for SelectIter<'s, S, It> {
    fn size_hint(&self) -> (r: (usize, Option<usize>)) {
        self.indices.size_hint()
    }
}

impl<
    'a,
    S: RandomAccessSequence + 'a,
    I: RandomAccessSequence<Item = usize> + IterableSequence<'a> + 'a,
> IterableSequence<'a> for Select<S, I> {
    type Iter = SelectIter<'a, S, I::Iter>;

    fn iter(&'a self) -> (r: Self::Iter) {
        let r = SelectIter { sequence: &self.sequence, indices: self.indices.iter() };
        assert(r.remaining() == self.items());
        r
    }
}

/// Mutable iterator over a selection.
///
/// Each step draws the next index and hands out a mutable reference to the
/// parent's item there. The indices are pairwise distinct and the parent is
/// unique, so the steps address pairwise distinct items: a write made through
/// one step is never overwritten by a later one. The reference of a step is
/// borrowed from the iterator and ends before the next step.
pub struct SelectIterMut<'s, S, It> {
    sequence: &'s mut S,
    indices: It,
}

impl<'s, S: RandomAccessSequenceMut, It: SequenceIterator<Item = usize>> SelectIterMut<'s, S, It> {
    /// The current content of the selected sequence.
    pub closed spec fn parent(&self) -> S {
        *self.sequence
    }

    /// The indices that are still to come, front first.
    pub closed spec fn pending(&self) -> Seq<usize> {
        self.indices.remaining()
    }

    pub closed spec fn valid(&self) -> bool {
        &&& self.sequence.wf()
        &&& self.sequence.unique()
        &&& self.indices.valid()
        &&& indices_in_bounds(self.indices.remaining(), self.sequence.items().len())
        &&& self.indices.remaining().no_duplicates()
    }

    /// Returns a mutable reference to the item at the next index, or `None`
    /// when the indices are exhausted.
    pub fn next(&mut self) -> (r: Option<&mut S::Item>)
        requires
            old(self).valid(),
        ensures
            final(self).valid(),
            old(self).pending().len() == 0 ==> r is None && final(self).parent().items() == old(
                self,
            ).parent().items() && final(self).pending() == old(self).pending(),
            old(self).pending().len() > 0 ==> r is Some && *r.unwrap() == old(
                self,
            ).parent().items()[old(self).pending()[0] as int] && final(self).parent().items()
                == old(self).parent().items().update(
                old(self).pending()[0] as int,
                *final(r.unwrap()),
            ) && final(self).pending() == old(self).pending().drop_first(),
    {
        match self.indices.next() {
            Some(j) => {
                proof {
                    assert(old(self).pending().drop_first().no_duplicates());
                }
                self.sequence.get_mut(j)
            },
            None => None,
        }
    }

    /// Returns a mutable reference to the item at the last index still to
    /// come, or `None` when the indices are exhausted.
    pub fn next_back(&mut self) -> (r: Option<&mut S::Item>)
        requires
            old(self).valid(),
        ensures
            final(self).valid(),
            old(self).pending().len() == 0 ==> r is None && final(self).parent().items() == old(
                self,
            ).parent().items() && final(self).pending() == old(self).pending(),
            old(self).pending().len() > 0 ==> r is Some && *r.unwrap() == old(
                self,
            ).parent().items()[old(self).pending().last() as int] && final(self).parent().items()
                == old(self).parent().items().update(
                old(self).pending().last() as int,
                *final(r.unwrap()),
            ) && final(self).pending() == old(self).pending().drop_last(),
    {
        match self.indices.next_back() {
            Some(j) => {
                proof {
                    assert(old(self).pending().drop_last().no_duplicates());
                }
                self.sequence.get_mut(j)
            },
            None => None,
        }
    }

    /// Returns the number of steps left, as a lower and an upper bound.
    pub fn size_hint(&self) -> (r: (usize, Option<usize>))
        where It: ExactSizeSequenceIterator,
        requires
            self.valid(),
        ensures
            r.0 == self.pending().len(),
            r.1 == Some(r.0),
    {
        self.indices.size_hint()
    }
}

impl<S: RandomAccessSequenceMut, I: RandomAccessSequence<Item = usize>> Select<S, I> {
    /// Returns an iterator over mutable references to the selected items.
    pub fn iter_mut<'a>(&'a mut self) -> (r: SelectIterMut<'a, S, I::Iter>)
        where I: IterableSequence<'a>,
        requires
            old(self).wf(),
            old(self).unique(),
        ensures
            r.valid(),
            r.parent() == old(self).parent(),
            r.pending() == old(self).selection().items(),
    {
        SelectIterMut { sequence: &mut self.sequence, indices: self.indices.iter() }
    }

    /// Makes one mutable pass over the selection, as [`Select::iter_mut`]
    /// does: draws the indices in order and writes `values[k]` through the
    /// parent's mutable reference at the `k`-th one.
    ///
    /// The steps address pairwise distinct items, so every selected slot of
    /// the parent ends up holding the value written to it and no other slot
    /// changes (see [`crate::laws::law_select_writes_do_not_alias`]).
    pub fn write_pass<'a>(&'a mut self, values: &[S::Item])
        where I: IterableSequence<'a>, S::Item: Copy,
        requires
            old(self).wf(),
            old(self).unique(),
            values@.len() == old(self).items().len(),
        ensures
            final(self).wf(),
            final(self).unique(),
            final(self).selection() == old(self).selection(),
            final(self).parent().items() == write_through(
                old(self).parent().items(),
                old(self).selection().items(),
                values@,
            ),
            forall|k: int|
                0 <= k < values@.len() ==> final(self).parent().items()[#[trigger] old(
                    self,
                ).selection().items()[k] as int] == values@[k],
            forall|p: int|
                0 <= p < old(self).parent().items().len() && !old(self).selection().items().contains(
                    p as usize,
                ) ==> #[trigger] final(self).parent().items()[p] == old(self).parent().items()[p],
    {
        let ghost s0 = self.sequence.items();
        let ghost idx = self.indices.items();
        let n = values.len();
        let mut indices = self.indices.iter();
        let mut k: usize = 0;
        proof {
            assert(idx.skip(0) =~= idx);
            assert(idx.take(0) =~= seq![]);
            assert(values@.take(0) =~= seq![]);
        }
        while k < n
            invariant
                self.wf(),
                self.unique(),
                self.selection() == old(self).selection(),
                self.selection().items() == idx,
                indices.valid(),
                n == values@.len(),
                n == idx.len(),
                k <= n,
                indices.remaining() == idx.skip(k as int),
                self.parent().items() == write_through(s0, idx.take(k as int), values@.take(k as int)),
            decreases n - k,
        {
            let j = indices.next().unwrap();
            let r = self.sequence.get_mut(j).unwrap();
            *r = values[k];
            proof {
                assert(idx.skip(k as int).drop_first() =~= idx.skip(k + 1));
                assert(idx.take(k + 1).drop_last() =~= idx.take(k as int));
                assert(values@.take(k + 1).drop_last() =~= values@.take(k as int));
            }
            k = k + 1;
        }
        proof {
            assert(idx.take(n as int) =~= idx);
            assert(values@.take(n as int) =~= values@);
            law_select_writes_do_not_alias(s0, idx, values@);
            assert forall|p: int|
                0 <= p < s0.len() && !idx.contains(p as usize) implies #[trigger] self.parent().items()[p]
                == s0[p] by {
                assert forall|q: int| 0 <= q < idx.len() implies idx[q] != p by {
                    if idx[q] == p {
                        assert(idx.contains(p as usize));
                    }
                }
            }
        }
    }
}

} // verus!
