//! Masking of a sequence by a sequence of booleans.

use crate::traits::{
    item_at, IterableSequence, RandomAccessSequence, RandomAccessSequenceMut, SequenceGeneric,
    SequenceIterator,
};
use vstd::prelude::*;

verus! {

/// The positions of `m` that hold `true`, in increasing order.
pub open spec fn true_positions(m: Seq<bool>) -> Seq<int>
    decreases m.len(),
{
    if m.len() == 0 {
        seq![]
    } else {
        let rest = true_positions(m.drop_first()).map_values(|k: int| k + 1);
        if m[0] {
            seq![0int] + rest
        } else {
            rest
        }
    }
}

/// The number of `true` values in `m`.
pub open spec fn count_true(m: Seq<bool>) -> nat
    decreases m.len(),
{
    if m.len() == 0 {
        0
    } else {
        count_true(m.drop_first()) + if m[0] { 1nat } else { 0nat }
    }
}

/// The items of `s` at the positions where `m` holds `true`, in order.
pub open spec fn compress_items<T>(s: Seq<T>, m: Seq<bool>) -> Seq<T> {
    true_positions(m).map_values(|k: int| s[k])
}

/// The true positions are in bounds, strictly increasing, and as many as the
/// `true` values.
pub proof fn lemma_true_positions(m: Seq<bool>)
    ensures
        true_positions(m).len() == count_true(m),
        forall|k: int|
            0 <= k < true_positions(m).len() ==> 0 <= #[trigger] true_positions(m)[k] < m.len(),
        forall|a: int, b: int|
            0 <= a < b < true_positions(m).len() ==> #[trigger] true_positions(m)[a]
                < #[trigger] true_positions(m)[b],
    decreases m.len(),
{
    if m.len() > 0 {
        lemma_true_positions(m.drop_first());
        let rest = true_positions(m.drop_first()).map_values(|k: int| k + 1);
        if m[0] {
            assert(true_positions(m) == seq![0int] + rest);
            assert forall|k: int| 1 <= k < true_positions(m).len() implies true_positions(m)[k]
                == rest[k - 1] by {}
        }
    }
}

/// Masking a sequence splits into its first item and the rest.
pub proof fn lemma_compress_unfold<T>(s: Seq<T>, m: Seq<bool>)
    requires
        m.len() > 0,
        s.len() == m.len(),
    ensures
        compress_items(s, m) == (if m[0] { seq![s[0]] } else { seq![] }) + compress_items(
            s.drop_first(),
            m.drop_first(),
        ),
{
    lemma_true_positions(m.drop_first());
    let rest = true_positions(m.drop_first()).map_values(|k: int| k + 1);
    if m[0] {
        assert(true_positions(m) == seq![0int] + rest);
    } else {
        assert(true_positions(m) == rest);
    }
    assert(compress_items(s, m) =~= (if m[0] { seq![s[0]] } else { seq![] }) + compress_items(
        s.drop_first(),
        m.drop_first(),
    ));
}

/// The true positions of `m` are those of all but its last value, followed by
/// the last position if it holds `true`.
pub proof fn lemma_true_positions_back(m: Seq<bool>)
    requires
        m.len() > 0,
    ensures
        true_positions(m) == true_positions(m.drop_last()) + if m.last() {
            seq![m.len() - 1]
        } else {
            seq![]
        },
    decreases m.len(),
{
    let t = m.drop_first();
    if t.len() == 0 {
        assert(m.drop_last().len() == 0);
        assert(true_positions(m.drop_last()) =~= seq![]);
        assert(true_positions(t) =~= seq![]);
        assert(true_positions(m) =~= true_positions(m.drop_last()) + if m.last() {
            seq![m.len() - 1]
        } else {
            seq![]
        });
    } else {
        lemma_true_positions_back(t);
        assert(t.drop_last() =~= m.drop_last().drop_first());
        assert(true_positions(m) =~= true_positions(m.drop_last()) + if m.last() {
            seq![m.len() - 1]
        } else {
            seq![]
        });
    }
}

/// Masking a sequence splits into all but its last item and that item.
pub proof fn lemma_compress_unfold_back<T>(s: Seq<T>, m: Seq<bool>)
    requires
        m.len() > 0,
        s.len() == m.len(),
    ensures
        compress_items(s, m) == compress_items(s.drop_last(), m.drop_last()) + (if m.last() {
            seq![s.last()]
        } else {
            seq![]
        }),
{
    lemma_true_positions_back(m);
    lemma_true_positions(m.drop_last());
    assert(compress_items(s, m) =~= compress_items(s.drop_last(), m.drop_last()) + (if m.last() {
        seq![s.last()]
    } else {
        seq![]
    }));
}

/// Writing `v` through the `i`-th masked position writes `v` at index `i`
/// of the masked sequence.
pub proof fn lemma_compress_update<T>(s: Seq<T>, m: Seq<bool>, i: int, v: T)
    requires
        s.len() == m.len(),
        0 <= i < true_positions(m).len(),
    ensures
        compress_items(s.update(true_positions(m)[i], v), m) == compress_items(s, m).update(i, v),
{
    lemma_true_positions(m);
    assert(compress_items(s.update(true_positions(m)[i], v), m) =~= compress_items(s, m).update(
        i,
        v,
    ));
}

/// Compression of a sequence.
///
/// Created by [`Compress::new`]. Random access walks the mask up to the
/// requested item, so it costs time linear in the length of the mask.
pub struct Compress<S, M> {
    sequence: S,
    mask: M,
}

impl<S, M> Compress<S, M> {
    /// The compressed sequence.
    pub closed spec fn parent(&self) -> S {
        self.sequence
    }

    /// The mask.
    pub closed spec fn mask(&self) -> M {
        self.mask
    }
}

impl<S: SequenceGeneric, M: RandomAccessSequence<Item = bool>> Compress<S, M> {
    /// Returns the items of `sequence` where `mask` holds `true`, or `None` if
    /// the two have different lengths.
    pub fn new(sequence: S, mask: M) -> (r: Option<Self>)
        requires
            sequence.wf(),
            mask.wf(),
        ensures
            r is Some <==> sequence.items().len() == mask.items().len(),
            r matches Some(c) ==> c.wf() && c.parent() == sequence && c.mask() == mask,
    {
        if sequence.len() == mask.len() {
            Some(Compress { sequence, mask })
        } else {
            None
        }
    }

    /// Returns the position in the parent of the item at `index`, or `None`.
    fn selected_index(&self, index: usize) -> (r: Option<usize>)
        requires
            self.wf(),
        ensures
            r is Some <==> index < true_positions(self.mask().items()).len(),
            r matches Some(p) ==> p == true_positions(self.mask().items())[index as int],
    {
        let ghost m = self.mask.items();
        let n = self.mask.len();
        let mut j: usize = 0;
        let mut c: usize = 0;
        proof {
            assert(m.skip(0) =~= m);
            assert(true_positions(m).map_values(|k: int| k + 0) =~= true_positions(m));
        }
        while j < n
            invariant
                self.wf(),
                m == self.mask.items(),
                n == m.len(),
                j <= n,
                c <= index,
                item_at(true_positions(m), index as int) == item_at(
                    true_positions(m.skip(j as int)).map_values(|k: int| k + j),
                    index - c,
                ),
            decreases n - j,
        {
            let b = self.mask.get(j).unwrap();
            proof {
                let t = m.skip(j as int);
                assert(t.drop_first() =~= m.skip(j + 1));
                let shifted = true_positions(t).map_values(|k: int| k + j);
                let next = true_positions(m.skip(j + 1)).map_values(|k: int| k + (j + 1));
                if b {
                    assert(shifted =~= seq![j as int] + next);
                } else {
                    assert(shifted =~= next);
                }
            }
            if b {
                if c == index {
                    return Some(j);
                }
                c = c + 1;
            }
            j = j + 1;
        }
        proof {
            assert(m.skip(j as int).len() == 0);
        }
        None
    }
}

impl<S: SequenceGeneric, M: RandomAccessSequence<Item = bool>> SequenceGeneric for Compress<S, M> {
    type Item = S::Item;

    open spec fn items(&self) -> Seq<S::Item> {
        compress_items(self.parent().items(), self.mask().items())
    }

    open spec fn wf(&self) -> bool {
        &&& self.parent().wf()
        &&& self.mask().wf()
        &&& self.parent().items().len() == self.mask().items().len()
    }

    fn len(&self) -> (r: usize) {
        let ghost m = self.mask.items();
        let n = self.mask.len();
        let mut j: usize = 0;
        let mut c: usize = 0;
        proof {
            lemma_true_positions(m);
            assert(m.skip(0) =~= m);
        }
        while j < n
            invariant
                self.wf(),
                m == self.mask.items(),
                n == m.len(),
                j <= n,
                c + true_positions(m.skip(j as int)).len() == true_positions(m).len(),
                c <= j,
            decreases n - j,
        {
            let b = self.mask.get(j).unwrap();
            proof {
                assert(m.skip(j as int).drop_first() =~= m.skip(j + 1));
            }
            if b {
                c = c + 1;
            }
            j = j + 1;
        }
        c
    }
}

impl<S: RandomAccessSequence, M: RandomAccessSequence<Item = bool>> RandomAccessSequence for Compress<
    S,
    M,
> {
    fn get(&self, index: usize) -> (r: Option<S::Item>) {
        proof {
            lemma_true_positions(self.mask().items());
        }
        match self.selected_index(index) {
            Some(p) => self.sequence.get(p),
            None => None,
        }
    }
}

impl<S: RandomAccessSequenceMut, M: RandomAccessSequence<Item = bool>> RandomAccessSequenceMut for Compress<
    S,
    M,
> {
    open spec fn unique(&self) -> bool {
        self.parent().unique()
    }

    fn get_mut(&mut self, index: usize) -> (r: Option<&mut S::Item>)
        ensures
            final(self).mask() == old(self).mask(),
            index < old(self).items().len() ==> final(self).parent().items()
                == old(self).parent().items().update(
                true_positions(old(self).mask().items())[index as int],
                *final(r.unwrap()),
            ),
            index >= old(self).items().len() ==> final(self).parent() == old(self).parent(),
    {
        proof {
            lemma_true_positions(self.mask().items());
        }
        match self.selected_index(index) {
            Some(p) => {
                let r = self.sequence.get_mut(p);
                proof {
                    lemma_compress_update(
                        old(self).parent().items(),
                        old(self).mask().items(),
                        index as int,
                        *final(r.unwrap()),
                    );
                }
                r
            },
            None => None,
        }
    }
}

/// Iterator over a compressed sequence.
///
/// Advances the parent's iterator and the mask's iterator in lockstep: a
/// parent item is consumed for every mask value and handed out only where the
/// mask holds `true`.
pub struct CompressIter<SeqIter, MaskIter> {
    sequence: SeqIter,
    mask: MaskIter,
}

impl<SeqIter: SequenceIterator, MaskIter: SequenceIterator<Item = bool>> SequenceIterator for CompressIter<
    SeqIter,
    MaskIter,
> {
    type Item = SeqIter::Item;

    closed spec fn remaining(&self) -> Seq<SeqIter::Item> {
        compress_items(self.sequence.remaining(), self.mask.remaining())
    }

    closed spec fn valid(&self) -> bool {
        &&& self.sequence.valid()
        &&& self.mask.valid()
        &&& self.sequence.remaining().len() == self.mask.remaining().len()
    }

    fn next(&mut self) -> (r: Option<SeqIter::Item>) {
        let ghost goal = self.remaining();
        loop
            invariant
                self.valid(),
                self.remaining() == goal,
                goal == old(self).remaining(),
            decreases self.mask.remaining().len(),
        {
            proof {
                if self.mask.remaining().len() > 0 {
                    lemma_compress_unfold(self.sequence.remaining(), self.mask.remaining());
                }
            }
            match self.mask.next() {
                None => {
                    return None;
                },
                Some(select) => {
                    let item = self.sequence.next();
                    if select {
                        return item;
                    }
                },
            }
        }
    }

    fn next_back(&mut self) -> (r: Option<SeqIter::Item>) {
        let ghost goal = self.remaining();
        loop
            invariant
                self.valid(),
                self.remaining() == goal,
                goal == old(self).remaining(),
            decreases self.mask.remaining().len(),
        {
            proof {
                if self.mask.remaining().len() > 0 {
                    lemma_compress_unfold_back(self.sequence.remaining(), self.mask.remaining());
                }
            }
            match self.mask.next_back() {
                None => {
                    return None;
                },
                Some(select) => {
                    let item = self.sequence.next_back();
                    if select {
                        return item;
                    }
                },
            }
        }
    }
}

impl<
    'a,
    S: SequenceGeneric + IterableSequence<'a> + 'a,
    M: RandomAccessSequence<Item = bool> + IterableSequence<'a> + 'a,
> IterableSequence<'a> for Compress<S, M> {
    type Iter = CompressIter<S::Iter, M::Iter>;

    fn iter(&'a self) -> (r: Self::Iter) {
        CompressIter { sequence: self.sequence.iter(), mask: self.mask.iter() }
    }
}

/// The true positions of a mask, shifted by `f`, split into the first
/// position and the rest.
proof fn lemma_shifted_unfold(m: Seq<bool>, f: int)
    requires
        m.len() > 0,
    ensures
        true_positions(m).map_values(|k: int| k + f) == (if m[0] {
            seq![f]
        } else {
            seq![]
        }) + true_positions(m.drop_first()).map_values(|k: int| k + (f + 1)),
{
    assert(true_positions(m).map_values(|k: int| k + f) =~= (if m[0] {
        seq![f]
    } else {
        seq![]
    }) + true_positions(m.drop_first()).map_values(|k: int| k + (f + 1)));
}

/// The true positions of a mask, shifted by `f`, split into all but the last
/// position and the last.
proof fn lemma_shifted_unfold_back(m: Seq<bool>, f: int)
    requires
        m.len() > 0,
    ensures
        true_positions(m).map_values(|k: int| k + f) == true_positions(m.drop_last()).map_values(
            |k: int| k + f,
        ) + (if m.last() {
            seq![f + m.len() - 1]
        } else {
            seq![]
        }),
{
    lemma_true_positions_back(m);
    assert(true_positions(m).map_values(|k: int| k + f) =~= true_positions(
        m.drop_last(),
    ).map_values(|k: int| k + f) + (if m.last() {
        seq![f + m.len() - 1]
    } else {
        seq![]
    }));
}

/// Mutable iterator over a compressed sequence.
///
/// Advances the mask's iterator and a position in the parent in lockstep, and
/// hands out a mutable reference to the parent's item where the mask holds
/// `true`. The reference of a step is borrowed from the iterator and ends
/// before the next step.
pub struct CompressIterMut<'s, S, MaskIter> {
    sequence: &'s mut S,
    mask: MaskIter,
    front: usize,
    back: usize,
}

impl<'s, S: RandomAccessSequenceMut, MaskIter: SequenceIterator<Item = bool>> CompressIterMut<
    's,
    S,
    MaskIter,
> {
    /// The current content of the compressed sequence.
    pub closed spec fn parent(&self) -> S {
        *self.sequence
    }

    /// The positions in the parent that are still to come, front first.
    pub closed spec fn pending(&self) -> Seq<usize> {
        true_positions(self.mask.remaining()).map_values(|k: int| (k + self.front) as usize)
    }

    pub closed spec fn valid(&self) -> bool {
        &&& self.sequence.wf()
        &&& self.sequence.unique()
        &&& self.mask.valid()
        &&& self.front <= self.back <= self.sequence.items().len()
        &&& self.mask.remaining().len() == self.back - self.front
    }

    /// Returns a mutable reference to the item at the next masked-in
    /// position, or `None` when the mask is exhausted.
    pub fn next(&mut self) -> (r: Option<&mut S::Item>)
        requires
            old(self).valid(),
        ensures
            final(self).valid(),
            old(self).pending().len() == 0 ==> r is None && final(self).parent().items()
                == old(self).parent().items() && final(self).pending() == old(self).pending(),
            old(self).pending().len() > 0 ==> r is Some && *r.unwrap()
                == old(self).parent().items()[old(self).pending()[0] as int]
                && final(self).parent().items() == old(self).parent().items().update(
                old(self).pending()[0] as int,
                *final(r.unwrap()),
            ) && final(self).pending() == old(self).pending().drop_first(),
    {
        let ghost goal = true_positions(self.mask.remaining()).map_values(
            |k: int| k + self.front,
        );
        proof {
            assert(old(self).pending() =~= goal.map_values(|k: int| k as usize));
        }
        loop
            invariant
                self.valid(),
                self.parent() == old(self).parent(),
                true_positions(self.mask.remaining()).map_values(|k: int| k + self.front) == goal,
                goal == true_positions(old(self).mask.remaining()).map_values(
                    |k: int| k + old(self).front,
                ),
            decreases self.mask.remaining().len(),
        {
            let ghost m = self.mask.remaining();
            proof {
                if m.len() > 0 {
                    lemma_shifted_unfold(m, self.front as int);
                } else {
                    assert(true_positions(m) =~= seq![]);
                }
            }
            match self.mask.next() {
                None => {
                    proof {
                        assert(goal =~= seq![]);
                    }
                    return None;
                },
                Some(b) => {
                    let p = self.front;
                    self.front = p + 1;
                    if b {
                        proof {
                            lemma_true_positions(self.mask.remaining());
                            assert(self.mask.remaining() == m.drop_first());
                            assert(goal == seq![p as int] + true_positions(
                                m.drop_first(),
                            ).map_values(|k: int| k + (p + 1)));
                            assert(goal[0] == p);
                            let t = true_positions(self.mask.remaining());
                            assert(self.pending() =~= t.map_values(|k: int| (k + (p + 1)) as usize));
                            assert(goal.map_values(|k: int| k as usize).drop_first() =~= t.map_values(
                                |k: int| (k + (p + 1)) as usize,
                            ));
                            assert(old(self).pending() == goal.map_values(|k: int| k as usize));
                            assert(self.pending() =~= old(self).pending().drop_first());
                        }
                        return self.sequence.get_mut(p);
                    }
                },
            }
        }
    }

    /// Returns a mutable reference to the item at the last masked-in position
    /// still to come, or `None` when the mask is exhausted.
    pub fn next_back(&mut self) -> (r: Option<&mut S::Item>)
        requires
            old(self).valid(),
        ensures
            final(self).valid(),
            old(self).pending().len() == 0 ==> r is None && final(self).parent().items()
                == old(self).parent().items() && final(self).pending() == old(self).pending(),
            old(self).pending().len() > 0 ==> r is Some && *r.unwrap()
                == old(self).parent().items()[old(self).pending().last() as int]
                && final(self).parent().items() == old(self).parent().items().update(
                old(self).pending().last() as int,
                *final(r.unwrap()),
            ) && final(self).pending() == old(self).pending().drop_last(),
    {
        let ghost goal = true_positions(self.mask.remaining()).map_values(
            |k: int| k + self.front,
        );
        proof {
            assert(old(self).pending() =~= goal.map_values(|k: int| k as usize));
        }
        loop
            invariant
                self.valid(),
                self.parent() == old(self).parent(),
                self.front == old(self).front,
                true_positions(self.mask.remaining()).map_values(|k: int| k + self.front) == goal,
                goal == true_positions(old(self).mask.remaining()).map_values(
                    |k: int| k + old(self).front,
                ),
            decreases self.mask.remaining().len(),
        {
            let ghost m = self.mask.remaining();
            proof {
                if m.len() > 0 {
                    lemma_shifted_unfold_back(m, self.front as int);
                } else {
                    assert(true_positions(m) =~= seq![]);
                }
            }
            match self.mask.next_back() {
                None => {
                    proof {
                        assert(goal =~= seq![]);
                    }
                    return None;
                },
                Some(b) => {
                    self.back = self.back - 1;
                    let p = self.back;
                    if b {
                        proof {
                            lemma_true_positions(self.mask.remaining());
                            assert(self.mask.remaining() == m.drop_last());
                            assert(goal == true_positions(m.drop_last()).map_values(
                                |k: int| k + self.front,
                            ) + seq![p as int]);
                            assert(goal.last() == p);
                            let t = true_positions(self.mask.remaining());
                            let f = self.front;
                            assert(self.pending() =~= t.map_values(|k: int| (k + f) as usize));
                            assert(goal.map_values(|k: int| k as usize).drop_last() =~= t.map_values(
                                |k: int| (k + f) as usize,
                            ));
                            assert(old(self).pending() == goal.map_values(|k: int| k as usize));
                            assert(self.pending() =~= old(self).pending().drop_last());
                        }
                        return self.sequence.get_mut(p);
                    }
                },
            }
        }
    }
}

impl<S: RandomAccessSequenceMut, M: RandomAccessSequence<Item = bool>> Compress<S, M> {
    /// Returns an iterator over mutable references to the items, walking the
    /// mask in lockstep with the parent.
    pub fn iter_mut<'a>(&'a mut self) -> (r: CompressIterMut<'a, S, M::Iter>)
        where M: IterableSequence<'a>,
        requires
            old(self).wf(),
            old(self).unique(),
        ensures
            r.valid(),
            r.parent() == old(self).parent(),
            r.pending() == true_positions(old(self).mask().items()).map_values(|k: int| k as usize),
    {
        let back = self.sequence.len();
        let r = CompressIterMut { sequence: &mut self.sequence, mask: self.mask.iter(), front: 0, back };
        assert(r.pending() =~= true_positions(old(self).mask().items()).map_values(|k: int| k as usize));
        r
    }
}

} // verus!
