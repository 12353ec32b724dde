//! Contiguous storage, double-ended queues and integer ranges as sequences.

use crate::derive::Iter;
use crate::traits::{
    IterableSequence, RandomAccessSequence, RandomAccessSequenceMut, SequenceGeneric,
};
use std::collections::VecDeque;
use vstd::prelude::*;

verus! {

// Shared slices and arrays hand out copies of their elements.

impl<'s, T: Copy> SequenceGeneric for &'s [T] {
    type Item = T;

    open spec fn items(&self) -> Seq<T> {
        (**self)@
    }

    open spec fn wf(&self) -> bool {
        true
    }

    fn len(&self) -> (r: usize) {
        (**self).len()
    }
}

impl<'s, T: Copy> RandomAccessSequence for &'s [T] {
    fn get(&self, index: usize) -> (r: Option<T>) {
        if index < (**self).len() {
            Some(self[index])
        } else {
            None
        }
    }
}

impl<'s, T: Copy, const N: usize> SequenceGeneric for &'s [T; N] {
    type Item = T;

    open spec fn items(&self) -> Seq<T> {
        (**self)@
    }

    open spec fn wf(&self) -> bool {
        true
    }

    fn len(&self) -> (r: usize) {
        N
    }
}

impl<'s, T: Copy, const N: usize> RandomAccessSequence for &'s [T; N] {
    fn get(&self, index: usize) -> (r: Option<T>) {
        if index < N {
            Some(self[index])
        } else {
            None
        }
    }
}

// Owned and mutably borrowed storage also hands out mutable references;
// distinct indices address distinct elements.

impl<'s, T: Copy> SequenceGeneric for &'s mut [T] {
    type Item = T;

    open spec fn items(&self) -> Seq<T> {
        (**self)@
    }

    open spec fn wf(&self) -> bool {
        true
    }

    fn len(&self) -> (r: usize) {
        (**self).len()
    }
}

impl<'s, T: Copy> RandomAccessSequence for &'s mut [T] {
    fn get(&self, index: usize) -> (r: Option<T>) {
        if index < (**self).len() {
            Some(self[index])
        } else {
            None
        }
    }
}

impl<'s, T: Copy> RandomAccessSequenceMut for &'s mut [T] {
    open spec fn unique(&self) -> bool {
        true
    }

    fn get_mut(&mut self, index: usize) -> (r: Option<&mut T>) {
        if index < (**self).len() {
            let s: &mut [T] = &mut **self;
            let (_head, tail) = s.split_at_mut(index);
            tail.first_mut()
        } else {
            None
        }
    }
}

impl<T: Copy, const N: usize> SequenceGeneric for [T; N] {
    type Item = T;

    open spec fn items(&self) -> Seq<T> {
        self@
    }

    open spec fn wf(&self) -> bool {
        true
    }

    fn len(&self) -> (r: usize) {
        N
    }
}

impl<T: Copy, const N: usize> RandomAccessSequence for [T; N] {
    fn get(&self, index: usize) -> (r: Option<T>) {
        if index < N {
            Some(self[index])
        } else {
            None
        }
    }
}

impl<T: Copy, const N: usize> RandomAccessSequenceMut for [T; N] {
    open spec fn unique(&self) -> bool {
        true
    }

    fn get_mut(&mut self, index: usize) -> (r: Option<&mut T>) {
        if index < N {
            let s: &mut [T] = self;
            let (_head, tail) = s.split_at_mut(index);
            tail.first_mut()
        } else {
            None
        }
    }
}

impl<'s, T: Copy, const N: usize> SequenceGeneric for &'s mut [T; N] {
    type Item = T;

    open spec fn items(&self) -> Seq<T> {
        (**self)@
    }

    open spec fn wf(&self) -> bool {
        true
    }

    fn len(&self) -> (r: usize) {
        N
    }
}

impl<'s, T: Copy, const N: usize> RandomAccessSequence for &'s mut [T; N] {
    fn get(&self, index: usize) -> (r: Option<T>) {
        if index < N {
            Some(self[index])
        } else {
            None
        }
    }
}

impl<'s, T: Copy, const N: usize> RandomAccessSequenceMut for &'s mut [T; N] {
    open spec fn unique(&self) -> bool {
        true
    }

    fn get_mut(&mut self, index: usize) -> (r: Option<&mut T>) {
        if index < N {
            let s: &mut [T] = &mut **self;
            let (_head, tail) = s.split_at_mut(index);
            tail.first_mut()
        } else {
            None
        }
    }
}

impl<T: Copy> SequenceGeneric for Vec<T> {
    type Item = T;

    open spec fn items(&self) -> Seq<T> {
        self@
    }

    open spec fn wf(&self) -> bool {
        true
    }

    fn len(&self) -> (r: usize) {
        Vec::len(self)
    }
}

impl<T: Copy> RandomAccessSequence for Vec<T> {
    fn get(&self, index: usize) -> (r: Option<T>) {
        if index < Vec::len(self) {
            Some(self[index])
        } else {
            None
        }
    }
}

impl<T: Copy> RandomAccessSequenceMut for Vec<T> {
    open spec fn unique(&self) -> bool {
        true
    }

    fn get_mut(&mut self, index: usize) -> (r: Option<&mut T>) {
        if index < Vec::len(self) {
            let s: &mut [T] = self.as_mut_slice();
            let (_head, tail) = s.split_at_mut(index);
            tail.first_mut()
        } else {
            None
        }
    }
}

/// The half-open range `start..end` of integers; empty when `end <= start`.
impl SequenceGeneric for core::ops::Range<usize> {
    type Item = usize;

    open spec fn items(&self) -> Seq<usize> {
        Seq::new(
            if self.start <= self.end { (self.end - self.start) as nat } else { 0 },
            |i: int| (self.start + i) as usize,
        )
    }

    open spec fn wf(&self) -> bool {
        true
    }

    fn len(&self) -> (r: usize) {
        if self.start <= self.end {
            self.end - self.start
        } else {
            0
        }
    }
}

impl RandomAccessSequence for core::ops::Range<usize> {
    fn get(&self, index: usize) -> (r: Option<usize>) {
        if index < SequenceGeneric::len(self) {
            Some(self.start + index)
        } else {
            None
        }
    }
}


// Storage is iterated through indexed access.

impl<'a> IterableSequence<'a> for core::ops::Range<usize> {
    type Iter = Iter<'a, core::ops::Range<usize>>;

    fn iter(&'a self) -> (r: Self::Iter) {
        Iter::new(self)
    }
}

impl<'a, 's, T: Copy + 'a> IterableSequence<'a> for &'s [T] where 's: 'a {
    type Iter = Iter<'a, &'s [T]>;

    fn iter(&'a self) -> (r: Self::Iter) {
        Iter::new(self)
    }
}

impl<'a, 's, T: Copy + 'a> IterableSequence<'a> for &'s mut [T] where 's: 'a {
    type Iter = Iter<'a, &'s mut [T]>;

    fn iter(&'a self) -> (r: Self::Iter) {
        Iter::new(self)
    }
}

impl<'a, T: Copy + 'a, const N: usize> IterableSequence<'a> for [T; N] {
    type Iter = Iter<'a, [T; N]>;

    fn iter(&'a self) -> (r: Self::Iter) {
        Iter::new(self)
    }
}

impl<'a, 's, T: Copy + 'a, const N: usize> IterableSequence<'a> for &'s [T; N] where 's: 'a {
    type Iter = Iter<'a, &'s [T; N]>;

    fn iter(&'a self) -> (r: Self::Iter) {
        Iter::new(self)
    }
}

impl<'a, 's, T: Copy + 'a, const N: usize> IterableSequence<'a> for &'s mut [T; N] where 's: 'a {
    type Iter = Iter<'a, &'s mut [T; N]>;

    fn iter(&'a self) -> (r: Self::Iter) {
        Iter::new(self)
    }
}

impl<'a, T: Copy + 'a> IterableSequence<'a> for Vec<T> {
    type Iter = Iter<'a, Vec<T>>;

    fn iter(&'a self) -> (r: Self::Iter) {
        Iter::new(self)
    }
}


/// Relies on `VecDeque::get_mut`: a mutable reference to the element at
/// `index` (index 0 is the front), or `None` when `index` is out of bounds.
#[verifier::external_body]
fn deque_get_mut<T>(deque: &mut VecDeque<T>, index: usize) -> (r: Option<&mut T>)
    ensures
        index < old(deque)@.len() ==> r is Some && *r.unwrap() == old(deque)@[index as int]
            && final(deque)@ == old(deque)@.update(index as int, *final(r.unwrap())),
        index >= old(deque)@.len() ==> r is None && final(deque)@ == old(deque)@,
{
    deque.get_mut(index)
}

impl<T: Copy> SequenceGeneric for VecDeque<T> {
    type Item = T;

    open spec fn items(&self) -> Seq<T> {
        self@
    }

    open spec fn wf(&self) -> bool {
        true
    }

    fn len(&self) -> (r: usize) {
        VecDeque::len(self)
    }
}

impl<T: Copy> RandomAccessSequence for VecDeque<T> {
    fn get(&self, index: usize) -> (r: Option<T>) {
        if index < VecDeque::len(self) {
            Some(self[index])
        } else {
            None
        }
    }
}

impl<T: Copy> RandomAccessSequenceMut for VecDeque<T> {
    open spec fn unique(&self) -> bool {
        true
    }

    fn get_mut(&mut self, index: usize) -> (r: Option<&mut T>) {
        deque_get_mut(self, index)
    }
}

impl<'a, T: Copy + 'a> IterableSequence<'a> for VecDeque<T> {
    type Iter = Iter<'a, VecDeque<T>>;

    fn iter(&'a self) -> (r: Self::Iter) {
        Iter::new(self)
    }
}

} // verus!
