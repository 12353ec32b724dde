use sqnc::derive::IntoIter;
use sqnc::{
    IterableSequence, MinMaxSequence, RandomAccessSequence, RandomAccessSequenceMut, SequenceGeneric,
    SequenceIterator, SequenceWrapper, Wrapper,
};

fn collect<I: SequenceIterator>(mut it: I) -> Vec<I::Item> {
    let mut out = Vec::new();
    while let Some(x) = it.next() {
        out.push(x);
    }
    out
}

#[test]
fn unwrap() {
    assert_eq!(sqnc::wrap(2..5).unwrap(), 2..5);
}

#[test]
fn as_ref() {
    assert_eq!(sqnc::wrap(2..5).as_ref(), &(2..5));
}

#[test]
fn as_mut() {
    let mut x = [2, 3, 4];
    let mut y = sqnc::wrap(&mut x);
    *y.as_mut().get_mut(0).unwrap() = 5;
    assert_eq!(x, [5, 3, 4]);
}

#[test]
fn wrapper_into_iter() {
    assert_eq!(collect(IntoIter::new(sqnc::wrap(2..5))), vec![2, 3, 4]);
}

#[test]
fn wrapper_len() {
    assert_eq!(sqnc::wrap(2..5).len(), 3);
}

#[test]
fn wrapper_is_empty() {
    assert_eq!(sqnc::wrap(2..5).is_empty(), false);
    assert_eq!(sqnc::wrap(2..2).is_empty(), true);
}

#[test]
fn wrapper_get() {
    let x = sqnc::wrap(2..5);
    assert_eq!(x.get(0), Some(2));
    assert_eq!(x.get(1), Some(3));
    assert_eq!(x.get(2), Some(4));
    assert_eq!(x.get(3), None);
}

#[test]
fn wrapper_first() {
    assert_eq!(sqnc::wrap(2..5).first(), Some(2));
    assert_eq!(sqnc::wrap(2..2).first(), None);
}

#[test]
fn wrapper_last() {
    assert_eq!(sqnc::wrap(2..5).last(), Some(4));
    assert_eq!(sqnc::wrap(2..2).last(), None);
}

#[test]
fn wrapper_get_mut() {
    let mut x = [2, 3, 4];
    let mut y = sqnc::wrap(&mut x);
    *y.get_mut(0).unwrap() = 5;
    *y.get_mut(1).unwrap() = 6;
    *y.get_mut(2).unwrap() = 7;
    assert!(y.get_mut(3).is_none());
    assert_eq!(x, [5, 6, 7]);
}

#[test]
fn wrapper_first_mut() {
    let mut x = [2, 3, 4];
    let mut y = sqnc::wrap(&mut x);
    *y.first_mut().unwrap() = 5;
    assert_eq!(x, [5, 3, 4]);
    let mut z: Wrapper<[usize; 0]> = sqnc::wrap([]);
    assert_eq!(z.first_mut(), None);
}

#[test]
fn wrapper_last_mut() {
    let mut x = [2, 3, 4];
    let mut y = sqnc::wrap(&mut x);
    *y.last_mut().unwrap() = 7;
    assert_eq!(x, [2, 3, 7]);
    let mut z: Wrapper<[usize; 0]> = sqnc::wrap([]);
    assert_eq!(z.last_mut(), None);
}

#[test]
fn wrapper_iter() {
    assert_eq!(collect(sqnc::wrap(2..5).iter()), vec![2, 3, 4]);
}

#[test]
fn wrapper_iter_mut() {
    let mut x = [2, 3, 4];
    let mut y = sqnc::wrap(&mut x);
    let mut iter = y.iter_mut();
    while let Some(v) = iter.next() {
        *v += 3;
    }
    assert_eq!(x, [5, 6, 7]);
}

#[test]
fn wrap() {
    let x = sqnc::wrap([2, 3, 4]);
    assert_eq!(RandomAccessSequence::get(&x, 0), Some(2));
    let y = sqnc::wrap(sqnc::wrap([2, 3, 4]));
    assert_eq!(RandomAccessSequence::get(&y, 0), Some(2));
}

#[test]
fn sequence_wrapper_borrows_without_taking_ownership() {
    let x = [4, 5, 6, 7];
    let y = SequenceWrapper::new(&x);
    assert_eq!(y.get(1), Some(5));
    assert_eq!(y.len(), 4);
    assert_eq!(x.len(), 4);
    let mut z = [1, 2];
    let mut w = SequenceWrapper::new(&mut z);
    *w.get_mut(1).unwrap() = 9;
    assert_eq!(w.into_inner(), &mut [1, 9]);
}

#[test]
fn wrapper_min() {
    assert_eq!(sqnc::wrap(2..5).min(), Some(2));
    assert_eq!(sqnc::wrap(2..2).min(), None);
}

#[test]
fn wrapper_max() {
    assert_eq!(sqnc::wrap(2..5).max(), Some(4));
    assert_eq!(sqnc::wrap(2..2).max(), None);
}
