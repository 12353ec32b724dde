use sqnc::{
    ExactSizeSequenceIterator, IterableSequence, RandomAccessSequence, Repeat, SequenceGeneric,
    SequenceIterator,
};

fn collect<I: SequenceIterator>(mut it: I) -> Vec<I::Item> {
    let mut out = Vec::new();
    while let Some(x) = it.next() {
        out.push(x);
    }
    out
}

fn collect_back<I: SequenceIterator>(mut it: I) -> Vec<I::Item> {
    let mut out = Vec::new();
    while let Some(x) = it.next_back() {
        out.push(x);
    }
    out
}

#[test]
fn repeat_len() {
    assert_eq!(Repeat::new(0..3, 2).len(), 6);
    assert_eq!(Repeat::new(0..3, 0).len(), 0);
    assert_eq!(Repeat::new(0..0, 2).len(), 0);
}

#[test]
fn repeat_is_empty() {
    assert_eq!(Repeat::new(0..3, 2).is_empty(), false);
    assert_eq!(Repeat::new(0..3, 0).is_empty(), true);
    assert_eq!(Repeat::new(0..0, 2).is_empty(), true);
}

#[test]
fn repeat_get() {
    let x = Repeat::new(0..3, 2);
    assert_eq!(x.get(0), Some(0));
    assert_eq!(x.get(1), Some(1));
    assert_eq!(x.get(2), Some(2));
    assert_eq!(x.get(3), Some(0));
    assert_eq!(x.get(4), Some(1));
    assert_eq!(x.get(5), Some(2));
    assert_eq!(x.get(6), None);

    assert_eq!(Repeat::new(0..3, 0).get(0), None);
    assert_eq!(Repeat::new(0..0, 2).get(0), None);
}

#[test]
fn repeat_rget() {
    let x = Repeat::new(0..3, 2);
    assert_eq!(x.rget(0), Some(2));
    assert_eq!(x.rget(1), Some(1));
    assert_eq!(x.rget(2), Some(0));
    assert_eq!(x.rget(3), Some(2));
    assert_eq!(x.rget(4), Some(1));
    assert_eq!(x.rget(5), Some(0));
    assert_eq!(x.rget(6), None);

    assert_eq!(Repeat::new(0..3, 0).rget(0), None);
    assert_eq!(Repeat::new(0..0, 2).rget(0), None);
}

#[test]
fn repeat_first() {
    assert_eq!(Repeat::new(0..3, 2).first(), Some(0));
    assert_eq!(Repeat::new(0..3, 0).first(), None);
    assert_eq!(Repeat::new(0..0, 2).first(), None);
}

#[test]
fn repeat_last() {
    assert_eq!(Repeat::new(0..3, 2).last(), Some(2));
    assert_eq!(Repeat::new(0..3, 0).last(), None);
    assert_eq!(Repeat::new(0..0, 2).last(), None);
}

#[test]
fn repeat_reads_parent_modulo_its_length() {
    let x = Repeat::new([7u8, 8, 9, 10], 3);
    assert_eq!(x.len(), 12);
    assert_eq!(x.get(9), Some(8));
    assert_eq!(x.get(11), Some(10));
    assert_eq!(x.get(12), None);
}

#[test]
fn iter_forward() {
    assert_eq!(collect(Repeat::new(0..3, 2).iter()), vec![0, 1, 2, 0, 1, 2]);
    assert_eq!(collect(Repeat::new(0..3, 0).iter()), Vec::<usize>::new());
    assert_eq!(collect(Repeat::new(0..0, 2).iter()), Vec::<usize>::new());
}

#[test]
fn iter_backward() {
    assert_eq!(collect_back(Repeat::new(0..3, 2).iter()), vec![2, 1, 0, 2, 1, 0]);
    assert_eq!(collect_back(Repeat::new(0..3, 0).iter()), Vec::<usize>::new());
    assert_eq!(collect_back(Repeat::new(0..0, 2).iter()), Vec::<usize>::new());
}

#[test]
fn iter_mixed() {
    let seq = Repeat::new(0..3, 2);
    let mut iter = seq.iter();
    assert_eq!(iter.next(), Some(0));
    assert_eq!(iter.next(), Some(1));
    assert_eq!(iter.next_back(), Some(2));
    assert_eq!(iter.next(), Some(2));
    assert_eq!(iter.next(), Some(0));
    assert_eq!(iter.next_back(), Some(1));
    assert_eq!(iter.next_back(), None);
    assert_eq!(iter.next(), None);
}

#[test]
fn repeat_iter_size_hint() {
    let seq = Repeat::new(0..3, 2);
    let mut iter = seq.iter();
    assert_eq!(iter.size_hint(), (6, Some(6)));
    iter.next();
    assert_eq!(iter.size_hint(), (5, Some(5)));
    iter.next();
    assert_eq!(iter.size_hint(), (4, Some(4)));
    iter.next();
    assert_eq!(iter.size_hint(), (3, Some(3)));
    iter.next();
    assert_eq!(iter.size_hint(), (2, Some(2)));
    iter.next();
    assert_eq!(iter.size_hint(), (1, Some(1)));
    iter.next();
    assert_eq!(iter.size_hint(), (0, Some(0)));
}

fn first_two<'a, S: RandomAccessSequence + 'a>(
    r: &'a Repeat<S>,
) -> (Option<S::Item>, Option<S::Item>) {
    let mut iter = r.iter();
    let a = iter.next();
    let b = iter.next_back();
    (a, b)
}

#[test]
fn repeat_iter_from_generic_code() {
    let r = Repeat::new([4u8, 5], 2);
    assert_eq!(first_two(&r), (Some(4), Some(5)));
}
