use sqnc::{
    IterableSequence, MinMaxSequence, RandomAccessSequence, RandomAccessSequenceMut, Rev, Select,
    SequenceGeneric, SequenceIterator,
};

fn collect<I: SequenceIterator>(mut it: I) -> Vec<I::Item> {
    let mut out = Vec::new();
    while let Some(x) = it.next() {
        out.push(x);
    }
    out
}

#[test]
fn rev_len() {
    assert_eq!(Rev::new(2..5).len(), 3);
}

#[test]
fn rev_is_empty() {
    assert_eq!(Rev::new(2..5).is_empty(), false);
    assert_eq!(Rev::new(0..0).is_empty(), true);
}

#[test]
fn rev_get() {
    let x = Rev::new(2..5);
    assert_eq!(x.get(0), Some(4));
    assert_eq!(x.get(1), Some(3));
    assert_eq!(x.get(2), Some(2));
    assert_eq!(x.get(3), None);
}

#[test]
fn rev_rget() {
    let x = Rev::new(2..5);
    assert_eq!(x.rget(0), Some(2));
    assert_eq!(x.rget(1), Some(3));
    assert_eq!(x.rget(2), Some(4));
    assert_eq!(x.rget(3), None);
}

#[test]
fn rev_first() {
    assert_eq!(Rev::new(2..5).first(), Some(4));
    assert_eq!(Rev::new(0..0).first(), None);
}

#[test]
fn rev_last() {
    assert_eq!(Rev::new(2..5).last(), Some(2));
    assert_eq!(Rev::new(0..0).last(), None);
}

#[test]
fn rev_iter() {
    assert_eq!(collect(Rev::new(2..5).iter()), vec![4, 3, 2]);
}

#[test]
fn rev_get_mut() {
    let mut x = [2, 3, 4];
    let mut y = Rev::new(&mut x);
    *y.get_mut(0).unwrap() = 7;
    *y.get_mut(1).unwrap() = 6;
    *y.get_mut(2).unwrap() = 5;
    assert!(y.get_mut(3).is_none());
    assert_eq!(x, [5, 6, 7]);
}

#[test]
fn rev_rget_mut() {
    let mut x = [2, 3, 4];
    let mut y = Rev::new(&mut x);
    *y.rget_mut(0).unwrap() = 5;
    *y.rget_mut(1).unwrap() = 6;
    *y.rget_mut(2).unwrap() = 7;
    assert!(y.rget_mut(3).is_none());
    assert_eq!(x, [5, 6, 7]);
}

#[test]
fn rev_first_mut() {
    let mut x = [2, 3, 4];
    let mut y = Rev::new(&mut x);
    *y.first_mut().unwrap() = 5;
    assert_eq!(x, [2, 3, 5]);
    assert!(Rev::<[usize; 0]>::new([]).first_mut().is_none());
}

#[test]
fn rev_last_mut() {
    let mut x = [2, 3, 4];
    let mut y = Rev::new(&mut x);
    *y.last_mut().unwrap() = 5;
    assert_eq!(x, [5, 3, 4]);
    assert!(Rev::<[usize; 0]>::new([]).last_mut().is_none());
}

#[test]
fn rev_twice_is_identity() {
    let x = [3, 1, 4, 1, 5];
    let y = Rev::new(Rev::new(x));
    assert_eq!(collect(y.iter()), collect(x.iter()));
    let empty: [u8; 0] = [];
    assert_eq!(collect(Rev::new(Rev::new(empty)).iter()), Vec::<u8>::new());
}

#[test]
fn rev_min() {
    assert_eq!(Rev::new(2..5).min(), Some(2));
    assert_eq!(Rev::new(0..0).min(), None);
}

#[test]
fn rev_max() {
    assert_eq!(Rev::new(2..5).max(), Some(4));
    assert_eq!(Rev::new(0..0).max(), None);
}

#[test]
fn rev_iter_mut() {
    let mut x = [2, 3, 4];
    let mut y = Rev::new(&mut x);
    let mut iter = y.iter_mut();
    *iter.next().unwrap() = 7;
    *iter.next().unwrap() = 6;
    *iter.next().unwrap() = 5;
    assert!(iter.next().is_none());
    assert_eq!(x, [5, 6, 7]);

    let mut x = [3, 4, 5, 6];
    let mut y = Select::new(&mut x, 1..3).unwrap();
    let mut iter = y.iter_mut();
    *iter.next_back().unwrap() = 7;
    *iter.next_back().unwrap() = 8;
    assert_eq!(x, [3, 8, 7, 6]);
}
