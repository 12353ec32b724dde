use sqnc::{
    Compress, MinMaxSequence, IterableSequence, RandomAccessSequence, RandomAccessSequenceMut, SequenceGeneric,
    SequenceIterator,
};

fn collect<I: SequenceIterator>(mut it: I) -> Vec<I::Item> {
    let mut out = Vec::new();
    while let Some(x) = it.next() {
        out.push(x);
    }
    out
}

#[test]
fn compress_new() {
    let none: [bool; 0] = [];
    assert!(Compress::new(3..6, [false, true, false]).is_some());
    assert!(Compress::new(3..3, none).is_some());
    assert!(Compress::new(3..6, [false, true]).is_none());
    assert!(Compress::new(3..6, [false, true, false, true]).is_none());
}

#[test]
fn compress_len() {
    let x = Compress::new(3..6, [false, false, false]).unwrap();
    assert_eq!(x.len(), 0);
    let y = Compress::new(3..6, [false, true, false]).unwrap();
    assert_eq!(y.len(), 1);
    let z = Compress::new(3..6, [true, true, true]).unwrap();
    assert_eq!(z.len(), 3);
}

#[test]
fn compress_is_empty() {
    let x = Compress::new(3..6, [false, false, false]).unwrap();
    assert!(x.is_empty());
    let y = Compress::new(3..6, [false, true, false]).unwrap();
    assert!(!y.is_empty());
    let z = Compress::new(3..6, [true, true, true]).unwrap();
    assert!(!z.is_empty());
}

#[test]
fn compress_get() {
    let x = Compress::new(3..7, [false, true, true, false]).unwrap();
    assert_eq!(x.get(0), Some(4));
    assert_eq!(x.get(1), Some(5));
    assert_eq!(x.get(2), None);
}

#[test]
fn compress_first() {
    let x = Compress::new(3..7, [false, true, true, false]).unwrap();
    assert_eq!(x.first(), Some(4));
    let y = Compress::new(3..7, [false, false, false, false]).unwrap();
    assert_eq!(y.first(), None);
}

#[test]
fn compress_last() {
    let x = Compress::new(3..7, [false, true, true, false]).unwrap();
    assert_eq!(x.last(), Some(5));
    let y = Compress::new(3..7, [false, false, false, false]).unwrap();
    assert_eq!(y.last(), None);
}

#[test]
fn compress_get_mut() {
    let mut x = [3, 4, 5, 6];
    let mut y = Compress::new(&mut x, [false, true, true, false]).unwrap();
    *y.get_mut(0).unwrap() = 7;
    *y.get_mut(1).unwrap() = 8;
    assert_eq!(y.get_mut(2), None);
    assert_eq!(x, [3, 7, 8, 6]);
}

#[test]
fn compress_first_mut() {
    let mut x = [3, 4, 5, 6];
    let mut y = Compress::new(&mut x, [false, true, true, false]).unwrap();
    *y.first_mut().unwrap() = 7;
    assert_eq!(x, [3, 7, 5, 6]);
    let mut z = Compress::new([3, 4, 5, 6], [false, false, false, false]).unwrap();
    assert_eq!(z.first_mut(), None);
}

#[test]
fn compress_last_mut() {
    let mut x = [3, 4, 5, 6];
    let mut y = Compress::new(&mut x, [false, true, true, false]).unwrap();
    *y.last_mut().unwrap() = 7;
    assert_eq!(x, [3, 4, 7, 6]);
    let mut z = Compress::new([3, 4, 5, 6], [false, false, false, false]).unwrap();
    assert_eq!(z.last_mut(), None);
}

#[test]
fn compress_iter() {
    let y = Compress::new(3..7, [false, true, true, false]).unwrap();
    assert_eq!(collect(y.iter()), vec![4, 5]);
}

#[test]
fn compress_iter_mut() {
    let mut x = [3, 4, 5, 6];
    let mut y = Compress::new(&mut x, [false, true, true, false]).unwrap();
    let mut iter = y.iter_mut();
    while let Some(v) = iter.next() {
        *v += 3;
    }
    assert_eq!(x, [3, 7, 8, 6]);
}

#[test]
fn compress_iter_from_back() {
    let y = Compress::new(3..8, [true, false, true, true, false]).unwrap();
    let mut iter = y.iter();
    assert_eq!(iter.next_back(), Some(6));
    assert_eq!(iter.next(), Some(3));
    assert_eq!(iter.next_back(), Some(5));
    assert_eq!(iter.next(), None);
    assert_eq!(iter.next_back(), None);
}

#[test]
fn compress_length_is_number_of_true_values() {
    let mask = [true, false, true, true, false, true];
    let y = Compress::new(10..16, mask).unwrap();
    assert_eq!(y.len(), 4);
    assert_eq!(collect(y.iter()), vec![10, 12, 13, 15]);
}

#[test]
fn compress_min() {
    let x = Compress::new(3..7, [false, true, true, false]).unwrap();
    assert_eq!(x.min(), Some(4));
    let y = Compress::new(3..7, [false, false, false, false]).unwrap();
    assert_eq!(y.min(), None);
}

#[test]
fn compress_max() {
    let x = Compress::new(3..7, [false, true, true, false]).unwrap();
    assert_eq!(x.max(), Some(5));
    let y = Compress::new(3..7, [false, false, false, false]).unwrap();
    assert_eq!(y.max(), None);
}
