use sqnc::{
    ExactSizeSequenceIterator, IterableSequence, RandomAccessSequence, RandomAccessSequenceMut, Rev,
    Select, SequenceGeneric, SequenceIterator,
};

fn collect<I: SequenceIterator>(mut it: I) -> Vec<I::Item> {
    let mut out = Vec::new();
    while let Some(x) = it.next() {
        out.push(x);
    }
    out
}

fn collect_back<I: SequenceIterator>(mut it: I) -> Vec<I::Item> {
    let mut out = Vec::new();
    while let Some(x) = it.next_back() {
        out.push(x);
    }
    out
}

#[test]
fn select_new() {
    assert!(Select::new(3..6, [1usize, 0, 2, 1]).is_some());
    assert!(Select::new(3..6, [1usize, 0, 3, 1]).is_none());
}

#[test]
fn select_len() {
    let empty: [usize; 0] = [];
    assert_eq!(Select::new(3..6, empty).unwrap().len(), 0);
    assert_eq!(Select::new(3..6, [1usize, 0, 2, 1]).unwrap().len(), 4);
}

#[test]
fn select_is_empty() {
    let empty: [usize; 0] = [];
    assert!(Select::new(3..6, empty).unwrap().is_empty());
    assert!(!Select::new(3..6, [1usize, 0, 2, 1]).unwrap().is_empty());
}

#[test]
fn select_get() {
    let x = Select::new(3..6, [1usize, 0]).unwrap();
    assert_eq!(x.get(0), Some(4));
    assert_eq!(x.get(1), Some(3));
    assert_eq!(x.get(4), None);
}

#[test]
fn select_rget() {
    let x = Select::new(3..6, [1usize, 0]).unwrap();
    assert_eq!(x.rget(0), Some(3));
    assert_eq!(x.rget(1), Some(4));
    assert_eq!(x.rget(4), None);
}

#[test]
fn select_first() {
    let x = Select::new(3..6, [1usize, 0]).unwrap();
    assert_eq!(x.first(), Some(4));
}

#[test]
fn select_last() {
    let x = Select::new(3..6, [1usize, 0]).unwrap();
    assert_eq!(x.last(), Some(3));
}

#[test]
fn select_get_mut() {
    let mut x = [3, 4, 5, 6];
    let mut y = Select::new(&mut x, 1..3).unwrap();
    *y.get_mut(0).unwrap() = 7;
    *y.get_mut(1).unwrap() = 8;
    assert!(y.get_mut(2).is_none());
    assert_eq!(x, [3, 7, 8, 6]);
}

#[test]
fn select_rget_mut() {
    let mut x = [3, 4, 5, 6];
    let mut y = Select::new(&mut x, 1..3).unwrap();
    *y.rget_mut(0).unwrap() = 8;
    *y.rget_mut(1).unwrap() = 7;
    assert!(y.rget_mut(2).is_none());
    assert_eq!(x, [3, 7, 8, 6]);
}

#[test]
fn select_first_mut() {
    let mut x = [3, 4, 5, 6];
    let mut y = Select::new(&mut x, Rev::new(1..3)).unwrap();
    *y.first_mut().unwrap() = 7;
    assert_eq!(x, [3, 4, 7, 6]);
    assert!(Select::new(&mut x, 0..0).unwrap().first_mut().is_none());
}

#[test]
fn select_last_mut() {
    let mut x = [3, 4, 5, 6];
    let mut y = Select::new(&mut x, Rev::new(1..3)).unwrap();
    *y.last_mut().unwrap() = 7;
    assert_eq!(x, [3, 7, 5, 6]);
    assert!(Select::new(&mut x, 0..0).unwrap().last_mut().is_none());
}

#[test]
fn select_iter() {
    let x = Select::new(3..7, Rev::new(1..3)).unwrap();
    assert_eq!(collect(x.iter()), vec![5, 4]);
}

#[test]
fn select_rev_iter() {
    let x = Select::new(3..7, Rev::new(1..3)).unwrap();
    assert_eq!(collect_back(x.iter()), vec![4, 5]);
}

#[test]
fn select_iter_size_hint() {
    let x = Select::new(3..7, Rev::new(1..3)).unwrap();
    let mut iter = x.iter();
    assert_eq!(iter.size_hint(), (2, Some(2)));
    iter.next();
    assert_eq!(iter.size_hint(), (1, Some(1)));
    iter.next();
    assert_eq!(iter.size_hint(), (0, Some(0)));
}

#[test]
fn select_iter_mut() {
    let mut x = [3, 4, 5, 6];
    let mut y = Select::new(&mut x, 1..3).unwrap();
    let mut iter = y.iter_mut();
    while let Some(v) = iter.next() {
        *v += 3;
    }
    assert_eq!(x, [3, 7, 8, 6]);
}

#[test]
fn iter_mut_size_hint() {
    let mut x = [3, 4, 5, 6];
    let mut y = Select::new(&mut x, 1..3).unwrap();
    let mut iter = y.iter_mut();
    assert_eq!(iter.size_hint(), (2, Some(2)));
    iter.next();
    assert_eq!(iter.size_hint(), (1, Some(1)));
    iter.next();
    assert_eq!(iter.size_hint(), (0, Some(0)));
}

#[test]
fn select_spells_word_with_repeated_indices() {
    let x = *b"cdelst!";
    let y = Select::new(x, [4usize, 2, 3, 2, 0, 5, 2, 1, 6]).unwrap();
    assert_eq!(collect(y.iter()), b"selected!".to_vec());
    assert!(Select::new(x, [4usize, 8, 0]).is_none());
}

#[test]
fn select_mutable_pass_writes_every_slot() {
    let mut x = [3, 4, 5];
    let mut y = Select::new(&mut x, [2usize, 0, 1]).unwrap();
    let mut iter = y.iter_mut();
    let mut value = 7;
    while let Some(v) = iter.next() {
        *v = value;
        value += 1;
    }
    assert_eq!(x, [8, 9, 7]);
}
