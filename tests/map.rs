use sqnc::{IterableSequence, Mapped, RandomAccessSequence, SequenceGeneric, SequenceIterator};

fn collect<I: SequenceIterator>(mut it: I) -> Vec<I::Item> {
    let mut out = Vec::new();
    while let Some(x) = it.next() {
        out.push(x);
    }
    out
}

#[test]
fn map_len() {
    let x = Mapped::new(2..5, |v| v + 2);
    assert_eq!(x.len(), 3);
}

#[test]
fn map_is_empty() {
    let x = Mapped::new(2..5, |v| v + 2);
    assert_eq!(x.is_empty(), false);
    let y = Mapped::new(2..2, |v: usize| v + 2);
    assert_eq!(y.is_empty(), true);
}

#[test]
fn map_get() {
    let x = Mapped::new(2..5, |v| v + 2);
    assert_eq!(x.get(0), Some(4));
    assert_eq!(x.get(1), Some(5));
    assert_eq!(x.get(2), Some(6));
    assert_eq!(x.get(3), None);
}

#[test]
fn map_rget() {
    let x = Mapped::new(2..5, |v| v + 2);
    assert_eq!(x.rget(0), Some(6));
    assert_eq!(x.rget(1), Some(5));
    assert_eq!(x.rget(2), Some(4));
    assert_eq!(x.rget(3), None);
}

#[test]
fn map_first() {
    let x = Mapped::new(2..5, |v| v + 2);
    assert_eq!(x.first(), Some(4));
    let y = Mapped::new(2..2, |v: usize| v + 2);
    assert_eq!(y.first(), None);
}

#[test]
fn map_last() {
    let x = Mapped::new(2..5, |v| v + 2);
    assert_eq!(x.last(), Some(6));
    let y = Mapped::new(2..2, |v: usize| v + 2);
    assert_eq!(y.last(), None);
}

#[test]
fn map_iter() {
    let x = Mapped::new(2..5, |v| v + 2);
    assert_eq!(collect(x.iter()), vec![4, 5, 6]);
}
