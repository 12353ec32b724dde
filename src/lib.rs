//! Traits and adaptors for sequences: finite collections of known length with
//! indexed access, and lazy views (selection, masking, concatenation, zipping,
//! mapping, reversal, repetition) built on top of them without copying data.

pub mod compress;
pub mod concat;
pub mod derive;
mod impl_storage;
pub mod laws;
pub mod map;
pub mod repeat;
pub mod rev;
pub mod select;
pub mod traits;
pub mod wrapper;
pub mod zip;

pub use compress::{Compress, CompressIter, CompressIterMut};
pub use concat::{Concat, ConcatIter, ConcatIterMut};
pub use map::{MapIter, Mapped};
pub use repeat::{Repeat, RepeatIter};
pub use rev::{Rev, RevIter};
pub use select::{Select, SelectIter, SelectIterMut};
pub use traits::{
    item_at, ExactSizeSequenceIterator, IterableSequence, MinMaxSequence, RandomAccessSequence,
    RandomAccessSequenceMut, SequenceGeneric, SequenceIterator,
};
pub use wrapper::{wrap, SequenceWrapper, Wrapper};
pub use zip::{Zip, ZipIter};
