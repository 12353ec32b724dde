//! Laws that relate the adaptors to the sequences they are built from.

use crate::compress::{count_true, lemma_true_positions, Compress};
use crate::concat::Concat;
use crate::repeat::{repeat_items, Repeat};
use crate::rev::{reversed, Rev};
use crate::select::{indices_in_bounds, Select};
use crate::traits::{item_at, RandomAccessSequence, SequenceGeneric};
use crate::zip::Zip;
use vstd::prelude::*;

verus! {

/// The item at position `i` of a selection is the item of the parent at the
/// `i`-th index.
pub proof fn law_select_get<S: RandomAccessSequence, I: RandomAccessSequence<Item = usize>>(
    s: Select<S, I>,
    i: int,
)
    requires
        s.wf(),
        0 <= i < s.selection().items().len(),
    ensures
        item_at(s.selection().items(), i) == Some(s.selection().items()[i]),
        item_at(s.items(), i) == item_at(s.parent().items(), s.selection().items()[i] as int),
{
}

/// A compression has as many items as its mask has `true` values.
pub proof fn law_compress_len<S: SequenceGeneric, M: RandomAccessSequence<Item = bool>>(
    c: Compress<S, M>,
)
    requires
        c.wf(),
    ensures
        c.items().len() == count_true(c.mask().items()),
{
    lemma_true_positions(c.mask().items());
}

/// A concatenation is as long as its two parts together.
pub proof fn law_concat_len<A: SequenceGeneric, B: SequenceGeneric<Item = A::Item>>(
    c: Concat<A, B>,
)
    requires
        c.wf(),
    ensures
        c.items().len() == c.front().items().len() + c.back().items().len(),
{
}

/// Index `i` of a concatenation reads the first part below its length and the
/// second part, shifted by that length, from there on.
pub proof fn law_concat_get<A: SequenceGeneric, B: SequenceGeneric<Item = A::Item>>(
    c: Concat<A, B>,
    i: int,
)
    requires
        c.wf(),
        0 <= i,
    ensures
        item_at(c.items(), i) == if i < c.front().items().len() {
            item_at(c.front().items(), i)
        } else {
            item_at(c.back().items(), i - c.front().items().len())
        },
{
}

/// A zip is as long as each of its parts, and index `i` of it pairs the items
/// at index `i` of the parts.
pub proof fn law_zip_get<A: SequenceGeneric, B: SequenceGeneric>(z: Zip<A, B>, i: int)
    requires
        z.wf(),
        0 <= i,
    ensures
        z.items().len() == z.left().items().len(),
        z.items().len() == z.right().items().len(),
        item_at(z.items(), i) == match (item_at(z.left().items(), i), item_at(z.right().items(), i)) {
            (Some(x), Some(y)) => Some((x, y)),
            _ => None,
        },
{
}

/// `s` after writing `vals[k]` at index `idx[k]`, for `k` in increasing order.
pub open spec fn write_through<T>(s: Seq<T>, idx: Seq<usize>, vals: Seq<T>) -> Seq<T>
    decreases idx.len(),
{
    if idx.len() == 0 || vals.len() == 0 {
        s
    } else {
        write_through(s, idx.drop_last(), vals.drop_last()).update(
            idx.last() as int,
            vals[idx.len() - 1],
        )
    }
}

/// One pass of writes through a mutable selection by pairwise distinct indices
/// (each step of [`crate::SelectIterMut::next`] writes at the next index):
/// every written slot ends up holding the value written to it, and no other
/// slot changes.
pub proof fn law_select_writes_do_not_alias<T>(s: Seq<T>, idx: Seq<usize>, vals: Seq<T>)
    requires
        indices_in_bounds(idx, s.len()),
        idx.no_duplicates(),
        vals.len() == idx.len(),
    ensures
        write_through(s, idx, vals).len() == s.len(),
        forall|k: int| 0 <= k < idx.len() ==> #[trigger] write_through(s, idx, vals)[idx[k] as int] == vals[k],
        forall|p: int|
            0 <= p < s.len() && (forall|k: int| 0 <= k < idx.len() ==> idx[k] != p) ==> #[trigger] write_through(
                s,
                idx,
                vals,
            )[p] == s[p],
    decreases idx.len(),
{
    if idx.len() > 0 {
        let idx0 = idx.drop_last();
        let vals0 = vals.drop_last();
        assert(indices_in_bounds(idx0, s.len()));
        assert(idx0.no_duplicates());
        law_select_writes_do_not_alias(s, idx0, vals0);
        let last = idx.len() - 1;
        assert forall|k: int| 0 <= k < idx.len() implies #[trigger] write_through(s, idx, vals)[idx[k] as int]
            == vals[k] by {
            if k < last {
                assert(idx0[k] == idx[k]);
                assert(idx[k] != idx[last]);
            }
        }
        assert forall|p: int|
            0 <= p < s.len() && (forall|k: int| 0 <= k < idx.len() ==> idx[k] != p) implies #[trigger] write_through(
            s,
            idx,
            vals,
        )[p] == s[p] by {
            assert forall|k: int| 0 <= k < idx0.len() implies idx0[k] != p by {
                assert(idx0[k] == idx[k]);
            }
            assert(idx[last] != p);
        }
    }
}

/// Reversing twice gives back the items in their original order.
pub proof fn law_rev_involution<S: SequenceGeneric>(r: Rev<Rev<S>>)
    requires
        r.wf(),
    ensures
        r.items() == r.parent().parent().items(),
{
    assert(reversed(reversed(r.parent().parent().items())) =~= r.parent().parent().items());
}

/// A repetition is `n` times as long as its parent and index `i` of it reads
/// the parent at `i` modulo the parent's length; it is empty when `n` is zero
/// or the parent is empty.
pub proof fn law_repeat<S: SequenceGeneric>(r: Repeat<S>, i: int)
    requires
        r.wf(),
        0 <= i,
    ensures
        r.items().len() == r.parent().items().len() * r.count(),
        item_at(r.items(), i) == if i < r.items().len() {
            item_at(r.parent().items(), i % (r.parent().items().len() as int))
        } else {
            None
        },
        r.count() == 0 ==> r.items().len() == 0,
        r.parent().items().len() == 0 ==> r.items().len() == 0,
{
    let n = r.parent().items().len();
    let k = r.count();
    assert(n * k == 0 <==> (n == 0 || k == 0)) by (nonlinear_arith);
    if i < n * k {
        assert(n > 0);
        assert(0 <= i % (n as int) < n);
    }
}

/// Every sequence of length zero, whatever adaptor built it, has no first and
/// no last item.
pub proof fn law_empty_first_last<S: RandomAccessSequence>(s: &S)
    requires
        s.wf(),
        s.items().len() == 0,
    ensures
        item_at(s.items(), 0) is None,
        item_at(s.items(), s.items().len() - 1) is None,
{
}

} // verus!
