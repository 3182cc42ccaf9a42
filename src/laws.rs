//! What holds of every call of `remain` and `remain_to`, stated over their
//! contracts.
use vstd::prelude::*;
use crate::bounds::{Bound, IndexRange, in_range, start_index, end_index, kept};
use crate::remain::VecRemain;

verus! {

/// The items that a range keeps of `s` are exactly those at the positions it
/// admits, in their original order: the admitted positions form one run, which
/// starts at the range's first position and is as long as what is kept.
pub proof fn lemma_kept_is_selection<T>(s: Seq<T>, start: Bound, end: Bound)
    ensures
        forall|i: int|
            0 <= i < s.len() ==> (in_range(start, end, i) <==> start_index(start) <= i
                < start_index(start) + kept(s, start, end).len()),
        forall|k: int|
            0 <= k < kept(s, start, end).len() ==> #[trigger] kept(s, start, end)[k] == s[start_index(start) + k],
{
}

/// After `remain`, the vector holds exactly the items of the old one at the
/// positions that the range admits, in their original order, and the count
/// returned is how many those are.
pub proof fn lemma_remain_keeps_selection<T, R: IndexRange>(before: Vec<T>, range: R, after: Vec<T>, n: usize)
    requires
        <Vec<T> as VecRemain<R>>::remained(before, range, after, n),
    ensures
        n == after@.len(),
        forall|i: int|
            0 <= i < before@.len() ==> (in_range(range.spec_start_bound(), range.spec_end_bound(), i)
                <==> start_index(range.spec_start_bound()) <= i < start_index(range.spec_start_bound()) + n),
        forall|k: int|
            0 <= k < n ==> #[trigger] after@[k] == before@[start_index(range.spec_start_bound()) + k],
{
    lemma_kept_is_selection(before@, range.spec_start_bound(), range.spec_end_bound());
}

/// Keeping the full range changes nothing: the vector keeps every item and the
/// count returned is its length.
pub proof fn lemma_remain_full_range<T>(before: Vec<T>, after: Vec<T>, n: usize)
    requires
        <Vec<T> as VecRemain<std::ops::RangeFull>>::remained(before, .., after, n),
    ensures
        after@ == before@,
        n == before@.len(),
{
    assert(kept(before@, Bound::Unbounded, Bound::Unbounded) =~= before@);
}

/// A range whose first position is not before its end, once the end is clamped
/// to the length, keeps nothing: `remain` empties the vector and returns zero,
/// and `remain_to` also leaves the other vector as it was.
pub proof fn lemma_degenerate_range<T, R: IndexRange>(
    before: Vec<T>,
    range: R,
    other_before: Vec<T>,
    after: Vec<T>,
    other_after: Vec<T>,
    n: usize,
)
    requires
        start_index(range.spec_start_bound()) >= end_index(range.spec_end_bound(), before@.len() as int),
    ensures
        <Vec<T> as VecRemain<R>>::remained(before, range, after, n) ==> after@.len() == 0 && n == 0,
        <Vec<T> as VecRemain<R>>::remained_to(before, range, other_before, after, other_after, n)
            ==> after@.len() == 0 && n == 0 && other_after@ == other_before@,
{
    assert(other_before@ + Seq::<T>::empty() =~= other_before@);
}

} // verus!
