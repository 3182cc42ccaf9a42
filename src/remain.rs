//! Keeping a range of a `Vec`'s items, in place or onto another `Vec`.
use vstd::prelude::*;
use crate::bounds::{Bound, IndexRange, start_index, end_index, kept};

verus! {

/// Relies on `<[T]>::swap`: exchanges the items at `a` and `b`, and panics
/// when either position is out of bounds.
pub assume_specification<Item>[ <[Item]>::swap ](s: &mut [Item], a: usize, b: usize)
    requires
        a < old(s)@.len(),
        b < old(s)@.len(),
    ensures
        final(s)@ == old(s)@.update(a as int, old(s)@[b as int]).update(b as int, old(s)@[a as int]),
;

/// Drops the items of `vec` past what `bound` admits as an upper bound, and
/// returns the resulting length.
pub fn end<T>(vec: &mut Vec<T>, bound: Bound) -> (e: usize)
    ensures
        e == end_index(bound, old(vec)@.len() as int),
        final(vec)@ == old(vec)@.subrange(0, e as int),
{
    match bound {
        Bound::Included(end) => {
            let end = end.saturating_add(1);
            if end < vec.len() {
                vec.truncate(end);
                end
            } else {
                vec.len()
            }
        },
        Bound::Excluded(end) => {
            if end < vec.len() {
                vec.truncate(end);
                end
            } else {
                vec.len()
            }
        },
        Bound::Unbounded => vec.len(),
    }
}

/// Moves the items at `start..vec.len()` to the front of `vec`, in order, and
/// drops the first `start` items, without reallocating.
fn shift_to_front<T>(vec: &mut Vec<T>, start: usize)
    requires
        start <= old(vec)@.len(),
    ensures
        final(vec)@ == old(vec)@.subrange(start as int, old(vec)@.len() as int),
{
    let len = vec.len();
    let count = len - start;
    let mut i: usize = 0;
    while i < count
        invariant
            count == len - start,
            i <= count,
            vec@.len() == len,
            forall|j: int| 0 <= j < i ==> vec@[j] == old(vec)@[start + j],
            forall|j: int| start + i <= j < len ==> vec@[j] == old(vec)@[j],
        decreases count - i,
    {
        vec.as_mut_slice().swap(i, start + i);
        i = i + 1;
    }
    vec.truncate(count);
    assert(vec@ =~= old(vec)@.subrange(start as int, len as int));
}

/// Keeps the items of `vec` at the positions from `start` to `end`, in order,
/// drops every other item, and returns how many are kept.
pub fn remain_bounds<T>(vec: &mut Vec<T>, start: Bound, end: Bound) -> (n: usize)
    ensures
        final(vec)@ == kept(old(vec)@, start, end),
        n == final(vec)@.len(),
        start_index(start) >= end_index(end, old(vec)@.len() as int) ==> n == 0,
{
    let hi = crate::remain::end(vec, end);
    // An excluded start at the largest index saturates there, which no end
    // lies past, so it falls into the empty case below.
    let lo = match start {
        Bound::Included(s) => s,
        Bound::Excluded(s) => s.saturating_add(1),
        Bound::Unbounded => 0,
    };
    if lo >= hi {
        vec.clear();
        return 0;
    }
    if lo > 0 {
        shift_to_front(vec, lo);
    }
    hi - lo
}

/// Moves the items of `vec` at the positions from `start` to `end` onto the
/// back of `other`, in order, drops every other item of `vec`, and returns
/// how many were moved. `vec` is left empty.
pub fn remain_to_bounds<T>(vec: &mut Vec<T>, start: Bound, end: Bound, other: &mut Vec<T>) -> (n: usize)
    ensures
        final(other)@ == old(other)@ + kept(old(vec)@, start, end),
        final(vec)@.len() == 0,
        n == kept(old(vec)@, start, end).len(),
        start_index(start) >= end_index(end, old(vec)@.len() as int) ==> n == 0 && final(other)@ == old(other)@,
{
    let n = remain_bounds(vec, start, end);
    other.append(vec);
    n
}

/// Keeping the items of a collection whose positions fall in a range.
pub trait VecRemain<R: IndexRange>: Sized {
    /// `after` is what keeping `range` of `before` leaves, and `n` the number
    /// of items it holds.
    spec fn remained(before: Self, range: R, after: Self, n: usize) -> bool;

    /// `after` and `other_after` are what moving `range` of `before` onto
    /// `other_before` leaves, and `n` the number of items moved.
    spec fn remained_to(
        before: Self,
        range: R,
        other_before: Self,
        after: Self,
        other_after: Self,
        n: usize,
    ) -> bool;

    /// Keeps the items in `range`, in order, drops the others, and returns
    /// how many are kept.
    fn remain(&mut self, range: R) -> (n: usize)
        ensures
            Self::remained(*old(self), range, *final(self), n),
    ;

    /// Moves the items in `range` onto the back of `other`, in order, drops
    /// the others, and returns how many were moved. `self` and `other` are
    /// distinct by the borrow rules.
    fn remain_to(&mut self, range: R, other: &mut Self) -> (n: usize)
        ensures
            Self::remained_to(*old(self), range, *old(other), *final(self), *final(other), n),
    ;
}

impl<T, R: IndexRange> VecRemain<R> for Vec<T> {
    open spec fn remained(before: Vec<T>, range: R, after: Vec<T>, n: usize) -> bool {
        &&& after@ == kept(before@, range.spec_start_bound(), range.spec_end_bound())
        &&& n == after@.len()
    }

    open spec fn remained_to(
        before: Vec<T>,
        range: R,
        other_before: Vec<T>,
        after: Vec<T>,
        other_after: Vec<T>,
        n: usize,
    ) -> bool {
        let moved = kept(before@, range.spec_start_bound(), range.spec_end_bound());
        &&& other_after@ == other_before@ + moved
        &&& after@.len() == 0
        &&& n == moved.len()
    }

    fn remain(&mut self, range: R) -> (n: usize) {
        let (start, end) = range.into_bounds();
        remain_bounds(self, start, end)
    }

    fn remain_to(&mut self, range: R, other: &mut Vec<T>) -> (n: usize) {
        let (start, end) = range.into_bounds();
        remain_to_bounds(self, start, end, other)
    }
}

} // verus!
