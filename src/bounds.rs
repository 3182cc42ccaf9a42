//! Range bounds over positions, and how they resolve against a length.
use vstd::prelude::*;
use vstd::std_specs::cmp::{PartialOrdIs, PartialOrdSpec};

verus! {

/// One end of a range of positions.
#[derive(Clone, Copy, Debug, PartialEq, Eq, Structural)]
pub enum Bound {
    Included(usize),
    Excluded(usize),
    Unbounded,
}

/// Whether position `i` is on the right side of `start`, read as a lower bound.
pub open spec fn above_start(start: Bound, i: int) -> bool {
    match start {
        Bound::Included(s) => s <= i,
        Bound::Excluded(s) => s < i,
        Bound::Unbounded => true,
    }
}

/// Whether position `i` is on the right side of `end`, read as an upper bound.
pub open spec fn below_end(end: Bound, i: int) -> bool {
    match end {
        Bound::Included(e) => i <= e,
        Bound::Excluded(e) => i < e,
        Bound::Unbounded => true,
    }
}

/// Whether position `i` lies in the range from `start` to `end`.
pub open spec fn in_range(start: Bound, end: Bound, i: int) -> bool {
    above_start(start, i) && below_end(end, i)
}

/// The first position that `start` admits (past the largest `usize` for an
/// excluded largest index).
pub open spec fn start_index(start: Bound) -> int {
    match start {
        Bound::Included(s) => s as int,
        Bound::Excluded(s) => s + 1,
        Bound::Unbounded => 0,
    }
}

/// One past the last position that `end` admits, clamped to `len`.
pub open spec fn end_index(end: Bound, len: int) -> int {
    match end {
        Bound::Included(e) => if e + 1 < len { e + 1 } else { len },
        Bound::Excluded(e) => if e < len { e as int } else { len },
        Bound::Unbounded => len,
    }
}

/// The items of `s` at the positions from `start` to `end`, in order.
pub open spec fn kept<T>(s: Seq<T>, start: Bound, end: Bound) -> Seq<T> {
    let lo = start_index(start);
    let hi = end_index(end, s.len() as int);
    if lo < hi {
        s.subrange(lo, hi)
    } else {
        Seq::empty()
    }
}

/// A range of positions, read as a pair of bounds.
pub trait IndexRange: Sized {
    spec fn spec_start_bound(&self) -> Bound;

    spec fn spec_end_bound(&self) -> Bound;

    /// The lower and the upper bound of the range.
    fn into_bounds(self) -> (b: (Bound, Bound))
        ensures
            b == (self.spec_start_bound(), self.spec_end_bound()),
    ;
}

/// std's `start..`, whose public field is read to find its bounds.
#[verifier::external_type_specification]
#[verifier::reject_recursive_types(Idx)]
pub struct ExRangeFrom<Idx>(std::ops::RangeFrom<Idx>);

/// std's `..end`, whose public field is read to find its bounds.
#[verifier::external_type_specification]
#[verifier::reject_recursive_types(Idx)]
pub struct ExRangeTo<Idx>(std::ops::RangeTo<Idx>);

/// std's `..=end`, whose public field is read to find its bounds.
#[verifier::external_type_specification]
#[verifier::reject_recursive_types(Idx)]
pub struct ExRangeToInclusive<Idx>(std::ops::RangeToInclusive<Idx>);

/// std's `..`, which has no fields.
#[verifier::external_type_specification]
pub struct ExRangeFull(std::ops::RangeFull);

/// Relies on `RangeInclusive::into_inner`: the lower and the upper bound, for
/// a range not yet run through as an iterator (after that, what it returns is
/// left open).
pub assume_specification<Idx>[ std::ops::RangeInclusive::<Idx>::into_inner ](
    r: std::ops::RangeInclusive<Idx>,
) -> (p: (Idx, Idx))
    ensures
        !r@.exhausted ==> p == (r@.start, r@.end),
;

/// Relies on `RangeInclusive::is_empty`: true when the range has been run
/// through, or when its lower bound is not at most its upper one.
pub assume_specification<Idx: PartialOrd<Idx>>[ std::ops::RangeInclusive::<Idx>::is_empty ](
    r: &std::ops::RangeInclusive<Idx>,
) -> (b: bool)
    where
        Idx: PartialOrd,
    ensures
        Idx::obeys_partial_cmp_spec() ==> b == (r@.exhausted || !r@.start.is_le(&r@.end)),
;

impl IndexRange for std::ops::Range<usize> {
    open spec fn spec_start_bound(&self) -> Bound {
        Bound::Included(self.start)
    }

    open spec fn spec_end_bound(&self) -> Bound {
        Bound::Excluded(self.end)
    }

    fn into_bounds(self) -> (b: (Bound, Bound)) {
        (Bound::Included(self.start), Bound::Excluded(self.end))
    }
}

impl IndexRange for std::ops::RangeFrom<usize> {
    open spec fn spec_start_bound(&self) -> Bound {
        Bound::Included(self.start)
    }

    open spec fn spec_end_bound(&self) -> Bound {
        Bound::Unbounded
    }

    fn into_bounds(self) -> (b: (Bound, Bound)) {
        (Bound::Included(self.start), Bound::Unbounded)
    }
}

impl IndexRange for std::ops::RangeTo<usize> {
    open spec fn spec_start_bound(&self) -> Bound {
        Bound::Unbounded
    }

    open spec fn spec_end_bound(&self) -> Bound {
        Bound::Excluded(self.end)
    }

    fn into_bounds(self) -> (b: (Bound, Bound)) {
        (Bound::Unbounded, Bound::Excluded(self.end))
    }
}

impl IndexRange for std::ops::RangeToInclusive<usize> {
    open spec fn spec_start_bound(&self) -> Bound {
        Bound::Unbounded
    }

    open spec fn spec_end_bound(&self) -> Bound {
        Bound::Included(self.end)
    }

    fn into_bounds(self) -> (b: (Bound, Bound)) {
        (Bound::Unbounded, Bound::Included(self.end))
    }
}

impl IndexRange for std::ops::RangeFull {
    open spec fn spec_start_bound(&self) -> Bound {
        Bound::Unbounded
    }

    open spec fn spec_end_bound(&self) -> Bound {
        Bound::Unbounded
    }

    fn into_bounds(self) -> (b: (Bound, Bound)) {
        (Bound::Unbounded, Bound::Unbounded)
    }
}

/// An inclusive range that admits no position (it has been run through as an
/// iterator, or its lower end passes its upper end) reads as the fixed empty
/// pair from 1 up to, not including, 0.
impl IndexRange for std::ops::RangeInclusive<usize> {
    open spec fn spec_start_bound(&self) -> Bound {
        if self@.exhausted || self@.start > self@.end {
            Bound::Included(1)
        } else {
            Bound::Included(self@.start)
        }
    }

    open spec fn spec_end_bound(&self) -> Bound {
        if self@.exhausted || self@.start > self@.end {
            Bound::Excluded(0)
        } else {
            Bound::Included(self@.end)
        }
    }

    fn into_bounds(self) -> (b: (Bound, Bound)) {
        if self.is_empty() {
            (Bound::Included(1), Bound::Excluded(0))
        } else {
            let (first, last) = self.into_inner();
            (Bound::Included(first), Bound::Included(last))
        }
    }
}

impl IndexRange for (Bound, Bound) {
    open spec fn spec_start_bound(&self) -> Bound {
        self.0
    }

    open spec fn spec_end_bound(&self) -> Bound {
        self.1
    }

    fn into_bounds(self) -> (b: (Bound, Bound)) {
        self
    }
}

} // verus!
