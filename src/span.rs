//! A region of source code, with union and gap operations.
use vstd::prelude::*;

verus! {

/// A region of source code, addressed by byte offsets.
#[derive(Debug, PartialEq, Eq, Hash, Clone, Copy)]
pub enum Span {
    /// No region.
    Empty,
    /// A half-open range `start..end`.
    Range(usize, usize),
    /// A range bounded only below, `start..`.
    RangeFrom(usize),
    /// A range bounded only above, `..end`.
    RangeTo(usize),
    /// The whole source.
    RangeFull,
}

/// The lower bound is not above the upper bound.
pub open spec fn span_wf(s: Span) -> bool {
    match s {
        Span::Range(lo, hi) => lo <= hi,
        _ => true,
    }
}

/// `inner` lies within the bounds of `outer`. `Span::Empty` lies within every
/// span, and only `Span::Empty` lies within it.
pub open spec fn within(inner: Span, outer: Span) -> bool {
    match (inner, outer) {
        (Span::Empty, _) => true,
        (_, Span::RangeFull) => true,
        (Span::Range(a, b), Span::Range(c, d)) => c <= a && b <= d,
        (Span::Range(a, _), Span::RangeFrom(c)) => c <= a,
        (Span::Range(_, b), Span::RangeTo(d)) => b <= d,
        (Span::RangeFrom(a), Span::RangeFrom(c)) => c <= a,
        (Span::RangeTo(b), Span::RangeTo(d)) => b <= d,
        _ => false,
    }
}

pub open spec fn min_usize(a: usize, b: usize) -> usize {
    if a <= b { a } else { b }
}

pub open spec fn max_usize(a: usize, b: usize) -> usize {
    if a >= b { a } else { b }
}

/// The smallest span whose bounds enclose both operands.
pub open spec fn union_of(a: Span, b: Span) -> Span {
    match (a, b) {
        (Span::Empty, _) => b,
        (_, Span::Empty) => a,
        (Span::RangeFull, _) => Span::RangeFull,
        (_, Span::RangeFull) => Span::RangeFull,
        (Span::Range(a0, a1), Span::Range(b0, b1)) => Span::Range(min_usize(a0, b0), max_usize(a1, b1)),
        (Span::Range(a0, _), Span::RangeFrom(b0)) => Span::RangeFrom(min_usize(a0, b0)),
        (Span::RangeFrom(a0), Span::Range(b0, _)) => Span::RangeFrom(min_usize(a0, b0)),
        (Span::Range(_, a1), Span::RangeTo(b1)) => Span::RangeTo(max_usize(a1, b1)),
        (Span::RangeTo(a1), Span::Range(_, b1)) => Span::RangeTo(max_usize(a1, b1)),
        (Span::RangeFrom(a0), Span::RangeFrom(b0)) => Span::RangeFrom(min_usize(a0, b0)),
        (Span::RangeTo(a1), Span::RangeTo(b1)) => Span::RangeTo(max_usize(a1, b1)),
        (Span::RangeFrom(_), Span::RangeTo(_)) => Span::RangeFull,
        (Span::RangeTo(_), Span::RangeFrom(_)) => Span::RangeFull,
    }
}

/// The upper bound of a span that has one (`Empty`, `RangeFrom` and `RangeFull` have none).
pub open spec fn upper(s: Span) -> Option<usize> {
    match s {
        Span::Range(_, hi) => Some(hi),
        Span::RangeTo(hi) => Some(hi),
        _ => Option::None,
    }
}

/// The lower bound of a span that has one (`Empty`, `RangeTo` and `RangeFull` have none).
pub open spec fn lower(s: Span) -> Option<usize> {
    match s {
        Span::Range(lo, _) => Some(lo),
        Span::RangeFrom(lo) => Some(lo),
        _ => Option::None,
    }
}

/// `a` ends strictly before `b` begins.
pub open spec fn ends_before(a: Span, b: Span) -> bool {
    &&& upper(a) is Some
    &&& lower(b) is Some
    &&& upper(a)->0 < lower(b)->0
}

/// The gap strictly separating two disjoint spans, `Span::Empty` where there is none.
pub open spec fn gap_of(a: Span, b: Span) -> Span {
    if ends_before(a, b) {
        Span::Range(upper(a)->0, lower(b)->0)
    } else if ends_before(b, a) {
        Span::Range(upper(b)->0, lower(a)->0)
    } else {
        Span::Empty
    }
}

impl Span {
    /// The gap strictly between two spans; `Span::Empty` if they intersect or touch.
    pub fn between(&self, other: &Self) -> (r: Span)
        ensures
            r == gap_of(*self, *other),
    {
        let a_hi = match *self {
            Span::Range(_, hi) => Some(hi),
            Span::RangeTo(hi) => Some(hi),
            _ => Option::None,
        };
        let a_lo = match *self {
            Span::Range(lo, _) => Some(lo),
            Span::RangeFrom(lo) => Some(lo),
            _ => Option::None,
        };
        let b_hi = match *other {
            Span::Range(_, hi) => Some(hi),
            Span::RangeTo(hi) => Some(hi),
            _ => Option::None,
        };
        let b_lo = match *other {
            Span::Range(lo, _) => Some(lo),
            Span::RangeFrom(lo) => Some(lo),
            _ => Option::None,
        };
        if let (Some(end), Some(start)) = (a_hi, b_lo) {
            if end < start {
                return Span::Range(end, start);
            }
        }
        if let (Some(end), Some(start)) = (b_hi, a_lo) {
            if end < start {
                return Span::Range(end, start);
            }
        }
        Span::Empty
    }

    /// The smallest span that covers both spans.
    pub fn union(&self, other: &Self) -> (r: Self)
        ensures
            r == union_of(*self, *other),
            within(*self, r),
            within(*other, r),
            forall|c: Span| within(*self, c) && within(*other, c) ==> within(r, c),
    {
        match (*self, *other) {
            (Span::Empty, o) => o,
            (s, Span::Empty) => s,
            (Span::RangeFull, _) => Span::RangeFull,
            (_, Span::RangeFull) => Span::RangeFull,
            (Span::Range(a0, a1), Span::Range(b0, b1)) => {
                let start = if a0 <= b0 { a0 } else { b0 };
                let end = if a1 >= b1 { a1 } else { b1 };
                Span::Range(start, end)
            },
            (Span::Range(a0, _), Span::RangeFrom(b0)) | (Span::RangeFrom(a0), Span::Range(b0, _))
            | (Span::RangeFrom(a0), Span::RangeFrom(b0)) => {
                Span::RangeFrom(if a0 <= b0 { a0 } else { b0 })
            },
            (Span::Range(_, a1), Span::RangeTo(b1)) | (Span::RangeTo(a1), Span::Range(_, b1))
            | (Span::RangeTo(a1), Span::RangeTo(b1)) => {
                Span::RangeTo(if a1 >= b1 { a1 } else { b1 })
            },
            (Span::RangeFrom(_), Span::RangeTo(_)) | (Span::RangeTo(_), Span::RangeFrom(_)) => {
                Span::RangeFull
            },
        }
    }
}

impl From<core::ops::Range<usize>> for Span {
    fn from(value: core::ops::Range<usize>) -> Span {
        Span::Range(value.start, value.end)
    }
}

impl vstd::std_specs::convert::FromSpecImpl<core::ops::Range<usize>> for Span {
    open spec fn obeys_from_spec() -> bool {
        true
    }

    open spec fn from_spec(v: core::ops::Range<usize>) -> Span {
        Span::Range(v.start, v.end)
    }
}

/// Union is commutative.
pub proof fn lemma_union_commutative(a: Span, b: Span)
    ensures
        union_of(a, b) == union_of(b, a),
{
}

/// Union is idempotent: a span united with itself is unchanged.
pub proof fn lemma_union_idempotent(a: Span)
    ensures
        union_of(a, a) == a,
{
}

/// Between two well-formed spans there is no gap when they overlap or touch;
/// otherwise the gap runs exactly from the end of the earlier span to the start
/// of the later one, whichever order the spans are given in.
pub proof fn lemma_between_gap(a: Span, b: Span)
    requires
        span_wf(a),
        span_wf(b),
    ensures
        !ends_before(a, b) && !ends_before(b, a) ==> gap_of(a, b) == Span::Empty,
        ends_before(a, b) ==> gap_of(a, b) == Span::Range(upper(a)->0, lower(b)->0),
        ends_before(b, a) ==> gap_of(a, b) == Span::Range(upper(b)->0, lower(a)->0),
        gap_of(a, b) == gap_of(b, a),
        gap_of(a, b) is Range ==> span_wf(gap_of(a, b)) && gap_of(a, b)->Range_0 < gap_of(a, b)->Range_1,
{
}

} // verus!
