//! The inclusive numeric range used to address segments.

use vstd::prelude::*;

use core::ops::RangeInclusive;

use crate::error::SegmentError;
use crate::text::{decimal_chars, u64_to_decimal};

verus! {

use vstd::string::StringExecFns;

/// Relies on `core::ops::RangeInclusive::start`: returns the lower bound of
/// the range (inclusive), the `start` the range was created with.
pub assume_specification<Idx>[ RangeInclusive::<Idx>::start ](r: &RangeInclusive<Idx>) -> (s:
    &Idx)
    ensures
        *s == r@.start,
;

/// Relies on `core::ops::RangeInclusive::end`: returns the upper bound of
/// the range (inclusive), the `end` the range was created with.
pub assume_specification<Idx>[ RangeInclusive::<Idx>::end ](r: &RangeInclusive<Idx>) -> (e: &Idx)
    ensures
        *e == r@.end,
;

/// Segment transaction and block INCLUSIVE range.
///
/// Ranges are modified in per-item hot loops, which makes the generic
/// `core::ops::RangeInclusive` (an iterator carrying an `exhausted` flag) a
/// poor fit; this is a plain copyable pair of endpoints.
///
/// The intended invariant is `start <= end`.  [`SegmentRangeInclusive::new`]
/// is the single validating point of origin; the header mutation operations
/// that overwrite endpoints without validation are documented as such.
#[derive(Debug, PartialEq, Eq, PartialOrd, Ord, Hash, Clone, Copy, Structural)]
pub struct SegmentRangeInclusive {
    pub start: u64,
    pub end: u64,
}

impl SegmentRangeInclusive {
    /// Whether the range is well-formed: `start <= end`.
    pub open spec fn wf(&self) -> bool {
        self.start <= self.end
    }

    /// Creates a new `SegmentRangeInclusive`, rejecting `start > end`.
    pub fn new(start: u64, end: u64) -> (r: Result<SegmentRangeInclusive, SegmentError>)
        ensures
            start <= end ==> r == Ok::<SegmentRangeInclusive, SegmentError>(
                (SegmentRangeInclusive { start, end }),
            ),
            start > end ==> r == Err::<SegmentRangeInclusive, SegmentError>(
                SegmentError::InvalidRange,
            ),
    {
        if start <= end {
            Ok(SegmentRangeInclusive { start, end })
        } else {
            Err(SegmentError::InvalidRange)
        }
    }

    /// Start of the inclusive range.
    pub fn start(&self) -> (r: u64)
        ensures
            r == self.start,
    {
        self.start
    }

    /// End of the inclusive range.
    pub fn end(&self) -> (r: u64)
        ensures
            r == self.end,
    {
        self.end
    }

    /// Renders the range as `"{start}..={end}"`.
    pub fn display_string(&self) -> (s: String)
        ensures
            s@ == decimal_chars(self.start as nat) + "..="@ + decimal_chars(self.end as nat),
    {
        let mut s = u64_to_decimal(self.start);
        s.append("..=");
        let end = u64_to_decimal(self.end);
        s.append(end.as_str());
        s
    }

    /// The equivalent generic inclusive range.
    pub fn to_range_inclusive(&self) -> (r: RangeInclusive<u64>)
        ensures
            r@.start == self.start,
            r@.end == self.end,
            !r@.exhausted,
    {
        self.start..=self.end
    }
}

impl From<RangeInclusive<u64>> for SegmentRangeInclusive {
    /// The lossless conversion from the generic inclusive range.
    fn from(value: RangeInclusive<u64>) -> (r: SegmentRangeInclusive)
        ensures
            r == (SegmentRangeInclusive { start: value@.start, end: value@.end }),
    {
        SegmentRangeInclusive { start: *value.start(), end: *value.end() }
    }
}

impl vstd::std_specs::convert::FromSpecImpl<RangeInclusive<u64>> for SegmentRangeInclusive {
    open spec fn obeys_from_spec() -> bool {
        true
    }

    open spec fn from_spec(value: RangeInclusive<u64>) -> Self {
        SegmentRangeInclusive { start: value@.start, end: value@.end }
    }
}

} // verus!
