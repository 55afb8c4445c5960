//! Mutable per-segment metadata and its kind-dependent operations.

use vstd::prelude::*;

use crate::error::SegmentError;
use crate::range::SegmentRangeInclusive;
use crate::segment::SnapshotSegment;

verus! {

/// A segment header that contains information common to all segments.
///
/// The header of a hot segment is mutated in place, once per appended chain
/// item, by exactly one producer; it becomes logically immutable once the
/// segment is named and persisted.  `tx_range` is `None` until the first
/// transaction or receipt is appended, and is always `None` for
/// header-kind segments.
#[derive(Debug, Eq, PartialEq, Hash, Clone)]
pub struct SegmentHeader {
    /// Block range of the snapshot segment.
    pub block_range: SegmentRangeInclusive,
    /// Transaction range of the snapshot segment.
    pub tx_range: Option<SegmentRangeInclusive>,
    /// Segment kind.
    pub segment: SnapshotSegment,
}

impl SegmentHeader {
    /// Returns a new `SegmentHeader`.
    pub fn new(
        block_range: SegmentRangeInclusive,
        tx_range: Option<SegmentRangeInclusive>,
        segment: SnapshotSegment,
    ) -> (h: SegmentHeader)
        ensures
            h == (SegmentHeader { block_range, tx_range, segment }),
    {
        SegmentHeader { block_range, tx_range, segment }
    }

    /// Returns the snapshot segment kind.
    pub fn segment(&self) -> (s: SnapshotSegment)
        ensures
            s == self.segment,
    {
        self.segment
    }

    /// Returns the block range.
    pub fn block_range(&self) -> (r: SegmentRangeInclusive)
        ensures
            r == self.block_range,
    {
        self.block_range
    }

    /// Returns the transaction range.
    pub fn tx_range(&self) -> (r: Option<SegmentRangeInclusive>)
        ensures
            r == self.tx_range,
    {
        self.tx_range
    }

    /// Returns the first block number of the segment.
    pub fn block_start(&self) -> (n: u64)
        ensures
            n == self.block_range.start,
    {
        self.block_range.start
    }

    /// Returns the last block number of the segment.
    pub fn block_end(&self) -> (n: u64)
        ensures
            n == self.block_range.end,
    {
        self.block_range.end
    }

    /// Returns the first transaction number of the segment, or
    /// [`SegmentError::MissingTransactionRange`] when the header tracks no
    /// transaction range.  Headers discovered in a directory scan are
    /// untrusted, so the absence is reported rather than aborted on.
    pub fn tx_start(&self) -> (r: Result<u64, SegmentError>)
        ensures
            r == match self.tx_range {
                Some(range) => Ok::<u64, SegmentError>(range.start),
                None => Err::<u64, SegmentError>(SegmentError::MissingTransactionRange),
            },
    {
        match &self.tx_range {
            Some(range) => Ok(range.start),
            None => Err(SegmentError::MissingTransactionRange),
        }
    }

    /// Returns the last transaction number of the segment, or
    /// [`SegmentError::MissingTransactionRange`] when the header tracks no
    /// transaction range.
    pub fn tx_end(&self) -> (r: Result<u64, SegmentError>)
        ensures
            r == match self.tx_range {
                Some(range) => Ok::<u64, SegmentError>(range.end),
                None => Err::<u64, SegmentError>(SegmentError::MissingTransactionRange),
            },
    {
        match &self.tx_range {
            Some(range) => Ok(range.end),
            None => Err(SegmentError::MissingTransactionRange),
        }
    }

    /// Returns the number of transactions in the segment, or
    /// [`SegmentError::MissingTransactionRange`] when the header tracks no
    /// transaction range.
    pub fn tx_len(&self) -> (r: Result<u64, SegmentError>)
        requires
            self.tx_range matches Some(range) ==> range.wf() && range.end - range.start
                < u64::MAX,
        ensures
            r == match self.tx_range {
                Some(range) => Ok::<u64, SegmentError>((range.end + 1 - range.start) as u64),
                None => Err::<u64, SegmentError>(SegmentError::MissingTransactionRange),
            },
    {
        match &self.tx_range {
            Some(range) => Ok(range.end - range.start + 1),
            None => Err(SegmentError::MissingTransactionRange),
        }
    }

    /// Returns the number of blocks in the segment.
    pub fn block_len(&self) -> (n: u64)
        requires
            self.block_range.wf(),
            self.block_range.end - self.block_range.start < u64::MAX,
        ensures
            n == self.block_range.end + 1 - self.block_range.start,
    {
        self.block_range.end - self.block_range.start + 1
    }

    /// Increments the block end of the range.
    pub fn increment_block(&mut self)
        requires
            old(self).block_range.end < u64::MAX,
        ensures
            final(self).block_range == (SegmentRangeInclusive {
                start: old(self).block_range.start,
                end: (old(self).block_range.end + 1) as u64,
            }),
            final(self).tx_range == old(self).tx_range,
            final(self).segment == old(self).segment,
    {
        self.block_range.end = self.block_range.end + 1;
    }

    /// Increments the transaction end of the range, depending on the
    /// segment kind.  Header segments never track transactions, so the call
    /// is a no-op for them.  For transaction and receipt segments, the very
    /// first increment bootstraps the range to `[0, 0]`: transaction
    /// numbering is a monotonic counter independent of the block range.
    pub fn increment_tx(&mut self)
        requires
            old(self).segment.tracks_transactions() ==> (old(self).tx_range matches Some(range)
                ==> range.end < u64::MAX),
        ensures
            final(self).block_range == old(self).block_range,
            final(self).segment == old(self).segment,
            final(self).tx_range == if !old(self).segment.tracks_transactions() {
                old(self).tx_range
            } else {
                match old(self).tx_range {
                    Some(range) => Some(
                        SegmentRangeInclusive { start: range.start, end: (range.end + 1) as u64 },
                    ),
                    None => Some(SegmentRangeInclusive { start: 0, end: 0 }),
                }
            },
    {
        match self.segment {
            SnapshotSegment::Headers => (),
            SnapshotSegment::Transactions | SnapshotSegment::Receipts => {
                match &mut self.tx_range {
                    Some(tx_range) => {
                        tx_range.end = tx_range.end + 1;
                    },
                    None => {
                        self.tx_range = Some(SegmentRangeInclusive { start: 0, end: 0 });
                    },
                }
            },
        }
    }

    /// Removes `num` elements from the end of the transaction or block
    /// range, depending on the segment kind.
    ///
    /// For header segments the block end is lowered by saturating
    /// subtraction and the block start is deliberately left untouched: a
    /// prune reaching past the start leaves `end < start`, which callers
    /// treat as an empty-range signal.  For transaction and receipt
    /// segments, pruning more than `tx_range.end` elements clears the range
    /// entirely (the segment then holds zero transactions).
    pub fn prune(&mut self, num: u64)
        ensures
            final(self).segment == old(self).segment,
            final(self).block_range == if old(self).segment.tracks_transactions() {
                old(self).block_range
            } else {
                (SegmentRangeInclusive {
                    start: old(self).block_range.start,
                    end: if old(self).block_range.end >= num {
                        (old(self).block_range.end - num) as u64
                    } else {
                        0
                    },
                })
            },
            final(self).tx_range == if !old(self).segment.tracks_transactions() {
                old(self).tx_range
            } else {
                match old(self).tx_range {
                    Some(range) => if num > range.end {
                        None::<SegmentRangeInclusive>
                    } else {
                        Some(SegmentRangeInclusive { start: range.start, end: (range.end - num) as u64 })
                    },
                    None => None::<SegmentRangeInclusive>,
                }
            },
    {
        match self.segment {
            SnapshotSegment::Headers => {
                self.block_range.end = u64_saturating_sub(self.block_range.end, num);
            },
            SnapshotSegment::Transactions | SnapshotSegment::Receipts => {
                let clear = match &mut self.tx_range {
                    Some(range) => {
                        if num > range.end {
                            true
                        } else {
                            range.end = u64_saturating_sub(range.end, num);
                            false
                        }
                    },
                    None => false,
                };
                if clear {
                    self.tx_range = None;
                }
            },
        }
    }

    /// Sets a new block range, overwriting both endpoints without
    /// validation.
    pub fn set_block_range(&mut self, block_start: u64, block_end: u64)
        ensures
            final(self).block_range == (SegmentRangeInclusive {
                start: block_start,
                end: block_end,
            }),
            final(self).tx_range == old(self).tx_range,
            final(self).segment == old(self).segment,
    {
        self.block_range.start = block_start;
        self.block_range.end = block_end;
    }

    /// Sets a new transaction range, overwriting both endpoints without
    /// validation, and creating the range when it was absent.
    pub fn set_tx_range(&mut self, tx_start: u64, tx_end: u64)
        ensures
            final(self).tx_range == Some(
                SegmentRangeInclusive { start: tx_start, end: tx_end },
            ),
            final(self).block_range == old(self).block_range,
            final(self).segment == old(self).segment,
    {
        match &mut self.tx_range {
            Some(tx_range) => {
                tx_range.start = tx_start;
                tx_range.end = tx_end;
            },
            None => {
                self.tx_range = Some(SegmentRangeInclusive { start: tx_start, end: tx_end });
            },
        }
    }

    /// Returns the row offset into the segment's physical file: header
    /// segments are addressed by block number, transaction and receipt
    /// segments by global transaction number.  For the latter, an absent
    /// transaction range is reported as
    /// [`SegmentError::MissingTransactionRange`].
    pub fn start(&self) -> (r: Result<u64, SegmentError>)
        ensures
            r == if !self.segment.tracks_transactions() {
                Ok::<u64, SegmentError>(self.block_range.start)
            } else {
                match self.tx_range {
                    Some(range) => Ok::<u64, SegmentError>(range.start),
                    None => Err::<u64, SegmentError>(SegmentError::MissingTransactionRange),
                }
            },
    {
        match self.segment {
            SnapshotSegment::Headers => Ok(self.block_start()),
            SnapshotSegment::Transactions | SnapshotSegment::Receipts => self.tx_start(),
        }
    }
}

/// Saturating subtraction on `u64`.
fn u64_saturating_sub(a: u64, b: u64) -> (r: u64)
    ensures
        r == if a >= b {
            (a - b) as u64
        } else {
            0
        },
{
    if a >= b {
        a - b
    } else {
        0
    }
}

} // verus!
