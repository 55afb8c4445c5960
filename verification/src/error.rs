//! Errors reported by segment metadata operations.

use vstd::prelude::*;

verus! {

/// Error type for segment range construction and header accessors.
///
/// Directory listings are untrusted input, so code iterating over arbitrary
/// discovered headers must get an explicit error instead of an abort.
#[derive(Debug, Clone, Copy, PartialEq, Eq, Hash, Structural)]
pub enum SegmentError {
    /// A range was requested with `start > end`.
    InvalidRange,
    /// A transaction-range accessor was called on a header whose
    /// `tx_range` is absent (always the case for header segments).
    MissingTransactionRange,
}

} // verus!
