//! Range-addressed snapshot segment metadata and its on-disk naming contract.
//!
//! Historical chain data (block headers, transactions, receipts) is frozen
//! into immutable, range-addressed segment files.  This crate provides the
//! pieces that producers and consumers of such files share:
//!
//! * [`range::SegmentRangeInclusive`] — a copyable inclusive `[start, end]`
//!   range used on per-item append paths;
//! * [`segment::SnapshotSegment`] — the closed set of segment kinds, each
//!   fixing a default filter/compression configuration and a column count;
//! * [`header::SegmentHeader`] — the mutable per-segment metadata with its
//!   kind-dependent increment, prune and set operations;
//! * the filename codec on [`segment::SnapshotSegment`] — pure, total
//!   encode/decode functions between `(kind, range)` and the canonical
//!   file name, proved to round-trip.

pub mod codec;
pub mod error;
pub mod header;
pub mod range;
pub mod segment;
pub mod text;

pub use error::SegmentError;
pub use header::SegmentHeader;
pub use range::SegmentRangeInclusive;
pub use segment::{
    Compression, Filters, InclusionFilter, PerfectHashingFunction, SegmentConfig, SnapshotSegment,
};
