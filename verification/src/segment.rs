//! Segment kinds and their filter/compression configuration.

use vstd::prelude::*;

verus! {

use vstd::string::StringExecFns;

/// Segment of the data that can be snapshotted.
#[derive(Debug, Copy, Clone, Eq, PartialEq, Hash, Ord, PartialOrd, Structural)]
pub enum SnapshotSegment {
    /// Snapshot segment responsible for the `CanonicalHeaders`, `Headers`,
    /// `HeaderTD` tables.
    Headers,
    /// Snapshot segment responsible for the `Transactions` table.
    Transactions,
    /// Snapshot segment responsible for the `Receipts` table.
    Receipts,
}

/// Inclusion filter stored alongside a segment to accelerate negative
/// lookups.  Only which filter was selected is recorded here.
#[derive(Debug, Copy, Clone, Eq, PartialEq, Hash, Structural)]
pub enum InclusionFilter {
    /// A cuckoo filter.
    Cuckoo,
}

/// Perfect hashing function used for direct-indexed lookups.  Only which
/// function was selected is recorded here.
#[derive(Debug, Copy, Clone, Eq, PartialEq, Hash, Structural)]
pub enum PerfectHashingFunction {
    /// Fingerprint-based minimal perfect hashing.
    Fmph,
}

/// Whether a segment carries lookup filters, and which ones.
#[derive(Debug, Copy, Clone, Eq, PartialEq, Hash, Structural)]
pub enum Filters {
    /// The segment stores the given inclusion filter and perfect hashing
    /// function.
    WithFilters(InclusionFilter, PerfectHashingFunction),
    /// The segment stores no filters.
    WithoutFilters,
}

/// Compression used on a segment's column data.
#[derive(Debug, Copy, Clone, Eq, PartialEq, Hash, Structural)]
pub enum Compression {
    /// LZ4 compression.
    Lz4,
    /// Zstandard compression.
    Zstd,
    /// Zstandard compression with a trained dictionary.
    ZstdWithDictionary,
}

/// Configuration used on the segment.
#[derive(Debug, Clone, Copy, PartialEq, Eq, Structural)]
pub struct SegmentConfig {
    /// Inclusion filters used on the segment.
    pub filters: Filters,
    /// Compression used on the segment.
    pub compression: Compression,
}

impl SnapshotSegment {
    /// The default configuration of each kind.  A lookup rather than a
    /// shared constant: kinds are allowed to diverge.
    pub open spec fn spec_config(&self) -> SegmentConfig {
        match self {
            SnapshotSegment::Headers => SegmentConfig {
                filters: Filters::WithFilters(
                    InclusionFilter::Cuckoo,
                    PerfectHashingFunction::Fmph,
                ),
                compression: Compression::Lz4,
            },
            SnapshotSegment::Transactions => SegmentConfig {
                filters: Filters::WithFilters(
                    InclusionFilter::Cuckoo,
                    PerfectHashingFunction::Fmph,
                ),
                compression: Compression::Lz4,
            },
            SnapshotSegment::Receipts => SegmentConfig {
                filters: Filters::WithFilters(
                    InclusionFilter::Cuckoo,
                    PerfectHashingFunction::Fmph,
                ),
                compression: Compression::Lz4,
            },
        }
    }

    /// Returns the default configuration of the segment.
    pub fn config(&self) -> (c: SegmentConfig)
        ensures
            c == self.spec_config(),
    {
        let default_config = SegmentConfig {
            filters: Filters::WithFilters(InclusionFilter::Cuckoo, PerfectHashingFunction::Fmph),
            compression: Compression::Lz4,
        };
        match self {
            SnapshotSegment::Headers => default_config,
            SnapshotSegment::Transactions => default_config,
            SnapshotSegment::Receipts => default_config,
        }
    }

    /// The number of physical columns of each kind.
    pub open spec fn spec_columns(&self) -> usize {
        match self {
            SnapshotSegment::Headers => 3,
            SnapshotSegment::Transactions => 1,
            SnapshotSegment::Receipts => 1,
        }
    }

    /// Returns the number of columns for the segment.
    pub fn columns(&self) -> (c: usize)
        ensures
            c == self.spec_columns(),
    {
        match self {
            SnapshotSegment::Headers => 3,
            SnapshotSegment::Transactions => 1,
            SnapshotSegment::Receipts => 1,
        }
    }

    /// The lowercase tag under which this kind appears in file names.
    pub open spec fn spec_tag(&self) -> Seq<char> {
        match self {
            SnapshotSegment::Headers => "headers"@,
            SnapshotSegment::Transactions => "transactions"@,
            SnapshotSegment::Receipts => "receipts"@,
        }
    }

    /// Returns the lowercase tag of the segment kind.
    pub fn as_str(&self) -> (s: &'static str)
        ensures
            s@ == self.spec_tag(),
    {
        match self {
            SnapshotSegment::Headers => "headers",
            SnapshotSegment::Transactions => "transactions",
            SnapshotSegment::Receipts => "receipts",
        }
    }

    /// Whether this kind tracks a transaction range in addition to the
    /// block range.  This is the single place that decides it.
    pub open spec fn tracks_transactions(&self) -> bool {
        match self {
            SnapshotSegment::Headers => false,
            SnapshotSegment::Transactions => true,
            SnapshotSegment::Receipts => true,
        }
    }
}

impl InclusionFilter {
    /// The lowercase tag of the filter.
    pub open spec fn spec_tag(&self) -> Seq<char> {
        match self {
            InclusionFilter::Cuckoo => "cuckoo"@,
        }
    }

    /// Returns the lowercase tag of the filter.
    pub fn as_str(&self) -> (s: &'static str)
        ensures
            s@ == self.spec_tag(),
    {
        match self {
            InclusionFilter::Cuckoo => "cuckoo",
        }
    }
}

impl PerfectHashingFunction {
    /// The lowercase tag of the hashing function.
    pub open spec fn spec_tag(&self) -> Seq<char> {
        match self {
            PerfectHashingFunction::Fmph => "fmph"@,
        }
    }

    /// Returns the lowercase tag of the hashing function.
    pub fn as_str(&self) -> (s: &'static str)
        ensures
            s@ == self.spec_tag(),
    {
        match self {
            PerfectHashingFunction::Fmph => "fmph",
        }
    }
}

impl Filters {
    /// The tag of the filter configuration: `"none"` without filters,
    /// `"<inclusion>-<phf>"` with them.
    pub open spec fn spec_tag(&self) -> Seq<char> {
        match self {
            Filters::WithFilters(inclusion, phf) => inclusion.spec_tag() + "-"@ + phf.spec_tag(),
            Filters::WithoutFilters => "none"@,
        }
    }

    /// Returns the tag of the filter configuration.
    pub fn tag_string(&self) -> (s: String)
        ensures
            s@ == self.spec_tag(),
    {
        match self {
            Filters::WithFilters(inclusion, phf) => {
                let mut s = String::from_str(inclusion.as_str());
                s.append("-");
                s.append(phf.as_str());
                s
            },
            Filters::WithoutFilters => String::from_str("none"),
        }
    }
}

impl Compression {
    /// The lowercase tag of the compression choice.
    pub open spec fn spec_tag(&self) -> Seq<char> {
        match self {
            Compression::Lz4 => "lz4"@,
            Compression::Zstd => "zstd"@,
            Compression::ZstdWithDictionary => "zstd-dict"@,
        }
    }

    /// Returns the lowercase tag of the compression choice.
    pub fn as_str(&self) -> (s: &'static str)
        ensures
            s@ == self.spec_tag(),
    {
        match self {
            Compression::Lz4 => "lz4",
            Compression::Zstd => "zstd",
            Compression::ZstdWithDictionary => "zstd-dict",
        }
    }
}

} // verus!
