//! The filename codec: pure, total encode/decode functions between
//! `(kind, range[, configuration])` and the canonical on-disk file name.
//!
//! The naming grammar is a wire contract:
//!
//! ```text
//! bare:        snapshot_<kind>_<start>_<end>
//! configured:  snapshot_<kind>_<start>_<end>_<filter>_<compression>
//! ```
//!
//! Decoding deliberately consumes only the first four `_`-separated tokens,
//! so a configuration-qualified name still decodes to its `(kind, range)`;
//! the round-trip laws at the bottom of this module prove both directions.

use vstd::prelude::*;

use crate::range::SegmentRangeInclusive;
use crate::segment::{Compression, Filters, SnapshotSegment};
use crate::text::{
    decimal_chars, is_decimal_digit, is_u64_numeral, lemma_decimal_chars_props, lemma_split_on_len,
    lemma_split_on_no_sep, lemma_split_on_sep, numeral_body, parse_u64_decimal, split_on,
    split_str, str_eq, u64_numeral_value, u64_to_decimal,
};

verus! {

use vstd::string::StringExecFns;

// ---------------------------------------------------------------------------
// Specification of the naming grammar
// ---------------------------------------------------------------------------

/// The canonical bare file name of a segment kind and block range.
pub open spec fn filename_chars(kind: SnapshotSegment, start: u64, end: u64) -> Seq<char> {
    "snapshot_"@ + kind.spec_tag() + "_"@ + decimal_chars(start as nat) + "_"@ + decimal_chars(
        end as nat,
    )
}

/// The canonical configured file name: the bare name followed by the filter
/// and compression tags.
pub open spec fn configured_filename_chars(
    kind: SnapshotSegment,
    filters: Filters,
    compression: Compression,
    start: u64,
    end: u64,
) -> Seq<char> {
    filename_chars(kind, start, end) + "_"@ + filters.spec_tag() + "_"@ + compression.spec_tag()
}

/// The segment kind denoted by a kind tag, if any.
pub open spec fn kind_of_tag(s: Seq<char>) -> Option<SnapshotSegment> {
    if s == "headers"@ {
        Some(SnapshotSegment::Headers)
    } else if s == "transactions"@ {
        Some(SnapshotSegment::Transactions)
    } else if s == "receipts"@ {
        Some(SnapshotSegment::Receipts)
    } else {
        None
    }
}

/// What decoding a file name yields: the name is split on `_`; the first
/// token must be exactly `snapshot`, the second a valid kind tag, the third
/// and fourth numerals with `start <= end`.  Trailing tokens (the
/// configuration suffix) are deliberately ignored.
pub open spec fn parse_filename_chars(s: Seq<char>) -> Option<
    (SnapshotSegment, SegmentRangeInclusive),
> {
    let parts = split_on(s, '_');
    if parts.len() < 4 {
        None
    } else if parts[0] != "snapshot"@ {
        None
    } else {
        match kind_of_tag(parts[1]) {
            None => None,
            Some(kind) => {
                if is_u64_numeral(parts[2]) && is_u64_numeral(parts[3]) {
                    let start = u64_numeral_value(parts[2]);
                    let end = u64_numeral_value(parts[3]);
                    if start <= end {
                        Some(
                            (
                                kind,
                                SegmentRangeInclusive { start: start as u64, end: end as u64 },
                            ),
                        )
                    } else {
                        None
                    }
                } else {
                    None
                }
            },
        }
    }
}

// ---------------------------------------------------------------------------
// Executable codec
// ---------------------------------------------------------------------------

impl SnapshotSegment {
    /// Returns the default file name for the provided [`SegmentHeader`].
    pub fn filename_from_header(&self, header: crate::header::SegmentHeader) -> (s: String)
        ensures
            s@ == filename_chars(*self, header.block_range.start, header.block_range.end),
    {
        let block_range = header.block_range();
        self.filename(&block_range)
    }

    /// Returns the default file name for the provided segment and range.
    pub fn filename(&self, block_range: &SegmentRangeInclusive) -> (s: String)
        ensures
            s@ == filename_chars(*self, block_range.start, block_range.end),
    {
        let mut s = String::from_str("snapshot_");
        s.append(self.as_str());
        s.append("_");
        let start = u64_to_decimal(block_range.start());
        s.append(start.as_str());
        s.append("_");
        let end = u64_to_decimal(block_range.end());
        s.append(end.as_str());
        s
    }

    /// Returns the file name for the provided segment and range, alongside
    /// filters and compression.
    pub fn filename_with_configuration(
        &self,
        filters: Filters,
        compression: Compression,
        block_range: &SegmentRangeInclusive,
    ) -> (s: String)
        ensures
            s@ == configured_filename_chars(
                *self,
                filters,
                compression,
                block_range.start,
                block_range.end,
            ),
    {
        let mut s = self.filename(block_range);
        s.append("_");
        let filters_name = filters.tag_string();
        s.append(filters_name.as_str());
        s.append("_");
        s.append(compression.as_str());
        s
    }

    /// Parses a file name into a `SnapshotSegment` and its expected block
    /// range.
    ///
    /// Returns `None` on an incorrect prefix, an unknown kind tag, a missing
    /// or unparseable numeric token, or a range with `start > end` — never
    /// panics, since directory contents are untrusted input.  Tokens beyond
    /// the fourth (a configuration suffix) are ignored.
    pub fn parse_filename(name: &str) -> (r: Option<(SnapshotSegment, SegmentRangeInclusive)>)
        ensures
            r == parse_filename_chars(name@),
    {
        let parts = split_str(name, '_');
        if parts.len() < 4 {
            return None;
        }
        if !str_eq(parts[0], "snapshot") {
            return None;
        }
        let kind = match kind_from_tag(parts[1]) {
            Some(kind) => kind,
            None => {
                return None;
            },
        };
        let start = match parse_u64_decimal(parts[2]) {
            Some(v) => v,
            None => {
                return None;
            },
        };
        let end = match parse_u64_decimal(parts[3]) {
            Some(v) => v,
            None => {
                return None;
            },
        };
        if start > end {
            return None;
        }
        Some((kind, SegmentRangeInclusive { start, end }))
    }
}

/// Decodes a kind tag.
fn kind_from_tag(tag: &str) -> (r: Option<SnapshotSegment>)
    ensures
        r == kind_of_tag(tag@),
{
    if str_eq(tag, "headers") {
        Some(SnapshotSegment::Headers)
    } else if str_eq(tag, "transactions") {
        Some(SnapshotSegment::Transactions)
    } else if str_eq(tag, "receipts") {
        Some(SnapshotSegment::Receipts)
    } else {
        None
    }
}

// ---------------------------------------------------------------------------
// The round-trip laws
// ---------------------------------------------------------------------------

/// The kind tags contain no separator.
proof fn lemma_tag_no_sep(kind: SnapshotSegment)
    ensures
        forall|i: int| 0 <= i < kind.spec_tag().len() ==> kind.spec_tag()[i] != '_',
{
    reveal_strlit("headers");
    reveal_strlit("transactions");
    reveal_strlit("receipts");
}

/// Decoding a kind tag recovers the kind.
proof fn lemma_kind_of_tag_roundtrip(kind: SnapshotSegment)
    ensures
        kind_of_tag(kind.spec_tag()) == Some(kind),
{
    reveal_strlit("headers");
    reveal_strlit("transactions");
    reveal_strlit("receipts");
    match kind {
        SnapshotSegment::Headers => {},
        SnapshotSegment::Transactions => {
            assert("transactions"@.len() != "headers"@.len());
        },
        SnapshotSegment::Receipts => {
            assert("receipts"@[0] != "headers"@[0]);
            assert("receipts"@.len() != "transactions"@.len());
        },
    }
}

/// The canonical decimal representation of a `u64` is a numeral without a
/// sign and without separators, and it denotes the number itself.
proof fn lemma_decimal_token(n: u64)
    ensures
        forall|i: int|
            0 <= i < decimal_chars(n as nat).len() ==> decimal_chars(n as nat)[i] != '_',
        is_u64_numeral(decimal_chars(n as nat)),
        u64_numeral_value(decimal_chars(n as nat)) == n as nat,
{
    lemma_decimal_chars_props(n as nat);
    let s = decimal_chars(n as nat);
    assert forall|i: int| 0 <= i < s.len() implies s[i] != '_' by {
        assert(is_decimal_digit(s[i]));
        assert('_' as u32 == 95);
    }
    assert(s[0] != '+') by {
        assert(is_decimal_digit(s[0]));
        assert('+' as u32 == 43);
    }
    assert(numeral_body(s) == s);
}

/// The bare file name splits into exactly the four canonical tokens; more
/// generally, a name extended by `'_'` and any suffix splits into those
/// tokens followed by the parts of the suffix.
proof fn lemma_filename_chars_split(kind: SnapshotSegment, start: u64, end: u64, tail: Seq<char>)
    ensures
        split_on(filename_chars(kind, start, end) + tail, '_') == seq![
            "snapshot"@,
            kind.spec_tag(),
            decimal_chars(start as nat),
        ] + split_on(decimal_chars(end as nat) + tail, '_'),
{
    reveal_strlit("snapshot_");
    reveal_strlit("snapshot");
    reveal_strlit("_");
    lemma_tag_no_sep(kind);
    lemma_decimal_token(start);
    let tag = kind.spec_tag();
    let ds = decimal_chars(start as nat);
    let de = decimal_chars(end as nat);
    let s = filename_chars(kind, start, end) + tail;
    let r2 = ds + seq!['_'] + (de + tail);
    let r1 = tag + seq!['_'] + r2;
    assert(forall|i: int| 0 <= i < "snapshot"@.len() ==> "snapshot"@[i] != '_');
    assert(s =~= "snapshot"@ + seq!['_'] + r1);
    lemma_split_on_sep("snapshot"@, r1, '_');
    lemma_split_on_sep(tag, r2, '_');
    lemma_split_on_sep(ds, de + tail, '_');
    assert(split_on(s, '_') =~= seq!["snapshot"@, tag, ds] + split_on(de + tail, '_'));
}

/// Round trip of the bare name: for every kind and every range with
/// `start <= end`, decoding the canonical file name yields exactly the kind
/// and the range it was built from.
pub proof fn lemma_filename_roundtrip(kind: SnapshotSegment, start: u64, end: u64)
    requires
        start <= end,
    ensures
        parse_filename_chars(filename_chars(kind, start, end)) == Some(
            (kind, SegmentRangeInclusive { start, end }),
        ),
{
    let ds = decimal_chars(start as nat);
    let de = decimal_chars(end as nat);
    let s = filename_chars(kind, start, end);
    assert(s + Seq::<char>::empty() =~= s);
    lemma_filename_chars_split(kind, start, end, Seq::<char>::empty());
    lemma_decimal_token(end);
    assert(de + Seq::<char>::empty() =~= de);
    lemma_split_on_no_sep(de, '_');
    let parts = split_on(s, '_');
    assert(parts =~= seq!["snapshot"@, kind.spec_tag(), ds, de]);
    lemma_kind_of_tag_roundtrip(kind);
    lemma_decimal_token(start);
}

/// Round trip of the configured name: the filter and compression suffix is
/// ignored by the decoder, so a configured name decodes to the same kind and
/// range as the bare name it extends.
pub proof fn lemma_filename_with_configuration_roundtrip(
    kind: SnapshotSegment,
    filters: Filters,
    compression: Compression,
    start: u64,
    end: u64,
)
    requires
        start <= end,
    ensures
        parse_filename_chars(
            configured_filename_chars(kind, filters, compression, start, end),
        ) == Some((kind, SegmentRangeInclusive { start, end })),
{
    reveal_strlit("_");
    let ds = decimal_chars(start as nat);
    let de = decimal_chars(end as nat);
    let s = configured_filename_chars(kind, filters, compression, start, end);
    let tail = seq!['_'] + (filters.spec_tag() + "_"@ + compression.spec_tag());
    assert(s =~= filename_chars(kind, start, end) + tail);
    lemma_filename_chars_split(kind, start, end, tail);
    lemma_decimal_token(end);
    assert(de + tail =~= de + seq!['_'] + (filters.spec_tag() + "_"@ + compression.spec_tag()));
    lemma_split_on_sep(de, filters.spec_tag() + "_"@ + compression.spec_tag(), '_');
    lemma_split_on_len(filters.spec_tag() + "_"@ + compression.spec_tag(), '_');
    let parts = split_on(s, '_');
    assert(parts.len() >= 4);
    assert(parts[0] == "snapshot"@);
    assert(parts[1] == kind.spec_tag());
    assert(parts[2] == ds);
    assert(parts[3] == de);
    lemma_kind_of_tag_roundtrip(kind);
    lemma_decimal_token(start);
}

} // verus!
