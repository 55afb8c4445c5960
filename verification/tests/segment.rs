use snapshot_segments::{
    Compression, Filters, InclusionFilter, PerfectHashingFunction, SegmentConfig,
    SegmentRangeInclusive, SnapshotSegment,
};

#[test]
fn test_filename() {
    let test_vectors = [
        (SnapshotSegment::Headers, 2..=30, "snapshot_headers_2_30", None),
        (SnapshotSegment::Receipts, 30..=300, "snapshot_receipts_30_300", None),
        (
            SnapshotSegment::Transactions,
            1_123_233..=11_223_233,
            "snapshot_transactions_1123233_11223233",
            None,
        ),
        (
            SnapshotSegment::Headers,
            2..=30,
            "snapshot_headers_2_30_cuckoo-fmph_lz4",
            Some((
                Compression::Lz4,
                Filters::WithFilters(InclusionFilter::Cuckoo, PerfectHashingFunction::Fmph),
            )),
        ),
        (
            SnapshotSegment::Headers,
            2..=30,
            "snapshot_headers_2_30_cuckoo-fmph_zstd",
            Some((
                Compression::Zstd,
                Filters::WithFilters(InclusionFilter::Cuckoo, PerfectHashingFunction::Fmph),
            )),
        ),
        (
            SnapshotSegment::Headers,
            2..=30,
            "snapshot_headers_2_30_cuckoo-fmph_zstd-dict",
            Some((
                Compression::ZstdWithDictionary,
                Filters::WithFilters(InclusionFilter::Cuckoo, PerfectHashingFunction::Fmph),
            )),
        ),
    ];

    for (segment, block_range, filename, configuration) in test_vectors {
        let block_range: SegmentRangeInclusive = block_range.into();
        if let Some((compression, filters)) = configuration {
            assert_eq!(
                segment.filename_with_configuration(filters, compression, &block_range),
                filename
            );
        } else {
            assert_eq!(segment.filename(&block_range), filename);
        }

        assert_eq!(SnapshotSegment::parse_filename(filename), Some((segment, block_range)));
    }

    assert_eq!(SnapshotSegment::parse_filename("snapshot_headers_2"), None);
    assert_eq!(SnapshotSegment::parse_filename("snapshot_headers_"), None);
}

#[test]
fn parse_rejects_malformed_names() {
    // wrong or missing prefix
    assert_eq!(SnapshotSegment::parse_filename(""), None);
    assert_eq!(SnapshotSegment::parse_filename("snapshot"), None);
    assert_eq!(SnapshotSegment::parse_filename("Snapshot_headers_2_30"), None);
    assert_eq!(SnapshotSegment::parse_filename("snap_headers_2_30"), None);
    // unknown kind tag
    assert_eq!(SnapshotSegment::parse_filename("snapshot_bodies_2_30"), None);
    assert_eq!(SnapshotSegment::parse_filename("snapshot_HEADERS_2_30"), None);
    // unparseable numeric tokens
    assert_eq!(SnapshotSegment::parse_filename("snapshot_headers_x_30"), None);
    assert_eq!(SnapshotSegment::parse_filename("snapshot_headers_2_y"), None);
    assert_eq!(SnapshotSegment::parse_filename("snapshot_headers_-2_30"), None);
    assert_eq!(SnapshotSegment::parse_filename("snapshot_headers__30"), None);
    // start above end
    assert_eq!(SnapshotSegment::parse_filename("snapshot_headers_30_2"), None);
}

#[test]
fn parse_accepts_numeral_forms_and_bounds() {
    // a leading plus sign and leading zeros parse like any decimal u64
    assert_eq!(
        SnapshotSegment::parse_filename("snapshot_headers_+2_030"),
        Some((
            SnapshotSegment::Headers,
            SegmentRangeInclusive::new(2, 30).unwrap()
        ))
    );
    // the largest u64 is accepted, one past it is not
    assert_eq!(
        SnapshotSegment::parse_filename("snapshot_receipts_0_18446744073709551615"),
        Some((
            SnapshotSegment::Receipts,
            SegmentRangeInclusive::new(0, u64::MAX).unwrap()
        ))
    );
    assert_eq!(
        SnapshotSegment::parse_filename("snapshot_receipts_0_18446744073709551616"),
        None
    );
}

#[test]
fn parse_ignores_trailing_tokens() {
    // the configuration suffix, or any trailing tokens, are not inspected
    let expected = Some((
        SnapshotSegment::Transactions,
        SegmentRangeInclusive::new(7, 9).unwrap(),
    ));
    assert_eq!(
        SnapshotSegment::parse_filename("snapshot_transactions_7_9_none_zstd"),
        expected
    );
    assert_eq!(
        SnapshotSegment::parse_filename("snapshot_transactions_7_9_anything_at_all_"),
        expected
    );
}

#[test]
fn filename_without_filters() {
    let range = SegmentRangeInclusive::new(2, 30).unwrap();
    assert_eq!(
        SnapshotSegment::Headers.filename_with_configuration(
            Filters::WithoutFilters,
            Compression::Zstd,
            &range
        ),
        "snapshot_headers_2_30_none_zstd"
    );
}

#[test]
fn config_and_columns() {
    for segment in [
        SnapshotSegment::Headers,
        SnapshotSegment::Transactions,
        SnapshotSegment::Receipts,
    ] {
        assert_eq!(
            segment.config(),
            SegmentConfig {
                filters: Filters::WithFilters(
                    InclusionFilter::Cuckoo,
                    PerfectHashingFunction::Fmph
                ),
                compression: Compression::Lz4,
            }
        );
    }
    assert_eq!(SnapshotSegment::Headers.columns(), 3);
    assert_eq!(SnapshotSegment::Transactions.columns(), 1);
    assert_eq!(SnapshotSegment::Receipts.columns(), 1);
}
