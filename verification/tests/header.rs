use snapshot_segments::{
    SegmentError, SegmentHeader, SegmentRangeInclusive, SnapshotSegment,
};

fn range(start: u64, end: u64) -> SegmentRangeInclusive {
    SegmentRangeInclusive::new(start, end).unwrap()
}

#[test]
fn accessors_report_fields() {
    let header = SegmentHeader::new(range(10, 20), Some(range(3, 7)), SnapshotSegment::Receipts);
    assert_eq!(header.segment(), SnapshotSegment::Receipts);
    assert_eq!(header.block_range(), range(10, 20));
    assert_eq!(header.tx_range(), Some(range(3, 7)));
    assert_eq!(header.block_start(), 10);
    assert_eq!(header.block_end(), 20);
    assert_eq!(header.tx_start(), Ok(3));
    assert_eq!(header.tx_end(), Ok(7));
    assert_eq!(header.tx_len(), Ok(5));
    assert_eq!(header.block_len(), 11);
}

#[test]
fn missing_tx_range_is_an_error_not_an_abort() {
    let header = SegmentHeader::new(range(0, 5), None, SnapshotSegment::Headers);
    assert_eq!(header.tx_start(), Err(SegmentError::MissingTransactionRange));
    assert_eq!(header.tx_end(), Err(SegmentError::MissingTransactionRange));
    assert_eq!(header.tx_len(), Err(SegmentError::MissingTransactionRange));
}

#[test]
fn increment_block_extends_the_end() {
    let mut header = SegmentHeader::new(range(10, 20), None, SnapshotSegment::Headers);
    header.increment_block();
    header.increment_block();
    assert_eq!(header.block_range(), range(10, 22));
    assert_eq!(header.tx_range(), None);
}

#[test]
fn increment_tx_bootstraps_to_zero_zero() {
    // a fresh transactions-kind header: the first increment initializes the
    // range to [0, 0] regardless of the block range, the second extends it
    let mut header = SegmentHeader::new(range(500, 600), None, SnapshotSegment::Transactions);
    header.increment_tx();
    assert_eq!(header.tx_range(), Some(range(0, 0)));
    header.increment_tx();
    assert_eq!(header.tx_range(), Some(range(0, 1)));
    assert_eq!(header.block_range(), range(500, 600));
}

#[test]
fn increment_tx_is_a_no_op_for_headers_kind() {
    let mut header = SegmentHeader::new(range(0, 5), None, SnapshotSegment::Headers);
    header.increment_tx();
    header.increment_tx();
    assert_eq!(header.tx_range(), None);
}

#[test]
fn prune_collapses_tx_range_when_exceeded() {
    // pruning more than tx_range.end clears the range: zero transactions
    let mut header =
        SegmentHeader::new(range(0, 100), Some(range(5, 10)), SnapshotSegment::Transactions);
    header.prune(20);
    assert_eq!(header.tx_range(), None);
    assert_eq!(header.block_range(), range(0, 100));
}

#[test]
fn prune_shrinks_tx_range() {
    let mut header =
        SegmentHeader::new(range(0, 100), Some(range(5, 10)), SnapshotSegment::Receipts);
    header.prune(3);
    assert_eq!(header.tx_range(), Some(range(5, 7)));
    // pruning exactly tx_range.end keeps the range, ending at zero
    let mut header =
        SegmentHeader::new(range(0, 100), Some(range(0, 10)), SnapshotSegment::Transactions);
    header.prune(10);
    assert_eq!(header.tx_range(), Some(range(0, 0)));
}

#[test]
fn prune_on_absent_tx_range_is_a_no_op() {
    let mut header = SegmentHeader::new(range(0, 100), None, SnapshotSegment::Transactions);
    header.prune(7);
    assert_eq!(header.tx_range(), None);
    assert_eq!(header.block_range(), range(0, 100));
}

#[test]
fn prune_shrinks_headers_block_range() {
    let mut header = SegmentHeader::new(range(10, 20), None, SnapshotSegment::Headers);
    header.prune(5);
    assert_eq!(header.block_range(), range(10, 15));
}

#[test]
fn prune_past_headers_block_start_leaves_end_below_start() {
    // pinned design decision: a headers-kind prune lowers only the end, by
    // saturating subtraction, and never re-checks it against the start; a
    // prune reaching past the start is an empty-range signal for callers
    let mut header = SegmentHeader::new(range(10, 20), None, SnapshotSegment::Headers);
    header.prune(15);
    assert_eq!(header.block_range().start(), 10);
    assert_eq!(header.block_range().end(), 5);
    header.prune(100);
    assert_eq!(header.block_range().start(), 10);
    assert_eq!(header.block_range().end(), 0);
}

#[test]
fn set_block_range_overwrites_unconditionally() {
    let mut header = SegmentHeader::new(range(10, 20), None, SnapshotSegment::Headers);
    header.set_block_range(100, 200);
    assert_eq!(header.block_range(), range(100, 200));
}

#[test]
fn set_tx_range_overwrites_or_creates() {
    let mut header =
        SegmentHeader::new(range(0, 9), Some(range(1, 2)), SnapshotSegment::Transactions);
    header.set_tx_range(40, 50);
    assert_eq!(header.tx_range(), Some(range(40, 50)));
    let mut header = SegmentHeader::new(range(0, 9), None, SnapshotSegment::Receipts);
    header.set_tx_range(40, 50);
    assert_eq!(header.tx_range(), Some(range(40, 50)));
}

#[test]
fn start_dispatches_on_kind() {
    // headers segments are addressed by block number
    let header = SegmentHeader::new(range(10, 20), None, SnapshotSegment::Headers);
    assert_eq!(header.start(), Ok(10));
    // transaction and receipt segments by global transaction number
    let header =
        SegmentHeader::new(range(10, 20), Some(range(7, 9)), SnapshotSegment::Transactions);
    assert_eq!(header.start(), Ok(7));
    let header = SegmentHeader::new(range(10, 20), Some(range(7, 9)), SnapshotSegment::Receipts);
    assert_eq!(header.start(), Ok(7));
    // an absent transaction range is reported, not aborted on
    let header = SegmentHeader::new(range(10, 20), None, SnapshotSegment::Receipts);
    assert_eq!(header.start(), Err(SegmentError::MissingTransactionRange));
}

#[test]
fn filename_from_header_uses_the_block_range() {
    let header = SegmentHeader::new(range(2, 30), Some(range(0, 4)), SnapshotSegment::Headers);
    assert_eq!(
        SnapshotSegment::Headers.filename_from_header(header),
        "snapshot_headers_2_30"
    );
}
