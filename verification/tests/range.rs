use snapshot_segments::{SegmentError, SegmentRangeInclusive};

#[test]
fn new_validates_at_construction() {
    let range = SegmentRangeInclusive::new(2, 30).unwrap();
    assert_eq!(range.start(), 2);
    assert_eq!(range.end(), 30);
    assert_eq!(SegmentRangeInclusive::new(5, 5).unwrap().start(), 5);
    assert_eq!(
        SegmentRangeInclusive::new(30, 2),
        Err(SegmentError::InvalidRange)
    );
}

#[test]
fn equality_is_structural() {
    let a = SegmentRangeInclusive::new(2, 30).unwrap();
    let b = SegmentRangeInclusive::new(2, 30).unwrap();
    let c = SegmentRangeInclusive::new(2, 31).unwrap();
    assert_eq!(a, b);
    assert_ne!(a, c);
}

#[test]
fn display_renders_inclusive_range_syntax() {
    let range = SegmentRangeInclusive::new(10, 20).unwrap();
    assert_eq!(range.display_string(), "10..=20");
    let range = SegmentRangeInclusive::new(0, 0).unwrap();
    assert_eq!(range.display_string(), "0..=0");
    let range = SegmentRangeInclusive::new(0, u64::MAX).unwrap();
    assert_eq!(range.display_string(), "0..=18446744073709551615");
}

#[test]
fn conversions_are_lossless() {
    let range: SegmentRangeInclusive = (2u64..=30u64).into();
    assert_eq!(range, SegmentRangeInclusive::new(2, 30).unwrap());
    let generic = range.to_range_inclusive();
    assert_eq!(generic, 2u64..=30u64);
    let back: SegmentRangeInclusive = generic.into();
    assert_eq!(back, range);
}
