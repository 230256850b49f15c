use zarrs::byte_range::{
    copy_range, extract_byte_ranges, validate_byte_ranges, ByteRange, InvalidByteRangeError,
};

#[test]
fn byte_range_resolves_against_the_length() {
    let from = ByteRange::FromStart(8, None);
    assert_eq!((from.start(20), from.end(20), from.length(20)), (8, 20, 12));
    let sized = ByteRange::FromStart(0, Some(16));
    assert_eq!((sized.start(20), sized.end(20), sized.length(20)), (0, 16, 16));
    let suffix = ByteRange::Suffix(5);
    assert_eq!((suffix.start(20), suffix.end(20), suffix.length(20)), (15, 20, 5));
    assert_eq!(suffix.resolve(20), Ok((15, 20)));
}

#[test]
fn byte_range_limits_are_exact() {
    assert!(ByteRange::FromStart(20, None).is_valid(20));
    assert!(!ByteRange::FromStart(21, None).is_valid(20));
    assert!(ByteRange::FromStart(4, Some(16)).is_valid(20));
    assert!(!ByteRange::FromStart(5, Some(16)).is_valid(20));
    assert!(ByteRange::Suffix(20).is_valid(20));
    assert!(!ByteRange::Suffix(21).is_valid(20));
    assert!(!ByteRange::FromStart(u64::MAX, Some(u64::MAX)).is_valid(u64::MAX));
    assert!(ByteRange::FromStart(0, Some(0)).is_valid(0));
}

#[test]
fn byte_range_out_of_bounds_is_rejected_not_clamped() {
    let range = ByteRange::Suffix(21);
    assert_eq!(
        range.resolve(20),
        Err(InvalidByteRangeError { byte_range: range, bytes_len: 20 })
    );
    let ranges = [ByteRange::FromStart(0, Some(4)), ByteRange::FromStart(3, Some(2)), range];
    assert_eq!(
        validate_byte_ranges(&ranges, 4),
        Err(InvalidByteRangeError { byte_range: ranges[1], bytes_len: 4 })
    );
    assert_eq!(
        extract_byte_ranges(&[1, 2, 3, 4], &ranges),
        Err(InvalidByteRangeError { byte_range: ranges[1], bytes_len: 4 })
    );
}

#[test]
fn extract_byte_ranges_keeps_the_order_of_the_request() {
    let bytes: Vec<u8> = (0..10).collect();
    let ranges = [
        ByteRange::Suffix(3),
        ByteRange::FromStart(2, Some(3)),
        ByteRange::FromStart(8, None),
        ByteRange::FromStart(10, None),
    ];
    assert_eq!(
        extract_byte_ranges(&bytes, &ranges),
        Ok(vec![vec![7, 8, 9], vec![2, 3, 4], vec![8, 9], vec![]])
    );
    assert_eq!(extract_byte_ranges(&bytes, &[]), Ok(vec![]));
    assert_eq!(copy_range(&bytes, 4, 6), vec![4, 5]);
}

#[test]
fn byte_range_texts() {
    assert_eq!(ByteRange::FromStart(0, None).to_string(), "..");
    assert_eq!(ByteRange::FromStart(5, None).to_string(), "5..");
    assert_eq!(ByteRange::FromStart(5, Some(7)).to_string(), "5..12");
    assert_eq!(ByteRange::FromStart(0, Some(1024)).to_string(), "..1024");
    assert_eq!(ByteRange::Suffix(30).to_string(), "-30..");
    assert_eq!(
        ByteRange::FromStart(u64::MAX, Some(u64::MAX)).to_string(),
        "18446744073709551615..36893488147419103230"
    );
    assert_eq!(
        InvalidByteRangeError { byte_range: ByteRange::Suffix(9), bytes_len: 4 }.to_string(),
        "invalid byte range -9.. for bytes of length 4"
    );
}
