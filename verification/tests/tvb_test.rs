use wsdf::tvb::Tvb;
use wsdf::types::{Encoding, TvbError};

fn packet() -> Tvb {
    Tvb::new(vec![0x01, 0x00, 0x02, 0x00, 0x00, 0x0a, 0x11, 0x22, 0x33, 0x44], 10)
}

#[test]
fn lengths_of_a_fully_captured_buffer() {
    let tvb = packet();
    assert_eq!(tvb.reported_length(), 10);
    assert_eq!(tvb.captured_length(), 10);
    assert_eq!(tvb.reported_length_remaining(4), 6);
    assert_eq!(tvb.captured_length_remaining(4), 6);
    assert_eq!(tvb.reported_length_remaining(10), 0);
    assert_eq!(tvb.reported_length_remaining(11), 0);
    assert_eq!(tvb.reported_length_remaining(-2), 2);
    assert_eq!(tvb.captured_length_remaining(-11), 0);
}

#[test]
fn lengths_of_a_truncated_buffer() {
    let tvb = Tvb::new(vec![1, 2, 3, 4], 100);
    assert_eq!(tvb.reported_length(), 100);
    assert_eq!(tvb.captured_length(), 4);
    assert_eq!(tvb.reported_length_remaining(1), 99);
    assert_eq!(tvb.captured_length_remaining(1), 3);
    // Offsets beyond the captured bytes name no position.
    assert_eq!(tvb.reported_length_remaining(5), 0);
    assert_eq!(tvb.reported_length_remaining(-1), 97);
}

#[test]
fn range_checks_its_arguments() {
    let tvb = packet();
    let r = tvb.range(2, 3).unwrap();
    assert_eq!((r.offset(), r.length()), (2, 3));
    let rest = tvb.range(6, -1).unwrap();
    assert_eq!((rest.offset(), rest.length()), (6, 4));
    assert!(matches!(tvb.range(-1, 2), Err(TvbError::InvalidRange)));
    assert!(matches!(tvb.range(0, -2), Err(TvbError::InvalidRange)));
    assert!(matches!(tvb.range(8, 3), Err(TvbError::OutOfBounds)));
    assert!(matches!(tvb.range(i32::MAX, i32::MAX), Err(TvbError::OutOfBounds)));
    let all = tvb.range_all();
    assert_eq!((all.offset(), all.length()), (0, 10));
    assert_eq!(all.tvb().reported_length(), 10);
    // A range may end at the reported length even when fewer bytes were captured.
    let short = Tvb::new(vec![1, 2], 8);
    let r = short.range(1, 7).unwrap();
    assert!(!r.bytes_exist());
    assert!(r.bytes().is_empty());
}

#[test]
fn sub_ranges_stay_inside() {
    let tvb = packet();
    let r = tvb.range(3, 7).unwrap();
    let s = r.range(1, 2).unwrap();
    assert_eq!((s.offset(), s.length()), (4, 2));
    assert_eq!(s.uint16(Encoding::BigEndian).unwrap(), 10);
    let t = r.range(3, -1).unwrap();
    assert_eq!((t.offset(), t.length()), (6, 4));
    assert!(matches!(r.range(-1, 1), Err(TvbError::InvalidRange)));
    assert!(matches!(r.range(0, -5), Err(TvbError::InvalidRange)));
    assert!(matches!(r.range(5, 3), Err(TvbError::OutOfBounds)));
    assert!(matches!(r.range(8, -1), Err(TvbError::OutOfBounds)));
    assert_eq!(t.bytes(), vec![0x11, 0x22, 0x33, 0x44]);
}

#[test]
fn integers_in_both_byte_orders() {
    let tvb = Tvb::new(vec![0x12, 0x34, 0x56, 0x78, 0x9a], 5);
    let r = tvb.range(0, 4).unwrap();
    assert_eq!(r.uint8().unwrap(), 0x12);
    assert_eq!(r.uint16(Encoding::BigEndian).unwrap(), 0x1234);
    assert_eq!(r.uint16(Encoding::LittleEndian).unwrap(), 0x3412);
    assert_eq!(r.uint24(Encoding::BigEndian).unwrap(), 0x123456);
    assert_eq!(r.uint24(Encoding::LittleEndian).unwrap(), 0x563412);
    assert_eq!(r.uint32(Encoding::BigEndian).unwrap(), 0x12345678);
    assert_eq!(r.uint32(Encoding::LittleEndian).unwrap(), 0x78563412);
    let high = Tvb::new(vec![0xff, 0xff, 0xff, 0xff], 4).range_all();
    assert_eq!(high.uint32(Encoding::BigEndian).unwrap(), u32::MAX);
}

#[test]
fn integer_reads_report_their_errors() {
    let tvb = Tvb::new(vec![0x12, 0x34], 6);
    let one = tvb.range(0, 1).unwrap();
    assert!(matches!(
        one.uint16(Encoding::BigEndian),
        Err(TvbError::InvalidLength { expected: 2, actual: 1 })
    ));
    let empty = tvb.range(0, 0).unwrap();
    assert!(matches!(empty.uint8(), Err(TvbError::InvalidLength { expected: 1, actual: 0 })));
    let four = tvb.range(0, 4).unwrap();
    assert!(matches!(four.uint32(Encoding::UTF8), Err(TvbError::InvalidEncoding)));
    assert!(matches!(four.uint24(Encoding::HostEndian), Err(TvbError::InvalidEncoding)));
    // The length is checked before the encoding.
    assert!(matches!(
        one.uint32(Encoding::UTF8),
        Err(TvbError::InvalidLength { expected: 4, actual: 1 })
    ));
    // Bytes that were not captured cannot be read.
    assert!(matches!(four.uint32(Encoding::BigEndian), Err(TvbError::OutOfBounds)));
    let late = tvb.range(2, 1).unwrap();
    assert!(matches!(late.uint8(), Err(TvbError::OutOfBounds)));
}

#[test]
fn strings_in_utf8_and_ascii() {
    let tvb = Tvb::new("héllo".as_bytes().to_vec(), 6);
    let all = tvb.range_all();
    assert_eq!(all.string(Encoding::UTF8).unwrap(), "héllo");
    assert!(matches!(all.string(Encoding::ASCII7Bits), Err(TvbError::InvalidEncoding)));
    assert!(matches!(all.string(Encoding::ISO8859_1), Err(TvbError::InvalidEncoding)));
    let ascii = Tvb::new(b"GET /".to_vec(), 5).range_all();
    assert_eq!(ascii.string(Encoding::ASCII7Bits).unwrap(), "GET /");
    let bad = Tvb::new(vec![0xc3, 0x28], 2).range_all();
    assert!(matches!(bad.string(Encoding::UTF8), Err(TvbError::InvalidEncoding)));
}

#[test]
fn subsets_of_a_buffer() {
    let tvb = Tvb::new(vec![1, 2, 3, 4, 5, 6], 10);
    let s = tvb.subset_length(2, 3).unwrap();
    assert_eq!((s.captured_length(), s.reported_length()), (3, 3));
    assert_eq!(s.get_ptr(0, 3), vec![3, 4, 5]);
    let rest = tvb.subset_length(2, -1).unwrap();
    assert_eq!((rest.captured_length(), rest.reported_length()), (4, 8));
    let long = tvb.subset_length(4, 5).unwrap();
    assert_eq!((long.captured_length(), long.reported_length()), (2, 5));
    let tail = tvb.subset_remaining(-2).unwrap();
    assert_eq!(tail.get_ptr(0, 2), vec![5, 6]);
    assert_eq!(tail.reported_length(), 6);
    assert!(matches!(tvb.subset_length(7, 1), Err(TvbError::SubsetFailed)));
    assert!(matches!(tvb.subset_length(0, -3), Err(TvbError::SubsetFailed)));
    assert!(matches!(tvb.subset_remaining(-7), Err(TvbError::SubsetFailed)));
    let r = tvb.range(1, 4).unwrap();
    let sub = r.to_tvb().unwrap();
    assert_eq!(sub.get_ptr(0, 4), vec![2, 3, 4, 5]);
}

#[test]
fn child_buffers_hold_new_bytes() {
    let tvb = packet();
    let child = tvb.new_child_real_data(vec![9, 8, 7], 5).unwrap();
    assert_eq!((child.captured_length(), child.reported_length()), (3, 5));
    assert!(matches!(tvb.new_child_real_data(vec![1, 2, 3], 2), Err(TvbError::SubsetFailed)));
    assert!(matches!(
        tvb.new_child_real_data(vec![], u32::MAX),
        Err(TvbError::SubsetFailed)
    ));
    assert_eq!(tvb.get_ptr(6, 4), vec![0x11, 0x22, 0x33, 0x44]);
}
