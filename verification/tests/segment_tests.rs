use transcriber::segment::{
    decode_text, latest_segment_index, timestamp_fits, to_millis, Segment, TIMESTAMP_SCALE,
};

#[test]
fn to_millis_multiplies_by_ten() {
    assert_eq!(TIMESTAMP_SCALE, 10);
    assert_eq!(to_millis(0), 0);
    assert_eq!(to_millis(50), 500);
    assert_eq!(to_millis(120), 1200);
    assert_eq!(to_millis(200), 2000);
    assert_eq!(to_millis(-7), -70);
    assert_eq!(to_millis(922337203685477580), 9223372036854775800);
    assert_eq!(to_millis(-922337203685477580), -9223372036854775800);
}

#[test]
fn timestamp_fits_up_to_a_tenth_of_the_range() {
    assert!(timestamp_fits(0));
    assert!(timestamp_fits(922337203685477580));
    assert!(!timestamp_fits(922337203685477581));
    assert!(timestamp_fits(-922337203685477580));
    assert!(!timestamp_fits(-922337203685477581));
    assert!(!timestamp_fits(i64::MAX));
    assert!(!timestamp_fits(i64::MIN));
}

#[test]
fn latest_segment_index_is_one_less_than_the_count() {
    assert_eq!(latest_segment_index(1), Some(0));
    assert_eq!(latest_segment_index(3), Some(2));
    assert_eq!(latest_segment_index(i32::MAX), Some(i32::MAX - 1));
}

#[test]
fn latest_segment_index_is_none_without_segments() {
    assert_eq!(latest_segment_index(0), None);
    assert_eq!(latest_segment_index(-1), None);
    assert_eq!(latest_segment_index(i32::MIN), None);
}

#[test]
fn decode_text_reads_ascii() {
    assert_eq!(decode_text(Some(b"hello world")), Some("hello world".to_string()));
}

#[test]
fn decode_text_reads_multibyte_text() {
    let text = "こんにちは、世界";
    assert_eq!(decode_text(Some(text.as_bytes())), Some(text.to_string()));
}

#[test]
fn decode_text_reads_empty_text() {
    assert_eq!(decode_text(Some(b"")), Some(String::new()));
}

#[test]
fn decode_text_rejects_bytes_that_are_no_utf8() {
    assert_eq!(decode_text(Some(&[0xff, 0xfe, 0x41])), None);
    assert_eq!(decode_text(Some(&[0xe3, 0x81])), None);
    assert_eq!(decode_text(Some(&[0xc0, 0x80])), None);
    assert_eq!(decode_text(Some(&[0xed, 0xa0, 0x80])), None);
}

#[test]
fn decode_text_rejects_a_missing_payload() {
    assert_eq!(decode_text(None), None);
}

#[test]
fn segment_clone_is_equal() {
    let segment = Segment { start_ms: 1, end_ms: 2, text: "x".to_string() };
    assert_eq!(segment.clone(), segment);
}
