use socktrace::bytes::{append_bytes, capture, copy_range, decimal_text, vec_i8_into_u8, CAPTURE_LEN};

#[test]
fn capture_keeps_short_transfers_whole() {
    assert_eq!(capture(b""), Vec::<u8>::new());
    assert_eq!(capture(b"GET / HTTP/1.1\r\n\r\n"), b"GET / HTTP/1.1\r\n\r\n".to_vec());
    let exact = vec![7u8; CAPTURE_LEN];
    assert_eq!(capture(&exact), exact);
}

#[test]
fn capture_cuts_long_transfers() {
    assert_eq!(CAPTURE_LEN, 8192);
    let mut long = vec![1u8; CAPTURE_LEN];
    long.extend_from_slice(&[2u8; 10]);
    let snapshot = capture(&long);
    assert_eq!(snapshot.len(), 8192);
    assert_eq!(snapshot, vec![1u8; 8192]);
}

#[test]
fn signed_bytes_keep_their_bit_pattern() {
    assert_eq!(vec_i8_into_u8(vec![0, 1, 127, -128, -1, 71]), vec![0, 1, 127, 128, 255, 71]);
    assert_eq!(vec_i8_into_u8(Vec::new()), Vec::<u8>::new());
}

#[test]
fn decimal_text_of_status_codes() {
    assert_eq!(decimal_text(0), b"0".to_vec());
    assert_eq!(decimal_text(7), b"7".to_vec());
    assert_eq!(decimal_text(10), b"10".to_vec());
    assert_eq!(decimal_text(200), b"200".to_vec());
    assert_eq!(decimal_text(404), b"404".to_vec());
    assert_eq!(decimal_text(65535), b"65535".to_vec());
}

#[test]
fn bytes_are_appended_and_copied() {
    let mut dst = b"ab".to_vec();
    append_bytes(&mut dst, b"cd");
    append_bytes(&mut dst, b"");
    assert_eq!(dst, b"abcd".to_vec());
    assert_eq!(copy_range(b"hello world", 6, 11), b"world".to_vec());
    assert_eq!(copy_range(b"hello", 2, 2), Vec::<u8>::new());
}
