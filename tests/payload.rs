use peer_session::payload::{append_bounded, decode_text, MAX_STREAM_SIZE};

#[test]
fn chunks_accumulate_in_order() {
    let mut buf: Vec<u8> = Vec::new();
    assert!(!append_bounded(&mut buf, b"hel"));
    assert!(!append_bounded(&mut buf, b""));
    assert!(!append_bounded(&mut buf, b"lo"));
    assert_eq!(buf, b"hello".to_vec());
}

#[test]
fn oversized_payload_is_cut_at_bound() {
    let chunk: Vec<u8> = (0..65536u32).map(|i| (i % 251) as u8).collect();
    let mut buf: Vec<u8> = Vec::new();
    let mut whole: Vec<u8> = Vec::new();
    let mut full = false;
    for _ in 0..40 {
        whole.extend_from_slice(&chunk);
        full = append_bounded(&mut buf, &chunk);
    }
    assert!(full);
    assert_eq!(MAX_STREAM_SIZE, 1024 * 1024);
    assert_eq!(buf.len(), MAX_STREAM_SIZE);
    assert_eq!(buf[..], whole[..MAX_STREAM_SIZE]);
}

#[test]
fn payload_of_exactly_the_bound_is_full() {
    let mut buf: Vec<u8> = Vec::new();
    let big = vec![7u8; MAX_STREAM_SIZE];
    assert!(append_bounded(&mut buf, &big));
    assert!(append_bounded(&mut buf, b"more"));
    assert_eq!(buf.len(), MAX_STREAM_SIZE);
    assert!(buf.iter().all(|b| *b == 7));
}

#[test]
fn valid_text_decodes_unchanged() {
    assert_eq!(decode_text(b"hello"), "hello");
    assert_eq!(decode_text("grüße".as_bytes()), "grüße");
    assert_eq!(decode_text(b""), "");
}

#[test]
fn malformed_text_is_replaced_not_rejected() {
    assert_eq!(decode_text(&[b'h', 0xff, b'i']), "h\u{FFFD}i");
}
