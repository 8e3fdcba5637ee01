use tunnel_control::framer::{encode_frame, FrameDecoder};

#[test]
fn encode_prefixes_big_endian_length() {
    let frame = encode_frame(&[9, 8, 7, 6, 5]);
    assert_eq!(frame, vec![0, 0, 0, 5, 9, 8, 7, 6, 5]);
}

#[test]
fn round_trip_single_frame() {
    let payload = vec![1u8, 2, 3];
    let frame = encode_frame(&payload);
    let mut dec = FrameDecoder::new();
    dec.feed(&frame);
    assert_eq!(dec.take_frame(), Some(payload));
    assert_eq!(dec.take_frame(), None);
}

#[test]
fn empty_payload_round_trips() {
    let frame = encode_frame(&[]);
    assert_eq!(frame, vec![0, 0, 0, 0]);
    let mut dec = FrameDecoder::new();
    dec.feed(&frame);
    assert_eq!(dec.take_frame(), Some(vec![]));
}

#[test]
fn partial_frame_waits_for_the_rest() {
    let frame = encode_frame(&[10, 20, 30, 40]);
    let mut dec = FrameDecoder::new();
    dec.feed(&frame[..3]);
    assert_eq!(dec.take_frame(), None);
    dec.feed(&frame[3..6]);
    assert_eq!(dec.take_frame(), None);
    dec.feed(&frame[6..]);
    assert_eq!(dec.take_frame(), Some(vec![10, 20, 30, 40]));
}

#[test]
fn frames_come_out_in_order_and_rx_counts_prefixes() {
    let mut bytes = encode_frame(&[1, 2]);
    bytes.extend_from_slice(&encode_frame(&[]));
    bytes.extend_from_slice(&encode_frame(&[3, 4, 5]));
    let total = bytes.len();

    let mut dec = FrameDecoder::new();
    dec.feed(&bytes);
    assert_eq!(dec.rx(), 0);
    assert_eq!(dec.take_frame(), Some(vec![1, 2]));
    assert_eq!(dec.take_frame(), Some(vec![]));
    assert_eq!(dec.take_frame(), Some(vec![3, 4, 5]));
    assert_eq!(dec.take_frame(), None);
    // 4 + 2, 4 + 0 and 4 + 3 prefix+payload bytes were consumed.
    assert_eq!(total, 17);
    assert_eq!(dec.rx(), total);
}

#[test]
fn large_length_prefix_is_not_a_frame_yet() {
    let mut dec = FrameDecoder::new();
    // Announces a 16 MiB payload; only the prefix has arrived.
    dec.feed(&[0x01, 0x00, 0x00, 0x00]);
    assert_eq!(dec.take_frame(), None);
}
