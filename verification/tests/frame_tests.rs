//! Frame codec behaviour: round trips across the length tiers, control
//! frames, and decoding of unmasked server frames.

use eoka::frame::{decode_frame, encode_frame, control_frame, FrameDecode, OPCODE_CLOSE, OPCODE_PONG, OPCODE_TEXT};

fn round_trip(len: usize) {
    let payload: Vec<u8> = (0..len).map(|i| (i % 251) as u8).collect();
    let mask: [u8; 4] = [0x12, 0x34, 0x56, 0x78];
    let frame = encode_frame(OPCODE_TEXT, &payload, &mask);
    match decode_frame(&frame) {
        FrameDecode::Complete { opcode, payload: decoded, consumed } => {
            assert_eq!(opcode, OPCODE_TEXT);
            assert_eq!(decoded, payload);
            assert_eq!(consumed, frame.len());
        }
        FrameDecode::Incomplete => panic!("frame of payload length {} did not decode", len),
    }
}

#[test]
fn test_round_trip_tier_boundaries() {
    for len in [0usize, 10, 125, 126, 200, 65535, 65536, 70000] {
        round_trip(len);
    }
}

#[test]
fn test_incomplete_prefix_is_reported() {
    let payload: Vec<u8> = vec![1, 2, 3, 4, 5, 6, 7, 8, 9, 10];
    let mask: [u8; 4] = [9, 9, 9, 9];
    let frame = encode_frame(OPCODE_TEXT, &payload, &mask);
    for cut in 0..frame.len() {
        match decode_frame(&frame[..cut]) {
            FrameDecode::Incomplete => {}
            FrameDecode::Complete { .. } => panic!("prefix of {} bytes decoded", cut),
        }
    }
}

#[test]
fn test_unmasked_server_frame_decodes() {
    // A server frame: FIN + text opcode, no mask bit, 5-byte payload.
    let mut frame: Vec<u8> = vec![0x81, 0x05];
    frame.extend_from_slice(b"hello");
    match decode_frame(&frame) {
        FrameDecode::Complete { opcode, payload, consumed } => {
            assert_eq!(opcode, OPCODE_TEXT);
            assert_eq!(payload, b"hello");
            assert_eq!(consumed, 7);
        }
        FrameDecode::Incomplete => panic!("server frame did not decode"),
    }
}

#[test]
fn test_control_frames() {
    let pong = control_frame(OPCODE_PONG);
    assert_eq!(pong, vec![0x80 | OPCODE_PONG, 0x80, 0, 0, 0, 0]);
    let close = control_frame(OPCODE_CLOSE);
    assert_eq!(close, vec![0x80 | OPCODE_CLOSE, 0x80, 0, 0, 0, 0]);
}

#[test]
fn test_encoded_frame_layout_small() {
    let mask: [u8; 4] = [1, 2, 3, 4];
    let frame = encode_frame(OPCODE_TEXT, b"ab", &mask);
    assert_eq!(frame[0], 0x81);
    assert_eq!(frame[1], 0x80 | 2);
    assert_eq!(&frame[2..6], &mask);
    assert_eq!(frame[6], b'a' ^ 1);
    assert_eq!(frame[7], b'b' ^ 2);
}
