//! Length-prefixed framing of the fast transport.

use bytes::BytesMut;
use messaggero::protocol::error::CodecError;
use messaggero::transport::fast::codec::{FastCodec, MAX_FRAME_SIZE};

#[test]
fn roundtrip_through_codec() {
    let mut codec = FastCodec;
    let payload = bincode::serialize("hello").unwrap();

    let mut buf = BytesMut::new();
    codec.encode_frame(&payload, &mut buf).unwrap();

    let frame = codec.decode_frame(&mut buf).unwrap().unwrap();
    let text: String = bincode::deserialize(&frame).unwrap();
    assert_eq!(text, "hello");
    assert!(buf.is_empty());
}

#[test]
fn partial_read() {
    let mut codec = FastCodec;
    // bincode's encoding of the unit variant `Ping` (variant index 2).
    let payload = bincode::serialize(&2u32).unwrap();

    let mut buf = BytesMut::new();
    codec.encode_frame(&payload, &mut buf).unwrap();

    let full = buf.split();
    let mut partial = BytesMut::from(&full[..3]);
    assert!(codec.decode_frame(&mut partial).unwrap().is_none());
    assert_eq!(&partial[..], &full[..3]);
}

#[test]
fn frame_layout_is_big_endian_length_then_payload() {
    let mut codec = FastCodec;
    let mut buf = BytesMut::new();
    codec.encode_frame(&[7, 8, 9], &mut buf).unwrap();
    assert_eq!(&buf[..], &[0, 0, 0, 3, 7, 8, 9]);
    codec.encode_frame(&[], &mut buf).unwrap();
    assert_eq!(&buf[..], &[0, 0, 0, 3, 7, 8, 9, 0, 0, 0, 0]);
}

#[test]
fn decode_takes_one_frame_and_keeps_the_rest() {
    let mut codec = FastCodec;
    let mut buf = BytesMut::from(&[0u8, 0, 0, 2, 0xaa, 0xbb, 0, 0, 0, 1, 0xcc, 0, 0][..]);
    let first = codec.decode_frame(&mut buf).unwrap().unwrap();
    assert_eq!(&first[..], &[0xaa, 0xbb]);
    let second = codec.decode_frame(&mut buf).unwrap().unwrap();
    assert_eq!(&second[..], &[0xcc]);
    assert!(codec.decode_frame(&mut buf).unwrap().is_none());
    assert_eq!(&buf[..], &[0, 0]);
}

#[test]
fn decode_waits_for_the_whole_payload() {
    let mut codec = FastCodec;
    let mut buf = BytesMut::from(&[0u8, 0, 1, 0, 1, 2, 3][..]);
    assert!(codec.decode_frame(&mut buf).unwrap().is_none());
    assert_eq!(buf.len(), 7);
}

#[test]
fn oversized_length_field_is_refused() {
    let mut codec = FastCodec;
    // 16 MiB + 1 = 0x0100_0001.
    let mut buf = BytesMut::from(&[1u8, 0, 0, 1, 0][..]);
    match codec.decode_frame(&mut buf) {
        Err(CodecError::InvalidFrame(msg)) => {
            assert_eq!(msg, "frame too large: 16777217 bytes (max 16777216)");
        }
        other => panic!("expected InvalidFrame, got {other:?}"),
    }
    assert_eq!(buf.len(), 5);

    // Exactly the limit is accepted as a length (the frame is incomplete).
    let mut at_limit = BytesMut::from(&[1u8, 0, 0, 0][..]);
    assert!(codec.decode_frame(&mut at_limit).unwrap().is_none());
}

#[test]
fn oversized_payload_is_refused() {
    let mut codec = FastCodec;
    let data = vec![0u8; MAX_FRAME_SIZE + 1];
    let mut buf = BytesMut::from(&[5u8][..]);
    match codec.encode_frame(&data, &mut buf) {
        Err(CodecError::InvalidFrame(msg)) => {
            assert_eq!(msg, "payload too large: 16777217 bytes (max 16777216)");
        }
        other => panic!("expected InvalidFrame, got {other:?}"),
    }
    assert_eq!(&buf[..], &[5]);
}
