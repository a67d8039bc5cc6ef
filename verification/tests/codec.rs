use mirai::framing::{
    batch, compound_size, decompress_incoming, encode_outgoing, strip_marker, unbatch, Compression,
    CompressionAlgorithm, FrameError,
};
use mirai::varint::{encode_var_u32, read_var_u32};

#[test]
fn var_u32_known_encodings() {
    assert_eq!(encode_var_u32(0), vec![0x00]);
    assert_eq!(encode_var_u32(1), vec![0x01]);
    assert_eq!(encode_var_u32(127), vec![0x7f]);
    assert_eq!(encode_var_u32(128), vec![0x80, 0x01]);
    assert_eq!(encode_var_u32(300), vec![0xac, 0x02]);
    assert_eq!(encode_var_u32(u32::MAX), vec![0xff, 0xff, 0xff, 0xff, 0x0f]);
}

#[test]
fn var_u32_roundtrip_values() {
    for v in [0u32, 1, 127, 128, 255, 16_383, 16_384, 2_097_151, 2_097_152, u32::MAX] {
        let mut bytes = encode_var_u32(v);
        let len = bytes.len();
        bytes.extend_from_slice(&[0xaa, 0xbb]);
        assert_eq!(read_var_u32(&bytes), Some((v, len)));
    }
}

#[test]
fn var_u32_read_errors() {
    assert_eq!(read_var_u32(&[]), None);
    assert_eq!(read_var_u32(&[0x80]), None);
    assert_eq!(read_var_u32(&[0x80, 0x80, 0x80, 0x80, 0x80, 0x00]), None);
    // A fifth byte contributes only its low bits to a 32-bit value.
    assert_eq!(read_var_u32(&[0xff, 0xff, 0xff, 0xff, 0x7f]), Some((u32::MAX, 5)));
}

#[test]
fn batch_prefixes_length() {
    let body = vec![1u8, 2, 3];
    assert_eq!(batch(&body), vec![3, 1, 2, 3]);
    let long = vec![7u8; 200];
    let framed = batch(&long);
    assert_eq!(&framed[..2], &[0xc8, 0x01]);
    assert_eq!(unbatch(&framed), Some((200, long)));
    assert_eq!(unbatch(&[]), None);
}

#[test]
fn outgoing_without_compression() {
    let out = encode_outgoing(&[5, 6, 7], None).unwrap();
    assert_eq!(out, vec![0xfe, 5, 6, 7]);
    let stripped = strip_marker(&out).unwrap();
    assert_eq!(decompress_incoming(&stripped, false), Ok(vec![5, 6, 7]));
}

#[test]
fn outgoing_below_threshold_is_plain() {
    let settings = Compression { algorithm: CompressionAlgorithm::Flate, threshold: 10 };
    let out = encode_outgoing(&[1, 2, 3], Some(settings)).unwrap();
    assert_eq!(out, vec![0xfe, 1, 2, 3]);
}

#[test]
fn compressed_frame_roundtrip() {
    let settings = Compression { algorithm: CompressionAlgorithm::Flate, threshold: 1 };
    let packet: Vec<u8> = (0..500u32).map(|i| (i % 7) as u8).collect();
    let out = encode_outgoing(&packet, Some(settings)).unwrap();
    assert_eq!(out[0], 0xfe);
    assert_eq!(out[1], 0);
    assert_ne!(&out[2..], &packet[..]);
    let stripped = strip_marker(&out).unwrap();
    assert_eq!(decompress_incoming(&stripped, true), Ok(packet));
}

#[test]
fn incoming_errors() {
    assert_eq!(strip_marker(&[0x01, 2]), Err(FrameError::NotConnectedPacket(0x01)));
    assert_eq!(strip_marker(&[]), Err(FrameError::EmptyFrame));
    assert_eq!(decompress_incoming(&[], true), Err(FrameError::EmptyFrame));
    assert_eq!(decompress_incoming(&[], false), Ok(vec![]));
    assert_eq!(decompress_incoming(&[0xff, 9, 8], true), Ok(vec![9, 8]));
    assert_eq!(decompress_incoming(&[0x07, 1], true), Err(FrameError::UnknownCompression(7)));
    assert_eq!(decompress_incoming(&[0x01, 1], true), Err(FrameError::SnappyUnsupported));
    assert_eq!(decompress_incoming(&[0x00, 0xff, 0xff], true), Err(FrameError::DecompressionFailed));
}

#[test]
fn compound_sizes() {
    assert_eq!(compound_size(0, 10), 0);
    assert_eq!(compound_size(10, 10), 1);
    assert_eq!(compound_size(11, 10), 2);
    assert_eq!(compound_size(1400, 1464), 1);
    assert_eq!(compound_size(3000, 1464), 3);
}
