use http2_core::codec::FrameHeader;
use http2_core::codec::Http2Frame;

#[test]
fn from_bytes_decodes_all_fields() {
    let bytes: [u8; 9] = [0x00, 0x00, 0x0C, 0x01, 0x04, 0x00, 0x00, 0x00, 0x01];
    let h = FrameHeader::from_bytes(&bytes);
    assert_eq!(h.length, 12);
    assert_eq!(h.type_, 0x01);
    assert_eq!(h.flags, 0x04);
    assert_eq!(h.stream_id, 1);
}

#[test]
fn from_bytes_masks_reserved_stream_id_bit() {
    let bytes: [u8; 9] = [0x12, 0x34, 0x56, 0x07, 0xFF, 0x80, 0x00, 0x00, 0x05];
    let h = FrameHeader::from_bytes(&bytes);
    assert_eq!(h.length, 0x123456);
    assert_eq!(h.type_, 0x07);
    assert_eq!(h.flags, 0xFF);
    assert_eq!(h.stream_id, 5);
}

#[test]
fn encode_writes_big_endian_layout() {
    let h = FrameHeader { length: 0x123456, type_: 0x04, flags: 0x01, stream_id: 0x7FFFFFFF };
    let bytes = h.encode();
    assert_eq!(bytes, vec![0x12, 0x34, 0x56, 0x04, 0x01, 0x7F, 0xFF, 0xFF, 0xFF]);
}

#[test]
fn decode_then_encode_round_trips() {
    let cases: [[u8; 9]; 4] = [
        [0x00, 0x00, 0x00, 0x04, 0x00, 0x00, 0x00, 0x00, 0x00],
        [0x00, 0x00, 0x06, 0x04, 0x01, 0x00, 0x00, 0x00, 0x00],
        [0xFF, 0xFF, 0xFF, 0x99, 0xAB, 0x7F, 0xFF, 0xFF, 0xFF],
        [0x00, 0x01, 0x02, 0x08, 0x00, 0x12, 0x34, 0x56, 0x78],
    ];
    for bytes in cases.iter() {
        let h = FrameHeader::from_bytes(bytes);
        assert_eq!(h.encode(), bytes.to_vec());
    }
}

#[test]
fn encode_then_decode_round_trips() {
    let h = FrameHeader { length: 29, type_: 0x01, flags: 0x04, stream_id: 1 };
    let bytes = h.encode();
    let mut array: [u8; 9] = [0; 9];
    array.copy_from_slice(&bytes);
    let back = FrameHeader::from_bytes(&array);
    assert_eq!(back, h);
}

#[test]
fn frame_from_bytes_starts_with_empty_payload() {
    let bytes: [u8; 9] = [0x00, 0x00, 0x08, 0x07, 0x00, 0x00, 0x00, 0x00, 0x00];
    let f = Http2Frame::from_bytes(&bytes);
    assert_eq!(f.header.length, 8);
    assert_eq!(f.header.type_, 0x07);
    assert!(f.payload.is_empty());
}
