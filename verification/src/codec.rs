//! The wire codec for the fixed 9-byte HTTP/2 frame header.
//!
//! Byte layout (big-endian): bytes 0-2 carry the 24-bit payload length,
//! byte 3 the frame type, byte 4 the flags, and bytes 5-8 the 32-bit
//! stream-id field whose top (reserved) bit is masked off on decode.

use vstd::prelude::*;

verus! {

pub const DATA_FRAME_TYPE: u8 = 0x00;
pub const HEADERS_FRAME_TYPE: u8 = 0x01;
pub const SETTINGS_FRAME_TYPE: u8 = 0x04;
pub const GOAWAY_FRAME_TYPE: u8 = 0x07;
pub const WINDOW_UPDATE_FRAME_TYPE: u8 = 0x08;

/// ACK flag of a SETTINGS frame.
pub const FLAG_ACK: u8 = 0x01;
/// END_STREAM flag of a DATA frame.
pub const FLAG_END_STREAM: u8 = 0x01;
/// END_HEADERS flag of a HEADERS frame.
pub const FLAG_END_HEADERS: u8 = 0x04;

/// The decoded form of the fixed 9-byte frame header.
#[derive(Clone, Copy, Debug, PartialEq, Eq, Structural)]
pub struct FrameHeader {
    /// Payload byte count; 24 bits on the wire.
    pub length: u32,
    /// Frame type tag.
    pub type_: u8,
    /// Flag bitfield; its meaning depends on `type_`.
    pub flags: u8,
    /// Stream identifier; 31 bits, the wire field's reserved top bit is
    /// never part of it.
    pub stream_id: u32,
}

impl FrameHeader {
    /// A header is well formed when `length` fits in 24 bits and
    /// `stream_id` fits in 31 bits, as the wire layout requires.
    pub open spec fn wf(self) -> bool {
        self.length < 0x1000000 && self.stream_id < 0x80000000
    }

    /// The header denoted by 9 wire bytes: big-endian length, type, flags,
    /// and the stream id with the reserved top bit masked off.
    pub open spec fn decode_spec(b: Seq<u8>) -> FrameHeader
        recommends
            b.len() == 9,
    {
        FrameHeader {
            length: (b[0] * 0x10000 + b[1] * 0x100 + b[2]) as u32,
            type_: b[3],
            flags: b[4],
            stream_id: ((b[5] % 0x80) * 0x1000000 + b[6] * 0x10000 + b[7] * 0x100 + b[8]) as u32,
        }
    }

    /// The 9 wire bytes that carry a well-formed header; the reserved top
    /// bit of the stream-id field is written as 0.
    pub open spec fn encode_spec(self) -> Seq<u8>
        recommends
            self.wf(),
    {
        seq![
            (self.length / 0x10000) as u8,
            ((self.length / 0x100) % 0x100) as u8,
            (self.length % 0x100) as u8,
            self.type_,
            self.flags,
            (self.stream_id / 0x1000000) as u8,
            ((self.stream_id / 0x10000) % 0x100) as u8,
            ((self.stream_id / 0x100) % 0x100) as u8,
            (self.stream_id % 0x100) as u8,
        ]
    }

    /// Decodes the fixed 9-byte frame header. Total: any 9 bytes yield a
    /// well-formed header.
    pub fn from_bytes(bytes: &[u8; 9]) -> (r: Self)
        ensures
            r == Self::decode_spec(bytes@),
            r.wf(),
    {
        let length: u32 = (bytes[0] as u32) * 0x10000 + (bytes[1] as u32) * 0x100 + (
        bytes[2] as u32);
        let type_: u8 = bytes[3];
        let flags: u8 = bytes[4];
        let stream_id: u32 = ((bytes[5] % 0x80) as u32) * 0x1000000 + (bytes[6] as u32) * 0x10000
            + (bytes[7] as u32) * 0x100 + (bytes[8] as u32);
        FrameHeader { length, type_, flags, stream_id }
    }

    /// Encodes a well-formed header into its 9 wire bytes, the inverse of
    /// `from_bytes`.
    pub fn encode(&self) -> (r: Vec<u8>)
        requires
            self.wf(),
        ensures
            r@ == self.encode_spec(),
            r@.len() == 9,
    {
        let mut v: Vec<u8> = Vec::new();
        v.push((self.length / 0x10000) as u8);
        v.push(((self.length / 0x100) % 0x100) as u8);
        v.push((self.length % 0x100) as u8);
        v.push(self.type_);
        v.push(self.flags);
        v.push((self.stream_id / 0x1000000) as u8);
        v.push(((self.stream_id / 0x10000) % 0x100) as u8);
        v.push(((self.stream_id / 0x100) % 0x100) as u8);
        v.push((self.stream_id % 0x100) as u8);
        proof {
            assert(v@ =~= self.encode_spec());
        }
        v
    }
}

/// Decoding 9 bytes and re-encoding the result reproduces them exactly,
/// provided the reserved top bit of the stream-id field is 0.
pub proof fn lemma_decode_encode_roundtrip(b: Seq<u8>)
    requires
        b.len() == 9,
        b[5] < 0x80,
    ensures
        FrameHeader::decode_spec(b).encode_spec() == b,
{
    let h = FrameHeader::decode_spec(b);
    assert(h.length == b[0] * 0x10000 + b[1] * 0x100 + b[2]);
    assert(h.stream_id == b[5] * 0x1000000 + b[6] * 0x10000 + b[7] * 0x100 + b[8]);
    assert(h.length / 0x10000 == b[0] && (h.length / 0x100) % 0x100 == b[1] && h.length % 0x100
        == b[2]) by (nonlinear_arith)
        requires
            h.length == b[0] * 0x10000 + b[1] * 0x100 + b[2],
            b[0] < 0x100 && b[1] < 0x100 && b[2] < 0x100,
    ;
    assert(h.stream_id / 0x1000000 == b[5] && (h.stream_id / 0x10000) % 0x100 == b[6] && (
    h.stream_id / 0x100) % 0x100 == b[7] && h.stream_id % 0x100 == b[8]) by (nonlinear_arith)
        requires
            h.stream_id == b[5] * 0x1000000 + b[6] * 0x10000 + b[7] * 0x100 + b[8],
            b[5] < 0x80 && b[6] < 0x100 && b[7] < 0x100 && b[8] < 0x100,
    ;
    assert(h.encode_spec() =~= b);
}

/// Encoding a well-formed header and decoding the 9 bytes back yields the
/// same header.
pub proof fn lemma_encode_decode_roundtrip(h: FrameHeader)
    requires
        h.wf(),
    ensures
        FrameHeader::decode_spec(h.encode_spec()) == h,
{
    let b = h.encode_spec();
    assert(b[0] == h.length / 0x10000 && b[1] == (h.length / 0x100) % 0x100 && b[2] == h.length
        % 0x100);
    assert(b[0] * 0x10000 + b[1] * 0x100 + b[2] == h.length) by (nonlinear_arith)
        requires
            b[0] == h.length / 0x10000 && b[1] == (h.length / 0x100) % 0x100 && b[2] == h.length
                % 0x100,
            h.length < 0x1000000,
    ;
    assert(b[5] % 0x80 == b[5]) by (nonlinear_arith)
        requires
            b[5] == h.stream_id / 0x1000000,
            h.stream_id < 0x80000000,
    ;
    assert((b[5] % 0x80) * 0x1000000 + b[6] * 0x10000 + b[7] * 0x100 + b[8] == h.stream_id)
        by (nonlinear_arith)
        requires
            b[5] % 0x80 == b[5],
            b[5] == h.stream_id / 0x1000000 && b[6] == (h.stream_id / 0x10000) % 0x100 && b[7] == (
            h.stream_id / 0x100) % 0x100 && b[8] == h.stream_id % 0x100,
            h.stream_id < 0x80000000,
    ;
}

/// A full frame: a header plus an owned payload whose byte count the
/// header's `length` must match before the frame may be dispatched.
pub struct Http2Frame {
    pub header: FrameHeader,
    pub payload: Vec<u8>,
}

impl Http2Frame {
    /// A frame is well formed when its header is and its payload holds
    /// exactly `length` bytes.
    pub open spec fn wf(self) -> bool {
        self.header.wf() && self.payload@.len() == self.header.length
    }

    /// Decodes a frame header from its 9 wire bytes; the payload starts
    /// empty and is filled by the transport once `length` bytes arrived.
    pub fn from_bytes(bytes: &[u8; 9]) -> (r: Self)
        ensures
            r.header == FrameHeader::decode_spec(bytes@),
            r.payload@ == Seq::<u8>::empty(),
    {
        Http2Frame { header: FrameHeader::from_bytes(bytes), payload: Vec::new() }
    }
}

} // verus!
