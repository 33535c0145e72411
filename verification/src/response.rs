//! The response encoder: builds the outgoing HEADERS frame (END_HEADERS
//! set, a plain-text header block in this core's minimal scope) followed by
//! the DATA frame (END_STREAM set) that carries the response body, both
//! addressed to the stream that triggered them and both framed through the
//! header codec.

use vstd::prelude::*;

use crate::codec::DATA_FRAME_TYPE;
use crate::codec::FLAG_END_HEADERS;
use crate::codec::FLAG_END_STREAM;
use crate::codec::FrameHeader;
use crate::codec::HEADERS_FRAME_TYPE;
use crate::settings::ServerSettings;

verus! {

/// The plain-text header block of the canned response:
/// `:status 200 \r\ncontent-length 12\r\n\r\n`.
pub open spec fn response_header_block_spec() -> Seq<u8> {
    seq![
        0x3au8,
        0x73u8,
        0x74u8,
        0x61u8,
        0x74u8,
        0x75u8,
        0x73u8,
        0x20u8,
        0x32u8,
        0x30u8,
        0x30u8,
        0x20u8,
        0x0du8,
        0x0au8,
        0x63u8,
        0x6fu8,
        0x6eu8,
        0x74u8,
        0x65u8,
        0x6eu8,
        0x74u8,
        0x2du8,
        0x6cu8,
        0x65u8,
        0x6eu8,
        0x67u8,
        0x74u8,
        0x68u8,
        0x20u8,
        0x31u8,
        0x32u8,
        0x0du8,
        0x0au8,
        0x0du8,
        0x0au8,
    ]
}

/// The response body: `Hello, world!`.
pub open spec fn response_body_spec() -> Seq<u8> {
    seq![
        0x48u8,
        0x65u8,
        0x6cu8,
        0x6cu8,
        0x6fu8,
        0x2cu8,
        0x20u8,
        0x77u8,
        0x6fu8,
        0x72u8,
        0x6cu8,
        0x64u8,
        0x21u8,
    ]
}

/// The header of the response's HEADERS frame: END_HEADERS set, the length
/// of the plain-text block, addressed to the given stream.
pub open spec fn response_headers_header_spec(stream_id: u32) -> FrameHeader {
    FrameHeader {
        length: response_header_block_spec().len() as u32,
        type_: HEADERS_FRAME_TYPE,
        flags: FLAG_END_HEADERS,
        stream_id,
    }
}

/// The header of the response's DATA frame: END_STREAM set, the length of
/// the body, addressed to the given stream.
pub open spec fn response_data_header_spec(stream_id: u32) -> FrameHeader {
    FrameHeader {
        length: response_body_spec().len() as u32,
        type_: DATA_FRAME_TYPE,
        flags: FLAG_END_STREAM,
        stream_id,
    }
}

/// Everything the response writes, in wire order: the HEADERS frame, then
/// the DATA frame, each a 9-byte header followed by exactly `length`
/// payload bytes.
pub open spec fn response_bytes_spec(stream_id: u32) -> Seq<u8> {
    response_headers_header_spec(stream_id).encode_spec() + response_header_block_spec()
        + response_data_header_spec(stream_id).encode_spec() + response_body_spec()
}

/// Builds the full response for one stream. The settings are owned by the
/// caller for the whole exchange; this minimal encoder does not yet consult
/// them, but a flow-control-aware one would.
pub fn build_response(stream_id: u32, settings: &ServerSettings) -> (r: Vec<u8>)
    requires
        stream_id < 0x80000000,
    ensures
        r@ == response_bytes_spec(stream_id),
{
    let block: [u8; 35] = [0x3au8, 0x73, 0x74, 0x61, 0x74, 0x75, 0x73, 0x20, 0x32, 0x30, 0x30,
            0x20, 0x0d, 0x0a, 0x63, 0x6f, 0x6e, 0x74, 0x65, 0x6e, 0x74, 0x2d, 0x6c, 0x65, 0x6e,
            0x67, 0x74, 0x68, 0x20, 0x31, 0x32, 0x0d, 0x0a, 0x0d, 0x0a];
    let body: [u8; 13] = [0x48u8, 0x65, 0x6c, 0x6c, 0x6f, 0x2c, 0x20, 0x77, 0x6f, 0x72, 0x6c, 0x64,
            0x21];
    proof {
        assert(block@ =~= response_header_block_spec());
        assert(body@ =~= response_body_spec());
    }
    let headers_header = FrameHeader {
        length: 35,
        type_: HEADERS_FRAME_TYPE,
        flags: FLAG_END_HEADERS,
        stream_id,
    };
    let data_header = FrameHeader {
        length: 13,
        type_: DATA_FRAME_TYPE,
        flags: FLAG_END_STREAM,
        stream_id,
    };
    let mut out = headers_header.encode();
    out.extend_from_slice(block.as_slice());
    let mut data_bytes = data_header.encode();
    out.append(&mut data_bytes);
    out.extend_from_slice(body.as_slice());
    proof {
        assert(out@ =~= response_bytes_spec(stream_id));
    }
    out
}

} // verus!
