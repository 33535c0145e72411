//! The header-decompression adapter: a narrow decode interface over the
//! `hpack` crate. A HEADERS payload either decodes to an ordered list of
//! name/value pairs or fails; a failure is fatal for the connection, and no
//! partial list is ever handed out.
//!
//! Before the crate's decoder is called, a verified screen walks the HPACK
//! block framing (RFC 7541's integer encodings and string lengths, nothing
//! more: no tables, no Huffman) and rejects any payload in which a
//! dynamic-table size update carries a malformed length integer; on exactly
//! those payloads the crate's decoder panics instead of reporting an error,
//! so they must never reach it. Every other malformed payload is left to
//! the decoder, which reports it as an error.

use vstd::prelude::*;

verus! {

/// A decoded header: a name/value pair of byte sequences.
pub struct HeaderField {
    pub name: Vec<u8>,
    pub value: Vec<u8>,
}

/// The compressed representation was malformed (truncated, invalid Huffman
/// code, table index out of range, or a size update the decoder cannot
/// survive).
#[derive(Clone, Copy, Debug, PartialEq, Eq, Structural)]
pub struct DecodeError;

/// What HPACK decompression makes of a payload whose framing passes the
/// screen, starting from an empty dynamic table: the ordered name/value
/// pairs, or nothing when the payload is malformed. The result depends on
/// the payload bytes alone.
pub uninterp spec fn hpack_decoding(p: Seq<u8>) -> Option<Seq<(Seq<u8>, Seq<u8>)>>;

/// What this library makes of a HEADERS payload: the decompressed header
/// list where the framing is sound and the payload decodes, and a failure
/// otherwise. A payload the screen rejects is malformed by definition.
pub open spec fn header_block_decoding(p: Seq<u8>) -> Option<Seq<(Seq<u8>, Seq<u8>)>> {
    if hpack_block_safe(p) {
        hpack_decoding(p)
    } else {
        None
    }
}

/// The pairs a decoded header list denotes.
pub open spec fn fields_seq(fields: Seq<HeaderField>) -> Seq<(Seq<u8>, Seq<u8>)> {
    Seq::new(fields.len(), |i: int| (fields[i].name@, fields[i].value@))
}

/// The pairs of raw name/value byte vectors.
pub open spec fn pairs_seq(pairs: Seq<(Vec<u8>, Vec<u8>)>) -> Seq<(Seq<u8>, Seq<u8>)> {
    Seq::new(pairs.len(), |i: int| (pairs[i].0@, pairs[i].1@))
}

/// An HPACK prefixed integer whose prefix bits did not hold it, read from
/// continuation octets of 7 value bits each: the accumulated value and the
/// octet count on success, nothing when the buffer runs out or a fifth
/// octet still carries a continuation bit.
pub open spec fn hpack_int_cont(p: Seq<u8>, pos: int, acc: int, factor: int, total: int) -> Option<
    (int, int),
>
    decreases 5 - total,
{
    if total >= 5 || pos < 0 || pos >= p.len() {
        None
    } else {
        let b = p[pos] as int;
        let acc2 = acc + (b % 128) * factor;
        if b < 128 {
            Some((acc2, total + 1))
        } else if total + 1 >= 5 {
            None
        } else {
            hpack_int_cont(p, pos + 1, acc2, factor * 128, total + 1)
        }
    }
}

/// An HPACK prefixed integer at `pos`, with the given prefix mask (15, 31,
/// 63 or 127): its value and the octets it spans on success, nothing when
/// its encoding is malformed at that position.
pub open spec fn hpack_int_spec(p: Seq<u8>, pos: int, mask: u8) -> Option<(int, int)> {
    if pos < 0 || pos >= p.len() {
        None
    } else {
        let v0 = (p[pos] as int) % ((mask as int) + 1);
        if v0 < mask {
            Some((v0, 1))
        } else {
            hpack_int_cont(p, pos + 1, mask as int, 1, 1)
        }
    }
}

/// The octets an HPACK string at `pos` spans: its length integer (prefix 7)
/// plus that many content octets, nothing when the length is malformed or
/// overruns the buffer.
pub open spec fn hpack_string_span(p: Seq<u8>, pos: int) -> Option<int> {
    match hpack_int_spec(p, pos, 0x7F) {
        None => None,
        Some(vc) => if pos + vc.1 + vc.0 > p.len() {
            None
        } else {
            Some(vc.1 + vc.0)
        },
    }
}

/// The octets a literal header field at `pos` spans: a name index with the
/// given prefix mask, a literal name string when that index is 0, and the
/// value string.
pub open spec fn hpack_literal_span(p: Seq<u8>, pos: int, mask: u8) -> Option<int> {
    match hpack_int_spec(p, pos, mask) {
        None => None,
        Some(vc) => if vc.0 == 0 {
            match hpack_string_span(p, pos + vc.1) {
                None => None,
                Some(c2) => match hpack_string_span(p, pos + vc.1 + c2) {
                    None => None,
                    Some(c3) => Some(vc.1 + c2 + c3),
                },
            }
        } else {
            match hpack_string_span(p, pos + vc.1) {
                None => None,
                Some(c2) => Some(vc.1 + c2),
            }
        },
    }
}

/// Walks the block's fields from `pos`, as the decoder does: the leading
/// byte's top bits pick the field kind, and its integers and string lengths
/// give the span. False exactly when the walk reaches a size-update field
/// (leading bits 001) whose length integer is malformed — the decoder
/// panics there; any other malformed field ends the walk safely, since the
/// decoder stops with an error at the same place.
pub open spec fn safe_from(p: Seq<u8>, pos: int) -> bool
    decreases p.len() - pos,
{
    if pos < 0 || pos >= p.len() {
        true
    } else {
        let b = p[pos];
        if b >= 0x80 {
            match hpack_int_spec(p, pos, 0x7F) {
                None => true,
                Some(vc) => if 1 <= vc.1 && pos + vc.1 <= p.len() {
                    safe_from(p, pos + vc.1)
                } else {
                    true
                },
            }
        } else if b >= 0x40 {
            match hpack_literal_span(p, pos, 0x3F) {
                None => true,
                Some(c) => if 1 <= c && pos + c <= p.len() {
                    safe_from(p, pos + c)
                } else {
                    true
                },
            }
        } else if b >= 0x20 {
            match hpack_int_spec(p, pos, 0x1F) {
                None => false,
                Some(vc) => if 1 <= vc.1 && pos + vc.1 <= p.len() {
                    safe_from(p, pos + vc.1)
                } else {
                    true
                },
            }
        } else {
            match hpack_literal_span(p, pos, 0x0F) {
                None => true,
                Some(c) => if 1 <= c && pos + c <= p.len() {
                    safe_from(p, pos + c)
                } else {
                    true
                },
            }
        }
    }
}

/// A payload the decoder survives: its walk never reaches a size-update
/// field with a malformed length integer.
pub open spec fn hpack_block_safe(p: Seq<u8>) -> bool {
    safe_from(p, 0)
}

/// Reads one HPACK prefixed integer, by the decoder's exact rules: the
/// prefix octet's low bits, then up to four continuation octets of 7 value
/// bits each (written out one by one here, as there are never more).
fn decode_int(p: &Vec<u8>, pos: usize, mask: u8) -> (r: Option<(usize, usize)>)
    requires
        mask == 0x0F || mask == 0x1F || mask == 0x3F || mask == 0x7F,
    ensures
        match r {
            Some(vc) => hpack_int_spec(p@, pos as int, mask) == Some((vc.0 as int, vc.1 as int))
                && 1 <= vc.1 && pos + vc.1 <= p@.len(),
            None => hpack_int_spec(p@, pos as int, mask) is None,
        },
{
    proof {
        assert(p@.len() == p.len());
    }
    if pos >= p.len() {
        return None;
    }
    let b0 = p[pos];
    let v0 = b0 % (mask + 1);
    if v0 < mask {
        return Some((v0 as usize, 1));
    }
    let v0: usize = mask as usize;
    proof {
        assert(hpack_int_spec(p@, pos as int, mask) == hpack_int_cont(
            p@,
            pos as int + 1,
            mask as int,
            1,
            1,
        ));
    }
    if pos + 1 >= p.len() {
        return None;
    }
    let b1 = p[pos + 1];
    let v1: usize = v0 + (b1 % 0x80) as usize;
    if b1 < 0x80 {
        proof {
            assert(hpack_int_cont(p@, pos as int + 1, mask as int, 1, 1) == Some((v1 as int, 2int)));
        }
        return Some((v1, 2));
    }
    proof {
        assert(hpack_int_cont(p@, pos as int + 1, mask as int, 1, 1) == hpack_int_cont(
            p@,
            pos as int + 2,
            v1 as int,
            128,
            2,
        ));
    }
    if pos + 2 >= p.len() {
        return None;
    }
    let b2 = p[pos + 2];
    let v2: usize = v1 + ((b2 % 0x80) as usize) * 128;
    if b2 < 0x80 {
        proof {
            assert(hpack_int_cont(p@, pos as int + 2, v1 as int, 128, 2) == Some((v2 as int, 3int)));
        }
        return Some((v2, 3));
    }
    proof {
        assert(hpack_int_cont(p@, pos as int + 2, v1 as int, 128, 2) == hpack_int_cont(
            p@,
            pos as int + 3,
            v2 as int,
            16384,
            3,
        ));
    }
    if pos + 3 >= p.len() {
        return None;
    }
    let b3 = p[pos + 3];
    let v3: usize = v2 + ((b3 % 0x80) as usize) * 16384;
    if b3 < 0x80 {
        proof {
            assert(hpack_int_cont(p@, pos as int + 3, v2 as int, 16384, 3) == Some(
                (v3 as int, 4int),
            ));
        }
        return Some((v3, 4));
    }
    proof {
        assert(hpack_int_cont(p@, pos as int + 3, v2 as int, 16384, 3) == hpack_int_cont(
            p@,
            pos as int + 4,
            v3 as int,
            2097152,
            4,
        ));
    }
    if pos + 4 >= p.len() {
        return None;
    }
    let b4 = p[pos + 4];
    let v4: usize = v3 + ((b4 % 0x80) as usize) * 2097152;
    if b4 < 0x80 {
        proof {
            assert(hpack_int_cont(p@, pos as int + 4, v3 as int, 2097152, 4) == Some(
                (v4 as int, 5int),
            ));
        }
        return Some((v4, 5));
    }
    proof {
        assert(hpack_int_cont(p@, pos as int + 4, v3 as int, 2097152, 4) is None);
    }
    None
}

/// Reads the span of one HPACK string: its length integer, then that many
/// content octets, which must all lie within the buffer.
fn string_span_at(p: &Vec<u8>, pos: usize) -> (r: Option<usize>)
    requires
        pos <= p@.len(),
    ensures
        match r {
            Some(c) => hpack_string_span(p@, pos as int) == Some(c as int) && 1 <= c && pos + c
                <= p@.len(),
            None => hpack_string_span(p@, pos as int) is None,
        },
{
    match decode_int(p, pos, 0x7F) {
        None => None,
        Some(vc) => {
            let remaining = p.len() - pos - vc.1;
            if vc.0 > remaining {
                None
            } else {
                Some(vc.1 + vc.0)
            }
        },
    }
}

/// Reads the span of one literal header field: name index, optional
/// literal name, and value string.
fn literal_span_at(p: &Vec<u8>, pos: usize, mask: u8) -> (r: Option<usize>)
    requires
        pos <= p@.len(),
        mask == 0x0F || mask == 0x3F,
    ensures
        match r {
            Some(c) => hpack_literal_span(p@, pos as int, mask) == Some(c as int) && 1 <= c && pos
                + c <= p@.len(),
            None => hpack_literal_span(p@, pos as int, mask) is None,
        },
{
    proof {
        assert(p@.len() == p.len());
    }
    match decode_int(p, pos, mask) {
        None => None,
        Some(vc) => {
            if vc.0 == 0 {
                match string_span_at(p, pos + vc.1) {
                    None => None,
                    Some(c2) => match string_span_at(p, pos + vc.1 + c2) {
                        None => None,
                        Some(c3) => Some(vc.1 + c2 + c3),
                    },
                }
            } else {
                match string_span_at(p, pos + vc.1) {
                    None => None,
                    Some(c2) => Some(vc.1 + c2),
                }
            }
        },
    }
}

/// Walks a payload's block framing and says whether the decoder survives
/// it: false exactly when a reachable size-update field carries a
/// malformed length integer.
fn block_framing_safe(p: &Vec<u8>) -> (r: bool)
    ensures
        r == hpack_block_safe(p@),
{
    let mut pos: usize = 0;
    while pos < p.len()
        invariant
            pos <= p@.len(),
            hpack_block_safe(p@) == safe_from(p@, pos as int),
        decreases p@.len() - pos,
    {
        let b = p[pos];
        if b >= 0x80 {
            match decode_int(p, pos, 0x7F) {
                None => { return true; },
                Some(vc) => { pos = pos + vc.1; },
            }
        } else if b >= 0x40 {
            match literal_span_at(p, pos, 0x3F) {
                None => { return true; },
                Some(c) => { pos = pos + c; },
            }
        } else if b >= 0x20 {
            match decode_int(p, pos, 0x1F) {
                None => { return false; },
                Some(vc) => { pos = pos + vc.1; },
            }
        } else {
            match literal_span_at(p, pos, 0x0F) {
                None => { return true; },
                Some(c) => { pos = pos + c; },
            }
        }
    }
    true
}

#[verifier::external_type_specification]
#[verifier::external_body]
pub struct ExDecoderError(hpack::decoder::DecoderError);

/// Relies on hpack::Decoder::new and hpack::Decoder::decode: a decoder with
/// an empty dynamic table turns a header block into the ordered list of
/// name/value pairs it encodes, or reports an error on malformed input; on
/// a given payload the outcome is always the same. The decoder does not
/// return on every payload — a size-update field with a malformed length
/// integer makes it panic instead of erring — so the screened framing is
/// required, which excludes exactly those payloads.
#[verifier::external_body]
fn hpack_decode(payload: &Vec<u8>) -> (r: Result<
    Vec<(Vec<u8>, Vec<u8>)>,
    hpack::decoder::DecoderError,
>)
    requires
        hpack_block_safe(payload@),
    ensures
        match r {
            Ok(pairs) => hpack_decoding(payload@) == Some(pairs_seq(pairs@)),
            Err(_) => hpack_decoding(payload@) is None,
        },
{
    let mut decoder = hpack::Decoder::new();
    decoder.decode(payload.as_slice())
}

/// Decompresses one HEADERS frame's payload into its ordered header list.
/// Succeeds exactly when the payload is a well-formed HPACK block; on
/// failure — a rejected framing or a decode error — no partial list is
/// returned.
pub fn decode_header_block(payload: &Vec<u8>) -> (r: Result<Vec<HeaderField>, DecodeError>)
    ensures
        r is Ok <==> header_block_decoding(payload@) is Some,
        r matches Ok(fields) ==> Some(fields_seq(fields@)) == header_block_decoding(payload@),
{
    if !block_framing_safe(payload) {
        return Err(DecodeError);
    }
    match hpack_decode(payload) {
        Ok(mut pairs) => {
            let ghost all = pairs@;
            let mut fields: Vec<HeaderField> = Vec::new();
            proof {
                assert(fields_seq(fields@) + pairs_seq(pairs@) =~= pairs_seq(all));
            }
            while pairs.len() > 0
                invariant
                    fields_seq(fields@) + pairs_seq(pairs@) == pairs_seq(all),
                decreases pairs@.len(),
            {
                let (name, value) = pairs.remove(0);
                fields.push(HeaderField { name, value });
                proof {
                    assert(fields_seq(fields@) + pairs_seq(pairs@) =~= pairs_seq(all));
                }
            }
            proof {
                assert(fields_seq(fields@) =~= pairs_seq(all));
            }
            Ok(fields)
        },
        Err(_) => Err(DecodeError),
    }
}

} // verus!
