//! The connection-preface check: the first 24 bytes a client sends must
//! equal the fixed sequence `PRI * HTTP/2.0\r\n\r\nSM\r\n\r\n` byte for
//! byte; anything else ends the connection before any frame is read.

use vstd::prelude::*;

verus! {

/// The fixed 24-byte client preface `PRI * HTTP/2.0\r\n\r\nSM\r\n\r\n`.
pub open spec fn preface_spec() -> Seq<u8> {
    seq![
        0x50u8,
        0x52u8,
        0x49u8,
        0x20u8,
        0x2au8,
        0x20u8,
        0x48u8,
        0x54u8,
        0x54u8,
        0x50u8,
        0x2fu8,
        0x32u8,
        0x2eu8,
        0x30u8,
        0x0du8,
        0x0au8,
        0x0du8,
        0x0au8,
        0x53u8,
        0x4du8,
        0x0du8,
        0x0au8,
        0x0du8,
        0x0au8,
    ]
}

/// The preface as owned bytes, for writing it from a client or comparing.
pub fn preface_bytes() -> (r: Vec<u8>)
    ensures
        r@ == preface_spec(),
{
    let b: [u8; 24] = [0x50u8, 0x52, 0x49, 0x20, 0x2a, 0x20, 0x48, 0x54, 0x54, 0x50, 0x2f, 0x32,
            0x2e, 0x30, 0x0d, 0x0a, 0x0d, 0x0a, 0x53, 0x4d, 0x0d, 0x0a, 0x0d, 0x0a];
    let mut v: Vec<u8> = Vec::new();
    let mut i: usize = 0;
    while i < 24
        invariant
            i <= 24,
            b@ =~= preface_spec(),
            v@ == preface_spec().take(i as int),
        decreases 24 - i,
    {
        v.push(b[i]);
        i = i + 1;
        proof {
            assert(v@ =~= preface_spec().take(i as int));
        }
    }
    proof {
        assert(v@ =~= preface_spec());
    }
    v
}

/// Checks a buffer against the fixed 24-byte preface. True exactly when the
/// buffer equals it byte for byte; a buffer of any other length, or one that
/// differs anywhere, is rejected.
pub fn validate(buf: &Vec<u8>) -> (r: bool)
    ensures
        r == (buf@ == preface_spec()),
{
    let expected = preface_bytes();
    if buf.len() != 24 {
        return false;
    }
    let mut i: usize = 0;
    while i < 24
        invariant
            i <= 24,
            buf@.len() == 24,
            expected@ == preface_spec(),
            forall|j: int| 0 <= j < i ==> buf@[j] == preface_spec()[j],
        decreases 24 - i,
    {
        if buf[i] != expected[i] {
            proof {
                assert(buf@[i as int] != preface_spec()[i as int]);
            }
            return false;
        }
        i = i + 1;
    }
    proof {
        assert(buf@ =~= preface_spec());
    }
    true
}

/// Flipping any single byte of the preface yields a buffer that no longer
/// equals it, so `validate` rejects it.
pub proof fn lemma_preface_single_flip(i: int, x: u8)
    requires
        0 <= i < 24,
        x != preface_spec()[i],
    ensures
        preface_spec().update(i, x) != preface_spec(),
{
    assert(preface_spec().update(i, x)[i] == x);
}

} // verus!
