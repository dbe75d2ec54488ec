//! Big-endian encoding of 32-bit words.

use vstd::prelude::*;

verus! {

/// The four big-endian bytes of `v`, most significant first.
pub open spec fn spec_u32_be_bytes(v: u32) -> Seq<u8> {
    seq![(v >> 24u32) as u8, (v >> 16u32) as u8, (v >> 8u32) as u8, v as u8]
}

/// The word whose big-endian bytes are `b[0..4]`.
pub open spec fn spec_u32_from_be(b: Seq<u8>) -> u32 {
    ((b[0] as u32) << 24u32) | ((b[1] as u32) << 16u32) | ((b[2] as u32) << 8u32) | (b[3] as u32)
}

/// Decoding the encoding of a word gives the word back.
pub proof fn lemma_u32_be_roundtrip(v: u32)
    ensures
        spec_u32_from_be(spec_u32_be_bytes(v)) == v,
{
    let b = spec_u32_be_bytes(v);
    let b0 = (v >> 24u32) as u8;
    let b1 = (v >> 16u32) as u8;
    let b2 = (v >> 8u32) as u8;
    let b3 = v as u8;
    assert(b[0] == b0 && b[1] == b1 && b[2] == b2 && b[3] == b3);
    assert((((b0 as u32) << 24u32) | ((b1 as u32) << 16u32) | ((b2 as u32) << 8u32) | (b3 as u32))
        == v) by (bit_vector)
        requires
            b0 == (v >> 24u32) as u8,
            b1 == (v >> 16u32) as u8,
            b2 == (v >> 8u32) as u8,
            b3 == v as u8,
    ;
}

/// Encoding the decoding of four bytes gives the bytes back.
pub proof fn lemma_u32_be_bytes_of_decoded(b: Seq<u8>)
    requires
        b.len() == 4,
    ensures
        spec_u32_be_bytes(spec_u32_from_be(b)) == b,
{
    let b0 = b[0];
    let b1 = b[1];
    let b2 = b[2];
    let b3 = b[3];
    let v = spec_u32_from_be(b);
    assert(v == ((b0 as u32) << 24u32) | ((b1 as u32) << 16u32) | ((b2 as u32) << 8u32) | (b3 as u32));
    assert((v >> 24u32) as u8 == b0 && (v >> 16u32) as u8 == b1 && (v >> 8u32) as u8 == b2
        && v as u8 == b3) by (bit_vector)
        requires
            v == ((b0 as u32) << 24u32) | ((b1 as u32) << 16u32) | ((b2 as u32) << 8u32) | (b3 as u32),
    ;
    assert(spec_u32_be_bytes(v) =~= b);
}

/// The big-endian bytes of `v`.
pub fn u32_to_be_bytes(v: u32) -> (b: [u8; 4])
    ensures
        b@ == spec_u32_be_bytes(v),
{
    let b = [(v >> 24) as u8, (v >> 16) as u8, (v >> 8) as u8, v as u8];
    assert(b@ =~= spec_u32_be_bytes(v));
    b
}

/// The word whose big-endian bytes are `b`.
pub fn u32_from_be_bytes(b: &[u8; 4]) -> (v: u32)
    ensures
        v == spec_u32_from_be(b@),
{
    ((b[0] as u32) << 24) | ((b[1] as u32) << 16) | ((b[2] as u32) << 8) | (b[3] as u32)
}

} // verus!
