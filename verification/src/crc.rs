//! CRC-8 with polynomial x^8 + x^2 + x + 1 (0x07), initial value 0,
//! no reflection and no final xor (the SMBus packet error code).

use vstd::prelude::*;

verus! {

/// The generator polynomial without its leading term.
pub const CRC8_POLY: u8 = 0x07;

/// One shift of the CRC register: shift left and, when the top bit
/// falls out, reduce by the polynomial.
pub open spec fn crc8_shift(c: u8) -> u8 {
    if c & 0x80u8 != 0 {
        ((c << 1u8) ^ CRC8_POLY) as u8
    } else {
        (c << 1u8) as u8
    }
}

/// The register after `n` shifts.
pub open spec fn crc8_shifts(c: u8, n: nat) -> u8
    decreases n,
{
    if n == 0 {
        c
    } else {
        crc8_shift(crc8_shifts(c, (n - 1) as nat))
    }
}

/// Feeding one byte into the register.
pub open spec fn crc8_step(crc: u8, byte: u8) -> u8 {
    crc8_shifts(crc ^ byte, 8)
}

/// The CRC-8 of a byte sequence: the register fed with every byte in
/// order, starting from 0.
pub open spec fn spec_crc8(data: Seq<u8>) -> u8
    decreases data.len(),
{
    if data.len() == 0 {
        0
    } else {
        crc8_step(spec_crc8(data.drop_last()), data.last())
    }
}

/// Computes the CRC-8 (polynomial 0x07, initial value 0) of `data`.
pub fn crc8(data: &[u8]) -> (crc: u8)
    ensures
        crc == spec_crc8(data@),
{
    let mut crc: u8 = 0;
    let mut i: usize = 0;
    while i < data.len()
        invariant
            i <= data@.len(),
            crc == spec_crc8(data@.subrange(0, i as int)),
        decreases data.len() - i,
    {
        let byte = data[i];
        let ghost start = crc ^ byte;
        crc = crc ^ byte;
        let mut k: u8 = 0;
        while k < 8
            invariant
                k <= 8,
                crc == crc8_shifts(start, k as nat),
            decreases 8 - k,
        {
            if crc & 0x80 != 0 {
                crc = (crc << 1) ^ CRC8_POLY;
            } else {
                crc = crc << 1;
            }
            k = k + 1;
        }
        proof {
            let prefix = data@.subrange(0, i + 1);
            assert(prefix.drop_last() =~= data@.subrange(0, i as int));
            assert(prefix.last() == byte);
        }
        i = i + 1;
    }
    assert(data@.subrange(0, data@.len() as int) =~= data@);
    crc
}

/// Bytewise exclusive or of two sequences of equal length.
pub open spec fn xor_bytes(a: Seq<u8>, b: Seq<u8>) -> Seq<u8> {
    Seq::new(a.len(), |j: int| a[j] ^ b[j])
}

/// One shift of the register is linear over exclusive or.
proof fn lemma_shift_xor(a: u8, b: u8)
    ensures
        crc8_shift(a ^ b) == crc8_shift(a) ^ crc8_shift(b),
{
    let c = a ^ b;
    assert((if c & 0x80u8 != 0 { ((c << 1u8) ^ 0x07u8) as u8 } else { (c << 1u8) as u8 })
        == (if a & 0x80u8 != 0 { ((a << 1u8) ^ 0x07u8) as u8 } else { (a << 1u8) as u8 })
        ^ (if b & 0x80u8 != 0 { ((b << 1u8) ^ 0x07u8) as u8 } else { (b << 1u8) as u8 })) by (bit_vector)
        requires c == a ^ b;
}

/// Shifting never turns a nonzero register into zero, and keeps zero zero.
proof fn lemma_shift_zero(c: u8)
    ensures
        crc8_shift(c) == 0 <==> c == 0,
{
    assert((if c & 0x80u8 != 0 { ((c << 1u8) ^ 0x07u8) as u8 } else { (c << 1u8) as u8 }) == 0
        <==> c == 0) by (bit_vector);
}

proof fn lemma_shifts_xor(a: u8, b: u8, n: nat)
    ensures
        crc8_shifts(a ^ b, n) == crc8_shifts(a, n) ^ crc8_shifts(b, n),
    decreases n,
{
    if n > 0 {
        lemma_shifts_xor(a, b, (n - 1) as nat);
        lemma_shift_xor(crc8_shifts(a, (n - 1) as nat), crc8_shifts(b, (n - 1) as nat));
    }
}

proof fn lemma_shifts_zero(c: u8, n: nat)
    ensures
        crc8_shifts(c, n) == 0 <==> c == 0,
    decreases n,
{
    if n > 0 {
        lemma_shifts_zero(c, (n - 1) as nat);
        lemma_shift_zero(crc8_shifts(c, (n - 1) as nat));
    }
}

/// The CRC of a bytewise exclusive or is the exclusive or of the CRCs.
pub proof fn lemma_crc8_xor(a: Seq<u8>, b: Seq<u8>)
    requires
        a.len() == b.len(),
    ensures
        spec_crc8(xor_bytes(a, b)) == spec_crc8(a) ^ spec_crc8(b),
    decreases a.len(),
{
    if a.len() > 0 {
        let x = xor_bytes(a, b);
        assert(x.drop_last() =~= xor_bytes(a.drop_last(), b.drop_last()));
        lemma_crc8_xor(a.drop_last(), b.drop_last());
        let c1 = spec_crc8(a.drop_last());
        let c2 = spec_crc8(b.drop_last());
        let x1 = a.last();
        let x2 = b.last();
        assert((c1 ^ c2) ^ (x1 ^ x2) == (c1 ^ x1) ^ (c2 ^ x2)) by (bit_vector);
        lemma_shifts_xor(c1 ^ x1, c2 ^ x2, 8);
        assert(x.last() == x1 ^ x2);
        assert(spec_crc8(x) == crc8_step(c1 ^ c2, x1 ^ x2));
    } else {
        assert(0u8 ^ 0u8 == 0u8) by (bit_vector);
    }
}

/// The CRC of a sequence that is zero but for one nonzero byte is nonzero.
proof fn lemma_crc8_single_byte_nonzero(e: Seq<u8>, i: int)
    requires
        0 <= i < e.len(),
        e[i] != 0,
        forall|j: int| 0 <= j < e.len() && j != i ==> e[j] == 0,
    ensures
        spec_crc8(e) != 0,
    decreases e.len(),
{
    let p = e.drop_last();
    if i < e.len() - 1 {
        lemma_crc8_single_byte_nonzero(p, i);
        let c = spec_crc8(p);
        assert(c ^ 0u8 == c) by (bit_vector);
        lemma_shifts_zero(c, 8);
    } else {
        lemma_crc8_zeros(p);
        let v = e[i];
        assert(0u8 ^ v == v) by (bit_vector);
        lemma_shifts_zero(v, 8);
    }
}

/// The CRC of all-zero bytes is zero.
proof fn lemma_crc8_zeros(z: Seq<u8>)
    requires
        forall|j: int| 0 <= j < z.len() ==> z[j] == 0,
    ensures
        spec_crc8(z) == 0,
    decreases z.len(),
{
    if z.len() > 0 {
        lemma_crc8_zeros(z.drop_last());
        assert(0u8 ^ 0u8 == 0u8) by (bit_vector);
        lemma_shifts_zero(0, 8);
    }
}

/// Flipping any one bit of the data changes its CRC-8.
pub proof fn lemma_crc8_detects_single_bit_error(data: Seq<u8>, i: int, k: u8)
    requires
        0 <= i < data.len(),
        k < 8,
    ensures
        spec_crc8(data.update(i, data[i] ^ (1u8 << k))) != spec_crc8(data),
{
    let bit: u8 = 1u8 << k;
    assert(bit != 0) by (bit_vector)
        requires bit == 1u8 << k, k < 8;
    let e = Seq::new(data.len(), |j: int| if j == i { bit } else { 0u8 });
    assert forall|j: int| 0 <= j < data.len() implies #[trigger] data[j] ^ 0u8 == data[j] by {
        let d = data[j];
        assert(d ^ 0u8 == d) by (bit_vector);
    }
    assert(data.update(i, data[i] ^ bit) =~= xor_bytes(data, e));
    lemma_crc8_xor(data, e);
    lemma_crc8_single_byte_nonzero(e, i);
    let c = spec_crc8(data);
    let f = spec_crc8(e);
    assert(f != 0 ==> c ^ f != c) by (bit_vector);
}

} // verus!
