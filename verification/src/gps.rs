//! Recognising the NMEA sentences of a GPS receiver that carry a position
//! fix: recommended minimum data (`$GNRMC`) and fix data (`$GNGGA`).

use vstd::prelude::*;
use crate::text::{utf8_text, str_from_utf8};

verus! {

/// Whether `needle` occurs in `hay` as a contiguous run of bytes.
pub open spec fn has_subslice(hay: Seq<u8>, needle: Seq<u8>) -> bool {
    exists|i: int| 0 <= i && i + needle.len() <= hay.len() && #[trigger] hay.subrange(i, i + needle.len()) == needle
}

/// The tag of a recommended-minimum sentence.
pub open spec fn rmc_tag() -> Seq<u8> {
    seq![0x24u8, 0x47u8, 0x4eu8, 0x52u8, 0x4du8, 0x43u8]
}

/// The tag of a fix-data sentence.
pub open spec fn gga_tag() -> Seq<u8> {
    seq![0x24u8, 0x47u8, 0x4eu8, 0x47u8, 0x47u8, 0x41u8]
}

/// Whether `needle` occurs in `hay`.
pub fn contains_subslice(hay: &[u8], needle: &[u8]) -> (r: bool)
    ensures
        r == has_subslice(hay@, needle@),
{
    if needle.len() > hay.len() {
        assert(!has_subslice(hay@, needle@));
        return false;
    }
    let mut i: usize = 0;
    while i <= hay.len() && needle.len() <= hay.len() - i
        invariant
            needle@.len() <= hay@.len(),
            i <= hay@.len() - needle@.len() + 1,
            forall|k: int| 0 <= k < i ==> #[trigger] hay@.subrange(k, k + needle@.len()) != needle@,
        decreases hay@.len() - i,
    {
        let mut j: usize = 0;
        let mut same = true;
        while j < needle.len()
            invariant
                i + needle.len() <= hay.len(),
                j <= needle@.len(),
                same == (forall|m: int| 0 <= m < j ==> hay@[i + m] == needle@[m]),
            decreases needle@.len() - j,
        {
            if hay[i + j] != needle[j] {
                same = false;
            }
            j = j + 1;
        }
        if same {
            assert(hay@.subrange(i as int, i + needle@.len()) =~= needle@);
            return true;
        }
        proof {
            let w = choose|m: int| 0 <= m < needle@.len() && hay@[i + m] != needle@[m];
            assert(hay@.subrange(i as int, i + needle@.len())[w] != needle@[w]);
        }
        i = i + 1;
    }
    assert forall|k: int| 0 <= k && k + needle@.len() <= hay@.len()
        implies #[trigger] hay@.subrange(k, k + needle@.len()) != needle@ by {
        assert(k < i);
    }
    false
}

/// Whether a block read from the GPS receiver is valid UTF-8 text holding
/// a `$GNRMC` or a `$GNGGA` sentence.
pub fn is_position_sentence(buf: &[u8]) -> (r: bool)
    ensures
        r == (utf8_text(buf@) is Some && (has_subslice(buf@, rmc_tag()) || has_subslice(buf@, gga_tag()))),
{
    let rmc: [u8; 6] = [0x24, 0x47, 0x4e, 0x52, 0x4d, 0x43];
    let gga: [u8; 6] = [0x24, 0x47, 0x4e, 0x47, 0x47, 0x41];
    assert(rmc@ =~= rmc_tag());
    assert(gga@ =~= gga_tag());
    match str_from_utf8(buf) {
        Some(_) => contains_subslice(buf, &rmc) || contains_subslice(buf, &gga),
        None => false,
    }
}

/// The ASCII bytes of a text.
pub open spec fn ascii_bytes(text: Seq<char>) -> Seq<u8> {
    text.map_values(|c: char| c as u8)
}

/// The two tags are the six-character texts `$GNRMC` and `$GNGGA`, so a
/// block is a position sentence exactly when it is valid UTF-8 and holds
/// one of those texts; a `$GNGSA`, `$GNGLL` or `$GNGNS` sentence alone is
/// not one.
pub proof fn lemma_position_tags()
    ensures
        rmc_tag().len() == 6,
        gga_tag().len() == 6,
        rmc_tag() == ascii_bytes("$GNRMC"@),
        gga_tag() == ascii_bytes("$GNGGA"@),
        rmc_tag() != ascii_bytes("$GNGSA"@),
        gga_tag() != ascii_bytes("$GNGSA"@),
        gga_tag() != ascii_bytes("$GNGLL"@),
        gga_tag() != ascii_bytes("$GNGNS"@),
{
    reveal_strlit("$GNRMC");
    reveal_strlit("$GNGGA");
    reveal_strlit("$GNGSA");
    reveal_strlit("$GNGLL");
    reveal_strlit("$GNGNS");
    assert(rmc_tag() =~= ascii_bytes("$GNRMC"@));
    assert(gga_tag() =~= ascii_bytes("$GNGGA"@));
    assert(rmc_tag()[3] != ascii_bytes("$GNGSA"@)[3]);
    assert(gga_tag()[4] != ascii_bytes("$GNGSA"@)[4]);
    assert(gga_tag()[4] != ascii_bytes("$GNGLL"@)[4]);
    assert(gga_tag()[4] != ascii_bytes("$GNGNS"@)[4]);
}

} // verus!
