//! Microsecond timestamps and their four-byte (whole seconds) encoding.

use vstd::prelude::*;
use crate::be_bytes::{spec_u32_be_bytes, spec_u32_from_be, u32_to_be_bytes, u32_from_be_bytes, lemma_u32_be_roundtrip};
use crate::clock::{instant_now, instant_as_micros};

verus! {

/// Microseconds added to the clock reading (set from GPS time in the future).
pub const TIME_OFFSET: u64 = 0;

/// A point in time, in microseconds.
#[derive(Copy, Clone, Debug, PartialEq, Eq, Structural)]
pub struct Timestamp(u64);

impl View for Timestamp {
    type V = u64;

    /// The timestamp in microseconds.
    closed spec fn view(&self) -> u64 {
        self.0
    }
}

/// Whole seconds of a microsecond count, truncated to 32 bits.
pub open spec fn spec_secs(micros: u64) -> u32 {
    (micros / 1000000) as u32
}

impl Timestamp {
    /// The timestamp holding `micros` microseconds.
    pub closed spec fn spec_from_micros(micros: u64) -> Timestamp {
        Timestamp(micros)
    }

    /// The current time. What it reads depends on the clock.
    pub fn now() -> Timestamp {
        let i = instant_now();
        let micros = instant_as_micros(&i);
        Timestamp(micros + TIME_OFFSET)
    }

    /// The timestamp holding `micros` microseconds.
    pub fn from_micros(micros: u64) -> (t: Timestamp)
        ensures
            t@ == micros,
            t == Timestamp::spec_from_micros(micros),
    {
        Timestamp(micros)
    }

    /// Whole seconds, truncated to 32 bits.
    pub fn as_sec(self) -> (s: u32)
        ensures
            s == spec_secs(self@),
    {
        (self.0 / 1000000u64) as u32
    }

    /// Microseconds.
    pub fn as_micros(self) -> (m: u64)
        ensures
            m == self@,
    {
        self.0
    }

    /// The timestamp at the whole second held big-endian in `b`.
    pub fn from_bytes(b: &[u8; 4]) -> (t: Timestamp)
        ensures
            t@ == 1000000 * spec_u32_from_be(b@),
    {
        let e = u32_from_be_bytes(b) as u64;
        Timestamp(1000000 * e)
    }

    /// The whole seconds, big-endian in four bytes (sub-second part dropped).
    pub fn to_bytes(self) -> (b: [u8; 4])
        ensures
            b@ == spec_u32_be_bytes(spec_secs(self@)),
    {
        u32_to_be_bytes(self.as_sec())
    }

    /// Microseconds elapsed from `earlier` to `self`.
    pub fn micros_since(self, earlier: Timestamp) -> (d: u64)
        requires
            earlier@ <= self@,
        ensures
            d == self@ - earlier@,
    {
        self.0 - earlier.0
    }
}

/// The timestamp built from a microsecond count holds that count.
pub broadcast proof fn lemma_from_micros_view(micros: u64)
    ensures
        #[trigger] Timestamp::spec_from_micros(micros)@ == micros,
{
}

/// A timestamp is determined by its microsecond count.
pub broadcast proof fn lemma_timestamp_view_injective(a: Timestamp, b: Timestamp)
    ensures
        #![trigger a@, b@]
        a@ == b@ <==> a == b,
{
}

/// Decoding the four-byte encoding of a timestamp gives a timestamp with
/// the same whole seconds, and a whole number of seconds.
pub proof fn lemma_timestamp_bytes_roundtrip(t: Timestamp)
    ensures
        1000000 * spec_u32_from_be(spec_u32_be_bytes(spec_secs(t@))) <= u64::MAX,
        spec_secs((1000000 * spec_u32_from_be(spec_u32_be_bytes(spec_secs(t@)))) as u64)
            == spec_secs(t@),
{
    let s = spec_secs(t@);
    lemma_u32_be_roundtrip(s);
    let m = 1000000 * (s as int);
    assert(m <= u64::MAX) by (nonlinear_arith)
        requires m == 1000000 * (s as int), s <= u32::MAX;
    assert((m / 1000000) == s as int) by (nonlinear_arith)
        requires m == 1000000 * (s as int), s >= 0;
}

} // verus!
