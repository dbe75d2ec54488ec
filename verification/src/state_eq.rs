//! Equality of states: timestamps and entities must be the same, and the
//! values must be equal as IEEE-754 singles (a NaN equals nothing, and the
//! two zeros are equal).

use vstd::prelude::*;
use vstd::std_specs::cmp::{PartialEqSpec, PartialEqSpecImpl};
use crate::state_types::State;

verus! {

/// Whether the single with bit pattern `b` is a NaN: all exponent bits
/// set and a nonzero fraction.
pub open spec fn f32_bits_is_nan(b: u32) -> bool {
    b & 0x7f80_0000u32 == 0x7f80_0000u32 && b & 0x007f_ffffu32 != 0
}

/// Whether the singles with bit patterns `a` and `b` compare equal: neither
/// is a NaN, and they have the same bits or are both zeros.
pub open spec fn f32_bits_eq(a: u32, b: u32) -> bool {
    &&& !f32_bits_is_nan(a)
    &&& !f32_bits_is_nan(b)
    &&& (a == b || (a & 0x7fff_ffffu32 == 0 && b & 0x7fff_ffffu32 == 0))
}

/// Whether the singles with bit patterns `a` and `b` compare equal.
pub fn f32_bits_equal(a: u32, b: u32) -> (r: bool)
    ensures
        r == f32_bits_eq(a, b),
{
    let a_nan = a & 0x7f80_0000 == 0x7f80_0000 && a & 0x007f_ffff != 0;
    let b_nan = b & 0x7f80_0000 == 0x7f80_0000 && b & 0x007f_ffff != 0;
    !a_nan && !b_nan && (a == b || (a & 0x7fff_ffff == 0 && b & 0x7fff_ffff == 0))
}

impl PartialEq for State {
    fn eq(&self, other: &Self) -> (r: bool) {
        self.timestamp == other.timestamp && self.entity == other.entity
            && f32_bits_equal(self.value_bits, other.value_bits)
    }
}

impl PartialEqSpecImpl for State {
    open spec fn obeys_eq_spec() -> bool {
        true
    }

    open spec fn eq_spec(&self, other: &State) -> bool {
        &&& self.timestamp == other.timestamp
        &&& self.entity == other.entity
        &&& f32_bits_eq(self.value_bits, other.value_bits)
    }
}

/// Two states are equal exactly when they were taken at the same time, of
/// the same entity, and their values are equal numbers: neither value is a
/// NaN (exponent bits all set, fraction nonzero), and the bit patterns are
/// the same or both are zeros of either sign.
pub proof fn lemma_state_eq_meaning(a: State, b: State)
    ensures
        PartialEqSpec::eq_spec(&a, &b) <==> {
            &&& a.timestamp == b.timestamp
            &&& a.entity == b.entity
            &&& !(a.value_bits & 0x7f80_0000u32 == 0x7f80_0000u32 && a.value_bits & 0x007f_ffffu32 != 0)
            &&& !(b.value_bits & 0x7f80_0000u32 == 0x7f80_0000u32 && b.value_bits & 0x007f_ffffu32 != 0)
            &&& (a.value_bits == b.value_bits || (a.value_bits & 0x7fff_ffffu32 == 0
                && b.value_bits & 0x7fff_ffffu32 == 0))
        },
        PartialEqSpec::eq_spec(&a, &b) ==> a.timestamp@ == b.timestamp@,
        PartialEqSpec::eq_spec(&a, &b) ==> PartialEqSpec::eq_spec(&b, &a),
{
}

/// A state whose value is no NaN equals itself; one whose value is a NaN
/// equals no state, itself included.
pub proof fn lemma_state_eq_reflexive_unless_nan(a: State)
    ensures
        PartialEqSpec::eq_spec(&a, &a) <==> !(a.value_bits & 0x7f80_0000u32 == 0x7f80_0000u32 && a.value_bits & 0x007f_ffffu32 != 0),
{
}

} // verus!
