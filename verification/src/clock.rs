//! Reading the system clock through `embassy_time`.
//!
//! What the clock reads depends on when it is read, so nothing is stated of
//! the values these items return.

use vstd::prelude::*;

verus! {

#[verifier::external_type_specification]
#[verifier::external_body]
pub struct ExInstant(embassy_time::Instant);

/// `embassy_time::Instant::now`: the current instant. Depends on the time
/// of the call; nothing is claimed of it.
#[verifier::external_body]
pub(crate) fn instant_now() -> embassy_time::Instant {
    embassy_time::Instant::now()
}

/// `embassy_time::Instant::as_micros`: microseconds since boot of an
/// instant. The scale depends on the driver's tick rate, a build setting,
/// so nothing is claimed of the value.
#[verifier::external_body]
pub(crate) fn instant_as_micros(i: &embassy_time::Instant) -> u64 {
    i.as_micros()
}

/// `embassy_time::Instant::as_secs`: whole seconds since boot of an
/// instant. The scale depends on the driver's tick rate, a build setting,
/// so nothing is claimed of the value.
#[verifier::external_body]
pub(crate) fn instant_as_secs(i: &embassy_time::Instant) -> u64 {
    i.as_secs()
}

} // verus!
