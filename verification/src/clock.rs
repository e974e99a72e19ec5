//! The monotonic clock, as far as recordings need it.

use std::time::Instant;
use vstd::prelude::*;

verus! {

#[verifier::external_type_specification]
#[verifier::external_body]
pub struct ExInstant(Instant);

/// `std::time::Instant::now`: the present reading of the monotonic clock.
/// Nothing is claimed of the value.
#[verifier::external_body]
pub(crate) fn now() -> Instant {
    Instant::now()
}

/// `std::time::Instant::elapsed`, in whole milliseconds: the time that has
/// passed since `since` was read. Nothing is claimed of the value.
#[verifier::external_body]
pub(crate) fn elapsed_millis(since: &Instant) -> u64 {
    since.elapsed().as_millis() as u64
}

} // verus!
