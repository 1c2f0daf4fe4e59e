//! The clock, as far as the token reads it.
//!
//! Everything here is taken on trust from `std::time`: the type `Instant`,
//! two names for what its values and those of `Duration` measure, and the
//! three operations that the token needs.

use std::time::{Duration, Instant};
use vstd::prelude::*;

verus! {

/// `std::time::Instant`: a reading of the monotonic clock. Its inside is
/// not looked at; [`instant_nanos`] stands for what it measures.
#[verifier::external_type_specification]
#[verifier::external_body]
pub struct ExInstant(Instant);

/// The place of an instant on the clock's time line, in nanoseconds from
/// wherever the clock started counting.
pub uninterp spec fn instant_nanos(t: Instant) -> int;

/// The length of a duration in nanoseconds: what `Duration::as_nanos` gives.
pub uninterp spec fn duration_nanos(d: Duration) -> nat;

/// `Instant::now` reads the clock. Nothing is claimed of the reading.
pub assume_specification[ Instant::now ]() -> Instant;

/// `Instant::checked_add` gives the instant that lies `d` after `t`, or
/// `None` where that time is beyond what an `Instant` can hold. A duration is
/// never negative, so in that case the time is later than every instant.
pub assume_specification[ Instant::checked_add ](t: &Instant, d: Duration) -> (r: Option<Instant>)
    ensures
        match r {
            Some(sum) => instant_nanos(sum) == instant_nanos(*t) + duration_nanos(d),
            None => forall|other: Instant| #[trigger]
                instant_nanos(other) < instant_nanos(*t) + duration_nanos(d),
        },
;

/// The comparison `a > b` of `Instant`: `a` lies strictly later on the time
/// line than `b`.
#[verifier::external_body]
pub(crate) fn later(a: Instant, b: Instant) -> (r: bool)
    ensures
        r == (instant_nanos(a) > instant_nanos(b)),
{
    a > b
}

} // verus!
