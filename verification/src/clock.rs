//! What this crate takes from `std::time`, and the bridge between a
//! `Duration` and a count of nanoseconds.
//!
//! Verus cannot look inside a `Duration` or an `Instant`. The two names
//! `duration_secs` and `duration_subsec_nanos` stand for the two parts of a
//! `Duration`, and `instant_gap` for the time between two clock readings; the
//! specifications below are assumed of the standard library, not proved.
//! Everything else in this file is verified against them.

use std::time::Duration;
use std::time::Instant;
use vstd::prelude::*;

verus! {

/// `std::time::Instant`, a reading of the monotonic clock. Opaque here: the
/// crate only stores one and hands it back to the standard library.
#[verifier::external_type_specification]
#[verifier::external_body]
pub struct ExInstant(Instant);

/// The whole seconds of a `Duration`: what `Duration::as_secs` returns.
pub uninterp spec fn duration_secs(d: Duration) -> u64;

/// The part of a `Duration` below one second, in nanoseconds: what
/// `Duration::subsec_nanos` returns.
pub uninterp spec fn duration_subsec_nanos(d: Duration) -> u32;

/// The time from the reading `earlier` to the reading `later`: what
/// `Instant::saturating_duration_since` returns.
pub uninterp spec fn instant_gap(later: Instant, earlier: Instant) -> Duration;

/// `Instant::now` reads the monotonic clock. Nothing is assumed of the
/// reading.
pub assume_specification[ Instant::now ]() -> (now: Instant);

/// `Instant::saturating_duration_since` measures the time from `earlier` to
/// `later`, or gives zero where `earlier` is the later of the two; it does
/// not panic. The measurement depends on the two readings alone, and
/// `instant_gap` is its name; nothing is assumed of its length.
pub assume_specification[ Instant::saturating_duration_since ](
    later: &Instant,
    earlier: Instant,
) -> (gap: Duration)
    ensures
        gap == instant_gap(*later, earlier),
;

/// `Duration::as_secs` returns the whole seconds of the duration.
pub assume_specification[ Duration::as_secs ](d: &Duration) -> (secs: u64)
    ensures
        secs == duration_secs(*d),
;

/// `Duration::subsec_nanos` returns the fractional part of the duration in
/// nanoseconds, which is always below one second.
pub assume_specification[ Duration::subsec_nanos ](d: &Duration) -> (nanos: u32)
    ensures
        nanos == duration_subsec_nanos(*d),
        nanos < 1_000_000_000,
;

/// `Duration::new` builds a duration from whole seconds and additional
/// nanoseconds. With the nanoseconds below one second nothing is carried
/// into the seconds, so the call cannot panic and the two parts come back as
/// they were given.
pub assume_specification[ Duration::new ](secs: u64, nanos: u32) -> (d: Duration)
    requires
        nanos < 1_000_000_000,
    ensures
        duration_secs(d) == secs,
        duration_subsec_nanos(d) == nanos,
;

/// Nanoseconds in one second.
pub const NANOS_PER_SEC: u128 = 1_000_000_000;

/// The longest span a `Duration` can hold, in nanoseconds: `u64::MAX` whole
/// seconds and one nanosecond short of another.
pub const MAX_SPAN_NANOS: u128 = 18_446_744_073_709_551_615_999_999_999;

/// The length of a `Duration` in nanoseconds.
pub open spec fn duration_nanos(d: Duration) -> nat {
    (duration_secs(d) as nat) * 1_000_000_000 + (duration_subsec_nanos(d) as nat)
}

/// The length of `d` in nanoseconds.
pub fn nanos_of(d: &Duration) -> (nanos: u128)
    ensures
        nanos == duration_nanos(*d),
        nanos <= MAX_SPAN_NANOS,
{
    let secs: u128 = d.as_secs() as u128;
    let subsec: u128 = d.subsec_nanos() as u128;
    secs * NANOS_PER_SEC + subsec
}

/// The `Duration` that is `nanos` nanoseconds long. The whole seconds must
/// fit a `Duration`, which `MAX_SPAN_NANOS` bounds.
pub fn duration_of(nanos: u128) -> (d: Duration)
    requires
        nanos <= MAX_SPAN_NANOS,
    ensures
        duration_nanos(d) == nanos,
{
    let secs: u64 = (nanos / NANOS_PER_SEC) as u64;
    let subsec: u32 = (nanos % NANOS_PER_SEC) as u32;
    Duration::new(secs, subsec)
}

} // verus!
