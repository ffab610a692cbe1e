//! Lengths of time as whole nanoseconds.
//!
//! The library keeps elapsed time as a `u128` count of nanoseconds and talks
//! to callers in [`Duration`]. Verus knows nothing about `Duration`, so the
//! length of one is given a name here, and the two std functions that the
//! library calls are tied to that name without proof.

use std::time::Duration;
use vstd::prelude::*;

verus! {

/// Nanoseconds in one second.
pub const NANOS_PER_SEC: u128 = 1_000_000_000;

/// The longest time that `Duration::new` can build from whole seconds in a
/// `u64` and less than a second of nanoseconds.
pub const MAX_DURATION_NANOS: u128 = 18_446_744_073_709_551_615_999_999_999;

/// The total length of `d` in nanoseconds: what `Duration::as_nanos` returns.
pub uninterp spec fn duration_nanos(d: Duration) -> nat;

/// `Duration::as_nanos`: the total number of nanoseconds of the duration.
/// Not proved; it is what gives [`duration_nanos`] its meaning.
pub assume_specification[ Duration::as_nanos ](d: &Duration) -> (nanos: u128)
    ensures
        nanos == duration_nanos(*d),
;

/// `Duration::new`: the duration of `secs` whole seconds and `nanos`
/// nanoseconds more. With a billion nanoseconds or more std carries into the
/// seconds and panics where they overflow, so the contract leaves those
/// inputs out. Not proved.
pub assume_specification[ Duration::new ](secs: u64, nanos: u32) -> (d: Duration)
    requires
        nanos < NANOS_PER_SEC,
    ensures
        duration_nanos(d) == secs * NANOS_PER_SEC + nanos,
;

/// The length of `d` in nanoseconds.
pub fn nanos_of(d: Duration) -> (n: u128)
    ensures
        n == duration_nanos(d),
{
    d.as_nanos()
}

/// The duration that lasts `n` nanoseconds.
pub fn duration_of(n: u128) -> (d: Duration)
    requires
        n <= MAX_DURATION_NANOS,
    ensures
        duration_nanos(d) == n,
{
    let secs: u128 = n / NANOS_PER_SEC;
    let sub: u128 = n % NANOS_PER_SEC;
    Duration::new(secs as u64, sub as u32)
}

} // verus!
