//! Points in time as plain numbers, and the time that lies between two of
//! them.

use vstd::prelude::*;
use crate::error::FetchError;

verus! {

/// Nanoseconds in one second.
pub const NANOS_PER_SEC: u32 = 1_000_000_000;

/// The farthest that a point in time lies from the origin, in nanoseconds.
pub const FARTHEST: i128 = 18_446_744_073_709_551_619_294_967_295;

/// A point in time: the nanoseconds from some fixed origin to it, counted
/// negative for a point before the origin.
#[derive(Debug, Clone, Copy, PartialEq, Eq)]
pub struct Timestamp {
    nanos: i128,
}

impl Timestamp {
    #[verifier::type_invariant]
    spec fn valid(self) -> bool {
        -FARTHEST <= self.nanos <= FARTHEST
    }

    /// The point in time as nanoseconds since the origin.
    pub closed spec fn total_nanos(self) -> int {
        self.nanos as int
    }

    /// The point in time that lies `secs` seconds and `nanos` nanoseconds
    /// after the origin.
    pub fn new(secs: u64, nanos: u32) -> (r: Timestamp)
        ensures
            r.total_nanos() == secs * NANOS_PER_SEC + nanos,
    {
        Timestamp { nanos: (secs as i128) * 1_000_000_000 + (nanos as i128) }
    }

    /// The point in time that lies `secs` seconds and `nanos` nanoseconds
    /// before the origin.
    pub fn before_origin(secs: u64, nanos: u32) -> (r: Timestamp)
        ensures
            r.total_nanos() == -(secs * NANOS_PER_SEC + nanos),
    {
        Timestamp { nanos: -((secs as i128) * 1_000_000_000 + (nanos as i128)) }
    }
}

/// The nanoseconds that have passed from `earlier` to `now`.  A point in time
/// that lies after `now` has no age: that is the error `T`.
pub fn elapsed_nanos(now: &Timestamp, earlier: &Timestamp) -> (r: Result<u128, FetchError>)
    ensures
        earlier.total_nanos() > now.total_nanos() ==> r == Err::<u128, FetchError>(FetchError::T),
        earlier.total_nanos() <= now.total_nanos() ==> (r matches Ok(elapsed) && elapsed
            == now.total_nanos() - earlier.total_nanos()),
{
    proof {
        use_type_invariant(now);
        use_type_invariant(earlier);
    }
    if earlier.nanos > now.nanos {
        Err(FetchError::T)
    } else {
        Ok((now.nanos - earlier.nanos) as u128)
    }
}

} // verus!
