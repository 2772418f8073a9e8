//! What a call knows of its surroundings: the time, the contract's own
//! address, the sender and the funds it attached.

use vstd::prelude::*;
use crate::token::Coin;

verus! {

/// Nanoseconds in a second.
pub const NANOS_PER_SECOND: u64 = 1_000_000_000;

/// A point in time, in nanoseconds since the epoch.
#[derive(Clone, Copy, Debug, PartialEq, Eq, Structural)]
pub struct Timestamp {
    pub nanos: u64,
}

impl Timestamp {
    /// The whole seconds since the epoch.
    pub open spec fn spec_seconds(self) -> u64 {
        self.nanos / NANOS_PER_SECOND
    }

    /// The point in time `seconds` whole seconds after the epoch, or nothing
    /// where that many nanoseconds do not fit in 64 bits.
    pub fn from_seconds(seconds: u64) -> (r: Option<Timestamp>)
        ensures
            seconds * NANOS_PER_SECOND <= u64::MAX ==> r == Some(
                Timestamp { nanos: (seconds * NANOS_PER_SECOND) as u64 },
            ) && r->0.spec_seconds() == seconds,
            seconds * NANOS_PER_SECOND > u64::MAX ==> r is None,
    {
        match seconds.checked_mul(NANOS_PER_SECOND) {
            Some(nanos) => {
                assert(nanos / NANOS_PER_SECOND == seconds) by (nonlinear_arith)
                    requires
                        nanos == seconds * NANOS_PER_SECOND,
                ;
                Some(Timestamp { nanos })
            },
            None => None,
        }
    }

    /// The whole seconds since the epoch.
    #[verifier::when_used_as_spec(spec_seconds)]
    pub fn seconds(self) -> (r: u64)
        ensures
            r == self.spec_seconds(),
    {
        self.nanos / NANOS_PER_SECOND
    }
}

/// The surroundings of one call.
#[derive(Debug)]
pub struct Context {
    /// The address of the curve itself.
    pub contract_addr: String,
    /// The time of the block that holds the call.
    pub time: Timestamp,
    /// Who made the call.
    pub sender: String,
    /// The native funds sent along.
    pub funds: Vec<Coin>,
}

} // verus!
