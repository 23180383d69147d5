//! The wall clock, read as plain numbers.

use vstd::prelude::*;

verus! {

/// A reading of the wall clock: whole seconds since the Unix epoch and the
/// nanoseconds of the second that has begun.
#[derive(Debug, Clone, Copy, PartialEq, Eq, Structural)]
pub struct ClockReading {
    pub secs: u64,
    pub subsec_nanos: u32,
}

/// Reads `std::time::SystemTime::now()` as its distance from the Unix epoch,
/// by `SystemTime::duration_since`; `None` when the clock stands before the
/// epoch. What comes back depends on the moment of the call, so nothing is
/// promised of it.
#[verifier::external_body]
pub(crate) fn read_clock() -> Option<ClockReading> {
    match std::time::SystemTime::now().duration_since(std::time::UNIX_EPOCH) {
        Ok(d) => Some(ClockReading { secs: d.as_secs(), subsec_nanos: d.subsec_nanos() }),
        Err(_) => None,
    }
}

impl ClockReading {
    /// Nanoseconds since the epoch.
    pub open spec fn spec_nanos(self) -> nat {
        (self.secs as nat) * 1_000_000_000 + self.subsec_nanos as nat
    }

    /// Milliseconds since the epoch, fractions dropped.
    pub open spec fn spec_millis(self) -> nat {
        (self.secs as nat) * 1000 + (self.subsec_nanos as nat) / 1_000_000
    }

    /// Nanoseconds since the epoch.
    pub fn nanos(self) -> (n: u128)
        ensures
            n == self.spec_nanos(),
    {
        (self.secs as u128) * 1_000_000_000u128 + (self.subsec_nanos as u128)
    }

    /// Milliseconds since the epoch, reduced to 64 bits.
    pub fn millis(self) -> (m: u64)
        ensures
            m as nat == self.spec_millis() % 0x1_0000_0000_0000_0000,
    {
        let wide: u128 = (self.secs as u128) * 1000u128 + ((self.subsec_nanos / 1_000_000) as u128);
        (wide % 0x1_0000_0000_0000_0000u128) as u64
    }
}

} // verus!
