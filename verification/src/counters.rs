//! Counters of bytes, messages and peers.

use vstd::prelude::*;

verus! {

/// The sum of a counter and a number of bytes, wrapped to 64 bits.
pub open spec fn wrapped_sum(counter: u64, bytes: nat) -> u64 {
    ((counter as nat + bytes) % 0x1_0000_0000_0000_0000) as u64
}

/// A counter after one more was counted, wrapped to 64 bits.
pub open spec fn next_count(counter: u64) -> u64 {
    wrapped_sum(counter, 1)
}

/// A number of peers as a session tells it: exact up to the largest 32-bit
/// number, which stands for every larger one.
pub open spec fn count_of(n: nat) -> u32 {
    if n > u32::MAX {
        u32::MAX
    } else {
        n as u32
    }
}

} // verus!
