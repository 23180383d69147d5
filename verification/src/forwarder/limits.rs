//! The fixed numbers of the forwarding engine.

use vstd::prelude::*;

verus! {

/// How many connections one rule relays at a time; further ones wait.
pub const MAX_CONNECTIONS: u32 = 100;

/// Seconds allowed for the outbound connection of a relay.
pub const CONNECT_TIMEOUT_SECS: u64 = 10;

/// Milliseconds between two looks at the stop flag, in the accept loop and in
/// each copy loop.
pub const POLL_INTERVAL_MS: u64 = 100;

/// Bytes read at a time by a copy loop.
pub const RELAY_BUFFER_SIZE: usize = 8192;

/// Pending connections that the listener queues.
pub const LISTEN_BACKLOG: i32 = 128;

/// Milliseconds that a stop waits for its signal to be seen.
pub const STOP_GRACE_MS: u64 = 50;

} // verus!
