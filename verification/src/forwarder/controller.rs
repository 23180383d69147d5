//! The runtime counters and stop flag of one running rule.

use vstd::prelude::*;

verus! {

/// The runtime state of a running rule: a stop flag, the number of open
/// connections, and the bytes relayed in each direction. The counters wrap
/// around at the end of their range.
#[derive(Debug, Clone, Copy, PartialEq, Eq, Structural)]
pub struct ForwardController {
    pub stop: bool,
    pub connections: u32,
    pub bytes_in: u64,
    pub bytes_out: u64,
}

impl ForwardController {
    /// A controller that is not stopped and has counted nothing.
    pub fn new() -> (c: Self)
        ensures
            c == (ForwardController { stop: false, connections: 0, bytes_in: 0, bytes_out: 0 }),
    {
        ForwardController { stop: false, connections: 0, bytes_in: 0, bytes_out: 0 }
    }

    /// Whether a stop was requested.
    pub fn is_stopped(&self) -> (b: bool)
        ensures
            b == self.stop,
    {
        self.stop
    }

    /// Requests a stop; the counters stay.
    pub fn stop(&mut self)
        ensures
            *final(self) == (ForwardController { stop: true, ..*old(self) }),
    {
        self.stop = true;
    }

    /// Counts one more open connection.
    pub fn inc_connections(&mut self)
        ensures
            *final(self) == (ForwardController {
                connections: if old(self).connections == u32::MAX {
                    0
                } else {
                    (old(self).connections + 1) as u32
                },
                ..*old(self)
            }),
    {
        self.connections = self.connections.wrapping_add(1);
    }

    /// Counts one open connection less.
    pub fn dec_connections(&mut self)
        ensures
            *final(self) == (ForwardController {
                connections: if old(self).connections == 0 {
                    u32::MAX
                } else {
                    (old(self).connections - 1) as u32
                },
                ..*old(self)
            }),
    {
        self.connections = self.connections.wrapping_sub(1);
    }

    /// Adds `bytes` to the bytes relayed from the remote side to the client.
    pub fn add_bytes_in(&mut self, bytes: u64)
        ensures
            *final(self) == (ForwardController {
                bytes_in: ((old(self).bytes_in + bytes) % 0x1_0000_0000_0000_0000) as u64,
                ..*old(self)
            }),
    {
        self.bytes_in = self.bytes_in.wrapping_add(bytes);
    }

    /// Adds `bytes` to the bytes relayed from the client to the remote side.
    pub fn add_bytes_out(&mut self, bytes: u64)
        ensures
            *final(self) == (ForwardController {
                bytes_out: ((old(self).bytes_out + bytes) % 0x1_0000_0000_0000_0000) as u64,
                ..*old(self)
            }),
    {
        self.bytes_out = self.bytes_out.wrapping_add(bytes);
    }

    /// The open connections and the bytes in and out, in this order.
    pub fn get_stats(&self) -> (s: (u32, u64, u64))
        ensures
            s == (self.connections, self.bytes_in, self.bytes_out),
    {
        (self.connections, self.bytes_in, self.bytes_out)
    }
}

} // verus!
