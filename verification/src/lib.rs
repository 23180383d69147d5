//! The relay core of a desktop developer toolbox.
//!
//! Two kinds of socket relay are defined, started, stopped and inspected
//! here: forwarding rules, which relay TCP traffic from a local port to a
//! remote address ([`forwarder`]), and interactive sessions, which send and
//! receive raw bytes over TCP or UDP as client or as server ([`netcat`]).
//!
//! Each engine is one value that owns its registry and the runtime state of
//! whatever runs. The code that drives sockets holds no state of its own: it
//! tells the engine what it has seen, and does what the engine answers. What
//! an engine does is stated over a mathematical model of its registry, and
//! every operation is proved to do exactly that and to keep the registry
//! well formed.
//!
//! Around the engines stand the data of the toolbox features and the table
//! of well-known ports ([`toolbox`]), the places of the application's files
//! ([`storage`]), the failures that callers tell apart ([`error`]), and the
//! helpers for text, counters and the clock.

pub mod clock;
pub mod counters;
pub mod error;
pub mod forwarder;
pub mod netcat;
pub mod storage;
pub mod text;
pub mod toolbox;
