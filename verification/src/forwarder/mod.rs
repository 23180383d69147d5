//! The forwarding engine: a registry of rules that relay TCP traffic from a
//! local port to a remote address, the runtime controller of each running
//! rule, and the decisions of the accept and relay loops.
//!
//! The engine owns every rule and, for a running rule, its controller. The
//! code that drives sockets asks the engine what to do after each event and
//! tells it what was moved; it holds no state of its own about a rule.

pub mod controller;
pub mod engine;
pub mod laws;
pub mod limits;
pub mod model;

pub use controller::ForwardController;
pub use engine::{connect_result, ForwardEngine, ForwardTarget, RuleUpdate};
pub use limits::{
    CONNECT_TIMEOUT_SECS, LISTEN_BACKLOG, MAX_CONNECTIONS, POLL_INTERVAL_MS, RELAY_BUFFER_SIZE,
    STOP_GRACE_MS,
};
pub use model::{
    AcceptAction, AcceptEvent, BindOutcome, ConnectOutcome, Direction, ReadEvent, RelayAction,
};
