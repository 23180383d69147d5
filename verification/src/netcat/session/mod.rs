//! The runtime record of one session: the session itself, its message log,
//! its table of connected peers, and whether its loops and its sender are
//! alive. Every event that a session's loops see is handed to this record,
//! which changes its state and says which notices go to the interface.

pub mod laws;
pub mod model;
pub mod state;

pub use model::{
    Delivery, Reaction, SessionEvent, CLIENT_IDLE_SECS, DATAGRAM_BUFFER_SIZE, MESSAGE_CAP,
    SEND_QUEUE_DEPTH, STREAM_BUFFER_SIZE,
};
pub use state::{delivery_size, make_udp_client_id, SessionState};
