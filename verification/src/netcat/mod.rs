//! Interactive sessions over TCP and UDP, as client or as server: the data
//! of a session, the encodings of payloads, the runtime record of each
//! session, and the registry through which the interface reaches them.

pub mod codec;
pub mod laws;
pub mod model;
pub mod registry;
pub mod session;
pub mod types;

pub use model::{SessionKind, DEFAULT_PAGE_LIMIT, DEFAULT_TIMEOUT_MS};
pub use registry::{
    current_timestamp, session_from_config, session_kind, timestamp_from, NetcatState, StartPlan,
};
