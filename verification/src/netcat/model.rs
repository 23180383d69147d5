//! The mathematical model of the registry of sessions: its invariant, the
//! session that an input or a stored configuration gives, and what a send
//! comes to.

use vstd::prelude::*;
use crate::clock::ClockReading;
use crate::error::EngineError;
use crate::netcat::session::model::{
    fresh_state, next_state, notices, send_outcome, state_wf, DeliveryView, SessionEvent,
    SessionStateView,
};
use crate::netcat::types::{
    NetcatEventView, NetcatSessionConfigView, NetcatSessionInput, NetcatSessionView, Protocol,
    SendMessageInput, SessionMode, SessionStatus,
};
use crate::text::{host_port, opt_view};

verus! {

/// Milliseconds allowed for a connection where the caller names none.
pub const DEFAULT_TIMEOUT_MS: u64 = 5000;

/// Messages on a page where the caller names no limit.
pub const DEFAULT_PAGE_LIMIT: usize = 100;

/// The time of a clock reading in milliseconds since the Unix epoch,
/// reduced to 64 bits; zero for a clock that stands before the epoch.
pub open spec fn timestamp_of(reading: Option<ClockReading>) -> u64 {
    match reading {
        Some(t) => (t.spec_millis() % 0x1_0000_0000_0000_0000) as u64,
        None => 0,
    }
}

/// The four kinds of session.
#[derive(Debug, Clone, Copy, PartialEq, Eq, Structural)]
pub enum SessionKind {
    TcpClient,
    TcpServer,
    UdpClient,
    UdpServer,
}

/// The kind of a session with the protocol and the mode.
pub open spec fn kind_of(protocol: Protocol, mode: SessionMode) -> SessionKind {
    match (protocol, mode) {
        (Protocol::Tcp, SessionMode::Client) => SessionKind::TcpClient,
        (Protocol::Tcp, SessionMode::Server) => SessionKind::TcpServer,
        (Protocol::Udp, SessionMode::Client) => SessionKind::UdpClient,
        (Protocol::Udp, SessionMode::Server) => SessionKind::UdpServer,
    }
}

/// The address that a session of the kind binds: a server its own, a UDP
/// client any free port, a TCP client none.
pub open spec fn bind_addr_of(session: NetcatSessionView) -> Option<Seq<char>> {
    match kind_of(session.protocol, session.mode) {
        SessionKind::TcpClient => None,
        SessionKind::UdpClient => Some("0.0.0.0:0"@),
        _ => Some(host_port(session.host, session.port)),
    }
}

/// The address of the peer of a client session.
pub open spec fn peer_addr_of(session: NetcatSessionView) -> Option<Seq<char>> {
    match session.mode {
        SessionMode::Client => Some(host_port(session.host, session.port)),
        SessionMode::Server => None,
    }
}

/// The word for a protocol in the name of a session.
pub open spec fn protocol_word(protocol: Protocol) -> Seq<char> {
    match protocol {
        Protocol::Tcp => "TCP"@,
        Protocol::Udp => "UDP"@,
    }
}

/// The word for a mode in the name of a session.
pub open spec fn mode_word(mode: SessionMode) -> Seq<char> {
    match mode {
        SessionMode::Client => "Client"@,
        SessionMode::Server => "Server"@,
    }
}

/// The name of a session that was given none: protocol, mode and
/// `host:port`, with one space between them.
pub open spec fn default_name(
    protocol: Protocol,
    mode: SessionMode,
    host: Seq<char>,
    port: u16,
) -> Seq<char> {
    protocol_word(protocol) + seq![' '] + mode_word(mode) + seq![' '] + host_port(host, port)
}

/// The session that `input` describes, under the given id and creation time:
/// disconnected, all counters at zero, no reconnecting and five seconds to
/// connect where the input names neither.
pub open spec fn new_session(input: NetcatSessionInput, id: Seq<char>, now: u64) -> NetcatSessionView {
    NetcatSessionView {
        id,
        name: match input.name {
            Some(name) => name@,
            None => default_name(input.protocol, input.mode, input.host@, input.port),
        },
        protocol: input.protocol,
        mode: input.mode,
        host: input.host@,
        port: input.port,
        status: SessionStatus::Disconnected,
        auto_reconnect: match input.auto_reconnect {
            Some(b) => b,
            None => false,
        },
        timeout_ms: match input.timeout_ms {
            Some(t) => t,
            None => DEFAULT_TIMEOUT_MS,
        },
        created_at: now,
        connected_at: None,
        last_activity: None,
        bytes_sent: 0,
        bytes_received: 0,
        message_count: 0,
        error_message: None,
        client_count: 0,
        auto_send: None,
    }
}

/// The session that a stored configuration gives at startup: disconnected,
/// all counters at zero.
pub open spec fn restored(config: NetcatSessionConfigView) -> NetcatSessionView {
    NetcatSessionView {
        id: config.id,
        name: config.name,
        protocol: config.protocol,
        mode: config.mode,
        host: config.host,
        port: config.port,
        status: SessionStatus::Disconnected,
        auto_reconnect: config.auto_reconnect,
        timeout_ms: config.timeout_ms,
        created_at: config.created_at,
        connected_at: None,
        last_activity: None,
        bytes_sent: 0,
        bytes_received: 0,
        message_count: 0,
        error_message: None,
        client_count: 0,
        auto_send: config.auto_send,
    }
}

/// Whether some session has the id.
pub open spec fn has_session(sessions: Seq<SessionStateView>, id: Seq<char>) -> bool {
    exists|i: int| 0 <= i < sessions.len() && (#[trigger] sessions[i]).session.id == id
}

/// The place of the session with the id, where [`has_session`] holds.
pub open spec fn session_index(sessions: Seq<SessionStateView>, id: Seq<char>) -> int {
    choose|i: int| 0 <= i < sessions.len() && (#[trigger] sessions[i]).session.id == id
}

/// Whether the session `id` is there and `run` is the number of its last
/// start.
pub open spec fn run_current(sessions: Seq<SessionStateView>, id: Seq<char>, run: u64) -> bool {
    has_session(sessions, id) && sessions[session_index(sessions, id)].run == run
}

/// The ids of the sessions, in the order of the registry.
pub open spec fn session_ids(sessions: Seq<SessionStateView>) -> Seq<Seq<char>> {
    Seq::new(sessions.len(), |i: int| sessions[i].session.id)
}

/// A session has the id exactly where the id is among the ids of the
/// sessions.
pub proof fn lemma_session_ids(sessions: Seq<SessionStateView>, id: Seq<char>)
    ensures
        has_session(sessions, id) <==> session_ids(sessions).contains(id),
{
    if has_session(sessions, id) {
        let i = session_index(sessions, id);
        assert(session_ids(sessions)[i] == id);
    }
    if session_ids(sessions).contains(id) {
        let i = choose|i: int| 0 <= i < session_ids(sessions).len() && session_ids(sessions)[i] == id;
        assert(sessions[i].session.id == id);
    }
}

/// No two sessions share an id.
pub open spec fn session_ids_unique(sessions: Seq<SessionStateView>) -> bool {
    forall|i: int, j: int|
        0 <= i < j < sessions.len()
            ==> (#[trigger] sessions[i]).session.id != (#[trigger] sessions[j]).session.id
}

/// The invariant of the registry: ids are unique and every record is well
/// formed.
pub open spec fn sessions_wf(sessions: Seq<SessionStateView>) -> bool {
    &&& session_ids_unique(sessions)
    &&& forall|i: int| 0 <= i < sessions.len() ==> state_wf(#[trigger] sessions[i])
}

/// The registry after the record `s` was entered: in the place of the
/// session with its id, or at the end.
pub open spec fn put_session(sessions: Seq<SessionStateView>, s: SessionStateView) -> Seq<SessionStateView> {
    if has_session(sessions, s.session.id) {
        sessions.update(session_index(sessions, s.session.id), s)
    } else {
        sessions.push(s)
    }
}

/// The registry without the session `id`.
pub open spec fn without_session(sessions: Seq<SessionStateView>, id: Seq<char>) -> Seq<SessionStateView> {
    if has_session(sessions, id) {
        sessions.remove(session_index(sessions, id))
    } else {
        sessions
    }
}

/// The registry after stored configurations were loaded into it, each in
/// turn as a session that has not run.
pub open spec fn with_loaded(sessions: Seq<SessionStateView>, configs: Seq<NetcatSessionConfigView>) -> Seq<
    SessionStateView,
>
    decreases configs.len(),
{
    if configs.len() == 0 {
        sessions
    } else {
        put_session(with_loaded(sessions, configs.drop_last()), fresh_state(restored(configs.last())))
    }
}

/// Whether `after` and `events` are what the event brings to the session
/// `id` of `before`, at the time `now` and with `message_id` for a log entry.
pub open spec fn dispatched(
    before: Seq<SessionStateView>,
    after: Seq<SessionStateView>,
    id: Seq<char>,
    event: SessionEvent,
    now: u64,
    message_id: Seq<char>,
    events: Seq<NetcatEventView>,
) -> bool {
    let i = session_index(before, id);
    &&& after == before.update(i, next_state(before[i], event, now, message_id))
    &&& events == notices(before[i], event, now, message_id)
}

/// What a send on the registry comes to: no session with the id of the
/// input is a failure; else see [`send_outcome`], with an absent broadcast
/// flag read as unset.
pub open spec fn send_result(sessions: Seq<SessionStateView>, input: SendMessageInput) -> Result<
    DeliveryView,
    EngineError,
> {
    if !has_session(sessions, input.session_id@) {
        Err(EngineError::SessionNotFound)
    } else {
        send_outcome(
            sessions[session_index(sessions, input.session_id@)],
            input.data@,
            input.format,
            opt_view(input.target_client),
            input.broadcast == Some(true),
        )
    }
}

/// The limit of a page where the caller may have named none.
pub open spec fn page_limit(limit: Option<usize>) -> usize {
    match limit {
        Some(n) => n,
        None => DEFAULT_PAGE_LIMIT,
    }
}

/// The offset of a page where the caller may have named none.
pub open spec fn page_offset(offset: Option<usize>) -> usize {
    match offset {
        Some(n) => n,
        None => 0,
    }
}

/// Where ids are unique, the session at a place is the session that its id
/// names.
pub proof fn lemma_session_at(sessions: Seq<SessionStateView>, i: int)
    requires
        session_ids_unique(sessions),
        0 <= i < sessions.len(),
    ensures
        has_session(sessions, sessions[i].session.id),
        session_index(sessions, sessions[i].session.id) == i,
{
    let id = sessions[i].session.id;
    assert(has_session(sessions, id));
    let k = session_index(sessions, id);
    if k < i {
        assert(sessions[k].session.id != sessions[i].session.id);
    } else if i < k {
        assert(sessions[i].session.id != sessions[k].session.id);
    }
}

} // verus!
