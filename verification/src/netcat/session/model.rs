//! The mathematical model of one session's runtime record: its invariant,
//! and every event of the session's loops as a function from the record
//! before to the record after and the notices that go out.

use vstd::prelude::*;
use crate::error::EngineError;
use crate::counters::{count_of, next_count, wrapped_sum};
use crate::netcat::codec::{decode_payload, display_text};
use crate::netcat::types::{
    ConnectedClientView, DataFormat, MessageDirection, NetcatEvent, NetcatEventView,
    NetcatMessageView, NetcatSessionConfigView, NetcatSessionView, Protocol, SessionMode,
    SessionStatus,
};
use crate::text::host_port;

verus! {

/// The most messages that a session's log holds; the oldest leaves first.
pub const MESSAGE_CAP: usize = 1000;

/// Bytes read at a time from a TCP stream.
pub const STREAM_BUFFER_SIZE: usize = 8192;

/// The largest datagram that is received whole.
pub const DATAGRAM_BUFFER_SIZE: usize = 65535;

/// Seconds after which a silent connection of a client is looked at again;
/// it is not closed for its silence.
pub const CLIENT_IDLE_SECS: u64 = 300;

/// Payloads that may wait for one sender.
pub const SEND_QUEUE_DEPTH: usize = 100;

/// The mathematical value of a [`SessionState`].
pub struct SessionStateView {
    pub session: NetcatSessionView,
    pub messages: Seq<NetcatMessageView>,
    pub clients: Seq<ConnectedClientView>,
    /// The number of the session's last start. The loops of a run carry its
    /// number, and what they tell of an earlier run is not taken in.
    pub run: u64,
    /// Whether the session's loops wait for a shutdown signal.
    pub shutdown_armed: bool,
    /// Whether the session has a live sender: a connection, a listener or a
    /// socket on which payloads can leave.
    pub sender_live: bool,
}

/// Whether some client has the id.
pub open spec fn has_client(clients: Seq<ConnectedClientView>, id: Seq<char>) -> bool {
    exists|i: int| 0 <= i < clients.len() && (#[trigger] clients[i]).id == id
}

/// The place of the client with the id, where [`has_client`] holds.
pub open spec fn client_index(clients: Seq<ConnectedClientView>, id: Seq<char>) -> int {
    choose|i: int| 0 <= i < clients.len() && (#[trigger] clients[i]).id == id
}

/// No two clients share an id.
pub open spec fn client_ids_unique(clients: Seq<ConnectedClientView>) -> bool {
    forall|i: int, j: int| 0 <= i < j < clients.len()
        ==> (#[trigger] clients[i]).id != (#[trigger] clients[j]).id
}

/// The table after `c` was entered: in the place of the client with its id,
/// or at the end.
pub open spec fn put_client(
    clients: Seq<ConnectedClientView>,
    c: ConnectedClientView,
) -> Seq<ConnectedClientView> {
    if has_client(clients, c.id) {
        clients.update(client_index(clients, c.id), c)
    } else {
        clients.push(c)
    }
}

/// The table without the client `id`.
pub open spec fn without_client(
    clients: Seq<ConnectedClientView>,
    id: Seq<char>,
) -> Seq<ConnectedClientView> {
    if has_client(clients, id) {
        clients.remove(client_index(clients, id))
    } else {
        clients
    }
}

/// The log after `m` was appended: the oldest message leaves where the log
/// would grow beyond [`MESSAGE_CAP`].
pub open spec fn logged(messages: Seq<NetcatMessageView>, m: NetcatMessageView) -> Seq<NetcatMessageView> {
    if messages.len() + 1 > MESSAGE_CAP {
        messages.push(m).skip(1)
    } else {
        messages.push(m)
    }
}

/// The invariant of a session's record: client ids are unique, the session
/// tells the number of its clients, and the log is within its cap.
///
/// The table of clients has no cap of its own: a server takes every peer
/// that connects, and a UDP server every address that sends.
pub open spec fn state_wf(s: SessionStateView) -> bool {
    &&& client_ids_unique(s.clients)
    &&& s.session.client_count == count_of(s.clients.len())
    &&& s.messages.len() <= MESSAGE_CAP
}

/// The record of a session that has no log, no clients and no loops yet.
pub open spec fn fresh_state(session: NetcatSessionView) -> SessionStateView {
    SessionStateView {
        session: NetcatSessionView { client_count: 0, ..session },
        messages: Seq::empty(),
        clients: Seq::empty(),
        run: 0,
        shutdown_armed: false,
        sender_live: false,
    }
}

/// The record after its status was set: the error message is replaced, and
/// a session that is disconnected or in error waits for no shutdown signal.
pub open spec fn with_status(
    s: SessionStateView,
    status: SessionStatus,
    error: Option<Seq<char>>,
) -> SessionStateView {
    SessionStateView {
        session: NetcatSessionView { status, error_message: error, ..s.session },
        shutdown_armed: if status == SessionStatus::Disconnected || status == SessionStatus::Error {
            false
        } else {
            s.shutdown_armed
        },
        ..s
    }
}

/// The notice of a status and its error message.
pub open spec fn status_event(
    s: SessionStateView,
    status: SessionStatus,
    error: Option<Seq<char>>,
) -> NetcatEventView {
    NetcatEventView::StatusChanged { session_id: s.session.id, status, error }
}

/// Whether the session is a TCP server.
pub open spec fn is_tcp_server(s: SessionStateView) -> bool {
    s.session.protocol == Protocol::Tcp && s.session.mode == SessionMode::Server
}

/// The number of the run after the run `run`.
pub open spec fn run_after(run: u64) -> u64 {
    if run == u64::MAX {
        0
    } else {
        (run + 1) as u64
    }
}

/// The record after a start: the next run begins. The session is connecting
/// and free of error; it has no sender yet and waits for no shutdown signal;
/// a TCP server begins without clients.
pub open spec fn after_start(s: SessionStateView) -> SessionStateView {
    let session = NetcatSessionView { status: SessionStatus::Connecting, error_message: None, ..s.session };
    SessionStateView {
        session: if is_tcp_server(s) {
            NetcatSessionView { client_count: 0, ..session }
        } else {
            session
        },
        clients: if is_tcp_server(s) {
            Seq::empty()
        } else {
            s.clients
        },
        run: run_after(s.run),
        shutdown_armed: false,
        sender_live: false,
        ..s
    }
}

/// The status of a session whose connection, listener or socket stands.
pub open spec fn open_status(protocol: Protocol, mode: SessionMode) -> SessionStatus {
    match mode {
        SessionMode::Client => SessionStatus::Connected,
        SessionMode::Server => SessionStatus::Listening,
    }
}

/// The record after the session's connection, listener or socket was
/// opened at the time `now`: its loops wait for a shutdown signal and its
/// sender is alive. A TCP client is connected, active and free of error; a
/// TCP server listens; a UDP session is connected or listens, and is active.
pub open spec fn after_open(s: SessionStateView, now: u64) -> SessionStateView {
    let session = s.session;
    let opened = if session.protocol == Protocol::Tcp && session.mode == SessionMode::Client {
        NetcatSessionView {
            status: SessionStatus::Connected,
            connected_at: Some(now),
            last_activity: Some(now),
            error_message: None,
            ..session
        }
    } else if session.protocol == Protocol::Tcp {
        NetcatSessionView { status: SessionStatus::Listening, connected_at: Some(now), ..session }
    } else {
        NetcatSessionView {
            status: open_status(session.protocol, session.mode),
            connected_at: Some(now),
            last_activity: Some(now),
            ..session
        }
    };
    SessionStateView { session: opened, shutdown_armed: true, sender_live: true, ..s }
}

/// The record after the session's loop has ended: the sender is gone. A TCP
/// client changes nothing else; a TCP server is disconnected and has no
/// clients; a UDP session is disconnected.
pub open spec fn after_close(s: SessionStateView) -> SessionStateView {
    let session = s.session;
    if session.protocol == Protocol::Tcp && session.mode == SessionMode::Client {
        SessionStateView { sender_live: false, ..s }
    } else if session.protocol == Protocol::Tcp {
        SessionStateView {
            session: NetcatSessionView { status: SessionStatus::Disconnected, client_count: 0, ..session },
            clients: Seq::empty(),
            sender_live: false,
            ..s
        }
    } else {
        SessionStateView {
            session: NetcatSessionView { status: SessionStatus::Disconnected, ..session },
            sender_live: false,
            ..s
        }
    }
}

/// The record after a stop: disconnected, free of error, without a sender
/// and without a pending shutdown signal.
pub open spec fn after_stop(s: SessionStateView) -> SessionStateView {
    SessionStateView {
        session: NetcatSessionView { status: SessionStatus::Disconnected, error_message: None, ..s.session },
        shutdown_armed: false,
        sender_live: false,
        ..s
    }
}

/// The session after `n` bytes arrived in one message at the time `now`.
pub open spec fn counted_receipt(session: NetcatSessionView, n: nat, now: u64) -> NetcatSessionView {
    NetcatSessionView {
        bytes_received: wrapped_sum(session.bytes_received, n),
        message_count: next_count(session.message_count),
        last_activity: Some(now),
        ..session
    }
}

/// A client after `n` bytes arrived from it at the time `now`.
pub open spec fn client_received(c: ConnectedClientView, n: nat, now: u64) -> ConnectedClientView {
    ConnectedClientView { bytes_received: wrapped_sum(c.bytes_received, n), last_activity: now, ..c }
}

/// A client after `n` bytes were written to it at the time `now`.
pub open spec fn client_sent(c: ConnectedClientView, n: nat, now: u64) -> ConnectedClientView {
    ConnectedClientView { bytes_sent: wrapped_sum(c.bytes_sent, n), last_activity: now, ..c }
}

/// A client that has just connected.
pub open spec fn new_client(id: Seq<char>, addr: Seq<char>, now: u64, received: u64) -> ConnectedClientView {
    ConnectedClientView { id, addr, connected_at: now, last_activity: now, bytes_sent: 0,
        bytes_received: received }
}

/// The log entry of bytes that arrived: the payload as it is shown, the
/// number of its bytes, and the peer it came from.
pub open spec fn received_message(
    session_id: Seq<char>,
    data: Seq<u8>,
    client_id: Option<Seq<char>>,
    client_addr: Option<Seq<char>>,
    now: u64,
    id: Seq<char>,
) -> NetcatMessageView {
    NetcatMessageView {
        id,
        session_id,
        direction: MessageDirection::Received,
        data: display_text(data),
        format: DataFormat::Text,
        size: data.len() as usize,
        timestamp: now,
        client_id,
        client_addr,
    }
}

/// The table after `n` bytes arrived from the client `id`, if it is there.
pub open spec fn clients_after_receipt(
    clients: Seq<ConnectedClientView>,
    id: Option<Seq<char>>,
    n: nat,
    now: u64,
) -> Seq<ConnectedClientView> {
    if id is Some && has_client(clients, id->0) {
        let i = client_index(clients, id->0);
        clients.update(i, client_received(clients[i], n, now))
    } else {
        clients
    }
}

/// The record after bytes arrived on a TCP connection: the session counts
/// them, the client they came from counts them, and the log gains their
/// entry.
pub open spec fn after_receive(
    s: SessionStateView,
    data: Seq<u8>,
    client_id: Option<Seq<char>>,
    client_addr: Option<Seq<char>>,
    now: u64,
    id: Seq<char>,
) -> SessionStateView {
    SessionStateView {
        session: counted_receipt(s.session, data.len(), now),
        messages: logged(s.messages, received_message(s.session.id, data, client_id, client_addr, now, id)),
        clients: clients_after_receipt(s.clients, client_id, data.len(), now),
        ..s
    }
}

/// The notice of a received message.
pub open spec fn message_event(session_id: Seq<char>, message: NetcatMessageView) -> NetcatEventView {
    NetcatEventView::MessageReceived { session_id, message }
}

/// An address with every `:` and `.` replaced by `-`.
pub open spec fn dashed(addr: Seq<char>) -> Seq<char> {
    Seq::new(addr.len(), |i: int| if addr[i] == ':' || addr[i] == '.' { '-' } else { addr[i] })
}

/// The id under which a UDP peer is known: `udp-` and its dashed address.
pub open spec fn udp_client_id(addr: Seq<char>) -> Seq<char> {
    "udp-"@ + dashed(addr)
}

/// The table of a UDP session after a datagram of `n` bytes came from `from`:
/// a server enters a peer that it has not seen, and counts for one that it
/// has; a client keeps no table.
pub open spec fn clients_after_datagram(s: SessionStateView, from: Seq<char>, n: nat, now: u64) -> Seq<
    ConnectedClientView,
> {
    let cid = udp_client_id(from);
    if s.session.mode != SessionMode::Server {
        s.clients
    } else if has_client(s.clients, cid) {
        let i = client_index(s.clients, cid);
        s.clients.update(i, client_received(s.clients[i], n, now))
    } else {
        s.clients.push(new_client(cid, from, now, wrapped_sum(0, n)))
    }
}

/// The peer id that the log entry of a datagram carries.
pub open spec fn datagram_client_id(s: SessionStateView, from: Seq<char>) -> Option<Seq<char>> {
    if s.session.mode == SessionMode::Server {
        Some(udp_client_id(from))
    } else {
        None
    }
}

/// The record after a datagram arrived.
pub open spec fn after_datagram(
    s: SessionStateView,
    data: Seq<u8>,
    from: Seq<char>,
    now: u64,
    id: Seq<char>,
) -> SessionStateView {
    let clients = clients_after_datagram(s, from, data.len(), now);
    SessionStateView {
        session: NetcatSessionView {
            client_count: count_of(clients.len()),
            ..counted_receipt(s.session, data.len(), now)
        },
        messages: logged(
            s.messages,
            received_message(s.session.id, data, datagram_client_id(s, from), Some(from), now, id),
        ),
        clients,
        ..s
    }
}

/// The notices after a datagram arrived: that of a peer not seen before, if
/// the sender is one, then that of the message.
pub open spec fn datagram_events(
    s: SessionStateView,
    data: Seq<u8>,
    from: Seq<char>,
    now: u64,
    id: Seq<char>,
) -> Seq<NetcatEventView> {
    let message = message_event(
        s.session.id,
        received_message(s.session.id, data, datagram_client_id(s, from), Some(from), now, id),
    );
    if s.session.mode == SessionMode::Server && !has_client(s.clients, udp_client_id(from)) {
        seq![
            NetcatEventView::ClientConnected {
                session_id: s.session.id,
                client: new_client(udp_client_id(from), from, now, wrapped_sum(0, data.len())),
            },
            message,
        ]
    } else {
        seq![message]
    }
}

/// The record after bytes arrived from a peer. A UDP session takes them in
/// as a datagram from the peer's address; every other session takes them in
/// as bytes on a connection.
pub open spec fn after_data(
    s: SessionStateView,
    data: Seq<u8>,
    client_id: Option<Seq<char>>,
    client_addr: Option<Seq<char>>,
    now: u64,
    id: Seq<char>,
) -> SessionStateView {
    if s.session.protocol == Protocol::Udp && client_addr is Some {
        after_datagram(s, data, client_addr->0, now, id)
    } else {
        after_receive(s, data, client_id, client_addr, now, id)
    }
}

/// The notices after bytes arrived from a peer: those of a datagram for a
/// UDP session, else that of the message.
pub open spec fn data_events(
    s: SessionStateView,
    data: Seq<u8>,
    client_id: Option<Seq<char>>,
    client_addr: Option<Seq<char>>,
    now: u64,
    id: Seq<char>,
) -> Seq<NetcatEventView> {
    if s.session.protocol == Protocol::Udp && client_addr is Some {
        datagram_events(s, data, client_addr->0, now, id)
    } else {
        seq![message_event(s.session.id, received_message(s.session.id, data, client_id, client_addr,
            now, id))]
    }
}

/// The record after a client was entered into the table.
pub open spec fn after_client_connected(s: SessionStateView, c: ConnectedClientView) -> SessionStateView {
    let clients = put_client(s.clients, c);
    SessionStateView {
        session: NetcatSessionView { client_count: count_of(clients.len()), ..s.session },
        clients,
        ..s
    }
}

/// The record after the client `id` was taken out of the table.
pub open spec fn after_client_gone(s: SessionStateView, id: Seq<char>) -> SessionStateView {
    let clients = without_client(s.clients, id);
    SessionStateView {
        session: NetcatSessionView { client_count: count_of(clients.len()), ..s.session },
        clients,
        ..s
    }
}

/// The record after `n` bytes left on the session's own connection or
/// socket at the time `now`.
pub open spec fn after_sent(s: SessionStateView, n: nat, now: u64) -> SessionStateView {
    SessionStateView {
        session: NetcatSessionView {
            bytes_sent: wrapped_sum(s.session.bytes_sent, n),
            last_activity: Some(now),
            ..s.session
        },
        ..s
    }
}

/// The record after `n` bytes were written to the client `id` of a server
/// session at the time `now`.
pub open spec fn after_client_sent(s: SessionStateView, id: Seq<char>, n: nat, now: u64) -> SessionStateView {
    SessionStateView {
        session: NetcatSessionView { bytes_sent: wrapped_sum(s.session.bytes_sent, n), ..s.session },
        clients: if has_client(s.clients, id) {
            let i = client_index(s.clients, id);
            s.clients.update(i, client_sent(s.clients[i], n, now))
        } else {
            s.clients
        },
        ..s
    }
}

/// What is to be done with an outgoing payload.
#[derive(Debug)]
pub enum Delivery {
    /// Write it on the session's own connection.
    Direct { bytes: Vec<u8> },
    /// Write it to one client of the server.
    ToClient { client_id: String, bytes: Vec<u8> },
    /// Write it to each of these clients of the server.
    Broadcast { client_ids: Vec<String>, bytes: Vec<u8> },
    /// Send it as one datagram to the address.
    Datagram { address: String, bytes: Vec<u8> },
}

/// The mathematical value of a [`Delivery`].
pub enum DeliveryView {
    Direct { bytes: Seq<u8> },
    ToClient { client_id: Seq<char>, bytes: Seq<u8> },
    Broadcast { client_ids: Seq<Seq<char>>, bytes: Seq<u8> },
    Datagram { address: Seq<char>, bytes: Seq<u8> },
}

impl View for Delivery {
    type V = DeliveryView;

    open spec fn view(&self) -> DeliveryView {
        match *self {
            Delivery::Direct { bytes } => DeliveryView::Direct { bytes: bytes@ },
            Delivery::ToClient { client_id, bytes } => DeliveryView::ToClient { client_id: client_id@,
                bytes: bytes@ },
            Delivery::Broadcast { client_ids, bytes } => DeliveryView::Broadcast {
                client_ids: Seq::new(client_ids@.len(), |i: int| client_ids@[i]@),
                bytes: bytes@,
            },
            Delivery::Datagram { address, bytes } => DeliveryView::Datagram { address: address@,
                bytes: bytes@ },
        }
    }
}

/// The ids of the clients, in the order of the table.
pub open spec fn client_ids(clients: Seq<ConnectedClientView>) -> Seq<Seq<char>> {
    Seq::new(clients.len(), |i: int| clients[i].id)
}

/// Where a payload of a session goes, or why it goes nowhere.
///
/// A TCP client writes on its connection. A TCP server writes to every
/// client when asked to broadcast, else to the client that was named; with
/// neither it has no target. A UDP session sends to the address that was
/// named; without one a client sends to its own peer, and a server has no
/// target. Where the session has no live sender, or the server not the
/// client that was named, or a broadcast no client at all, the payload goes
/// nowhere.
pub open spec fn route(
    s: SessionStateView,
    target: Option<Seq<char>>,
    broadcast: bool,
    bytes: Seq<u8>,
) -> Result<DeliveryView, EngineError> {
    let session = s.session;
    if session.protocol == Protocol::Tcp && session.mode == SessionMode::Client {
        if s.sender_live {
            Ok(DeliveryView::Direct { bytes })
        } else {
            Err(EngineError::NotConnected)
        }
    } else if session.protocol == Protocol::Tcp {
        if broadcast {
            if !s.sender_live {
                Err(EngineError::NotConnected)
            } else if s.clients.len() == 0 {
                Err(EngineError::NoClients)
            } else {
                Ok(DeliveryView::Broadcast { client_ids: client_ids(s.clients), bytes })
            }
        } else if target is Some {
            if !s.sender_live {
                Err(EngineError::NotConnected)
            } else if !has_client(s.clients, target->0) {
                Err(EngineError::ClientNotFound)
            } else {
                Ok(DeliveryView::ToClient { client_id: target->0, bytes })
            }
        } else {
            Err(EngineError::NoTarget)
        }
    } else {
        if !s.sender_live {
            Err(EngineError::NotConnected)
        } else if target is Some {
            Ok(DeliveryView::Datagram { address: target->0, bytes })
        } else if session.mode == SessionMode::Client {
            Ok(DeliveryView::Datagram { address: host_port(session.host, session.port), bytes })
        } else {
            Err(EngineError::NoTarget)
        }
    }
}

/// What a send comes to: the payload is decoded first, then routed.
pub open spec fn send_outcome(
    s: SessionStateView,
    data: Seq<char>,
    format: DataFormat,
    target: Option<Seq<char>>,
    broadcast: bool,
) -> Result<DeliveryView, EngineError> {
    match decode_payload(data, format) {
        Ok(bytes) => route(s, target, broadcast, bytes),
        Err(e) => Err(e),
    }
}

/// The log entry of a payload that was sent: the text as the caller gave
/// it, its format, and the number of bytes that it stands for.
pub open spec fn sent_message(
    session_id: Seq<char>,
    data: Seq<char>,
    format: DataFormat,
    size: nat,
    target: Option<Seq<char>>,
    now: u64,
    id: Seq<char>,
) -> NetcatMessageView {
    NetcatMessageView {
        id,
        session_id,
        direction: MessageDirection::Sent,
        data,
        format,
        size: size as usize,
        timestamp: now,
        client_id: target,
        client_addr: None,
    }
}

/// The record after a sent payload was logged at the time `now`.
pub open spec fn after_send(s: SessionStateView, message: NetcatMessageView, now: u64) -> SessionStateView {
    SessionStateView {
        session: NetcatSessionView {
            message_count: next_count(s.session.message_count),
            last_activity: Some(now),
            ..s.session
        },
        messages: logged(s.messages, message),
        ..s
    }
}

/// The bytes of a delivery.
pub open spec fn delivery_bytes(d: DeliveryView) -> Seq<u8> {
    match d {
        DeliveryView::Direct { bytes } => bytes,
        DeliveryView::ToClient { bytes, .. } => bytes,
        DeliveryView::Broadcast { bytes, .. } => bytes,
        DeliveryView::Datagram { bytes, .. } => bytes,
    }
}

/// The messages of a log that a page shows: the newest first, `offset` of
/// them passed over, at most `limit` of them taken.
pub open spec fn page(messages: Seq<NetcatMessageView>, limit: nat, offset: nat) -> Seq<NetcatMessageView> {
    let left: nat = if offset >= messages.len() {
        0
    } else {
        (messages.len() - offset) as nat
    };
    let count: nat = if limit < left {
        limit
    } else {
        left
    };
    Seq::new(count, |k: int| messages[messages.len() - 1 - offset - k])
}

/// The part of a session that is kept across restarts.
pub open spec fn config_of(session: NetcatSessionView) -> NetcatSessionConfigView {
    NetcatSessionConfigView {
        id: session.id,
        name: session.name,
        protocol: session.protocol,
        mode: session.mode,
        host: session.host,
        port: session.port,
        auto_reconnect: session.auto_reconnect,
        timeout_ms: session.timeout_ms,
        created_at: session.created_at,
        auto_send: session.auto_send,
    }
}

/// Something that the code driving a session's sockets has seen or done.
#[derive(Debug)]
pub enum SessionEvent {
    /// The connection, listener or socket stands.
    Opened,
    /// Connecting or binding failed, with this message.
    OpenFailed(String),
    /// The shutdown signal reached the session's loop.
    Shutdown,
    /// A read on the connection of a TCP client returned these bytes; none
    /// means that the peer closed the connection.
    Data(Vec<u8>),
    /// A read on the connection of a TCP client failed, with this message.
    ReadFailed(String),
    /// A client connected to the server.
    ClientConnected { client_id: String, addr: String },
    /// A read on a client's connection returned these bytes; none means
    /// that the client closed the connection.
    ClientData { client_id: String, addr: String, bytes: Vec<u8> },
    /// A read on a client's connection failed.
    ClientReadFailed { client_id: String },
    /// A datagram arrived.
    Datagram { from: String, bytes: Vec<u8> },
    /// This many bytes were written on the session's connection or socket.
    Sent(usize),
    /// This many bytes were written to a client of the server.
    ClientSent { client_id: String, bytes: usize },
    /// A write on the session's connection failed.
    SendFailed,
    /// Accepting a client or receiving a datagram failed; the loop goes on.
    Glitch,
}

/// What follows from an event: whether the loop that saw it goes on, and
/// the notices for the interface.
#[derive(Debug)]
pub struct Reaction {
    pub proceed: bool,
    pub events: Vec<NetcatEvent>,
}

/// The views of a list of notices.
pub open spec fn events_view(events: Seq<NetcatEvent>) -> Seq<NetcatEventView> {
    Seq::new(events.len(), |i: int| events[i]@)
}

/// The record after an event at the time `now`; `id` is the id of the log
/// entry that the event may bring.
///
/// The end of a TCP client's stream, by the peer or by a failure, sets the
/// status and ends the loop, which takes the sender with it. The end of a
/// client's stream on a server takes the client out of the table.
pub open spec fn next_state(
    s: SessionStateView,
    event: SessionEvent,
    now: u64,
    id: Seq<char>,
) -> SessionStateView {
    match event {
        SessionEvent::Opened => after_open(s, now),
        SessionEvent::OpenFailed(message) => with_status(s, SessionStatus::Error, Some(message@)),
        SessionEvent::Shutdown => after_close(s),
        SessionEvent::Data(bytes) => if bytes@.len() == 0 {
            after_close(with_status(s, SessionStatus::Disconnected, None))
        } else {
            after_receive(s, bytes@, None, None, now, id)
        },
        SessionEvent::ReadFailed(message) => after_close(with_status(s, SessionStatus::Error,
            Some(message@))),
        SessionEvent::ClientConnected { client_id, addr } => after_client_connected(
            s,
            new_client(client_id@, addr@, now, 0),
        ),
        SessionEvent::ClientData { client_id, addr, bytes } => if bytes@.len() == 0 {
            after_client_gone(s, client_id@)
        } else {
            after_receive(s, bytes@, Some(client_id@), Some(addr@), now, id)
        },
        SessionEvent::ClientReadFailed { client_id } => after_client_gone(s, client_id@),
        SessionEvent::Datagram { from, bytes } => after_datagram(s, bytes@, from@, now, id),
        SessionEvent::Sent(n) => after_sent(s, n as nat, now),
        SessionEvent::ClientSent { client_id, bytes } => after_client_sent(s, client_id@, bytes as nat, now),
        SessionEvent::SendFailed => SessionStateView { sender_live: false, ..s },
        SessionEvent::Glitch => s,
    }
}

/// Whether the loop that saw the event goes on: it ends with a shutdown
/// signal, with the end of its stream, with a failed read or write, and
/// where connecting or binding failed.
pub open spec fn proceeds(event: SessionEvent) -> bool {
    match event {
        SessionEvent::OpenFailed(_) => false,
        SessionEvent::Shutdown => false,
        SessionEvent::Data(bytes) => bytes@.len() > 0,
        SessionEvent::ReadFailed(_) => false,
        SessionEvent::ClientData { bytes, .. } => bytes@.len() > 0,
        SessionEvent::ClientReadFailed { .. } => false,
        SessionEvent::SendFailed => false,
        _ => true,
    }
}

/// Whether the session is a TCP client.
pub open spec fn is_tcp_client(s: SessionStateView) -> bool {
    s.session.protocol == Protocol::Tcp && s.session.mode == SessionMode::Client
}

/// The notices that an event brings, in their order.
pub open spec fn notices(
    s: SessionStateView,
    event: SessionEvent,
    now: u64,
    id: Seq<char>,
) -> Seq<NetcatEventView> {
    let sid = s.session.id;
    match event {
        SessionEvent::Opened => seq![status_event(s, after_open(s, now).session.status, None)],
        SessionEvent::OpenFailed(message) => seq![status_event(s, SessionStatus::Error, Some(message@))],
        SessionEvent::Shutdown => if is_tcp_client(s) {
            Seq::empty()
        } else {
            seq![status_event(s, SessionStatus::Disconnected, None)]
        },
        SessionEvent::Data(bytes) => if bytes@.len() == 0 {
            if is_tcp_client(s) {
                seq![status_event(s, SessionStatus::Disconnected, None)]
            } else {
                seq![
                    status_event(s, SessionStatus::Disconnected, None),
                    status_event(s, SessionStatus::Disconnected, None),
                ]
            }
        } else {
            seq![message_event(sid, received_message(sid, bytes@, None, None, now, id))]
        },
        SessionEvent::ReadFailed(message) => if is_tcp_client(s) {
            seq![status_event(s, SessionStatus::Error, Some(message@))]
        } else {
            seq![
                status_event(s, SessionStatus::Error, Some(message@)),
                status_event(s, SessionStatus::Disconnected, None),
            ]
        },
        SessionEvent::ClientConnected { client_id, addr } => seq![
            NetcatEventView::ClientConnected { session_id: sid, client: new_client(client_id@, addr@,
                now, 0) },
        ],
        SessionEvent::ClientData { client_id, addr, bytes } => if bytes@.len() == 0 {
            seq![NetcatEventView::ClientDisconnected { session_id: sid, client_id: client_id@ }]
        } else {
            seq![message_event(sid, received_message(sid, bytes@, Some(client_id@), Some(addr@), now, id))]
        },
        SessionEvent::ClientReadFailed { client_id } => seq![
            NetcatEventView::ClientDisconnected { session_id: sid, client_id: client_id@ },
        ],
        SessionEvent::Datagram { from, bytes } => datagram_events(s, bytes@, from@, now, id),
        _ => Seq::empty(),
    }
}

} // verus!
