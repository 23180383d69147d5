//! The data of interactive sessions: their configuration and status, the
//! message log, the connected peers, and the notices sent to the interface.

use vstd::prelude::*;
use crate::text::{clone_opt_string, opt_view};

verus! {

/// The transport of a session.
#[derive(Debug, Clone, Copy, PartialEq, Eq, Structural)]
pub enum Protocol {
    Tcp,
    Udp,
}

/// Whether a session connects out or waits for peers.
#[derive(Debug, Clone, Copy, PartialEq, Eq, Structural)]
pub enum SessionMode {
    Client,
    Server,
}

/// How the text of a payload encodes its bytes.
#[derive(Debug, Clone, Copy, PartialEq, Eq, Structural)]
pub enum DataFormat {
    Text,
    Hex,
    Base64,
}

/// Where a session stands.
#[derive(Debug, Clone, Copy, PartialEq, Eq, Structural)]
pub enum SessionStatus {
    Connecting,
    Connected,
    Listening,
    Disconnected,
    Error,
}

/// Whether a message left or arrived.
#[derive(Debug, Clone, Copy, PartialEq, Eq, Structural)]
pub enum MessageDirection {
    Sent,
    Received,
}

/// What a caller gives to create a session.
#[derive(Debug)]
pub struct NetcatSessionInput {
    pub protocol: Protocol,
    pub mode: SessionMode,
    pub host: String,
    pub port: u16,
    pub name: Option<String>,
    pub auto_reconnect: Option<bool>,
    pub timeout_ms: Option<u64>,
}

/// A payload that a session sends by itself at a fixed interval.
#[derive(Debug)]
pub struct AutoSendConfig {
    pub enabled: bool,
    pub interval_ms: u64,
    pub data: String,
    pub format: DataFormat,
}

/// The mathematical value of an [`AutoSendConfig`].
pub struct AutoSendView {
    pub enabled: bool,
    pub interval_ms: u64,
    pub data: Seq<char>,
    pub format: DataFormat,
}

impl View for AutoSendConfig {
    type V = AutoSendView;

    open spec fn view(&self) -> AutoSendView {
        AutoSendView { enabled: self.enabled, interval_ms: self.interval_ms, data: self.data@,
            format: self.format }
    }
}

impl Clone for AutoSendConfig {
    fn clone(&self) -> (r: Self)
        ensures
            r == *self,
    {
        AutoSendConfig {
            enabled: self.enabled,
            interval_ms: self.interval_ms,
            data: self.data.clone(),
            format: self.format,
        }
    }
}

/// The view of an optional auto-send configuration.
pub open spec fn opt_auto_send_view(o: Option<AutoSendConfig>) -> Option<AutoSendView> {
    match o {
        Some(c) => Some(c@),
        None => None,
    }
}

/// A copy of an optional auto-send configuration.
pub fn clone_opt_auto_send(o: &Option<AutoSendConfig>) -> (r: Option<AutoSendConfig>)
    ensures
        r == *o,
{
    match o {
        Some(c) => Some(c.clone()),
        None => None,
    }
}

/// A session: its configuration, its status and its counters. Times are
/// milliseconds since the Unix epoch.
///
/// `auto_reconnect` is configuration only: it is stored and handed back, and
/// nothing in the engine acts on it. A session that lost its connection
/// stays disconnected until it is started again.
#[derive(Debug)]
pub struct NetcatSession {
    pub id: String,
    pub name: String,
    pub protocol: Protocol,
    pub mode: SessionMode,
    pub host: String,
    pub port: u16,
    pub status: SessionStatus,
    pub auto_reconnect: bool,
    pub timeout_ms: u64,
    pub created_at: u64,
    pub connected_at: Option<u64>,
    pub last_activity: Option<u64>,
    pub bytes_sent: u64,
    pub bytes_received: u64,
    pub message_count: u64,
    pub error_message: Option<String>,
    /// The number of connected peers of a server session.
    pub client_count: u32,
    pub auto_send: Option<AutoSendConfig>,
}

/// The mathematical value of a [`NetcatSession`].
pub struct NetcatSessionView {
    pub id: Seq<char>,
    pub name: Seq<char>,
    pub protocol: Protocol,
    pub mode: SessionMode,
    pub host: Seq<char>,
    pub port: u16,
    pub status: SessionStatus,
    pub auto_reconnect: bool,
    pub timeout_ms: u64,
    pub created_at: u64,
    pub connected_at: Option<u64>,
    pub last_activity: Option<u64>,
    pub bytes_sent: u64,
    pub bytes_received: u64,
    pub message_count: u64,
    pub error_message: Option<Seq<char>>,
    pub client_count: u32,
    pub auto_send: Option<AutoSendView>,
}

impl View for NetcatSession {
    type V = NetcatSessionView;

    open spec fn view(&self) -> NetcatSessionView {
        NetcatSessionView {
            id: self.id@,
            name: self.name@,
            protocol: self.protocol,
            mode: self.mode,
            host: self.host@,
            port: self.port,
            status: self.status,
            auto_reconnect: self.auto_reconnect,
            timeout_ms: self.timeout_ms,
            created_at: self.created_at,
            connected_at: self.connected_at,
            last_activity: self.last_activity,
            bytes_sent: self.bytes_sent,
            bytes_received: self.bytes_received,
            message_count: self.message_count,
            error_message: opt_view(self.error_message),
            client_count: self.client_count,
            auto_send: opt_auto_send_view(self.auto_send),
        }
    }
}

impl Clone for NetcatSession {
    fn clone(&self) -> (r: Self)
        ensures
            r == *self,
    {
        NetcatSession {
            id: self.id.clone(),
            name: self.name.clone(),
            protocol: self.protocol,
            mode: self.mode,
            host: self.host.clone(),
            port: self.port,
            status: self.status,
            auto_reconnect: self.auto_reconnect,
            timeout_ms: self.timeout_ms,
            created_at: self.created_at,
            connected_at: self.connected_at,
            last_activity: self.last_activity,
            bytes_sent: self.bytes_sent,
            bytes_received: self.bytes_received,
            message_count: self.message_count,
            error_message: clone_opt_string(&self.error_message),
            client_count: self.client_count,
            auto_send: clone_opt_auto_send(&self.auto_send),
        }
    }
}

/// The part of a session that is kept across restarts: its configuration,
/// without status, counters or peers.
#[derive(Debug)]
pub struct NetcatSessionConfig {
    pub id: String,
    pub name: String,
    pub protocol: Protocol,
    pub mode: SessionMode,
    pub host: String,
    pub port: u16,
    pub auto_reconnect: bool,
    pub timeout_ms: u64,
    pub created_at: u64,
    pub auto_send: Option<AutoSendConfig>,
}

/// The mathematical value of a [`NetcatSessionConfig`].
pub struct NetcatSessionConfigView {
    pub id: Seq<char>,
    pub name: Seq<char>,
    pub protocol: Protocol,
    pub mode: SessionMode,
    pub host: Seq<char>,
    pub port: u16,
    pub auto_reconnect: bool,
    pub timeout_ms: u64,
    pub created_at: u64,
    pub auto_send: Option<AutoSendView>,
}

impl View for NetcatSessionConfig {
    type V = NetcatSessionConfigView;

    open spec fn view(&self) -> NetcatSessionConfigView {
        NetcatSessionConfigView {
            id: self.id@,
            name: self.name@,
            protocol: self.protocol,
            mode: self.mode,
            host: self.host@,
            port: self.port,
            auto_reconnect: self.auto_reconnect,
            timeout_ms: self.timeout_ms,
            created_at: self.created_at,
            auto_send: opt_auto_send_view(self.auto_send),
        }
    }
}

impl Clone for NetcatSessionConfig {
    fn clone(&self) -> (r: Self)
        ensures
            r == *self,
    {
        NetcatSessionConfig {
            id: self.id.clone(),
            name: self.name.clone(),
            protocol: self.protocol,
            mode: self.mode,
            host: self.host.clone(),
            port: self.port,
            auto_reconnect: self.auto_reconnect,
            timeout_ms: self.timeout_ms,
            created_at: self.created_at,
            auto_send: clone_opt_auto_send(&self.auto_send),
        }
    }
}

/// What a caller gives to send a message.
#[derive(Debug)]
pub struct SendMessageInput {
    pub session_id: String,
    pub data: String,
    pub format: DataFormat,
    /// The client of a server session, or the address of a UDP peer, to
    /// send to.
    pub target_client: Option<String>,
    /// Whether a server session sends to every connected client.
    pub broadcast: Option<bool>,
}

/// One entry of a session's message log. `data` is the payload as it is
/// shown, `size` the number of its bytes.
#[derive(Debug)]
pub struct NetcatMessage {
    pub id: String,
    pub session_id: String,
    pub direction: MessageDirection,
    pub data: String,
    pub format: DataFormat,
    pub size: usize,
    pub timestamp: u64,
    pub client_id: Option<String>,
    pub client_addr: Option<String>,
}

/// The mathematical value of a [`NetcatMessage`].
pub struct NetcatMessageView {
    pub id: Seq<char>,
    pub session_id: Seq<char>,
    pub direction: MessageDirection,
    pub data: Seq<char>,
    pub format: DataFormat,
    pub size: usize,
    pub timestamp: u64,
    pub client_id: Option<Seq<char>>,
    pub client_addr: Option<Seq<char>>,
}

impl View for NetcatMessage {
    type V = NetcatMessageView;

    open spec fn view(&self) -> NetcatMessageView {
        NetcatMessageView {
            id: self.id@,
            session_id: self.session_id@,
            direction: self.direction,
            data: self.data@,
            format: self.format,
            size: self.size,
            timestamp: self.timestamp,
            client_id: opt_view(self.client_id),
            client_addr: opt_view(self.client_addr),
        }
    }
}

impl Clone for NetcatMessage {
    fn clone(&self) -> (r: Self)
        ensures
            r == *self,
    {
        NetcatMessage {
            id: self.id.clone(),
            session_id: self.session_id.clone(),
            direction: self.direction,
            data: self.data.clone(),
            format: self.format,
            size: self.size,
            timestamp: self.timestamp,
            client_id: clone_opt_string(&self.client_id),
            client_addr: clone_opt_string(&self.client_addr),
        }
    }
}

/// A peer of a server session.
#[derive(Debug)]
pub struct ConnectedClient {
    pub id: String,
    pub addr: String,
    pub connected_at: u64,
    pub last_activity: u64,
    pub bytes_sent: u64,
    pub bytes_received: u64,
}

/// The mathematical value of a [`ConnectedClient`].
pub struct ConnectedClientView {
    pub id: Seq<char>,
    pub addr: Seq<char>,
    pub connected_at: u64,
    pub last_activity: u64,
    pub bytes_sent: u64,
    pub bytes_received: u64,
}

impl View for ConnectedClient {
    type V = ConnectedClientView;

    open spec fn view(&self) -> ConnectedClientView {
        ConnectedClientView {
            id: self.id@,
            addr: self.addr@,
            connected_at: self.connected_at,
            last_activity: self.last_activity,
            bytes_sent: self.bytes_sent,
            bytes_received: self.bytes_received,
        }
    }
}

impl Clone for ConnectedClient {
    fn clone(&self) -> (r: Self)
        ensures
            r == *self,
    {
        ConnectedClient {
            id: self.id.clone(),
            addr: self.addr.clone(),
            connected_at: self.connected_at,
            last_activity: self.last_activity,
            bytes_sent: self.bytes_sent,
            bytes_received: self.bytes_received,
        }
    }
}

/// A notice to the interface about a session.
#[derive(Debug)]
pub enum NetcatEvent {
    StatusChanged { session_id: String, status: SessionStatus, error: Option<String> },
    MessageReceived { session_id: String, message: NetcatMessage },
    ClientConnected { session_id: String, client: ConnectedClient },
    ClientDisconnected { session_id: String, client_id: String },
}

/// The mathematical value of a [`NetcatEvent`].
pub enum NetcatEventView {
    StatusChanged { session_id: Seq<char>, status: SessionStatus, error: Option<Seq<char>> },
    MessageReceived { session_id: Seq<char>, message: NetcatMessageView },
    ClientConnected { session_id: Seq<char>, client: ConnectedClientView },
    ClientDisconnected { session_id: Seq<char>, client_id: Seq<char> },
}

impl View for NetcatEvent {
    type V = NetcatEventView;

    open spec fn view(&self) -> NetcatEventView {
        match *self {
            NetcatEvent::StatusChanged { session_id, status, error } => NetcatEventView::StatusChanged {
                session_id: session_id@,
                status,
                error: opt_view(error),
            },
            NetcatEvent::MessageReceived { session_id, message } => NetcatEventView::MessageReceived {
                session_id: session_id@,
                message: message@,
            },
            NetcatEvent::ClientConnected { session_id, client } => NetcatEventView::ClientConnected {
                session_id: session_id@,
                client: client@,
            },
            NetcatEvent::ClientDisconnected { session_id, client_id } => NetcatEventView::ClientDisconnected {
                session_id: session_id@,
                client_id: client_id@,
            },
        }
    }
}

} // verus!
