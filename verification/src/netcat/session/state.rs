//! The runtime record of one session and the operations on it.

use vstd::prelude::*;
use crate::counters::count_of;
use crate::error::EngineError;
use crate::netcat::codec::{bytes_to_display_string, parse_input_data};
use crate::netcat::session::model::{
    after_client_connected, after_client_gone, after_client_sent, after_close, after_data,
    after_datagram, after_open, after_receive, after_send, after_sent, after_start, after_stop,
    client_ids, client_index, clients_after_datagram, clients_after_receipt, config_of,
    counted_receipt, dashed, data_events, datagram_events, delivery_bytes, events_view, fresh_state,
    has_client, is_tcp_client, logged, message_event, new_client, next_state, notices, page,
    proceeds, put_client, received_message, route, send_outcome, sent_message, state_wf,
    status_event, udp_client_id, with_status, without_client, Delivery, Reaction, SessionEvent,
    SessionStateView, MESSAGE_CAP,
};
use crate::netcat::types::{
    clone_opt_auto_send, AutoSendConfig, ConnectedClient, ConnectedClientView, DataFormat,
    MessageDirection, NetcatEvent, NetcatEventView, NetcatMessage, NetcatMessageView, NetcatSession,
    NetcatSessionConfig, NetcatSessionView, Protocol, SessionMode, SessionStatus,
};
use crate::text::{clone_opt_string, format_host_port, opt_view, push_text, str_eq, to_chars};

verus! {

/// The runtime record of one session.
pub struct SessionState {
    session: NetcatSession,
    messages: Vec<NetcatMessage>,
    clients: Vec<ConnectedClient>,
    run: u64,
    shutdown_armed: bool,
    sender_live: bool,
}

impl View for SessionState {
    type V = SessionStateView;

    closed spec fn view(&self) -> SessionStateView {
        SessionStateView {
            session: self.session@,
            messages: Seq::new(self.messages@.len(), |i: int| self.messages@[i]@),
            clients: Seq::new(self.clients@.len(), |i: int| self.clients@[i]@),
            run: self.run,
            shutdown_armed: self.shutdown_armed,
            sender_live: self.sender_live,
        }
    }
}

impl SessionState {
    /// The invariant of the record: see [`state_wf`].
    pub open spec fn wf(&self) -> bool {
        state_wf(self@)
    }

    /// The record of a session that has not run: see [`fresh_state`].
    pub fn new(session: NetcatSession) -> (s: Self)
        ensures
            s.wf(),
            s@ == fresh_state(session@),
    {
        let mut session = session;
        session.client_count = 0;
        let s = SessionState {
            session,
            messages: Vec::new(),
            clients: Vec::new(),
            run: 0,
            shutdown_armed: false,
            sender_live: false,
        };
        assert(s@.messages =~= Seq::<NetcatMessageView>::empty());
        assert(s@.clients =~= Seq::<ConnectedClientView>::empty());
        s
    }

    /// The session as it stands.
    pub fn session(&self) -> (r: &NetcatSession)
        ensures
            r@ == self@.session,
    {
        &self.session
    }

    /// The number of the session's last start.
    pub fn run(&self) -> (n: u64)
        ensures
            n == self@.run,
    {
        self.run
    }

    /// Begins a run of the session: see [`after_start`]. Returns the number
    /// of the run, whether loops of an earlier run still wait for a shutdown
    /// signal, which the caller then sends, and the notice of the new status.
    pub fn start(&mut self) -> (r: (u64, bool, NetcatEvent))
        requires
            old(self).wf(),
        ensures
            final(self).wf(),
            final(self)@ == after_start(old(self)@),
            r.0 == final(self)@.run,
            r.1 == old(self)@.shutdown_armed,
            r.2@ == status_event(old(self)@, SessionStatus::Connecting, None),
    {
        let signal = self.shutdown_armed;
        self.shutdown_armed = false;
        self.sender_live = false;
        self.run = self.run.wrapping_add(1);
        self.session.status = SessionStatus::Connecting;
        self.session.error_message = None;
        match (self.session.protocol, self.session.mode) {
            (Protocol::Tcp, SessionMode::Server) => {
                self.clients.clear();
                self.session.client_count = 0;
                assert(self@.clients =~= Seq::<ConnectedClientView>::empty());
            },
            _ => {},
        }
        let event = NetcatEvent::StatusChanged {
            session_id: self.session.id.clone(),
            status: SessionStatus::Connecting,
            error: None,
        };
        (self.run, signal, event)
    }

    /// Whether payloads can leave.
    pub fn sender_live(&self) -> (b: bool)
        ensures
            b == self@.sender_live,
    {
        self.sender_live
    }

    /// Sets the status and the error message: see [`with_status`]. Returns
    /// the notice of the change.
    pub fn update_status(&mut self, status: SessionStatus, error: Option<String>) -> (event: NetcatEvent)
        requires
            old(self).wf(),
        ensures
            final(self).wf(),
            final(self)@ == with_status(old(self)@, status, opt_view(error)),
            event@ == status_event(old(self)@, status, opt_view(error)),
    {
        self.session.status = status;
        self.session.error_message = clone_opt_string(&error);
        if status == SessionStatus::Disconnected || status == SessionStatus::Error {
            self.shutdown_armed = false;
        }
        NetcatEvent::StatusChanged { session_id: self.session.id.clone(), status, error }
    }

    /// Records that the connection, listener or socket of the session
    /// stands: see [`after_open`]. Returns the notice of the new status.
    pub fn link_opened(&mut self, now: u64) -> (event: NetcatEvent)
        requires
            old(self).wf(),
        ensures
            final(self).wf(),
            final(self)@ == after_open(old(self)@, now),
            event@ == status_event(old(self)@, final(self)@.session.status, None),
    {
        match (self.session.protocol, self.session.mode) {
            (Protocol::Tcp, SessionMode::Client) => {
                self.session.status = SessionStatus::Connected;
                self.session.connected_at = Some(now);
                self.session.last_activity = Some(now);
                self.session.error_message = None;
            },
            (Protocol::Tcp, SessionMode::Server) => {
                self.session.status = SessionStatus::Listening;
                self.session.connected_at = Some(now);
            },
            (Protocol::Udp, mode) => {
                self.session.status = match mode {
                    SessionMode::Client => SessionStatus::Connected,
                    SessionMode::Server => SessionStatus::Listening,
                };
                self.session.connected_at = Some(now);
                self.session.last_activity = Some(now);
            },
        }
        self.shutdown_armed = true;
        self.sender_live = true;
        NetcatEvent::StatusChanged {
            session_id: self.session.id.clone(),
            status: self.session.status,
            error: None,
        }
    }

    /// Records that the loop of the session has ended: see [`after_close`].
    /// A server or UDP session returns the notice that it is disconnected.
    pub fn link_closed(&mut self) -> (event: Option<NetcatEvent>)
        requires
            old(self).wf(),
        ensures
            final(self).wf(),
            final(self)@ == after_close(old(self)@),
            match event {
                Some(e) => !(old(self)@.session.protocol == Protocol::Tcp && old(self)@.session.mode
                    == SessionMode::Client)
                        && e@ == status_event(old(self)@, SessionStatus::Disconnected, None),
                None => old(self)@.session.protocol == Protocol::Tcp && old(self)@.session.mode
                    == SessionMode::Client,
            },
    {
        self.sender_live = false;
        match (self.session.protocol, self.session.mode) {
            (Protocol::Tcp, SessionMode::Client) => None,
            (Protocol::Tcp, SessionMode::Server) => {
                self.session.status = SessionStatus::Disconnected;
                self.session.client_count = 0;
                self.clients.clear();
                assert(self@.clients =~= Seq::<ConnectedClientView>::empty());
                Some(
                    NetcatEvent::StatusChanged {
                        session_id: self.session.id.clone(),
                        status: SessionStatus::Disconnected,
                        error: None,
                    },
                )
            },
            (Protocol::Udp, _) => {
                self.session.status = SessionStatus::Disconnected;
                Some(
                    NetcatEvent::StatusChanged {
                        session_id: self.session.id.clone(),
                        status: SessionStatus::Disconnected,
                        error: None,
                    },
                )
            },
        }
    }

    /// Stops the session: see [`after_stop`]. Says whether its loops waited
    /// for a shutdown signal, which the caller then sends.
    pub fn stop(&mut self) -> (signal: bool)
        requires
            old(self).wf(),
        ensures
            final(self).wf(),
            final(self)@ == after_stop(old(self)@),
            signal == old(self)@.shutdown_armed,
    {
        let signal = self.shutdown_armed;
        self.shutdown_armed = false;
        self.session.status = SessionStatus::Disconnected;
        self.session.error_message = None;
        self.sender_live = false;
        signal
    }

    /// The place of the client `id` in the table.
    fn find_client(&self, id: &str) -> (r: Option<usize>)
        ensures
            match r {
                Some(i) => i < self@.clients.len() && self@.clients[i as int].id == id@,
                None => !has_client(self@.clients, id@),
            },
            self.wf() && r is Some ==> r->0 == client_index(self@.clients, id@)
                && has_client(self@.clients, id@),
    {
        let mut i: usize = 0;
        while i < self.clients.len()
            invariant
                i <= self.clients.len(),
                forall|j: int| 0 <= j < i ==> (#[trigger] self@.clients[j]).id != id@,
            decreases self.clients.len() - i,
        {
            if str_eq(self.clients[i].id.as_str(), id) {
                assert(self@.clients[i as int].id == id@);
                return Some(i);
            }
            i += 1;
        }
        None
    }

    /// The number of clients as the session tells it.
    fn client_total(&self) -> (n: u32)
        ensures
            n == count_of(self@.clients.len()),
    {
        let len = self.clients.len();
        if len > 0xffff_ffff {
            u32::MAX
        } else {
            len as u32
        }
    }

    /// Appends a message to the log, within its cap.
    fn log(&mut self, message: NetcatMessage)
        requires
            old(self).wf(),
        ensures
            final(self).wf(),
            final(self)@ == (SessionStateView { messages: logged(old(self)@.messages, message@),
                ..old(self)@ }),
    {
        self.messages.push(message);
        if self.messages.len() > MESSAGE_CAP {
            self.messages.remove(0);
        }
        assert(self@.messages =~= logged(old(self)@.messages, message@));
    }

    /// Counts one message of `n` bytes that arrived at the time `now`.
    fn count_receipt(&mut self, n: usize, now: u64)
        requires
            old(self).wf(),
        ensures
            final(self).wf(),
            final(self)@ == (SessionStateView {
                session: counted_receipt(old(self)@.session, n as nat, now),
                ..old(self)@
            }),
    {
        self.session.bytes_received = self.session.bytes_received.wrapping_add(n as u64);
        self.session.message_count = self.session.message_count.wrapping_add(1);
        self.session.last_activity = Some(now);
    }

    /// Takes in bytes that arrived on a TCP connection: see
    /// [`after_receive`]. Returns the notice of the message.
    pub fn handle_stream_data(
        &mut self,
        data: &[u8],
        client_id: Option<String>,
        client_addr: Option<String>,
        now: u64,
        message_id: String,
    ) -> (event: NetcatEvent)
        requires
            old(self).wf(),
        ensures
            final(self).wf(),
            final(self)@ == after_receive(old(self)@, data@, opt_view(client_id), opt_view(client_addr),
                now, message_id@),
            event@ == message_event(
                old(self)@.session.id,
                received_message(old(self)@.session.id, data@, opt_view(client_id),
                    opt_view(client_addr), now, message_id@),
            ),
    {
        let shown = bytes_to_display_string(data);
        self.count_receipt(data.len(), now);
        match &client_id {
            Some(cid) => {
                match self.find_client(cid.as_str()) {
                    Some(i) => {
                        self.clients[i].bytes_received =
                            self.clients[i].bytes_received.wrapping_add(data.len() as u64);
                        self.clients[i].last_activity = now;
                        assert(self@.clients =~= clients_after_receipt(
                            old(self)@.clients,
                            opt_view(client_id),
                            data@.len(),
                            now,
                        ));
                    },
                    None => {},
                }
            },
            None => {},
        }
        let message = NetcatMessage {
            id: message_id,
            session_id: self.session.id.clone(),
            direction: MessageDirection::Received,
            data: shown,
            format: DataFormat::Text,
            size: data.len(),
            timestamp: now,
            client_id,
            client_addr,
        };
        self.log(message.clone());
        NetcatEvent::MessageReceived { session_id: self.session.id.clone(), message }
    }

    /// Enters a client that has connected to the server into the table:
    /// see [`after_client_connected`]. Returns the notice of the client.
    pub fn handle_client_connection(
        &mut self,
        client_id: String,
        client_addr: String,
        now: u64,
    ) -> (event: NetcatEvent)
        requires
            old(self).wf(),
        ensures
            final(self).wf(),
            final(self)@ == after_client_connected(old(self)@, new_client(client_id@, client_addr@, now, 0)),
            event@ == (NetcatEventView::ClientConnected {
                session_id: old(self)@.session.id,
                client: new_client(client_id@, client_addr@, now, 0),
            }),
    {
        let client = ConnectedClient {
            id: client_id,
            addr: client_addr,
            connected_at: now,
            last_activity: now,
            bytes_sent: 0,
            bytes_received: 0,
        };
        self.enter_client(client.clone());
        NetcatEvent::ClientConnected { session_id: self.session.id.clone(), client }
    }

    /// Enters a client into the table.
    fn enter_client(&mut self, client: ConnectedClient)
        requires
            old(self).wf(),
        ensures
            final(self).wf(),
            final(self)@ == after_client_connected(old(self)@, client@),
    {
        match self.find_client(client.id.as_str()) {
            Some(i) => {
                self.clients[i] = client;
            },
            None => {
                self.clients.push(client);
            },
        }
        assert(self@.clients =~= put_client(old(self)@.clients, client@));
        self.session.client_count = self.client_total();
    }

    /// Takes a client out of the table: see [`after_client_gone`]. Returns
    /// the notice that it is gone.
    pub fn handle_client_disconnect(&mut self, client_id: &str) -> (event: NetcatEvent)
        requires
            old(self).wf(),
        ensures
            final(self).wf(),
            final(self)@ == after_client_gone(old(self)@, client_id@),
            event@ == (NetcatEventView::ClientDisconnected {
                session_id: old(self)@.session.id,
                client_id: client_id@,
            }),
    {
        match self.find_client(client_id) {
            Some(i) => {
                self.clients.remove(i);
            },
            None => {},
        }
        assert(self@.clients =~= without_client(old(self)@.clients, client_id@));
        self.session.client_count = self.client_total();
        NetcatEvent::ClientDisconnected { session_id: self.session.id.clone(),
            client_id: client_id.to_string() }
    }

    /// Counts bytes that left on the session's own connection or socket:
    /// see [`after_sent`].
    pub fn record_sent(&mut self, n: usize, now: u64)
        requires
            old(self).wf(),
        ensures
            final(self).wf(),
            final(self)@ == after_sent(old(self)@, n as nat, now),
    {
        self.session.bytes_sent = self.session.bytes_sent.wrapping_add(n as u64);
        self.session.last_activity = Some(now);
    }

    /// Counts bytes that were written to a client of the server: see
    /// [`after_client_sent`].
    pub fn record_client_sent(&mut self, client_id: &str, n: usize, now: u64)
        requires
            old(self).wf(),
        ensures
            final(self).wf(),
            final(self)@ == after_client_sent(old(self)@, client_id@, n as nat, now),
    {
        self.session.bytes_sent = self.session.bytes_sent.wrapping_add(n as u64);
        match self.find_client(client_id) {
            Some(i) => {
                self.clients[i].bytes_sent = self.clients[i].bytes_sent.wrapping_add(n as u64);
                self.clients[i].last_activity = now;
                assert(self@.clients =~= after_client_sent(old(self)@, client_id@, n as nat, now).clients);
            },
            None => {},
        }
    }

    /// Records that the sender of the session is gone, after a write on it
    /// failed.
    pub fn sender_closed(&mut self)
        requires
            old(self).wf(),
        ensures
            final(self).wf(),
            final(self)@ == (SessionStateView { sender_live: false, ..old(self)@ }),
    {
        self.sender_live = false;
    }

    /// Empties the message log.
    pub fn clear_messages(&mut self)
        requires
            old(self).wf(),
        ensures
            final(self).wf(),
            final(self)@ == (SessionStateView { messages: Seq::empty(), ..old(self)@ }),
    {
        self.messages.clear();
        assert(self@.messages =~= Seq::<NetcatMessageView>::empty());
    }

    /// Replaces the auto-send configuration.
    pub fn set_auto_send(&mut self, config: AutoSendConfig)
        requires
            old(self).wf(),
        ensures
            final(self).wf(),
            final(self)@ == (SessionStateView {
                session: NetcatSessionView { auto_send: Some(config@), ..old(self)@.session },
                ..old(self)@
            }),
    {
        self.session.auto_send = Some(config);
    }

    /// The connected clients, in the order of the table.
    pub fn clients(&self) -> (list: Vec<ConnectedClient>)
        ensures
            list@.len() == self@.clients.len(),
            forall|i: int| 0 <= i < list@.len() ==> (#[trigger] list@[i])@ == self@.clients[i],
    {
        let mut list: Vec<ConnectedClient> = Vec::new();
        let mut i: usize = 0;
        while i < self.clients.len()
            invariant
                i <= self.clients.len(),
                list@.len() == i,
                forall|j: int| 0 <= j < i ==> (#[trigger] list@[j])@ == self@.clients[j],
            decreases self.clients.len() - i,
        {
            list.push(self.clients[i].clone());
            i += 1;
        }
        list
    }

    /// A page of the message log: see [`page`].
    pub fn messages_page(&self, limit: usize, offset: usize) -> (list: Vec<NetcatMessage>)
        ensures
            list@.len() == page(self@.messages, limit as nat, offset as nat).len(),
            forall|i: int|
                0 <= i < list@.len()
                    ==> (#[trigger] list@[i])@ == page(self@.messages, limit as nat, offset as nat)[i],
    {
        let mut list: Vec<NetcatMessage> = Vec::new();
        let len = self.messages.len();
        if offset >= len {
            return list;
        }
        let left = len - offset;
        let count = if limit < left {
            limit
        } else {
            left
        };
        let mut k: usize = 0;
        while k < count
            invariant
                k <= count,
                count <= left,
                left == len - offset,
                offset < len,
                len == self.messages@.len(),
                list@.len() == k,
                forall|j: int|
                    0 <= j < k ==> (#[trigger] list@[j])@ == self@.messages[len - 1 - offset - j],
            decreases count - k,
        {
            list.push(self.messages[len - 1 - offset - k].clone());
            k += 1;
        }
        list
    }

    /// The part of the session that is kept across restarts.
    pub fn to_config(&self) -> (config: NetcatSessionConfig)
        ensures
            config@ == config_of(self@.session),
    {
        NetcatSessionConfig {
            id: self.session.id.clone(),
            name: self.session.name.clone(),
            protocol: self.session.protocol,
            mode: self.session.mode,
            host: self.session.host.clone(),
            port: self.session.port,
            auto_reconnect: self.session.auto_reconnect,
            timeout_ms: self.session.timeout_ms,
            created_at: self.session.created_at,
            auto_send: clone_opt_auto_send(&self.session.auto_send),
        }
    }

    /// Takes in a datagram that arrived from `from_addr`: see
    /// [`after_datagram`]. Returns the notices of [`datagram_events`].
    pub fn handle_datagram(
        &mut self,
        data: &[u8],
        from_addr: String,
        now: u64,
        message_id: String,
    ) -> (events: Vec<NetcatEvent>)
        requires
            old(self).wf(),
        ensures
            final(self).wf(),
            final(self)@ == after_datagram(old(self)@, data@, from_addr@, now, message_id@),
            events@.len() == datagram_events(old(self)@, data@, from_addr@, now, message_id@).len(),
            forall|i: int|
                0 <= i < events@.len() ==> (#[trigger] events@[i])@ == datagram_events(
                    old(self)@,
                    data@,
                    from_addr@,
                    now,
                    message_id@,
                )[i],
    {
        let mut events: Vec<NetcatEvent> = Vec::new();
        let shown = bytes_to_display_string(data);
        self.count_receipt(data.len(), now);
        let client_id = match self.session.mode {
            SessionMode::Server => {
                let cid = make_udp_client_id(from_addr.as_str());
                match self.find_client(cid.as_str()) {
                    Some(i) => {
                        self.clients[i].bytes_received =
                            self.clients[i].bytes_received.wrapping_add(data.len() as u64);
                        self.clients[i].last_activity = now;
                    },
                    None => {
                        let client = ConnectedClient {
                            id: cid.clone(),
                            addr: from_addr.clone(),
                            connected_at: now,
                            last_activity: now,
                            bytes_sent: 0,
                            bytes_received: data.len() as u64,
                        };
                        self.clients.push(client.clone());
                        events.push(NetcatEvent::ClientConnected { session_id: self.session.id.clone(),
                            client });
                    },
                }
                assert(self@.clients =~= clients_after_datagram(old(self)@, from_addr@, data@.len(), now));
                self.session.client_count = self.client_total();
                Some(cid)
            },
            SessionMode::Client => None,
        };
        let message = NetcatMessage {
            id: message_id,
            session_id: self.session.id.clone(),
            direction: MessageDirection::Received,
            data: shown,
            format: DataFormat::Text,
            size: data.len(),
            timestamp: now,
            client_id,
            client_addr: Some(from_addr),
        };
        self.log(message.clone());
        events.push(NetcatEvent::MessageReceived { session_id: self.session.id.clone(), message });
        events
    }

    /// Takes in bytes that arrived from a peer: see [`after_data`]. A UDP
    /// session takes them in as a datagram from the peer's address, so that
    /// a server enters a peer that it has not seen; every other session takes
    /// them in as bytes on a connection. Returns the notices of
    /// [`data_events`].
    pub fn handle_received_data(
        &mut self,
        data: &[u8],
        client_id: Option<String>,
        client_addr: Option<String>,
        now: u64,
        message_id: String,
    ) -> (events: Vec<NetcatEvent>)
        requires
            old(self).wf(),
        ensures
            final(self).wf(),
            final(self)@.session.id == old(self)@.session.id,
            final(self)@ == after_data(
                old(self)@,
                data@,
                opt_view(client_id),
                opt_view(client_addr),
                now,
                message_id@,
            ),
            events@.len() == data_events(
                old(self)@,
                data@,
                opt_view(client_id),
                opt_view(client_addr),
                now,
                message_id@,
            ).len(),
            events_view(events@) == data_events(
                old(self)@,
                data@,
                opt_view(client_id),
                opt_view(client_addr),
                now,
                message_id@,
            ),
    {
        let datagram = match self.session.protocol {
            Protocol::Udp => client_addr.is_some(),
            Protocol::Tcp => false,
        };
        if datagram {
            match client_addr {
                Some(from) => {
                    let events = self.handle_datagram(data, from, now, message_id);
                    assert(events_view(events@) =~= datagram_events(old(self)@, data@, from@, now,
                        message_id@));
                    events
                },
                None => Vec::new(),
            }
        } else {
            let mut events: Vec<NetcatEvent> = Vec::new();
            let event = self.handle_stream_data(data, client_id, client_addr, now, message_id);
            events.push(event);
            assert(events_view(events@) =~= seq![event@]);
            events
        }
    }

    /// The ids of the clients, in the order of the table.
    fn client_id_list(&self) -> (ids: Vec<String>)
        ensures
            ids@.len() == self@.clients.len(),
            forall|i: int| 0 <= i < ids@.len() ==> (#[trigger] ids@[i])@ == self@.clients[i].id,
    {
        let mut ids: Vec<String> = Vec::new();
        let mut i: usize = 0;
        while i < self.clients.len()
            invariant
                i <= self.clients.len(),
                ids@.len() == i,
                forall|j: int| 0 <= j < i ==> (#[trigger] ids@[j])@ == self@.clients[j].id,
            decreases self.clients.len() - i,
        {
            ids.push(self.clients[i].id.clone());
            i += 1;
        }
        ids
    }

    /// Decides where decoded bytes go: see [`route`]. Nothing changes.
    pub fn route_payload(
        &self,
        target: &Option<String>,
        broadcast: bool,
        bytes: Vec<u8>,
    ) -> (r: Result<Delivery, EngineError>)
        requires
            self.wf(),
        ensures
            match route(self@, opt_view(*target), broadcast, bytes@) {
                Ok(d) => r is Ok && r->Ok_0@ == d,
                Err(e) => r == Err::<Delivery, EngineError>(e),
            },
    {
        match (self.session.protocol, self.session.mode) {
            (Protocol::Tcp, SessionMode::Client) => {
                if self.sender_live {
                    Ok(Delivery::Direct { bytes })
                } else {
                    Err(EngineError::NotConnected)
                }
            },
            (Protocol::Tcp, SessionMode::Server) => {
                if broadcast {
                    if !self.sender_live {
                        Err(EngineError::NotConnected)
                    } else if self.clients.len() == 0 {
                        Err(EngineError::NoClients)
                    } else {
                        let ids = self.client_id_list();
                        let d = Delivery::Broadcast { client_ids: ids, bytes };
                        assert(d@->Broadcast_client_ids =~= client_ids(self@.clients));
                        Ok(d)
                    }
                } else {
                    match target {
                        Some(cid) => {
                            if !self.sender_live {
                                Err(EngineError::NotConnected)
                            } else if self.find_client(cid.as_str()).is_none() {
                                Err(EngineError::ClientNotFound)
                            } else {
                                Ok(Delivery::ToClient { client_id: cid.clone(), bytes })
                            }
                        },
                        None => Err(EngineError::NoTarget),
                    }
                }
            },
            (Protocol::Udp, mode) => {
                if !self.sender_live {
                    Err(EngineError::NotConnected)
                } else {
                    match target {
                        Some(address) => Ok(Delivery::Datagram { address: address.clone(), bytes }),
                        None => match mode {
                            SessionMode::Client => Ok(
                                Delivery::Datagram {
                                    address: format_host_port(self.session.host.as_str(), self.session.port),
                                    bytes,
                                },
                            ),
                            SessionMode::Server => Err(EngineError::NoTarget),
                        },
                    }
                }
            },
        }
    }

    /// Decides what is to be done with a payload, without doing or logging
    /// anything: decodes `data` by `format` and routes the bytes. See
    /// [`send_outcome`].
    pub fn plan(
        &self,
        data: &str,
        format: DataFormat,
        target: &Option<String>,
        broadcast: bool,
    ) -> (r: Result<Delivery, EngineError>)
        requires
            self.wf(),
        ensures
            match send_outcome(self@, data@, format, opt_view(*target), broadcast) {
                Ok(d) => r is Ok && r->Ok_0@ == d,
                Err(e) => r == Err::<Delivery, EngineError>(e),
            },
    {
        match parse_input_data(data, format) {
            Ok(bytes) => self.route_payload(target, broadcast, bytes),
            Err(e) => Err(e),
        }
    }

    /// Logs a payload of `size` bytes as sent at the time `now`: see
    /// [`after_send`]. Returns the log entry.
    pub fn log_sent(
        &mut self,
        data: String,
        format: DataFormat,
        size: usize,
        target: Option<String>,
        now: u64,
        message_id: String,
    ) -> (message: NetcatMessage)
        requires
            old(self).wf(),
        ensures
            final(self).wf(),
            final(self)@.session.id == old(self)@.session.id,
            message@ == sent_message(
                old(self)@.session.id,
                data@,
                format,
                size as nat,
                opt_view(target),
                now,
                message_id@,
            ),
            final(self)@ == after_send(old(self)@, message@, now),
    {
        let message = NetcatMessage {
            id: message_id,
            session_id: self.session.id.clone(),
            direction: MessageDirection::Sent,
            data,
            format,
            size,
            timestamp: now,
            client_id: target,
            client_addr: None,
        };
        self.session.message_count = self.session.message_count.wrapping_add(1);
        self.session.last_activity = Some(now);
        self.log(message.clone());
        message
    }

    /// Sends a payload: decodes `data` by `format`, decides where the bytes
    /// go, and logs the payload as sent. A payload that cannot be decoded or
    /// has nowhere to go changes nothing and is not logged. Returns the log
    /// entry and what is to be done with the bytes.
    pub fn send(
        &mut self,
        data: String,
        format: DataFormat,
        target: Option<String>,
        broadcast: bool,
        now: u64,
        message_id: String,
    ) -> (r: Result<(NetcatMessage, Delivery), EngineError>)
        requires
            old(self).wf(),
        ensures
            final(self).wf(),
            final(self)@.session.id == old(self)@.session.id,
            match send_outcome(old(self)@, data@, format, opt_view(target), broadcast) {
                Ok(d) => {
                    let m = sent_message(
                        old(self)@.session.id,
                        data@,
                        format,
                        delivery_bytes(d).len(),
                        opt_view(target),
                        now,
                        message_id@,
                    );
                    &&& r is Ok
                    &&& r->Ok_0.0@ == m
                    &&& r->Ok_0.1@ == d
                    &&& final(self)@ == after_send(old(self)@, m, now)
                },
                Err(e) => r == Err::<(NetcatMessage, Delivery), EngineError>(e) && final(self)@ == old(self)@,
            },
    {
        let delivery = match self.plan(data.as_str(), format, &target, broadcast) {
            Ok(d) => d,
            Err(e) => {
                return Err(e);
            },
        };
        let size = delivery_size(&delivery);
        let message = self.log_sent(data, format, size, target, now, message_id);
        Ok((message, delivery))
    }
}

/// The number of bytes that a delivery carries.
pub fn delivery_size(delivery: &Delivery) -> (n: usize)
    ensures
        n == delivery_bytes(delivery@).len(),
{
    match delivery {
        Delivery::Direct { bytes } => bytes.len(),
        Delivery::ToClient { bytes, .. } => bytes.len(),
        Delivery::Broadcast { bytes, .. } => bytes.len(),
        Delivery::Datagram { bytes, .. } => bytes.len(),
    }
}

/// The reaction that carries one notice.
fn one_notice(event: NetcatEvent, proceed: bool) -> (r: Reaction)
    ensures
        r.proceed == proceed,
        events_view(r.events@) == seq![event@],
{
    let mut events: Vec<NetcatEvent> = Vec::new();
    events.push(event);
    assert(events_view(events@) =~= seq![event@]);
    Reaction { proceed, events }
}

/// The reaction that carries no notice.
fn no_notice(proceed: bool) -> (r: Reaction)
    ensures
        r.proceed == proceed,
        events_view(r.events@) == Seq::<NetcatEventView>::empty(),
{
    let events: Vec<NetcatEvent> = Vec::new();
    assert(events_view(events@) =~= Seq::<NetcatEventView>::empty());
    Reaction { proceed, events }
}

impl SessionState {
    /// Takes in the shutdown signal: the loop ends.
    fn react_to_shutdown(&mut self) -> (r: Reaction)
        requires
            old(self).wf(),
        ensures
            final(self).wf(),
            final(self)@ == after_close(old(self)@),
            !r.proceed,
            events_view(r.events@) == notices(old(self)@, SessionEvent::Shutdown, 0, Seq::empty()),
    {
        match self.link_closed() {
            Some(e) => one_notice(e, false),
            None => no_notice(false),
        }
    }

    /// Takes in the end of a TCP client's stream, by the peer or by a
    /// failure: the status is set and the loop ends.
    fn react_to_end_of_stream(&mut self, status: SessionStatus, error: Option<String>) -> (r: Reaction)
        requires
            old(self).wf(),
        ensures
            final(self).wf(),
            final(self)@ == after_close(with_status(old(self)@, status, opt_view(error))),
            !r.proceed,
            events_view(r.events@) == if is_tcp_client(old(self)@) {
                seq![status_event(old(self)@, status, opt_view(error))]
            } else {
                seq![
                    status_event(old(self)@, status, opt_view(error)),
                    status_event(old(self)@, SessionStatus::Disconnected, None),
                ]
            },
    {
        let mut events: Vec<NetcatEvent> = Vec::new();
        events.push(self.update_status(status, error));
        match self.link_closed() {
            Some(e) => {
                events.push(e);
                assert(events_view(events@) =~= seq![
                    status_event(old(self)@, status, opt_view(error)),
                    status_event(old(self)@, SessionStatus::Disconnected, None),
                ]);
            },
            None => {
                assert(events_view(events@) =~= seq![status_event(old(self)@, status, opt_view(error))]);
            },
        }
        Reaction { proceed: false, events }
    }

    /// Takes in a datagram: the loop goes on.
    fn react_to_datagram(&mut self, bytes: &[u8], from: String, now: u64, message_id: String) -> (r: Reaction)
        requires
            old(self).wf(),
        ensures
            final(self).wf(),
            final(self)@ == after_datagram(old(self)@, bytes@, from@, now, message_id@),
            r.proceed,
            events_view(r.events@) == datagram_events(old(self)@, bytes@, from@, now, message_id@),
    {
        let events = self.handle_datagram(bytes, from, now, message_id);
        assert(events_view(events@) =~= datagram_events(old(self)@, bytes@, from@, now, message_id@));
        Reaction { proceed: true, events }
    }

    /// Takes in an event of the session's loops: the record becomes
    /// [`next_state`], the result says whether the loop goes on
    /// ([`proceeds`]) and carries the notices for the interface
    /// ([`notices`]).
    pub fn apply(&mut self, event: SessionEvent, now: u64, message_id: String) -> (r: Reaction)
        requires
            old(self).wf(),
        ensures
            final(self).wf(),
            final(self)@ == next_state(old(self)@, event, now, message_id@),
            final(self)@.session.id == old(self)@.session.id,
            r.proceed == proceeds(event),
            events_view(r.events@) == notices(old(self)@, event, now, message_id@),
    {
        match event {
            SessionEvent::Opened => one_notice(self.link_opened(now), true),
            SessionEvent::OpenFailed(message) => one_notice(
                self.update_status(SessionStatus::Error, Some(message)),
                false,
            ),
            SessionEvent::Shutdown => self.react_to_shutdown(),
            SessionEvent::Data(bytes) => {
                if bytes.len() == 0 {
                    self.react_to_end_of_stream(SessionStatus::Disconnected, None)
                } else {
                    one_notice(self.handle_stream_data(bytes.as_slice(), None, None, now, message_id), true)
                }
            },
            SessionEvent::ReadFailed(message) => self.react_to_end_of_stream(SessionStatus::Error,
                Some(message)),
            SessionEvent::ClientConnected { client_id, addr } => one_notice(
                self.handle_client_connection(client_id, addr, now),
                true,
            ),
            SessionEvent::ClientData { client_id, addr, bytes } => {
                if bytes.len() == 0 {
                    one_notice(self.handle_client_disconnect(client_id.as_str()), false)
                } else {
                    one_notice(
                        self.handle_stream_data(bytes.as_slice(), Some(client_id), Some(addr), now,
                            message_id),
                        true,
                    )
                }
            },
            SessionEvent::ClientReadFailed { client_id } => one_notice(
                self.handle_client_disconnect(client_id.as_str()),
                false,
            ),
            SessionEvent::Datagram { from, bytes } => self.react_to_datagram(bytes.as_slice(), from, now,
                message_id),
            SessionEvent::Sent(n) => {
                self.record_sent(n, now);
                no_notice(true)
            },
            SessionEvent::ClientSent { client_id, bytes } => {
                self.record_client_sent(client_id.as_str(), bytes, now);
                no_notice(true)
            },
            SessionEvent::SendFailed => {
                self.sender_closed();
                no_notice(false)
            },
            SessionEvent::Glitch => no_notice(true),
        }
    }
}

/// The id under which a UDP peer with the address is known: see
/// [`udp_client_id`].
pub fn make_udp_client_id(addr: &str) -> (id: String)
    ensures
        id@ == udp_client_id(addr@),
{
    let chars = to_chars(addr);
    let mut id = String::new();
    push_text(&mut id, "udp-");
    let mut i: usize = 0;
    while i < chars.len()
        invariant
            i <= chars.len(),
            chars@ == addr@,
            id@ == "udp-"@ + dashed(addr@).take(i as int),
        decreases chars.len() - i,
    {
        let c = chars[i];
        if c == ':' || c == '.' {
            id.push('-');
        } else {
            id.push(c);
        }
        assert(dashed(addr@).take(i + 1) =~= dashed(addr@).take(i as int).push(dashed(addr@)[i as int]));
        assert(id@ =~= "udp-"@ + dashed(addr@).take(i + 1));
        i += 1;
    }
    assert(dashed(addr@).take(chars@.len() as int) =~= dashed(addr@));
    id
}

} // verus!
