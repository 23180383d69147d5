//! The registry of sessions and the operations that the interface calls.

use vstd::prelude::*;
use crate::clock::{read_clock, ClockReading};
use crate::error::EngineError;
use crate::netcat::model::{
    bind_addr_of, default_name, dispatched, has_session, kind_of, lemma_session_at,
    lemma_session_ids, new_session, page_limit, page_offset, peer_addr_of, put_session, restored,
    run_current, send_result, session_ids, session_index, sessions_wf, timestamp_of, with_loaded,
    without_session, SessionKind, DEFAULT_PAGE_LIMIT, DEFAULT_TIMEOUT_MS,
};
use crate::netcat::session::model::{
    after_client_gone, after_send, after_start, after_stop, config_of, delivery_bytes, events_view,
    fresh_state, next_state, notices, page, proceeds, sent_message, status_event, Delivery,
    Reaction, SessionEvent, SessionStateView,
};
use crate::netcat::session::state::SessionState;
use crate::netcat::types::{
    AutoSendConfig, ConnectedClient, NetcatEvent, NetcatMessage, NetcatSession, NetcatSessionConfig,
    NetcatSessionInput, NetcatSessionView, Protocol, SendMessageInput, SessionMode, SessionStatus,
};
use crate::text::{format_host_port, opt_view, push_decimal, push_text, str_eq};
use crate::toolbox::ids::{
    generate_id, id_text, id_views, is_lower_hex_text, lemma_id_text_hex, lemma_unused_id,
    unused_id, unused_id_among, IdSource,
};

verus! {

/// The time of a clock reading: see [`timestamp_of`].
pub fn timestamp_from(reading: Option<ClockReading>) -> (t: u64)
    ensures
        t == timestamp_of(reading),
{
    match reading {
        Some(t) => t.millis(),
        None => 0,
    }
}

/// The current time in milliseconds since the Unix epoch: the time of
/// whatever the clock reads now.
pub fn current_timestamp() -> (t: u64)
    ensures
        exists|reading: Option<ClockReading>| t == timestamp_of(reading),
{
    let reading = read_clock();
    let t = timestamp_from(reading);
    assert(t == timestamp_of(reading));
    t
}

/// The kind of a session with the protocol and the mode.
pub fn session_kind(protocol: Protocol, mode: SessionMode) -> (kind: SessionKind)
    ensures
        kind == kind_of(protocol, mode),
{
    match (protocol, mode) {
        (Protocol::Tcp, SessionMode::Client) => SessionKind::TcpClient,
        (Protocol::Tcp, SessionMode::Server) => SessionKind::TcpServer,
        (Protocol::Udp, SessionMode::Client) => SessionKind::UdpClient,
        (Protocol::Udp, SessionMode::Server) => SessionKind::UdpServer,
    }
}

/// What a started session needs from the code that drives its sockets: its
/// kind, the address to bind where it binds one, the address of its peer
/// where it has one, and the time allowed for connecting.
#[derive(Debug)]
pub struct StartPlan {
    pub session_id: String,
    /// The number of the run that begins; its loops carry it.
    pub run: u64,
    /// Whether loops of an earlier run still wait for a shutdown signal.
    pub shutdown_previous: bool,
    pub kind: SessionKind,
    pub bind_addr: Option<String>,
    pub peer_addr: Option<String>,
    pub timeout_ms: u64,
}

/// The session that a stored configuration gives at startup: see
/// [`restored`].
pub fn session_from_config(config: NetcatSessionConfig) -> (session: NetcatSession)
    ensures
        session@ == restored(config@),
{
    NetcatSession {
        id: config.id,
        name: config.name,
        protocol: config.protocol,
        mode: config.mode,
        host: config.host,
        port: config.port,
        status: SessionStatus::Disconnected,
        auto_reconnect: config.auto_reconnect,
        timeout_ms: config.timeout_ms,
        created_at: config.created_at,
        connected_at: None,
        last_activity: None,
        bytes_sent: 0,
        bytes_received: 0,
        message_count: 0,
        error_message: None,
        client_count: 0,
        auto_send: config.auto_send,
    }
}

/// The registry of sessions with their runtime records.
pub struct NetcatState {
    sessions: Vec<SessionState>,
    ids: IdSource,
}

impl View for NetcatState {
    type V = Seq<SessionStateView>;

    closed spec fn view(&self) -> Seq<SessionStateView> {
        Seq::new(self.sessions@.len(), |i: int| self.sessions@[i]@)
    }
}

impl NetcatState {
    /// The serial number of the next id that the registry draws.
    pub closed spec fn issued(&self) -> nat {
        self.ids.issued()
    }

    /// The invariant of the registry: see [`sessions_wf`].
    pub open spec fn wf(&self) -> bool {
        sessions_wf(self@)
    }

    /// A registry without sessions.
    pub fn new() -> (state: Self)
        ensures
            state.wf(),
            state@ == Seq::<SessionStateView>::empty(),
            state.issued() == 0,
    {
        let state = NetcatState { sessions: Vec::new(), ids: IdSource::new() };
        assert(state@ =~= Seq::<SessionStateView>::empty());
        state
    }

    /// The place of the session `id` in the registry.
    fn position(&self, id: &str) -> (r: Option<usize>)
        ensures
            match r {
                Some(i) => i < self@.len() && self@[i as int].session.id == id@,
                None => !has_session(self@, id@),
            },
            self.wf() && r is Some ==> r->0 == session_index(self@, id@) && has_session(self@, id@),
    {
        let mut i: usize = 0;
        while i < self.sessions.len()
            invariant
                i <= self.sessions.len(),
                forall|j: int| 0 <= j < i ==> (#[trigger] self@[j]).session.id != id@,
            decreases self.sessions.len() - i,
        {
            if str_eq(self.sessions[i].session().id.as_str(), id) {
                proof {
                    if self.wf() {
                        lemma_session_at(self@, i as int);
                    }
                }
                return Some(i);
            }
            i += 1;
        }
        None
    }

    /// Enters a record into the registry.
    fn put(&mut self, record: SessionState)
        requires
            old(self).wf(),
            record.wf(),
        ensures
            final(self).wf(),
            final(self).issued() == old(self).issued(),
            final(self)@ == put_session(old(self)@, record@),
    {
        match self.position(record.session().id.as_str()) {
            Some(i) => {
                self.sessions[i] = record;
            },
            None => {
                self.sessions.push(record);
            },
        }
        assert(self@ =~= put_session(old(self)@, record@));
    }

    /// Enters each stored configuration as a session that has not run: see
    /// [`with_loaded`].
    pub fn load_sessions(&mut self, configs: &Vec<NetcatSessionConfig>)
        requires
            old(self).wf(),
        ensures
            final(self).wf(),
            final(self).issued() == old(self).issued(),
            final(self)@ == with_loaded(old(self)@, Seq::new(configs@.len(), |i: int| configs@[i]@)),
    {
        let ghost views = Seq::new(configs@.len(), |i: int| configs@[i]@);
        let mut i: usize = 0;
        while i < configs.len()
            invariant
                self.wf(),
                self.issued() == old(self).issued(),
                i <= configs@.len(),
                views == Seq::new(configs@.len(), |i: int| configs@[i]@),
                self@ == with_loaded(old(self)@, views.take(i as int)),
            decreases configs.len() - i,
        {
            assert(views.take(i + 1).drop_last() =~= views.take(i as int));
            self.put(SessionState::new(session_from_config(configs[i].clone())));
            i += 1;
        }
        assert(views.take(views.len() as int) =~= views);
    }

    /// The configurations of all sessions, in the order of the registry.
    pub fn session_configs(&self) -> (configs: Vec<NetcatSessionConfig>)
        ensures
            configs@.len() == self@.len(),
            forall|i: int| 0 <= i < configs@.len()
                ==> (#[trigger] configs@[i])@ == config_of(self@[i].session),
    {
        let mut configs: Vec<NetcatSessionConfig> = Vec::new();
        let mut i: usize = 0;
        while i < self.sessions.len()
            invariant
                i <= self.sessions.len(),
                configs@.len() == i,
                forall|j: int| 0 <= j < i ==> (#[trigger] configs@[j])@ == config_of(self@[j].session),
            decreases self.sessions.len() - i,
        {
            configs.push(self.sessions[i].to_config());
            i += 1;
        }
        configs
    }

    /// Creates the session that `input` describes under the given id and
    /// creation time: see [`new_session`]. It takes the place of a session
    /// with the same id, if there is one.
    pub fn create_session_with(
        &mut self,
        input: NetcatSessionInput,
        id: String,
        now: u64,
    ) -> (session: NetcatSession)
        requires
            old(self).wf(),
        ensures
            final(self).wf(),
            final(self).issued() == old(self).issued(),
            session@ == new_session(input, id@, now),
            final(self)@ == put_session(old(self)@, fresh_state(new_session(input, id@, now))),
    {
        let name = match input.name {
            Some(name) => name,
            None => {
                let mut name = String::new();
                push_text(
                    &mut name,
                    match input.protocol {
                        Protocol::Tcp => "TCP",
                        Protocol::Udp => "UDP",
                    },
                );
                name.push(' ');
                push_text(
                    &mut name,
                    match input.mode {
                        SessionMode::Client => "Client",
                        SessionMode::Server => "Server",
                    },
                );
                name.push(' ');
                push_text(&mut name, input.host.as_str());
                name.push(':');
                push_decimal(&mut name, input.port as u64);
                assert(name@ =~= default_name(input.protocol, input.mode, input.host@, input.port));
                name
            },
        };
        let session = NetcatSession {
            id,
            name,
            protocol: input.protocol,
            mode: input.mode,
            host: input.host,
            port: input.port,
            status: SessionStatus::Disconnected,
            auto_reconnect: match input.auto_reconnect {
                Some(b) => b,
                None => false,
            },
            timeout_ms: match input.timeout_ms {
                Some(t) => t,
                None => DEFAULT_TIMEOUT_MS,
            },
            created_at: now,
            connected_at: None,
            last_activity: None,
            bytes_sent: 0,
            bytes_received: 0,
            message_count: 0,
            error_message: None,
            client_count: 0,
            auto_send: None,
        };
        self.put(SessionState::new(session.clone()));
        session
    }

    /// The ids of the sessions, in the order of the registry.
    fn session_id_list(&self) -> (ids: Vec<String>)
        ensures
            id_views(ids@) == session_ids(self@),
    {
        let mut ids: Vec<String> = Vec::new();
        let mut i: usize = 0;
        while i < self.sessions.len()
            invariant
                i <= self.sessions.len(),
                ids@.len() == i,
                forall|j: int| 0 <= j < i ==> (#[trigger] ids@[j])@ == self@[j].session.id,
            decreases self.sessions.len() - i,
        {
            ids.push(self.sessions[i].session().id.clone());
            i += 1;
        }
        assert(id_views(ids@) =~= session_ids(self@));
        ids
    }

    /// Creates a session from `input` with a fresh id and the current time.
    /// The id is drawn from the registry's source and is the id of no
    /// session in the registry, so the new session stands at the end of the
    /// registry and every other session is as it was.
    pub fn netcat_create_session(&mut self, input: NetcatSessionInput) -> (session: NetcatSession)
        requires
            old(self).wf(),
        ensures
            final(self).wf(),
            final(self).issued() == old(self).issued() + 1,
            session@ == new_session(input, session@.id, session@.created_at),
            is_lower_hex_text(session@.id),
            !has_session(old(self)@, session@.id),
            exists|reading: Option<ClockReading>|
                session@.id == unused_id(session_ids(old(self)@), id_text(reading, old(self).issued())),
            exists|reading: Option<ClockReading>| session@.created_at == timestamp_of(reading),
            final(self)@ == old(self)@.push(fresh_state(session@)),
    {
        let now = current_timestamp();
        let candidate = generate_id(&mut self.ids);
        let ghost drawn = candidate@;
        let in_use = self.session_id_list();
        let id = unused_id_among(candidate, &in_use);
        proof {
            let reading = choose|reading: Option<ClockReading>| drawn == id_text(reading, old(self).issued());
            lemma_id_text_hex(reading, old(self).issued());
            lemma_unused_id(id_views(in_use@), drawn);
            assert(id@ == unused_id(session_ids(old(self)@), id_text(reading, old(self).issued())));
            lemma_session_ids(old(self)@, id@);
        }
        self.create_session_with(input, id, now)
    }

    /// Begins a run of the session `id`: see [`after_start`]. The result
    /// says which kind of session is to be driven, where it binds, whom it
    /// reaches, and whether loops of an earlier run are to be shut down.
    /// Fails where no such session exists.
    pub fn netcat_start_session(&mut self, id: &str) -> (r: Result<(StartPlan, NetcatEvent), EngineError>)
        requires
            old(self).wf(),
        ensures
            final(self).wf(),
            final(self).issued() == old(self).issued(),
            r is Ok <==> has_session(old(self)@, id@),
            r is Err ==> r->Err_0 == EngineError::SessionNotFound && final(self)@ == old(self)@,
            r is Ok ==> {
                let i = session_index(old(self)@, id@);
                let before = old(self)@[i];
                let plan = r->Ok_0.0;
                &&& final(self)@ == old(self)@.update(i, after_start(before))
                &&& r->Ok_0.1@ == status_event(before, SessionStatus::Connecting, None)
                &&& plan.session_id@ == id@
                &&& plan.run == after_start(before).run
                &&& plan.shutdown_previous == before.shutdown_armed
                &&& plan.kind == kind_of(before.session.protocol, before.session.mode)
                &&& opt_view(plan.bind_addr) == bind_addr_of(before.session)
                &&& opt_view(plan.peer_addr) == peer_addr_of(before.session)
                &&& plan.timeout_ms == before.session.timeout_ms
            },
    {
        let i = match self.position(id) {
            Some(i) => i,
            None => {
                return Err(EngineError::SessionNotFound);
            },
        };
        let session = self.sessions[i].session();
        let kind = session_kind(session.protocol, session.mode);
        let address = format_host_port(session.host.as_str(), session.port);
        let (bind_addr, peer_addr) = match kind {
            SessionKind::TcpClient => (None, Some(address)),
            SessionKind::TcpServer => (Some(address), None),
            SessionKind::UdpClient => (Some("0.0.0.0:0".to_string()), Some(address)),
            SessionKind::UdpServer => (Some(address), None),
        };
        let session_id = session.id.clone();
        let timeout_ms = session.timeout_ms;
        let (run, shutdown_previous, event) = self.sessions[i].start();
        assert(self@ =~= old(self)@.update(i as int, after_start(old(self)@[i as int])));
        let plan = StartPlan { session_id, run, shutdown_previous, kind, bind_addr, peer_addr, timeout_ms };
        Ok((plan, event))
    }

    /// Stops the session `id`: see [`after_stop`]. Says whether its loops
    /// waited for a shutdown signal, which the caller then sends. Fails
    /// where no such session exists.
    pub fn netcat_stop_session(&mut self, id: &str) -> (r: Result<bool, EngineError>)
        requires
            old(self).wf(),
        ensures
            final(self).wf(),
            final(self).issued() == old(self).issued(),
            r is Ok <==> has_session(old(self)@, id@),
            r is Err ==> r->Err_0 == EngineError::SessionNotFound && final(self)@ == old(self)@,
            r is Ok ==> {
                let i = session_index(old(self)@, id@);
                &&& final(self)@ == old(self)@.update(i, after_stop(old(self)@[i]))
                &&& r->Ok_0 == old(self)@[i].shutdown_armed
            },
    {
        let i = match self.position(id) {
            Some(i) => i,
            None => {
                return Err(EngineError::SessionNotFound);
            },
        };
        let signal = self.sessions[i].stop();
        assert(self@ =~= old(self)@.update(i as int, after_stop(old(self)@[i as int])));
        Ok(signal)
    }

    /// Stops and removes the session `id`. Says whether its loops waited for
    /// a shutdown signal. Without such a session nothing changes.
    pub fn netcat_remove_session(&mut self, id: &str) -> (signal: bool)
        requires
            old(self).wf(),
        ensures
            final(self).wf(),
            final(self).issued() == old(self).issued(),
            final(self)@ == without_session(old(self)@, id@),
            signal == (has_session(old(self)@, id@)
                && old(self)@[session_index(old(self)@, id@)].shutdown_armed),
    {
        match self.position(id) {
            Some(i) => {
                let mut record = self.sessions.remove(i);
                assert(self@ =~= without_session(old(self)@, id@));
                record.stop()
            },
            None => false,
        }
    }

    /// Replaces the auto-send configuration of the session `id`. Fails where
    /// no such session exists.
    pub fn netcat_update_auto_send(
        &mut self,
        id: &str,
        config: AutoSendConfig,
    ) -> (r: Result<(), EngineError>)
        requires
            old(self).wf(),
        ensures
            final(self).wf(),
            final(self).issued() == old(self).issued(),
            r is Ok <==> has_session(old(self)@, id@),
            r is Err ==> r->Err_0 == EngineError::SessionNotFound && final(self)@ == old(self)@,
            r is Ok ==> {
                let i = session_index(old(self)@, id@);
                final(self)@ == old(self)@.update(
                    i,
                    SessionStateView {
                        session: NetcatSessionView { auto_send: Some(config@), ..old(self)@[i].session },
                        ..old(self)@[i]
                    },
                )
            },
    {
        let i = match self.position(id) {
            Some(i) => i,
            None => {
                return Err(EngineError::SessionNotFound);
            },
        };
        self.sessions[i].set_auto_send(config);
        assert(self@ =~= old(self)@.update(
            i as int,
            SessionStateView {
                session: NetcatSessionView { auto_send: Some(config@), ..old(self)@[i as int].session },
                ..old(self)@[i as int]
            },
        ));
        Ok(())
    }

    /// Sends a payload on the session that `input` names, with the given id
    /// and time for its log entry. Fails where no such session exists, where
    /// the payload cannot be decoded, and where it has nowhere to go; a
    /// failed send changes nothing and logs nothing. Returns the log entry
    /// and what is to be done with the bytes.
    ///
    /// The entry is logged before the bytes leave. A caller whose delivery
    /// can fail plans first ([`plan_message`](Self::plan_message)) and logs
    /// once the bytes have left ([`record_sent`](Self::record_sent)).
    pub fn send_message_with(
        &mut self,
        input: SendMessageInput,
        message_id: String,
        now: u64,
    ) -> (r: Result<(NetcatMessage, Delivery), EngineError>)
        requires
            old(self).wf(),
        ensures
            final(self).wf(),
            final(self).issued() == old(self).issued(),
            match send_result(old(self)@, input) {
                Ok(d) => {
                    let i = session_index(old(self)@, input.session_id@);
                    let m = sent_message(
                        input.session_id@,
                        input.data@,
                        input.format,
                        delivery_bytes(d).len(),
                        opt_view(input.target_client),
                        now,
                        message_id@,
                    );
                    &&& r is Ok
                    &&& r->Ok_0.0@ == m
                    &&& r->Ok_0.1@ == d
                    &&& final(self)@ == old(self)@.update(i, after_send(old(self)@[i], m, now))
                },
                Err(e) => r == Err::<(NetcatMessage, Delivery), EngineError>(e) && final(self)@ == old(self)@,
            },
    {
        let i = match self.position(input.session_id.as_str()) {
            Some(i) => i,
            None => {
                return Err(EngineError::SessionNotFound);
            },
        };
        let broadcast = match input.broadcast {
            Some(b) => b,
            None => false,
        };
        let ghost before = old(self)@[i as int];
        let r = self.sessions[i].send(input.data, input.format, input.target_client, broadcast, now,
            message_id);
        proof {
            if r is Ok {
                assert(self@ =~= old(self)@.update(i as int, self@[i as int]));
            } else {
                assert(self@ =~= old(self)@);
            }
        }
        r
    }

    /// Sends a payload with a fresh id and the current time for its log
    /// entry: see [`send_message_with`](Self::send_message_with). Whether
    /// the send fails, and why, depends on the input and the registry alone.
    pub fn netcat_send_message(
        &mut self,
        input: SendMessageInput,
    ) -> (r: Result<(NetcatMessage, Delivery), EngineError>)
        requires
            old(self).wf(),
        ensures
            final(self).wf(),
            final(self).issued() == old(self).issued() + 1,
            match send_result(old(self)@, input) {
                Ok(d) => {
                    let i = session_index(old(self)@, input.session_id@);
                    let m = sent_message(
                        input.session_id@,
                        input.data@,
                        input.format,
                        delivery_bytes(d).len(),
                        opt_view(input.target_client),
                        r->Ok_0.0@.timestamp,
                        r->Ok_0.0@.id,
                    );
                    &&& r is Ok
                    &&& r->Ok_0.0@ == m
                    &&& r->Ok_0.1@ == d
                    &&& exists|reading: Option<ClockReading>| m.id == id_text(reading, old(self).issued())
                    &&& final(self)@ == old(self)@.update(i, after_send(old(self)@[i], m, m.timestamp))
                },
                Err(e) => r == Err::<(NetcatMessage, Delivery), EngineError>(e) && final(self)@ == old(self)@,
            },
    {
        let now = current_timestamp();
        let message_id = generate_id(&mut self.ids);
        let ghost drawn = message_id@;
        let r = self.send_message_with(input, message_id, now);
        proof {
            if r is Ok {
                let reading = choose|reading: Option<ClockReading>|
                    drawn == id_text(reading, old(self).issued());
                assert(r->Ok_0.0@.id == id_text(reading, old(self).issued()));
            }
        }
        r
    }

    /// Decides what is to be done with the payload that `input` gives,
    /// without doing or logging anything: see [`send_result`].
    pub fn plan_message(&self, input: &SendMessageInput) -> (r: Result<Delivery, EngineError>)
        requires
            self.wf(),
        ensures
            match send_result(self@, *input) {
                Ok(d) => r is Ok && r->Ok_0@ == d,
                Err(e) => r == Err::<Delivery, EngineError>(e),
            },
    {
        let i = match self.position(input.session_id.as_str()) {
            Some(i) => i,
            None => {
                return Err(EngineError::SessionNotFound);
            },
        };
        let broadcast = match input.broadcast {
            Some(b) => b,
            None => false,
        };
        self.sessions[i].plan(input.data.as_str(), input.format, &input.target_client, broadcast)
    }

    /// Logs the payload that `input` gives as sent, `size` bytes at the
    /// time `now`, under the given id: what a caller does once the bytes of
    /// a planned delivery have left. Fails, and changes nothing, where no
    /// session has the id that the input names.
    pub fn record_sent_with(
        &mut self,
        input: SendMessageInput,
        size: usize,
        message_id: String,
        now: u64,
    ) -> (r: Result<NetcatMessage, EngineError>)
        requires
            old(self).wf(),
        ensures
            final(self).wf(),
            final(self).issued() == old(self).issued(),
            r is Ok <==> has_session(old(self)@, input.session_id@),
            r is Err ==> r->Err_0 == EngineError::SessionNotFound && final(self)@ == old(self)@,
            r is Ok ==> {
                let i = session_index(old(self)@, input.session_id@);
                let m = sent_message(
                    input.session_id@,
                    input.data@,
                    input.format,
                    size as nat,
                    opt_view(input.target_client),
                    now,
                    message_id@,
                );
                &&& r->Ok_0@ == m
                &&& final(self)@ == old(self)@.update(i, after_send(old(self)@[i], m, now))
            },
    {
        let i = match self.position(input.session_id.as_str()) {
            Some(i) => i,
            None => {
                return Err(EngineError::SessionNotFound);
            },
        };
        let message = self.sessions[i].log_sent(
            input.data,
            input.format,
            size,
            input.target_client,
            now,
            message_id,
        );
        assert(self@ =~= old(self)@.update(i as int, self@[i as int]));
        Ok(message)
    }

    /// Logs the payload that `input` gives as sent, with a fresh id and the
    /// current time: see [`record_sent_with`](Self::record_sent_with).
    pub fn record_sent(
        &mut self,
        input: SendMessageInput,
        size: usize,
    ) -> (r: Result<NetcatMessage, EngineError>)
        requires
            old(self).wf(),
        ensures
            final(self).wf(),
            final(self).issued() == old(self).issued() + 1,
            r is Ok <==> has_session(old(self)@, input.session_id@),
            r is Err ==> r->Err_0 == EngineError::SessionNotFound && final(self)@ == old(self)@,
            r is Ok ==> {
                let i = session_index(old(self)@, input.session_id@);
                let m = sent_message(
                    input.session_id@,
                    input.data@,
                    input.format,
                    size as nat,
                    opt_view(input.target_client),
                    r->Ok_0@.timestamp,
                    r->Ok_0@.id,
                );
                &&& r->Ok_0@ == m
                &&& exists|reading: Option<ClockReading>| m.id == id_text(reading, old(self).issued())
                &&& final(self)@ == old(self)@.update(i, after_send(old(self)@[i], m, m.timestamp))
            },
    {
        let now = current_timestamp();
        let message_id = generate_id(&mut self.ids);
        let ghost drawn = message_id@;
        let r = self.record_sent_with(input, size, message_id, now);
        proof {
            if r is Ok {
                let reading = choose|reading: Option<ClockReading>|
                    drawn == id_text(reading, old(self).issued());
                assert(r->Ok_0@.id == id_text(reading, old(self).issued()));
            }
        }
        r
    }

    /// A fresh id from the registry's source, for a client that has
    /// connected: it differs from every id that the registry has drawn
    /// since its count last began.
    pub fn fresh_id(&mut self) -> (id: String)
        requires
            old(self).wf(),
        ensures
            final(self).wf(),
            final(self)@ == old(self)@,
            final(self).issued() == old(self).issued() + 1,
            is_lower_hex_text(id@),
            exists|reading: Option<ClockReading>| id@ == id_text(reading, old(self).issued()),
    {
        generate_id(&mut self.ids)
    }

    /// All sessions, in the order of the registry.
    pub fn netcat_get_sessions(&self) -> (list: Vec<NetcatSession>)
        ensures
            list@.len() == self@.len(),
            forall|i: int| 0 <= i < list@.len() ==> (#[trigger] list@[i])@ == self@[i].session,
    {
        let mut list: Vec<NetcatSession> = Vec::new();
        let mut i: usize = 0;
        while i < self.sessions.len()
            invariant
                i <= self.sessions.len(),
                list@.len() == i,
                forall|j: int| 0 <= j < i ==> (#[trigger] list@[j])@ == self@[j].session,
            decreases self.sessions.len() - i,
        {
            list.push(self.sessions[i].session().clone());
            i += 1;
        }
        list
    }

    /// The session `id`. Fails where no such session exists.
    pub fn netcat_get_session(&self, id: &str) -> (r: Result<NetcatSession, EngineError>)
        requires
            self.wf(),
        ensures
            r is Ok <==> has_session(self@, id@),
            r is Err ==> r->Err_0 == EngineError::SessionNotFound,
            r is Ok ==> r->Ok_0@ == self@[session_index(self@, id@)].session,
    {
        match self.position(id) {
            Some(i) => Ok(self.sessions[i].session().clone()),
            None => Err(EngineError::SessionNotFound),
        }
    }

    /// A page of the message log of the session `id`, the newest message
    /// first: `offset` messages are passed over (none where it is absent),
    /// at most `limit` are returned (a hundred where it is absent). Fails
    /// where no such session exists.
    pub fn netcat_get_messages(
        &self,
        id: &str,
        limit: Option<usize>,
        offset: Option<usize>,
    ) -> (r: Result<Vec<NetcatMessage>, EngineError>)
        requires
            self.wf(),
        ensures
            r is Ok <==> has_session(self@, id@),
            r is Err ==> r->Err_0 == EngineError::SessionNotFound,
            r is Ok ==> {
                let want = page(
                    self@[session_index(self@, id@)].messages,
                    page_limit(limit) as nat,
                    page_offset(offset) as nat,
                );
                &&& r->Ok_0@.len() == want.len()
                &&& forall|k: int| 0 <= k < want.len() ==> (#[trigger] r->Ok_0@[k])@ == want[k]
            },
    {
        let i = match self.position(id) {
            Some(i) => i,
            None => {
                return Err(EngineError::SessionNotFound);
            },
        };
        let offset = match offset {
            Some(n) => n,
            None => 0,
        };
        let limit = match limit {
            Some(n) => n,
            None => DEFAULT_PAGE_LIMIT,
        };
        Ok(self.sessions[i].messages_page(limit, offset))
    }

    /// The connected clients of the session `id`. Fails where no such
    /// session exists.
    pub fn netcat_get_clients(&self, id: &str) -> (r: Result<Vec<ConnectedClient>, EngineError>)
        requires
            self.wf(),
        ensures
            r is Ok <==> has_session(self@, id@),
            r is Err ==> r->Err_0 == EngineError::SessionNotFound,
            r is Ok ==> {
                let want = self@[session_index(self@, id@)].clients;
                &&& r->Ok_0@.len() == want.len()
                &&& forall|k: int| 0 <= k < want.len() ==> (#[trigger] r->Ok_0@[k])@ == want[k]
            },
    {
        match self.position(id) {
            Some(i) => Ok(self.sessions[i].clients()),
            None => Err(EngineError::SessionNotFound),
        }
    }

    /// Empties the message log of the session `id`. Fails where no such
    /// session exists.
    pub fn netcat_clear_messages(&mut self, id: &str) -> (r: Result<(), EngineError>)
        requires
            old(self).wf(),
        ensures
            final(self).wf(),
            final(self).issued() == old(self).issued(),
            r is Ok <==> has_session(old(self)@, id@),
            r is Err ==> r->Err_0 == EngineError::SessionNotFound && final(self)@ == old(self)@,
            r is Ok ==> {
                let i = session_index(old(self)@, id@);
                final(self)@ == old(self)@.update(i, SessionStateView { messages: Seq::empty(),
                    ..old(self)@[i] })
            },
    {
        let i = match self.position(id) {
            Some(i) => i,
            None => {
                return Err(EngineError::SessionNotFound);
            },
        };
        self.sessions[i].clear_messages();
        assert(self@ =~= old(self)@.update(
            i as int,
            SessionStateView { messages: Seq::empty(), ..old(self)@[i as int] },
        ));
        Ok(())
    }

    /// Takes the client `client_id` out of the table of the session
    /// `session_id`. Without such a session nothing changes.
    pub fn netcat_disconnect_client(&mut self, session_id: &str, client_id: &str)
        requires
            old(self).wf(),
        ensures
            final(self).wf(),
            final(self).issued() == old(self).issued(),
            final(self)@ == if has_session(old(self)@, session_id@) {
                let i = session_index(old(self)@, session_id@);
                old(self)@.update(i, after_client_gone(old(self)@[i], client_id@))
            } else {
                old(self)@
            },
    {
        match self.position(session_id) {
            Some(i) => {
                let _ = self.sessions[i].handle_client_disconnect(client_id);
                assert(self@ =~= old(self)@.update(
                    i as int,
                    after_client_gone(old(self)@[i as int], client_id@),
                ));
            },
            None => {},
        }
    }

    /// The number of the last start of the session `id`.
    pub fn session_run(&self, id: &str) -> (r: Option<u64>)
        requires
            self.wf(),
        ensures
            r is Some <==> has_session(self@, id@),
            r is Some ==> r->0 == self@[session_index(self@, id@)].run,
    {
        match self.position(id) {
            Some(i) => Some(self.sessions[i].run()),
            None => None,
        }
    }

    /// Hands an event that a loop of the run `run` of the session `id` has
    /// seen to the session's record, with the given time and the id for a
    /// log entry: see [`SessionState::apply`]. `None` where no such session
    /// exists or the session was started anew since; nothing changes then,
    /// and the loop that asked ends.
    pub fn dispatch_with(
        &mut self,
        id: &str,
        run: u64,
        event: SessionEvent,
        now: u64,
        message_id: String,
    ) -> (r:
        Option<Reaction>)
        requires
            old(self).wf(),
        ensures
            final(self).wf(),
            final(self).issued() == old(self).issued(),
            r is Some <==> run_current(old(self)@, id@, run),
            r is None ==> final(self)@ == old(self)@,
            r is Some ==> {
                let i = session_index(old(self)@, id@);
                &&& final(self)@ == old(self)@.update(i, next_state(old(self)@[i], event, now, message_id@))
                &&& r->0.proceed == proceeds(event)
                &&& events_view(r->0.events@) == notices(old(self)@[i], event, now, message_id@)
            },
    {
        let i = match self.position(id) {
            Some(i) => i,
            None => {
                return None;
            },
        };
        if self.sessions[i].run() != run {
            return None;
        }
        let reaction = self.sessions[i].apply(event, now, message_id);
        assert(self@ =~= old(self)@.update(i as int, next_state(old(self)@[i as int], event, now,
            message_id@)));
        Some(reaction)
    }

    /// Hands an event that a loop of the run `run` of the session `id` has
    /// seen to the session's record, with the current time and a fresh id
    /// for a log entry. `None` where no such session exists or the session
    /// was started anew since.
    pub fn dispatch(&mut self, id: &str, run: u64, event: SessionEvent) -> (r: Option<Reaction>)
        requires
            old(self).wf(),
        ensures
            final(self).wf(),
            final(self).issued() == old(self).issued() + 1,
            r is Some <==> run_current(old(self)@, id@, run),
            r is None ==> final(self)@ == old(self)@,
            r is Some ==> r->0.proceed == proceeds(event),
            r is Some ==> exists|now: u64, reading: Option<ClockReading>|
                dispatched(
                    old(self)@,
                    final(self)@,
                    id@,
                    event,
                    now,
                    id_text(reading, old(self).issued()),
                    events_view(r->0.events@),
                ),
    {
        let now = current_timestamp();
        let message_id = generate_id(&mut self.ids);
        let ghost drawn = message_id@;
        let r = self.dispatch_with(id, run, event, now, message_id);
        proof {
            if r is Some {
                let reading = choose|reading: Option<ClockReading>|
                    drawn == id_text(reading, old(self).issued());
                assert(dispatched(
                    old(self)@,
                    self@,
                    id@,
                    event,
                    now,
                    id_text(reading, old(self).issued()),
                    events_view(r->0.events@),
                ));
            }
        }
        r
    }
}

} // verus!
