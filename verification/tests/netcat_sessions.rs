use codeshelf::error::{EngineError, ErrorKind};
use codeshelf::netcat::session::{make_udp_client_id, Delivery, SessionEvent, SessionState, MESSAGE_CAP};
use codeshelf::netcat::types::{
    AutoSendConfig, DataFormat, MessageDirection, NetcatEvent, NetcatSessionConfig, NetcatSessionInput,
        Protocol,
    SendMessageInput, SessionMode, SessionStatus,
};
use codeshelf::netcat::{current_timestamp, session_from_config, session_kind, NetcatState, SessionKind};

fn input(protocol: Protocol, mode: SessionMode, host: &str, port: u16) -> NetcatSessionInput {
    NetcatSessionInput {
        protocol,
        mode,
        host: host.to_string(),
        port,
        name: None,
        auto_reconnect: None,
        timeout_ms: None,
    }
}

fn create(state: &mut NetcatState, id: &str, protocol: Protocol, mode: SessionMode, port: u16) {
    state.create_session_with(input(protocol, mode, "127.0.0.1", port), id.to_string(), 1000);
}

fn send(id: &str, data: &str, format: DataFormat, target: Option<&str>,
    broadcast: Option<bool>) -> SendMessageInput {
    SendMessageInput {
        session_id: id.to_string(),
        data: data.to_string(),
        format,
        target_client: target.map(|t| t.to_string()),
        broadcast,
    }
}

fn run_of(state: &NetcatState, id: &str) -> u64 {
    state.session_run(id).unwrap_or(0)
}

fn open(state: &mut NetcatState, id: &str, now: u64) {
    state.dispatch_with(id, run_of(&state, id), SessionEvent::Opened, now, "unused".to_string()).unwrap();
}

#[test]
fn created_session_has_defaults() {
    let mut state = NetcatState::new();
    let s = state.create_session_with(input(Protocol::Tcp, SessionMode::Client, "10.0.0.1", 8080),
        "s1".to_string(), 42);
    assert_eq!(s.id, "s1");
    assert_eq!(s.name, "TCP Client 10.0.0.1:8080");
    assert_eq!(s.protocol, Protocol::Tcp);
    assert_eq!(s.mode, SessionMode::Client);
    assert_eq!(s.host, "10.0.0.1");
    assert_eq!(s.port, 8080);
    assert_eq!(s.status, SessionStatus::Disconnected);
    assert!(!s.auto_reconnect);
    assert_eq!(s.timeout_ms, 5000);
    assert_eq!(s.created_at, 42);
    assert_eq!(s.connected_at, None);
    assert_eq!(s.last_activity, None);
    assert_eq!((s.bytes_sent, s.bytes_received, s.message_count, s.client_count), (0, 0, 0, 0));
    assert_eq!(s.error_message, None);
    assert!(s.auto_send.is_none());
    assert_eq!(state.netcat_get_sessions().len(), 1);
    assert_eq!(state.netcat_get_session("s1").unwrap().name, "TCP Client 10.0.0.1:8080");
}

#[test]
fn default_names_tell_protocol_and_mode() {
    let mut state = NetcatState::new();
    let s = state.create_session_with(input(Protocol::Udp, SessionMode::Server, "0.0.0.0", 19000),
        "a".to_string(), 1);
    assert_eq!(s.name, "UDP Server 0.0.0.0:19000");
    let s = state.create_session_with(input(Protocol::Udp, SessionMode::Client, "h", 0), "b".to_string(), 1);
    assert_eq!(s.name, "UDP Client h:0");
    let s = state.create_session_with(input(Protocol::Tcp, SessionMode::Server, "", 65535),
        "c".to_string(), 1);
    assert_eq!(s.name, "TCP Server :65535");
}

#[test]
fn given_name_and_options_are_kept() {
    let mut state = NetcatState::new();
    let mut i = input(Protocol::Tcp, SessionMode::Client, "h", 1);
    i.name = Some("mine".to_string());
    i.auto_reconnect = Some(true);
    i.timeout_ms = Some(250);
    let s = state.create_session_with(i, "a".to_string(), 1);
    assert_eq!(s.name, "mine");
    assert!(s.auto_reconnect);
    assert_eq!(s.timeout_ms, 250);
}

#[test]
fn netcat_create_session_uses_the_clock() {
    let mut state = NetcatState::new();
    let before = current_timestamp();
    let s = state.netcat_create_session(input(Protocol::Tcp, SessionMode::Client, "h", 1));
    assert!(!s.id.is_empty());
    assert!(s.id.chars().all(|c| c.is_ascii_digit() || ('a'..='f').contains(&c)));
    let other = state.netcat_create_session(input(Protocol::Tcp, SessionMode::Client, "h", 1));
    assert!(other.id != s.id);
    assert_eq!(state.netcat_get_sessions().len(), 2);
    assert!(state.fresh_id() != state.fresh_id());
    assert!(s.created_at >= before);
    assert!(s.created_at > 1_600_000_000_000);
    assert_eq!(state.netcat_get_session(&s.id).unwrap().created_at, s.created_at);
}

#[test]
fn kinds_follow_protocol_and_mode() {
    assert_eq!(session_kind(Protocol::Tcp, SessionMode::Client), SessionKind::TcpClient);
    assert_eq!(session_kind(Protocol::Tcp, SessionMode::Server), SessionKind::TcpServer);
    assert_eq!(session_kind(Protocol::Udp, SessionMode::Client), SessionKind::UdpClient);
    assert_eq!(session_kind(Protocol::Udp, SessionMode::Server), SessionKind::UdpServer);
}

#[test]
fn start_sets_connecting_and_plans_by_kind() {
    let mut state = NetcatState::new();
    create(&mut state, "tc", Protocol::Tcp, SessionMode::Client, 1);
    create(&mut state, "ts", Protocol::Tcp, SessionMode::Server, 2);
    create(&mut state, "uc", Protocol::Udp, SessionMode::Client, 3);
    create(&mut state, "us", Protocol::Udp, SessionMode::Server, 4);

    let (plan, event) = state.netcat_start_session("tc").unwrap();
    assert_eq!(plan.session_id, "tc");
    assert_eq!(plan.kind, SessionKind::TcpClient);
    assert_eq!(plan.bind_addr, None);
    assert_eq!(plan.peer_addr, Some("127.0.0.1:1".to_string()));
    assert_eq!(plan.timeout_ms, 5000);
    match event {
        NetcatEvent::StatusChanged { session_id, status, error } => {
            assert_eq!(session_id, "tc");
            assert_eq!(status, SessionStatus::Connecting);
            assert_eq!(error, None);
        }
        _ => panic!("a status notice was expected"),
    }
    assert_eq!(state.netcat_get_session("tc").unwrap().status, SessionStatus::Connecting);

    let (plan, _) = state.netcat_start_session("ts").unwrap();
    assert_eq!(plan.kind, SessionKind::TcpServer);
    assert_eq!(plan.bind_addr, Some("127.0.0.1:2".to_string()));
    assert_eq!(plan.peer_addr, None);

    let (plan, _) = state.netcat_start_session("uc").unwrap();
    assert_eq!(plan.kind, SessionKind::UdpClient);
    assert_eq!(plan.bind_addr, Some("0.0.0.0:0".to_string()));
    assert_eq!(plan.peer_addr, Some("127.0.0.1:3".to_string()));

    let (plan, _) = state.netcat_start_session("us").unwrap();
    assert_eq!(plan.kind, SessionKind::UdpServer);
    assert_eq!(plan.bind_addr, Some("127.0.0.1:4".to_string()));
    assert_eq!(plan.peer_addr, None);

    assert_eq!(state.netcat_start_session("zz").unwrap_err(), EngineError::SessionNotFound);
}

#[test]
fn opening_follows_the_state_machine() {
    let mut state = NetcatState::new();
    create(&mut state, "tc", Protocol::Tcp, SessionMode::Client, 1);
    create(&mut state, "ts", Protocol::Tcp, SessionMode::Server, 2);
    create(&mut state, "uc", Protocol::Udp, SessionMode::Client, 3);
    create(&mut state, "us", Protocol::Udp, SessionMode::Server, 4);
    for id in ["tc", "ts", "uc", "us"] {
        let (plan, _) = state.netcat_start_session(id).unwrap();
        assert_eq!(plan.run, 1);
        assert!(!plan.shutdown_previous);
        assert_eq!(state.netcat_get_session(id).unwrap().status, SessionStatus::Connecting);
        let r = state.dispatch_with(id, plan.run, SessionEvent::Opened, 7, "m".to_string()).unwrap();
        assert!(r.proceed);
        assert_eq!(r.events.len(), 1);
    }
    let tc = state.netcat_get_session("tc").unwrap();
    assert_eq!(tc.status, SessionStatus::Connected);
    assert_eq!(tc.connected_at, Some(7));
    assert_eq!(tc.last_activity, Some(7));
    let ts = state.netcat_get_session("ts").unwrap();
    assert_eq!(ts.status, SessionStatus::Listening);
    assert_eq!(ts.connected_at, Some(7));
    assert_eq!(ts.last_activity, None);
    let uc = state.netcat_get_session("uc").unwrap();
    assert_eq!(uc.status, SessionStatus::Connected);
    assert_eq!(uc.last_activity, Some(7));
    let us = state.netcat_get_session("us").unwrap();
    assert_eq!(us.status, SessionStatus::Listening);
    assert_eq!(us.connected_at, Some(7));
}

#[test]
fn what_an_earlier_run_tells_is_not_taken_in() {
    let mut state = NetcatState::new();
    create(&mut state, "ts", Protocol::Tcp, SessionMode::Server, 2);
    let (first, _) = state.netcat_start_session("ts").unwrap();
    state.dispatch_with("ts", first.run, SessionEvent::Opened, 5, "m".to_string()).unwrap();
    state
        .dispatch_with(
            "ts",
            first.run,
            SessionEvent::ClientConnected { client_id: "c1".to_string(), addr: "a".to_string() },
            6,
            "m".to_string(),
        )
        .unwrap();
    assert_eq!(state.netcat_stop_session("ts"), Ok(true));
    let (second, _) = state.netcat_start_session("ts").unwrap();
    assert_eq!(second.run, 2);
    assert!(!second.shutdown_previous);
    assert!(state.netcat_get_clients("ts").unwrap().is_empty());
    state.dispatch_with("ts", second.run, SessionEvent::Opened, 7, "m".to_string()).unwrap();
    assert!(state.dispatch_with("ts", first.run, SessionEvent::Shutdown, 8, "m".to_string()).is_none());
    assert!(state.dispatch("ts", first.run, SessionEvent::Glitch).is_none());
    let s = state.netcat_get_session("ts").unwrap();
    assert_eq!(s.status, SessionStatus::Listening);
    let r = state.send_message_with(send("ts", "x", DataFormat::Text, None, Some(true)), "m".to_string(), 9);
    assert_eq!(r.unwrap_err(), EngineError::NoClients);
    let (third, _) = state.netcat_start_session("ts").unwrap();
    assert_eq!(third.run, 3);
    assert!(third.shutdown_previous);
    assert_eq!(state.session_run("ts"), Some(3));
    assert_eq!(state.session_run("zz"), None);
}

#[test]
fn failed_open_leaves_an_error_and_can_be_restarted() {
    let mut state = NetcatState::new();
    create(&mut state, "tc", Protocol::Tcp, SessionMode::Client, 1);
    state.netcat_start_session("tc").unwrap();
    let r = state.dispatch_with("tc", run_of(&state, "tc"),
        SessionEvent::OpenFailed("connection refused".to_string()), 5, "m".to_string())
        .unwrap();
    assert!(!r.proceed);
    match &r.events[0] {
        NetcatEvent::StatusChanged { status, error, .. } => {
            assert_eq!(*status, SessionStatus::Error);
            assert_eq!(error.as_deref(), Some("connection refused"));
        }
        _ => panic!("a status notice was expected"),
    }
    let s = state.netcat_get_session("tc").unwrap();
    assert_eq!(s.status, SessionStatus::Error);
    assert_eq!(s.error_message, Some("connection refused".to_string()));
    assert!(state.netcat_start_session("tc").is_ok());
    open(&mut state, "tc", 9);
    let s = state.netcat_get_session("tc").unwrap();
    assert_eq!(s.status, SessionStatus::Connected);
    assert_eq!(s.error_message, None);
}

#[test]
fn send_on_an_unknown_session_is_not_found() {
    let mut state = NetcatState::new();
    let r = state.send_message_with(send("zz", "hi", DataFormat::Text, None, None), "m".to_string(), 1);
    assert_eq!(r.unwrap_err(), EngineError::SessionNotFound);
    assert_eq!(EngineError::SessionNotFound.kind(), ErrorKind::NotFound);
}

#[test]
fn send_without_a_live_sender_is_not_found() {
    let mut state = NetcatState::new();
    create(&mut state, "tc", Protocol::Tcp, SessionMode::Client, 1);
    let r = state.send_message_with(send("tc", "hi", DataFormat::Text, None, None), "m".to_string(), 1);
    assert_eq!(r.unwrap_err(), EngineError::NotConnected);
    assert_eq!(EngineError::NotConnected.kind(), ErrorKind::NotFound);
    assert!(state.netcat_get_messages("tc", None, None).unwrap().is_empty());
    assert_eq!(state.netcat_get_session("tc").unwrap().message_count, 0);
}

#[test]
fn tcp_client_sends_on_its_connection() {
    let mut state = NetcatState::new();
    create(&mut state, "tc", Protocol::Tcp, SessionMode::Client, 1);
    open(&mut state, "tc", 10);
    let (message, delivery) = state
        .send_message_with(send("tc", "48 69", DataFormat::Hex, None, None), "m1".to_string(), 20)
        .unwrap();
    assert_eq!(message.id, "m1");
    assert_eq!(message.session_id, "tc");
    assert_eq!(message.direction, MessageDirection::Sent);
    assert_eq!(message.data, "48 69");
    assert_eq!(message.format, DataFormat::Hex);
    assert_eq!(message.size, 2);
    assert_eq!(message.timestamp, 20);
    assert_eq!(message.client_id, None);
    assert_eq!(message.client_addr, None);
    match delivery {
        Delivery::Direct { bytes } => assert_eq!(bytes, b"Hi".to_vec()),
        _ => panic!("a direct delivery was expected"),
    }
    let s = state.netcat_get_session("tc").unwrap();
    assert_eq!(s.message_count, 1);
    assert_eq!(s.last_activity, Some(20));
    assert_eq!(s.bytes_sent, 0);
    state.dispatch_with("tc", run_of(&state, "tc"), SessionEvent::Sent(2), 21, "x".to_string()).unwrap();
    let s = state.netcat_get_session("tc").unwrap();
    assert_eq!(s.bytes_sent, 2);
    assert_eq!(s.last_activity, Some(21));
    let log = state.netcat_get_messages("tc", None, None).unwrap();
    assert_eq!(log.len(), 1);
    assert_eq!(log[0].id, "m1");
}

#[test]
fn odd_hex_send_fails_and_logs_nothing() {
    let mut state = NetcatState::new();
    create(&mut state, "tc", Protocol::Tcp, SessionMode::Client, 1);
    open(&mut state, "tc", 10);
    let r = state.send_message_with(send("tc", "ABC", DataFormat::Hex, None, None), "m".to_string(), 20);
    let e = r.unwrap_err();
    assert_eq!(e, EngineError::OddHexLength);
    assert_eq!(e.kind(), ErrorKind::Encoding);
    assert!(state.netcat_get_messages("tc", None, None).unwrap().is_empty());
    let s = state.netcat_get_session("tc").unwrap();
    assert_eq!(s.message_count, 0);
    assert_eq!(s.last_activity, Some(10));
    let r = state.netcat_send_message(send("tc", "0x1", DataFormat::Hex, None, None));
    assert_eq!(r.unwrap_err(), EngineError::OddHexLength);
    assert!(state.netcat_get_messages("tc", None, None).unwrap().is_empty());
}

#[test]
fn encoding_is_checked_before_the_route() {
    let mut state = NetcatState::new();
    create(&mut state, "tc", Protocol::Tcp, SessionMode::Client, 1);
    let r = state.send_message_with(send("tc", "ABC", DataFormat::Hex, None, None), "m".to_string(), 20);
    assert_eq!(r.unwrap_err(), EngineError::OddHexLength);
    let r = state.send_message_with(send("tc", "!!", DataFormat::Base64, None, None), "m".to_string(), 20);
    assert_eq!(r.unwrap_err(), EngineError::InvalidBase64);
}

#[test]
fn server_without_target_or_broadcast_has_no_target() {
    let mut state = NetcatState::new();
    create(&mut state, "ts", Protocol::Tcp, SessionMode::Server, 2);
    open(&mut state, "ts", 10);
    assert!(state.netcat_get_clients("ts").unwrap().is_empty());
    for broadcast in [None, Some(false)] {
        let r = state.send_message_with(send("ts", "hi", DataFormat::Text, None, broadcast),
            "m".to_string(), 20);
        let e = r.unwrap_err();
        assert_eq!(e, EngineError::NoTarget);
        assert_eq!(e.kind(), ErrorKind::NotFound);
    }
    assert!(state.netcat_get_messages("ts", None, None).unwrap().is_empty());
}

#[test]
fn server_sends_to_a_client_or_to_all() {
    let mut state = NetcatState::new();
    create(&mut state, "ts", Protocol::Tcp, SessionMode::Server, 2);
    open(&mut state, "ts", 10);
    let r = state.send_message_with(send("ts", "hi", DataFormat::Text, None, Some(true)),
        "m".to_string(), 20);
    assert_eq!(r.unwrap_err(), EngineError::NoClients);
    let r = state.send_message_with(send("ts", "hi", DataFormat::Text, Some("c1"), None),
        "m".to_string(), 20);
    assert_eq!(r.unwrap_err(), EngineError::ClientNotFound);
    for (cid, addr) in [("c1", "10.0.0.1:5000"), ("c2", "10.0.0.2:5000")] {
        let r = state.dispatch_with("ts", run_of(&state, "ts"),
                SessionEvent::ClientConnected { client_id: cid.to_string(), addr: addr.to_string() },
                30,
                "x".to_string(),
            )
            .unwrap();
        assert!(r.proceed);
        match &r.events[0] {
            NetcatEvent::ClientConnected { session_id, client } => {
                assert_eq!(session_id, "ts");
                assert_eq!(client.id, cid);
                assert_eq!(client.addr, addr);
                assert_eq!(client.connected_at, 30);
            }
            _ => panic!("a client notice was expected"),
        }
    }
    assert_eq!(state.netcat_get_session("ts").unwrap().client_count, 2);
    let (message, delivery) = state
        .send_message_with(send("ts", "hi", DataFormat::Text, Some("c2"), None), "m1".to_string(), 40)
        .unwrap();
    assert_eq!(message.client_id, Some("c2".to_string()));
    match delivery {
        Delivery::ToClient { client_id, bytes } => {
            assert_eq!(client_id, "c2");
            assert_eq!(bytes, b"hi".to_vec());
        }
        _ => panic!("a delivery to one client was expected"),
    }
    let (_, delivery) = state
        .send_message_with(send("ts", "aGk=", DataFormat::Base64, Some("c1"), Some(true)),
            "m2".to_string(), 41)
        .unwrap();
    match delivery {
        Delivery::Broadcast { client_ids, bytes } => {
            assert_eq!(client_ids, vec!["c1".to_string(), "c2".to_string()]);
            assert_eq!(bytes, b"hi".to_vec());
        }
        _ => panic!("a broadcast was expected"),
    }
    state.dispatch_with("ts", run_of(&state, "ts"),
        SessionEvent::ClientSent { client_id: "c2".to_string(), bytes: 2 }, 50, "x".to_string())
        .unwrap();
    let clients = state.netcat_get_clients("ts").unwrap();
    assert_eq!(clients[1].bytes_sent, 2);
    assert_eq!(clients[1].last_activity, 50);
    assert_eq!(clients[0].bytes_sent, 0);
    assert_eq!(state.netcat_get_session("ts").unwrap().bytes_sent, 2);
}

#[test]
fn server_receives_from_clients_and_forgets_them_on_close() {
    let mut state = NetcatState::new();
    create(&mut state, "ts", Protocol::Tcp, SessionMode::Server, 2);
    open(&mut state, "ts", 10);
    state.dispatch_with("ts", run_of(&state, "ts"),
            SessionEvent::ClientConnected { client_id: "c1".to_string(), addr: "10.0.0.1:5000".to_string() },
            30,
            "x".to_string(),
        )
        .unwrap();
    let r = state.dispatch_with("ts", run_of(&state, "ts"),
            SessionEvent::ClientData {
                client_id: "c1".to_string(),
                addr: "10.0.0.1:5000".to_string(),
                bytes: vec![0xff, 0x00],
            },
            31,
            "m1".to_string(),
        )
        .unwrap();
    assert!(r.proceed);
    match &r.events[0] {
        NetcatEvent::MessageReceived { session_id, message } => {
            assert_eq!(session_id, "ts");
            assert_eq!(message.id, "m1");
            assert_eq!(message.direction, MessageDirection::Received);
            assert_eq!(message.data, "FF 00");
            assert_eq!(message.format, DataFormat::Text);
            assert_eq!(message.size, 2);
            assert_eq!(message.timestamp, 31);
            assert_eq!(message.client_id, Some("c1".to_string()));
            assert_eq!(message.client_addr, Some("10.0.0.1:5000".to_string()));
        }
        _ => panic!("a message notice was expected"),
    }
    let s = state.netcat_get_session("ts").unwrap();
    assert_eq!((s.bytes_received, s.message_count, s.last_activity), (2, 1, Some(31)));
    let clients = state.netcat_get_clients("ts").unwrap();
    assert_eq!(clients[0].bytes_received, 2);
    assert_eq!(clients[0].last_activity, 31);
    let r = state.dispatch_with("ts", run_of(&state, "ts"),
            SessionEvent::ClientData { client_id: "c1".to_string(), addr: "10.0.0.1:5000".to_string(),
                bytes: vec![] },
            32,
            "m2".to_string(),
        )
        .unwrap();
    assert!(!r.proceed);
    match &r.events[0] {
        NetcatEvent::ClientDisconnected { session_id, client_id } => {
            assert_eq!(session_id, "ts");
            assert_eq!(client_id, "c1");
        }
        _ => panic!("a disconnect notice was expected"),
    }
    assert!(state.netcat_get_clients("ts").unwrap().is_empty());
    assert_eq!(state.netcat_get_session("ts").unwrap().client_count, 0);
    assert_eq!(state.netcat_get_session("ts").unwrap().status, SessionStatus::Listening);
}

#[test]
fn a_clients_failure_does_not_change_the_servers_status() {
    let mut state = NetcatState::new();
    create(&mut state, "ts", Protocol::Tcp, SessionMode::Server, 2);
    open(&mut state, "ts", 10);
    state.dispatch_with("ts", run_of(&state, "ts"),
            SessionEvent::ClientConnected { client_id: "c1".to_string(), addr: "a".to_string() },
            30,
            "x".to_string(),
        )
        .unwrap();
    let r = state.dispatch_with("ts", run_of(&state, "ts"),
        SessionEvent::ClientReadFailed { client_id: "c1".to_string() }, 31, "x".to_string())
        .unwrap();
    assert!(!r.proceed);
    let s = state.netcat_get_session("ts").unwrap();
    assert_eq!(s.status, SessionStatus::Listening);
    assert_eq!(s.error_message, None);
    assert_eq!(s.client_count, 0);
    assert!(state.dispatch_with("ts", run_of(&state, "ts"), SessionEvent::Glitch, 32,
        "x".to_string()).unwrap().proceed);
    assert_eq!(state.netcat_get_session("ts").unwrap().status, SessionStatus::Listening);
}

#[test]
fn disconnect_client_takes_it_out_of_the_table() {
    let mut state = NetcatState::new();
    create(&mut state, "ts", Protocol::Tcp, SessionMode::Server, 2);
    open(&mut state, "ts", 10);
    for cid in ["c1", "c2", "c3"] {
        state.dispatch_with("ts", run_of(&state, "ts"),
                SessionEvent::ClientConnected { client_id: cid.to_string(), addr: "a".to_string() },
                30,
                "x".to_string(),
            )
            .unwrap();
    }
    state.netcat_disconnect_client("ts", "c2");
    state.netcat_disconnect_client("ts", "c9");
    state.netcat_disconnect_client("zz", "c1");
    let clients = state.netcat_get_clients("ts").unwrap();
    assert_eq!(clients.len(), 2);
    assert_eq!(clients[0].id, "c1");
    assert_eq!(clients[1].id, "c3");
    assert_eq!(state.netcat_get_session("ts").unwrap().client_count, 2);
}

#[test]
fn udp_server_registers_the_sender_of_a_datagram() {
    let mut state = NetcatState::new();
    state.create_session_with(input(Protocol::Udp, SessionMode::Server, "0.0.0.0", 19000),
        "us".to_string(), 1);
    let (plan, _) = state.netcat_start_session("us").unwrap();
    assert_eq!(plan.bind_addr, Some("0.0.0.0:19000".to_string()));
    open(&mut state, "us", 10);
    let r = state.dispatch_with("us", run_of(&state, "us"),
            SessionEvent::Datagram { from: "127.0.0.1:54321".to_string(), bytes: b"hello".to_vec() },
            11,
            "m1".to_string(),
        )
        .unwrap();
    assert!(r.proceed);
    assert_eq!(r.events.len(), 2);
    match &r.events[0] {
        NetcatEvent::ClientConnected { session_id, client } => {
            assert_eq!(session_id, "us");
            assert_eq!(client.id, "udp-127-0-0-1-54321");
            assert_eq!(client.addr, "127.0.0.1:54321");
            assert_eq!(client.bytes_received, 5);
        }
        _ => panic!("a client notice was expected"),
    }
    match &r.events[1] {
        NetcatEvent::MessageReceived { message, .. } => {
            assert_eq!(message.direction, MessageDirection::Received);
            assert_eq!(message.data, "hello");
            assert_eq!(message.size, 5);
            assert_eq!(message.client_id, Some("udp-127-0-0-1-54321".to_string()));
            assert_eq!(message.client_addr, Some("127.0.0.1:54321".to_string()));
        }
        _ => panic!("a message notice was expected"),
    }
    let clients = state.netcat_get_clients("us").unwrap();
    assert_eq!(clients.len(), 1);
    assert_eq!(clients[0].addr, "127.0.0.1:54321");
    assert_eq!(clients[0].connected_at, 11);
    let log = state.netcat_get_messages("us", None, None).unwrap();
    assert_eq!(log.len(), 1);
    assert_eq!(log[0].data, "hello");
    assert_eq!(log[0].direction, MessageDirection::Received);
    let r = state.dispatch_with("us", run_of(&state, "us"),
            SessionEvent::Datagram { from: "127.0.0.1:54321".to_string(), bytes: b"again!".to_vec() },
            12,
            "m2".to_string(),
        )
        .unwrap();
    assert_eq!(r.events.len(), 1);
    let clients = state.netcat_get_clients("us").unwrap();
    assert_eq!(clients.len(), 1);
    assert_eq!(clients[0].bytes_received, 11);
    assert_eq!(clients[0].last_activity, 12);
    let s = state.netcat_get_session("us").unwrap();
    assert_eq!((s.client_count, s.bytes_received, s.message_count), (1, 11, 2));
}

#[test]
fn udp_routes_to_the_target_or_the_own_peer() {
    let mut state = NetcatState::new();
    create(&mut state, "uc", Protocol::Udp, SessionMode::Client, 3);
    create(&mut state, "us", Protocol::Udp, SessionMode::Server, 4);
    let r = state.send_message_with(send("uc", "x", DataFormat::Text, None, None), "m".to_string(), 1);
    assert_eq!(r.unwrap_err(), EngineError::NotConnected);
    open(&mut state, "uc", 10);
    open(&mut state, "us", 10);
    let (_, d) = state.send_message_with(send("uc", "x", DataFormat::Text, None, None), "m".to_string(),
        1).unwrap();
    match d {
        Delivery::Datagram { address, bytes } => {
            assert_eq!(address, "127.0.0.1:3");
            assert_eq!(bytes, b"x".to_vec());
        }
        _ => panic!("a datagram was expected"),
    }
    let (m, d) = state
        .send_message_with(send("uc", "x", DataFormat::Text, Some("10.1.1.1:9"), None), "m".to_string(), 1)
        .unwrap();
    assert_eq!(m.client_id, Some("10.1.1.1:9".to_string()));
    match d {
        Delivery::Datagram { address, .. } => assert_eq!(address, "10.1.1.1:9"),
        _ => panic!("a datagram was expected"),
    }
    let r = state.send_message_with(send("us", "x", DataFormat::Text, None, Some(true)), "m".to_string(), 1);
    assert_eq!(r.unwrap_err(), EngineError::NoTarget);
    let (_, d) = state
        .send_message_with(send("us", "x", DataFormat::Text, Some("10.1.1.1:9"), None), "m".to_string(), 1)
        .unwrap();
    match d {
        Delivery::Datagram { address, .. } => assert_eq!(address, "10.1.1.1:9"),
        _ => panic!("a datagram was expected"),
    }
    let r = state.dispatch_with("uc", run_of(&state, "uc"),
        SessionEvent::Datagram { from: "1.1.1.1:1".to_string(), bytes: vec![1] }, 3,
            "k".to_string()).unwrap();
    assert_eq!(r.events.len(), 1);
    assert!(state.netcat_get_clients("uc").unwrap().is_empty());
    let log = state.netcat_get_messages("uc", Some(1), None).unwrap();
    assert_eq!(log[0].client_id, None);
    assert_eq!(log[0].client_addr, Some("1.1.1.1:1".to_string()));
}

#[test]
fn udp_client_ids_are_dashed_addresses() {
    assert_eq!(make_udp_client_id("127.0.0.1:54321"), "udp-127-0-0-1-54321");
    assert_eq!(make_udp_client_id("[::1]:80"), "udp-[--1]-80");
    assert_eq!(make_udp_client_id(""), "udp-");
}

#[test]
fn tcp_client_stream_ends_with_eof_or_failure() {
    let mut state = NetcatState::new();
    create(&mut state, "tc", Protocol::Tcp, SessionMode::Client, 1);
    open(&mut state, "tc", 10);
    let r = state.dispatch_with("tc", run_of(&state, "tc"), SessionEvent::Data(b"abc".to_vec()), 11,
        "m1".to_string()).unwrap();
    assert!(r.proceed);
    match &r.events[0] {
        NetcatEvent::MessageReceived { message, .. } => {
            assert_eq!(message.data, "abc");
            assert_eq!(message.client_id, None);
            assert_eq!(message.client_addr, None);
        }
        _ => panic!("a message notice was expected"),
    }
    let r = state.dispatch_with("tc", run_of(&state, "tc"), SessionEvent::Data(Vec::new()), 12,
        "m2".to_string()).unwrap();
    assert!(!r.proceed);
    assert_eq!(r.events.len(), 1);
    let s = state.netcat_get_session("tc").unwrap();
    assert_eq!(s.status, SessionStatus::Disconnected);
    assert_eq!((s.bytes_received, s.message_count), (3, 1));
    let r = state.send_message_with(send("tc", "x", DataFormat::Text, None, None), "m".to_string(), 13);
    assert_eq!(r.unwrap_err(), EngineError::NotConnected);

    open(&mut state, "tc", 20);
    let r = state.dispatch_with("tc", run_of(&state, "tc"),
        SessionEvent::ReadFailed("reset".to_string()), 21, "m3".to_string()).unwrap();
    assert!(!r.proceed);
    let s = state.netcat_get_session("tc").unwrap();
    assert_eq!(s.status, SessionStatus::Error);
    assert_eq!(s.error_message, Some("reset".to_string()));

    open(&mut state, "tc", 30);
    let r = state.dispatch_with("tc", run_of(&state, "tc"), SessionEvent::SendFailed, 31,
        "m".to_string()).unwrap();
    assert!(!r.proceed);
    let r = state.send_message_with(send("tc", "x", DataFormat::Text, None, None), "m".to_string(), 32);
    assert_eq!(r.unwrap_err(), EngineError::NotConnected);
}

#[test]
fn stop_disconnects_at_once() {
    let mut state = NetcatState::new();
    create(&mut state, "ts", Protocol::Tcp, SessionMode::Server, 2);
    assert_eq!(state.netcat_stop_session("ts"), Ok(false));
    open(&mut state, "ts", 10);
    assert_eq!(state.netcat_stop_session("ts"), Ok(true));
    let s = state.netcat_get_session("ts").unwrap();
    assert_eq!(s.status, SessionStatus::Disconnected);
    assert_eq!(s.error_message, None);
    let r = state.send_message_with(send("ts", "x", DataFormat::Text, None, Some(true)), "m".to_string(), 13);
    assert_eq!(r.unwrap_err(), EngineError::NotConnected);
    assert_eq!(state.netcat_stop_session("ts"), Ok(false));
    assert_eq!(state.netcat_stop_session("zz"), Err(EngineError::SessionNotFound));
    let r = state.dispatch_with("ts", run_of(&state, "ts"), SessionEvent::Shutdown, 14,
        "m".to_string()).unwrap();
    assert!(!r.proceed);
    assert_eq!(r.events.len(), 1);
    assert_eq!(state.netcat_get_session("ts").unwrap().client_count, 0);
}

#[test]
fn shutdown_of_a_tcp_client_is_silent() {
    let mut state = NetcatState::new();
    create(&mut state, "tc", Protocol::Tcp, SessionMode::Client, 1);
    open(&mut state, "tc", 10);
    assert_eq!(state.netcat_stop_session("tc"), Ok(true));
    let r = state.dispatch_with("tc", run_of(&state, "tc"), SessionEvent::Shutdown, 14,
        "m".to_string()).unwrap();
    assert!(!r.proceed);
    assert!(r.events.is_empty());
}

#[test]
fn remove_forgets_the_session() {
    let mut state = NetcatState::new();
    create(&mut state, "a", Protocol::Tcp, SessionMode::Client, 1);
    create(&mut state, "b", Protocol::Tcp, SessionMode::Client, 2);
    open(&mut state, "a", 10);
    assert!(state.netcat_remove_session("a"));
    assert!(!state.netcat_remove_session("a"));
    assert!(!state.netcat_remove_session("b"));
    assert!(state.netcat_get_sessions().is_empty());
    assert_eq!(state.netcat_get_session("a").unwrap_err(), EngineError::SessionNotFound);
    assert!(state.dispatch("a", 0, SessionEvent::Shutdown).is_none());
    assert!(state.dispatch_with("a", run_of(&state, "a"), SessionEvent::Glitch, 1,
        "m".to_string()).is_none());
}

#[test]
fn the_log_keeps_the_newest_thousand() {
    let mut state = NetcatState::new();
    create(&mut state, "tc", Protocol::Tcp, SessionMode::Client, 1);
    open(&mut state, "tc", 10);
    assert_eq!(MESSAGE_CAP, 1000);
    for k in 0..1003u64 {
        state.dispatch_with("tc", run_of(&state, "tc"), SessionEvent::Data(vec![b'a']), k, format!("m{}",
            k)).unwrap();
    }
    let all = state.netcat_get_messages("tc", Some(5000), None).unwrap();
    assert_eq!(all.len(), 1000);
    assert_eq!(all[0].id, "m1002");
    assert_eq!(all[999].id, "m3");
    assert_eq!(state.netcat_get_session("tc").unwrap().message_count, 1003);
    let r = state.send_message_with(send("tc", "x", DataFormat::Text, None, None), "sent".to_string(), 1);
    assert!(r.is_ok());
    let all = state.netcat_get_messages("tc", Some(5000), None).unwrap();
    assert_eq!(all.len(), 1000);
    assert_eq!(all[0].id, "sent");
    assert_eq!(all[999].id, "m4");
}

#[test]
fn pages_show_the_newest_first() {
    let mut state = NetcatState::new();
    create(&mut state, "tc", Protocol::Tcp, SessionMode::Client, 1);
    for k in 0..150u64 {
        state.dispatch_with("tc", run_of(&state, "tc"), SessionEvent::Data(vec![b'a']), k, format!("m{}",
            k)).unwrap();
    }
    let page = state.netcat_get_messages("tc", None, None).unwrap();
    assert_eq!(page.len(), 100);
    assert_eq!(page[0].id, "m149");
    assert_eq!(page[99].id, "m50");
    let page = state.netcat_get_messages("tc", Some(3), Some(2)).unwrap();
    assert_eq!(page.iter().map(|m| m.id.as_str()).collect::<Vec<_>>(), vec!["m147", "m146", "m145"]);
    let page = state.netcat_get_messages("tc", Some(10), Some(145)).unwrap();
    assert_eq!(page.len(), 5);
    assert_eq!(page[4].id, "m0");
    assert!(state.netcat_get_messages("tc", Some(10), Some(150)).unwrap().is_empty());
    assert!(state.netcat_get_messages("tc", Some(0), None).unwrap().is_empty());
    assert!(state.netcat_get_messages("tc", Some(usize::MAX), Some(usize::MAX)).unwrap().is_empty());
    assert_eq!(state.netcat_get_messages("zz", None, None).unwrap_err(), EngineError::SessionNotFound);
    assert_eq!(state.netcat_clear_messages("tc"), Ok(()));
    assert!(state.netcat_get_messages("tc", None, None).unwrap().is_empty());
    assert_eq!(state.netcat_get_session("tc").unwrap().message_count, 150);
    assert_eq!(state.netcat_clear_messages("zz"), Err(EngineError::SessionNotFound));
    assert_eq!(state.netcat_get_clients("zz").unwrap_err(), EngineError::SessionNotFound);
}

#[test]
fn auto_send_is_stored() {
    let mut state = NetcatState::new();
    create(&mut state, "tc", Protocol::Tcp, SessionMode::Client, 1);
    let config = AutoSendConfig { enabled: true, interval_ms: 500, data: "ping".to_string(),
        format: DataFormat::Text };
    assert_eq!(state.netcat_update_auto_send("tc", config), Ok(()));
    let s = state.netcat_get_session("tc").unwrap();
    let stored = s.auto_send.unwrap();
    assert!(stored.enabled);
    assert_eq!(stored.interval_ms, 500);
    assert_eq!(stored.data, "ping");
    let config = AutoSendConfig { enabled: false, interval_ms: 1, data: String::new(),
        format: DataFormat::Hex };
    assert_eq!(state.netcat_update_auto_send("zz", config), Err(EngineError::SessionNotFound));
}

#[test]
fn stored_sessions_come_back_idle() {
    let mut state = NetcatState::new();
    create(&mut state, "a", Protocol::Udp, SessionMode::Server, 19000);
    open(&mut state, "a", 10);
    state.dispatch_with("a", run_of(&state, "a"), SessionEvent::Datagram { from: "1.2.3.4:5".to_string(),
        bytes: vec![1, 2] }, 11, "m".to_string())
        .unwrap();
    create(&mut state, "b", Protocol::Tcp, SessionMode::Client, 2);
    let configs = state.session_configs();
    assert_eq!(configs.len(), 2);
    assert_eq!(configs[0].id, "a");
    assert_eq!(configs[0].port, 19000);
    assert_eq!(configs[0].created_at, 1000);
    let mut fresh = NetcatState::new();
    fresh.load_sessions(&configs);
    let sessions = fresh.netcat_get_sessions();
    assert_eq!(sessions.len(), 2);
    assert_eq!(sessions[0].id, "a");
    assert_eq!(sessions[1].id, "b");
    for s in sessions.iter() {
        assert_eq!(s.status, SessionStatus::Disconnected);
        assert_eq!((s.bytes_sent, s.bytes_received, s.message_count, s.client_count), (0, 0, 0, 0));
        assert_eq!(s.connected_at, None);
        assert_eq!(s.last_activity, None);
    }
    assert!(fresh.netcat_get_clients("a").unwrap().is_empty());
    assert!(fresh.netcat_get_messages("a", None, None).unwrap().is_empty());
}

#[test]
fn a_stored_configuration_gives_an_idle_session() {
    let config = NetcatSessionConfig {
        id: "x".to_string(),
        name: "n".to_string(),
        protocol: Protocol::Tcp,
        mode: SessionMode::Server,
        host: "h".to_string(),
        port: 7,
        auto_reconnect: true,
        timeout_ms: 9,
        created_at: 11,
        auto_send: None,
    };
    let s = session_from_config(config);
    assert_eq!(s.id, "x");
    assert_eq!(s.name, "n");
    assert_eq!(s.port, 7);
    assert!(s.auto_reconnect);
    assert_eq!(s.timeout_ms, 9);
    assert_eq!(s.created_at, 11);
    assert_eq!(s.status, SessionStatus::Disconnected);
    assert_eq!(s.error_message, None);
}

#[test]
fn a_record_starts_without_clients() {
    let mut state = NetcatState::new();
    let mut session = state.create_session_with(input(Protocol::Tcp, SessionMode::Server, "h", 1),
        "a".to_string(), 1);
    session.client_count = 9;
    let record = SessionState::new(session);
    assert_eq!(record.session().client_count, 0);
    assert!(record.clients().is_empty());
    assert!(!record.sender_live());
    assert!(record.messages_page(10, 0).is_empty());
}

#[test]
fn a_payload_is_planned_first_and_logged_once_it_has_left() {
    let mut state = NetcatState::new();
    create(&mut state, "tc", Protocol::Tcp, SessionMode::Client, 1);
    let message = send("tc", "48 69", DataFormat::Hex, None, None);
    assert_eq!(state.plan_message(&message).unwrap_err(), EngineError::NotConnected);
    open(&mut state, "tc", 10);
    match state.plan_message(&message).unwrap() {
        Delivery::Direct { bytes } => assert_eq!(bytes, b"Hi".to_vec()),
        _ => panic!("a direct delivery was expected"),
    }
    assert!(state.netcat_get_messages("tc", None, None).unwrap().is_empty());
    assert_eq!(state.netcat_get_session("tc").unwrap().message_count, 0);
    let bad = send("tc", "4g5", DataFormat::Hex, None, None);
    assert_eq!(state.plan_message(&bad).unwrap_err(), EngineError::InvalidHexDigit);
    assert_eq!(state.plan_message(&send("zz", "x", DataFormat::Text, None, None)).unwrap_err(),
        EngineError::SessionNotFound);
    let logged = state.record_sent_with(message, 2, "m1".to_string(), 20).unwrap();
    assert_eq!(logged.id, "m1");
    assert_eq!(logged.direction, MessageDirection::Sent);
    assert_eq!(logged.data, "48 69");
    assert_eq!(logged.size, 2);
    assert_eq!(logged.timestamp, 20);
    let s = state.netcat_get_session("tc").unwrap();
    assert_eq!((s.message_count, s.last_activity), (1, Some(20)));
    let again = state.record_sent(send("tc", "x", DataFormat::Text, None, None), 1).unwrap();
    assert!(again.id != logged.id);
    assert_eq!(state.netcat_get_messages("tc", None, None).unwrap().len(), 2);
    let missing = state.record_sent_with(send("zz", "x", DataFormat::Text, None, None), 1,
        "m".to_string(), 1);
    assert_eq!(missing.unwrap_err(), EngineError::SessionNotFound);
}

#[test]
fn a_send_with_a_stray_hex_character_fails_and_logs_nothing() {
    let mut state = NetcatState::new();
    create(&mut state, "tc", Protocol::Tcp, SessionMode::Client, 1);
    open(&mut state, "tc", 10);
    let r = state.send_message_with(send("tc", "4g5", DataFormat::Hex, None, None), "m".to_string(), 20);
    let e = r.unwrap_err();
    assert_eq!(e, EngineError::InvalidHexDigit);
    assert_eq!(e.kind(), ErrorKind::Encoding);
    assert!(state.netcat_get_messages("tc", None, None).unwrap().is_empty());
}

#[test]
fn received_bytes_enter_an_unseen_udp_peer_and_are_logged() {
    let mut registry = NetcatState::new();
    let session =
        registry.create_session_with(input(Protocol::Udp, SessionMode::Server, "0.0.0.0", 19000),
            "us".to_string(), 1);
    let mut record = SessionState::new(session);
    record.link_opened(10);
    assert_eq!(record.session().status, SessionStatus::Listening);
    assert!(record.clients().is_empty());
    let from = "127.0.0.1:54321";
    let events = record.handle_received_data(b"hello", None, Some(from.to_string()), 11, "m1".to_string());
    let clients = record.clients();
    assert_eq!(clients.len(), 1);
    assert_eq!(clients[0].addr, from);
    assert_eq!(clients[0].bytes_received, 5);
    assert_eq!(clients[0].bytes_sent, 0);
    assert_eq!(record.session().client_count, 1);
    assert_eq!(events.len(), 2);
    match &events[0] {
        NetcatEvent::ClientConnected { session_id, client } => {
            assert_eq!(session_id, "us");
            assert_eq!(client.id, clients[0].id);
            assert_eq!(client.addr, from);
            assert_eq!(client.bytes_received, 5);
        }
        _ => panic!("a client notice was expected"),
    }
    match &events[1] {
        NetcatEvent::MessageReceived { message, .. } => {
            assert_eq!(message.direction, MessageDirection::Received);
            assert_eq!(message.data, "hello");
        }
        _ => panic!("a message notice was expected"),
    }
    let log = record.messages_page(10, 0);
    assert_eq!(log.len(), 1);
    assert_eq!(log[0].data, "hello");
    let again = record.handle_received_data(b"x", None, Some(from.to_string()), 12, "m2".to_string());
    assert_eq!(again.len(), 1);
    assert_eq!(record.clients().len(), 1);
    assert_eq!(record.clients()[0].bytes_received, 6);
}

#[test]
fn received_bytes_on_a_connection_are_logged_for_their_client() {
    let mut registry = NetcatState::new();
    let session =
        registry.create_session_with(input(Protocol::Tcp, SessionMode::Server, "0.0.0.0", 7),
            "ts".to_string(), 1);
    let mut record = SessionState::new(session);
    record.link_opened(10);
    record.handle_client_connection("c1".to_string(), "10.0.0.1:5".to_string(), 11);
    let events = record.handle_received_data(
        &[0xff, 0x00],
        Some("c1".to_string()),
        Some("10.0.0.1:5".to_string()),
        12,
        "m1".to_string(),
    );
    assert_eq!(events.len(), 1);
    match &events[0] {
        NetcatEvent::MessageReceived { message, .. } => {
            assert_eq!(message.data, "FF 00");
            assert_eq!(message.client_id, Some("c1".to_string()));
        }
        _ => panic!("a message notice was expected"),
    }
    assert_eq!(record.clients().len(), 1);
    assert_eq!(record.clients()[0].bytes_received, 2);
    let single = record.handle_stream_data(b"ab", None, None, 13, "m2".to_string());
    match single {
        NetcatEvent::MessageReceived { message, .. } => assert_eq!(message.size, 2),
        _ => panic!("a message notice was expected"),
    }
    assert_eq!(record.session().bytes_received, 4);
}
