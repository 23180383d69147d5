use codeshelf::clock::ClockReading;
use codeshelf::error::{EngineError, ErrorKind};
use codeshelf::storage::config::StorageConfig;
use codeshelf::storage::{get_storage_config, init_storage, StorageError};
use codeshelf::text::{push_decimal, push_lower_hex, str_eq, to_chars};
use codeshelf::netcat::{current_timestamp, timestamp_from};
use codeshelf::toolbox::{
    common_ports, current_time, default_stopped, determine_ports, generate_id, id_from_nanos, id_from_reading,
    port_service_name, time_text_from, unused_id_among, IdSource, RuleStatus, ScanConfig,
};

#[test]
fn test_common_ports() {
    let ports = common_ports();
    assert!(!ports.is_empty());
    assert!(ports.contains(&80));
    assert!(ports.contains(&443));
}

#[test]
fn test_port_service_name() {
    assert_eq!(port_service_name(80), Some("HTTP"));
    assert_eq!(port_service_name(443), Some("HTTPS"));
    assert_eq!(port_service_name(22), Some("SSH"));
    assert_eq!(port_service_name(9999), None);
}

#[test]
fn common_ports_keep_their_order() {
    let ports = common_ports();
    assert_eq!(ports.len(), 46);
    assert_eq!(&ports[..4], &[80, 443, 8080, 8443]);
    assert_eq!(ports[ports.len() - 1], 11211);
    assert!(ports.iter().all(|p| *p != 0));
}

#[test]
fn service_names_cover_shared_and_single_ports() {
    assert_eq!(port_service_name(67), Some("DHCP"));
    assert_eq!(port_service_name(68), Some("DHCP"));
    assert_eq!(port_service_name(5900), Some("VNC"));
    assert_eq!(port_service_name(5901), Some("VNC"));
    assert_eq!(port_service_name(3000), Some("Dev-Server"));
    assert_eq!(port_service_name(8888), Some("Dev-Server"));
    assert_eq!(port_service_name(20), Some("FTP-Data"));
    assert_eq!(port_service_name(27017), Some("MongoDB"));
    assert_eq!(port_service_name(15672), Some("RabbitMQ-Mgmt"));
    assert_eq!(port_service_name(0), None);
    assert_eq!(port_service_name(65535), None);
    assert_eq!(port_service_name(3001), None);
}

#[test]
fn ids_are_lower_case_hex_of_the_nanoseconds() {
    assert_eq!(id_from_nanos(0), "0");
    assert_eq!(id_from_nanos(255), "ff");
    assert_eq!(id_from_nanos(4096), "1000");
    assert_eq!(id_from_nanos(0xdead_beef_0123), "deadbeef0123");
    assert_eq!(id_from_nanos(u128::MAX), "ffffffffffffffffffffffffffffffff");
    let nanos: u128 = 1_700_000_000_123_456_789;
    assert_eq!(id_from_nanos(nanos), format!("{:x}", nanos));
}

fn is_hex_id(id: &str) -> bool {
    !id.is_empty() && id.chars().all(|c| c.is_ascii_digit() || ('a'..='f').contains(&c))
}

#[test]
fn generated_ids_are_hex_digits_and_recent() {
    let mut source = IdSource::new();
    let id = generate_id(&mut source);
    assert!(is_hex_id(&id));
    let clock = id.strip_suffix("f0").unwrap();
    let nanos = u128::from_str_radix(clock, 16).unwrap();
    assert!(nanos > 1_600_000_000_000_000_000);
    let next = generate_id(&mut source);
    assert!(is_hex_id(&next));
    assert!(next.ends_with("f1"));
    assert!(next != id);
}

#[test]
fn ids_of_one_source_differ() {
    let mut source = IdSource::new();
    let mut seen = std::collections::HashSet::new();
    for _ in 0..5000 {
        let id = generate_id(&mut source);
        assert!(is_hex_id(&id));
        assert!(seen.insert(id));
    }
    let t = ClockReading { secs: 7, subsec_nanos: 9 };
    assert!(id_from_reading(Some(t), 0, 1) != id_from_reading(Some(t), 0, 2));
    assert!(id_from_reading(Some(t), 0, 15) != id_from_reading(Some(t), 0, 51));
    assert!(id_from_reading(None, 0, 16) != id_from_reading(None, 0, 1));
    assert!(id_from_reading(None, 1, 0) != id_from_reading(None, 0, 0));
}

#[test]
fn the_serial_number_can_be_read_from_the_end_of_an_id() {
    let t = ClockReading { secs: 1, subsec_nanos: 5 };
    assert_eq!(id_from_reading(Some(t), 0, 0), "3b9aca05f0");
    assert_eq!(id_from_reading(Some(t), 0, 255), "3b9aca05f255");
    assert_eq!(id_from_reading(Some(t), 1, 0), "3b9aca05fe0");
    assert_eq!(id_from_reading(None, 0, 0), "0f0");
    assert_eq!(id_from_reading(None, 2, 5), "0fee5");
    assert_eq!(id_from_reading(None, 0, u64::MAX), "0f18446744073709551615");
    let ends_in_marks = ClockReading { secs: 0, subsec_nanos: 0xfe };
    assert_eq!(id_from_reading(Some(ends_in_marks), 0, 7), "fef7");
    assert_eq!(id_from_reading(Some(ends_in_marks), 1, 7), "fefe7");
    assert!(is_hex_id(&id_from_reading(Some(t), 3, u64::MAX)));
}

#[test]
fn an_id_in_use_is_made_longer_than_every_id_in_use() {
    let in_use = vec!["af1".to_string(), "bbbbbb".to_string(), "af10".to_string()];
    assert_eq!(unused_id_among("cf1".to_string(), &in_use), "cf1");
    assert_eq!(unused_id_among("af1".to_string(), &in_use), "af10000");
    assert_eq!(unused_id_among("bbbbbb".to_string(), &in_use), "bbbbbb0");
    assert_eq!(unused_id_among("af1".to_string(), &Vec::new()), "af1");
    let id = unused_id_among("af10".to_string(), &in_use);
    assert!(!in_use.contains(&id));
    assert!(id.starts_with("af10"));
    assert!(is_hex_id(&id));
}

#[test]
fn the_time_of_a_reading_is_its_utc_date_and_time() {
    assert_eq!(time_text_from(Some(ClockReading { secs: 0, subsec_nanos: 0 })), "1970-01-01 00:00:00");
    assert_eq!(time_text_from(Some(ClockReading { secs: 1_431_648_000, subsec_nanos: 5 })),
        "2015-05-15 00:00:00");
    assert_eq!(
        time_text_from(Some(ClockReading { secs: 1_700_000_000, subsec_nanos: 999_999_999 })),
        "2023-11-14 22:13:20"
    );
    assert_eq!(time_text_from(None), "1970-01-01 00:00:00");
    assert_eq!(time_text_from(Some(ClockReading { secs: u64::MAX, subsec_nanos: 0 })), "1970-01-01 00:00:00");
    assert_eq!(
        time_text_from(Some(ClockReading { secs: i64::MAX as u64, subsec_nanos: 0 })),
        "1970-01-01 00:00:00"
    );
    assert_eq!(
        time_text_from(Some(ClockReading { secs: 5, subsec_nanos: 2_000_000_000 })),
        "1970-01-01 00:00:00"
    );
}

#[test]
fn current_time_has_the_expected_shape() {
    let t = current_time();
    let bytes = t.as_bytes();
    assert_eq!(bytes.len(), 19);
    for (i, b) in bytes.iter().enumerate() {
        match i {
            4 | 7 => assert_eq!(*b, b'-'),
            10 => assert_eq!(*b, b' '),
            13 | 16 => assert_eq!(*b, b':'),
            _ => assert!(b.is_ascii_digit()),
        }
    }
}

#[test]
fn default_status_is_stopped() {
    assert_eq!(default_stopped(), "stopped");
}

#[test]
fn clock_readings_convert_exactly() {
    let t = ClockReading { secs: 1_700_000_000, subsec_nanos: 123_456_789 };
    assert_eq!(t.nanos(), 1_700_000_000_123_456_789u128);
    assert_eq!(t.millis(), 1_700_000_000_123u64);
    let t = ClockReading { secs: 0, subsec_nanos: 999_999 };
    assert_eq!(t.millis(), 0);
    assert_eq!(t.nanos(), 999_999);
    let t = ClockReading { secs: u64::MAX, subsec_nanos: 999_999_999 };
    assert_eq!(t.nanos(), (u64::MAX as u128) * 1_000_000_000 + 999_999_999);
    assert_eq!(t.millis(), (((u64::MAX as u128) * 1000 + 999) % (1u128 << 64)) as u64);
}

#[test]
fn error_kinds_follow_the_taxonomy() {
    let cases = [
        (EngineError::LocalPortZero, ErrorKind::Validation),
        (EngineError::RemotePortZero, ErrorKind::Validation),
        (EngineError::RemoteHostEmpty, ErrorKind::Validation),
        (EngineError::PortInUse, ErrorKind::ResourceConflict),
        (EngineError::AlreadyRunning, ErrorKind::ResourceConflict),
        (EngineError::RuleNotFound, ErrorKind::NotFound),
        (EngineError::SessionNotFound, ErrorKind::NotFound),
        (EngineError::NotConnected, ErrorKind::NotFound),
        (EngineError::ClientNotFound, ErrorKind::NotFound),
        (EngineError::NoClients, ErrorKind::NotFound),
        (EngineError::NoTarget, ErrorKind::NotFound),
        (EngineError::InvalidHexDigit, ErrorKind::Encoding),
        (EngineError::OddHexLength, ErrorKind::Encoding),
        (EngineError::InvalidBase64, ErrorKind::Encoding),
        (EngineError::BindFailed, ErrorKind::Bind),
        (EngineError::ConnectFailed, ErrorKind::Connect),
        (EngineError::ConnectTimeout, ErrorKind::Connect),
        (EngineError::TransferFailed, ErrorKind::Io),
    ];
    for (error, kind) in cases {
        assert_eq!(error.kind(), kind);
    }
}

#[test]
fn text_helpers_round_trip() {
    assert_eq!(to_chars("héllo"), vec!['h', 'é', 'l', 'l', 'o']);
    assert!(to_chars("").is_empty());
    assert!(str_eq("abc", "abc"));
    assert!(!str_eq("abc", "abd"));
    assert!(!str_eq("abc", "ab"));
    assert!(str_eq("", ""));
    let mut s = String::from("n=");
    push_decimal(&mut s, 0);
    push_decimal(&mut s, 65535);
    push_decimal(&mut s, u64::MAX);
    assert_eq!(s, "n=06553518446744073709551615");
    let mut s = String::new();
    push_lower_hex(&mut s, 0);
    push_lower_hex(&mut s, 0xabc);
    assert_eq!(s, "0abc");
}

fn joined(base: &str, name: &str) -> String {
    std::path::Path::new(base).join(name).to_string_lossy().into_owned()
}

#[test]
fn storage_directories_lie_below_the_installation() {
    let config = StorageConfig::new("/opt/app".to_string());
    assert_eq!(config.install_dir, "/opt/app");
    assert_eq!(config.data_dir, joined("/opt/app", "data"));
    assert_eq!(config.logs_dir, joined("/opt/app", "logs"));
    assert!(config.data_dir != config.install_dir);
    assert!(config.data_dir.ends_with("data"));
    assert!(config.logs_dir.ends_with("logs"));
}

#[test]
fn storage_files_lie_in_the_data_directory() {
    let config = StorageConfig::new("/opt/app".to_string());
    let data = config.data_dir.clone();
    let files = [
        (config.projects_file(), "projects.json"),
        (config.stats_cache_file(), "stats_cache.json"),
        (config.claude_profiles_file(), "claude_profiles.json"),
        (config.download_tasks_file(), "download_tasks.json"),
        (config.forward_rules_file(), "forward_rules.json"),
        (config.netcat_sessions_file(), "netcat_sessions.json"),
        (config.server_configs_file(), "server_configs.json"),
        (config.labels_file(), "labels.json"),
        (config.categories_file(), "categories.json"),
        (config.editors_file(), "editors.json"),
        (config.terminal_file(), "terminal.json"),
        (config.app_settings_file(), "app_settings.json"),
        (config.migration_file(), "migration.json"),
        (config.ui_state_file(), "ui_state.json"),
        (config.notifications_file(), "notifications.json"),
        (config.claude_quick_configs_file(), "claude_quick_configs.json"),
        (config.claude_installations_cache_file(), "claude_installations_cache.json"),
    ];
    for (path, name) in files {
        assert_eq!(path, joined(&data, name));
        assert!(path.ends_with(name));
        assert!(path.len() > data.len());
    }
}

#[test]
fn storage_is_had_only_after_it_was_initialised() {
    let mut slot = None;
    assert_eq!(get_storage_config(&slot).unwrap_err(), StorageError::NotInitialized);
    init_storage(&mut slot, "/opt/app".to_string());
    let config = get_storage_config(&slot).unwrap();
    assert_eq!(config.install_dir, "/opt/app");
    assert_eq!(config.data_dir, joined("/opt/app", "data"));
}

#[test]
fn ids_and_timestamps_follow_the_clock_reading() {
    let t = ClockReading { secs: 1, subsec_nanos: 5 };
    assert_eq!(id_from_reading(Some(t), 0, 0), format!("{:x}f0", 1_000_000_005u64));
    assert_eq!(id_from_reading(Some(t), 0, 255), format!("{:x}f255", 1_000_000_005u64));
    assert_eq!(timestamp_from(Some(ClockReading { secs: 12, subsec_nanos: 345_678_901 })), 12_345);
    assert_eq!(timestamp_from(None), 0);
    let now = current_timestamp();
    assert!(now > 1_600_000_000_000);
    assert!(current_timestamp() >= now);
}

fn scan(ports: Option<Vec<u16>>, start: Option<u16>, end: Option<u16>) -> ScanConfig {
    ScanConfig { target: "127.0.0.1".to_string(), ports, port_start: start, port_end: end,
        timeout_ms: None, concurrency: None }
}

#[test]
fn listed_ports_come_first() {
    assert_eq!(determine_ports(&scan(Some(vec![9, 3, 9]), Some(1), Some(2))), vec![9, 3, 9]);
    assert_eq!(determine_ports(&scan(Some(vec![]), Some(1), Some(3))), vec![1, 2, 3]);
}

#[test]
fn a_range_includes_both_ends() {
    assert_eq!(determine_ports(&scan(None, Some(5), Some(5))), vec![5]);
    assert_eq!(determine_ports(&scan(None, Some(65533), Some(65535))), vec![65533, 65534, 65535]);
    assert_eq!(determine_ports(&scan(None, Some(0), Some(2))), vec![0, 1, 2]);
    let all = determine_ports(&scan(None, Some(0), Some(65535)));
    assert_eq!(all.len(), 65536);
    assert_eq!(all[65535], 65535);
}

#[test]
fn without_list_or_range_the_common_ports_are_scanned() {
    assert_eq!(determine_ports(&scan(None, None, None)), common_ports());
    assert_eq!(determine_ports(&scan(None, Some(9), Some(3))), common_ports());
    assert_eq!(determine_ports(&scan(None, Some(9), None)), common_ports());
    assert_eq!(determine_ports(&scan(Some(vec![]), None, Some(3))), common_ports());
}

#[test]
fn rule_status_has_a_stored_word() {
    assert_eq!(RuleStatus::Running.as_str(), "running");
    assert_eq!(RuleStatus::Stopped.as_str(), "stopped");
    assert_eq!(RuleStatus::from_text("running"), RuleStatus::Running);
    assert_eq!(RuleStatus::from_text("stopped"), RuleStatus::Stopped);
    assert_eq!(RuleStatus::from_text("Running"), RuleStatus::Stopped);
    assert_eq!(RuleStatus::from_text(""), RuleStatus::Stopped);
}

#[test]
fn errors_have_a_sentence_for_the_user() {
    assert_eq!(EngineError::LocalPortZero.message(), "本地端口不能为 0");
    assert_eq!(EngineError::NoTarget.message(), "服务器模式需要指定目标客户端或广播");
    assert_eq!(EngineError::OddHexLength.message(), "十六进制字符串长度必须为偶数");
    assert_eq!(EngineError::InvalidHexDigit.message(), "无效的十六进制");
    assert_eq!(EngineError::SessionNotFound.message(), "会话不存在");
}
