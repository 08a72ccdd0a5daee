use sing_box_for_windows::overrides::{
    build_override_inbound, build_override_log, json_string, prepare_runtime_config,
    runtime_config_bytes, runtime_needs_rewrite, serialize_runtime_error, write_runtime_error,
    OverrideInbound, OverrideLog, SourceConfig,
};
use sing_box_for_windows::ui::config_summary_of;
use sing_box_for_windows::settings::{
    InboundOverrideKind, InboundOverrideSettings, LogLevel, LogOverrideSettings, Settings,
    DEFAULT_MIXED_LISTEN, DEFAULT_MIXED_LISTEN_PORT,
};

fn mixed(listen: &str, port: &str) -> InboundOverrideSettings {
    InboundOverrideSettings {
        enabled: true,
        kind: InboundOverrideKind::MixedIn,
        mixed_listen: listen.to_string(),
        mixed_listen_port: port.to_string(),
        tun_mtu: String::new(),
        tun_endpoint_independent_nat: false,
    }
}

fn tun(mtu: &str, nat: bool) -> InboundOverrideSettings {
    InboundOverrideSettings {
        enabled: true,
        kind: InboundOverrideKind::Tun,
        mixed_listen: "ignored".to_string(),
        mixed_listen_port: "not a port".to_string(),
        tun_mtu: mtu.to_string(),
        tun_endpoint_independent_nat: nat,
    }
}

#[test]
fn mixed_inbound_uses_defaults_for_blank_fields() {
    match build_override_inbound(&mixed("  ", "")) {
        Ok(OverrideInbound::Mixed { listen, listen_port }) => {
            assert_eq!(listen, DEFAULT_MIXED_LISTEN);
            assert_eq!(listen_port, DEFAULT_MIXED_LISTEN_PORT);
        }
        _ => panic!("blank fields take the defaults"),
    }
    match build_override_inbound(&mixed(" 0.0.0.0 ", " 7890 ")) {
        Ok(OverrideInbound::Mixed { listen, listen_port }) => {
            assert_eq!(listen, "0.0.0.0");
            assert_eq!(listen_port, 7890);
        }
        _ => panic!("typed fields are used trimmed"),
    }
}

#[test]
fn mixed_inbound_rejects_a_bad_port() {
    for (port, msg) in [
        ("0", "invalid mixed listen port: 0"),
        ("65536", "invalid mixed listen port: 65536"),
        (" 80x ", "invalid mixed listen port: 80x"),
    ] {
        match build_override_inbound(&mixed("", port)) {
            Err(e) => assert_eq!(e, msg),
            Ok(_) => panic!("port {port} must be refused"),
        }
    }
}

#[test]
fn tun_inbound_reads_its_mtu() {
    match build_override_inbound(&tun("", true)) {
        Ok(OverrideInbound::Tun { mtu, endpoint_independent_nat }) => {
            assert_eq!(mtu, None);
            assert!(endpoint_independent_nat);
        }
        _ => panic!("a blank MTU is left out"),
    }
    match build_override_inbound(&tun(" 9000 ", false)) {
        Ok(OverrideInbound::Tun { mtu, endpoint_independent_nat }) => {
            assert_eq!(mtu, Some(9000));
            assert!(!endpoint_independent_nat);
        }
        _ => panic!("a numeric MTU is kept"),
    }
    match build_override_inbound(&tun(" -1 ", false)) {
        Err(e) => assert_eq!(e, "invalid TUN MTU value: -1"),
        Ok(_) => panic!("a negative MTU is refused"),
    }
    match build_override_inbound(&tun("18446744073709551616", false)) {
        Err(e) => assert_eq!(e, "invalid TUN MTU value: 18446744073709551616"),
        Ok(_) => panic!("an MTU past u64 is refused"),
    }
}

#[test]
fn log_override_section() {
    let s = LogOverrideSettings { enabled: true, disabled: false, level: LogLevel::Warn, save_logs: true };
    let log = build_override_log(&s);
    assert!(!log.disabled);
    assert_eq!(log.level, "warn");
    assert_eq!(log.output.as_deref(), Some("box.log"));
    assert!(log.timestamp);
    let s = LogOverrideSettings { enabled: true, disabled: true, level: LogLevel::Panic, save_logs: false };
    let log = build_override_log(&s);
    assert!(log.disabled);
    assert_eq!(log.level, "panic");
    assert_eq!(log.output, None);
    assert!(log.timestamp);
}

#[test]
fn log_level_names() {
    let all = [
        (LogLevel::Trace, "trace"),
        (LogLevel::Debug, "debug"),
        (LogLevel::Info, "info"),
        (LogLevel::Warn, "warn"),
        (LogLevel::Error, "error"),
        (LogLevel::Fatal, "fatal"),
        (LogLevel::Panic, "panic"),
    ];
    for (level, name) in all {
        assert_eq!(level.as_str(), name);
    }
}

#[test]
fn plain_copy_unless_an_override_is_on() {
    let mut s = Settings::default();
    assert!(!s.inbound_override.enabled && !s.log_override.enabled);
    assert_eq!(s.log_override.level, LogLevel::Info);
    assert!(!runtime_needs_rewrite(&s));
    s.log_override.enabled = true;
    assert!(runtime_needs_rewrite(&s));
    s.log_override.enabled = false;
    s.inbound_override.enabled = true;
    assert!(runtime_needs_rewrite(&s));
}

#[test]
fn rewrite_errors_name_the_config() {
    let mut s = Settings::default();
    s.inbound_override = mixed("", "");
    let src = "C:\\r\\config\\abc\\config.json";
    let err = |c: SourceConfig| match prepare_runtime_config(src, &s, c) {
        Err(e) => e,
        Ok(_) => panic!("expected an error"),
    };
    assert_eq!(err(SourceConfig::Unreadable), format!("failed to read config {src}"));
    assert_eq!(err(SourceConfig::NotJson), format!("failed to parse config JSON {src}"));
    assert_eq!(err(SourceConfig::NotObject), format!("config root must be a JSON object: {src}"));
    assert_eq!(serialize_runtime_error("w\\config.json"), "failed to serialize runtime config w\\config.json");
    assert_eq!(write_runtime_error("w\\config.json"), "failed to write runtime config w\\config.json");
}

#[test]
fn rewrite_replaces_only_the_sections_that_are_on() {
    let mut s = Settings::default();
    s.inbound_override = mixed("", "1080");
    s.log_override = LogOverrideSettings { enabled: false, disabled: true, level: LogLevel::Debug, save_logs: true };
    let edits = match prepare_runtime_config("c.json", &s, SourceConfig::Object) {
        Ok(e) => e,
        Err(e) => panic!("unexpected error {e}"),
    };
    assert!(matches!(edits.inbounds, Some(OverrideInbound::Mixed { listen_port: 1080, .. })));
    assert!(edits.log.is_none());

    s.inbound_override.enabled = false;
    s.log_override.enabled = true;
    let edits = match prepare_runtime_config("c.json", &s, SourceConfig::Object) {
        Ok(e) => e,
        Err(e) => panic!("unexpected error {e}"),
    };
    assert!(edits.inbounds.is_none());
    assert_eq!(edits.log.map(|l| l.level), Some("debug".to_string()));

    s.inbound_override = tun("big", false);
    match prepare_runtime_config("c.json", &s, SourceConfig::Object) {
        Err(e) => assert_eq!(e, "invalid TUN MTU value: big"),
        Ok(_) => panic!("a bad MTU stops the rewrite"),
    }
}

#[test]
fn json_strings_are_escaped() {
    assert_eq!(json_string("plain"), "\"plain\"");
    assert_eq!(json_string("a\"b\\c"), "\"a\\\"b\\\\c\"");
    assert_eq!(json_string("t\u{1}\n"), "\"t\\u0001\\u000a\"");
    assert_eq!(json_string("é"), "\"é\"");
    let back: String = serde_json::from_str(&json_string("x\"\\\u{1f}y")).unwrap();
    assert_eq!(back, "x\"\\\u{1f}y");
}

#[test]
fn inbound_and_log_json_texts() {
    let mixed = OverrideInbound::Mixed { listen: "::1".to_string(), listen_port: 7890 };
    assert_eq!(
        mixed.json_text(),
        "{\"type\":\"mixed\",\"tag\":\"mixed-in\",\"listen\":\"::1\",\"listen_port\":7890}"
    );
    let tun = OverrideInbound::Tun { mtu: Some(9000), endpoint_independent_nat: false };
    assert_eq!(
        tun.json_text(),
        "{\"type\":\"tun\",\"tag\":\"tun-in\",\"address\":\"172.19.0.1/30\",\"auto_route\":true,\
         \"strict_route\":true,\"stack\":\"system\",\"endpoint_independent_nat\":false,\"mtu\":9000}"
    );
    let tun = OverrideInbound::Tun { mtu: None, endpoint_independent_nat: true };
    assert!(tun.json_text().ends_with("\"endpoint_independent_nat\":true}"));
    let log = OverrideLog { disabled: false, level: "warn".to_string(), output: Some("box.log".to_string()), timestamp: true };
    assert_eq!(
        log.json_text(),
        "{\"disabled\":false,\"level\":\"warn\",\"output\":\"box.log\",\"timestamp\":true}"
    );
    let log = OverrideLog { disabled: true, level: "info".to_string(), output: None, timestamp: true };
    assert_eq!(log.json_text(), "{\"disabled\":true,\"level\":\"info\",\"timestamp\":true}");
}

#[test]
fn runtime_copy_without_overrides_is_the_same_bytes() {
    let s = Settings::default();
    let raw = b"not even json".to_vec();
    assert_eq!(runtime_config_bytes("c.json", "w\\config.json", &raw, &s), Ok(raw));
}

#[test]
fn runtime_copy_replaces_inbounds_and_log() {
    let mut s = Settings::default();
    s.inbound_override = mixed("", "1080");
    s.log_override = LogOverrideSettings { enabled: true, disabled: false, level: LogLevel::Debug, save_logs: true };
    let raw = br#"{"inbounds":[{"type":"tun"},{"type":"socks"}],"outbounds":[{"type":"direct"}],"log":{"level":"info"}}"#;
    let out = runtime_config_bytes("c.json", "w\\config.json", raw, &s).unwrap();
    let v: serde_json::Value = serde_json::from_slice(&out).unwrap();
    let inbounds = v["inbounds"].as_array().unwrap();
    assert_eq!(inbounds.len(), 1);
    assert_eq!(inbounds[0]["type"], "mixed");
    assert_eq!(inbounds[0]["tag"], "mixed-in");
    assert_eq!(inbounds[0]["listen"], "127.0.0.1");
    assert_eq!(inbounds[0]["listen_port"], 1080);
    assert_eq!(v["log"]["level"], "debug");
    assert_eq!(v["log"]["output"], "box.log");
    assert_eq!(v["log"]["timestamp"], true);
    assert_eq!(v["outbounds"][0]["type"], "direct");

    s.inbound_override.enabled = false;
    let out = runtime_config_bytes("c.json", "w\\config.json", raw, &s).unwrap();
    let v: serde_json::Value = serde_json::from_slice(&out).unwrap();
    assert_eq!(v["inbounds"].as_array().unwrap().len(), 2);
    assert_eq!(v["log"]["disabled"], false);
}

#[test]
fn runtime_copy_errors() {
    let mut s = Settings::default();
    s.log_override.enabled = true;
    assert_eq!(
        runtime_config_bytes("C:\\c.json", "w", b"{oops", &s),
        Err("failed to parse config JSON C:\\c.json".to_string())
    );
    assert_eq!(
        runtime_config_bytes("C:\\c.json", "w", b"[1, 2]", &s),
        Err("config root must be a JSON object: C:\\c.json".to_string())
    );
    s.inbound_override = tun("x", false);
    assert_eq!(
        runtime_config_bytes("C:\\c.json", "w", b"{}", &s),
        Err("invalid TUN MTU value: x".to_string())
    );
}

#[test]
fn config_summary_reads_log_and_clash_api() {
    let raw = br#"{"log":{"level":"warn"},"experimental":{"clash_api":{"external_controller":"127.0.0.1:9090","external_ui":"ui"}}}"#;
    let s = config_summary_of(raw).unwrap();
    assert_eq!(s.log_level.as_deref(), Some("warn"));
    assert_eq!(s.webui.as_deref(), Some("http://127.0.0.1:9090/ui/"));
    let s = config_summary_of(br#"{"log":{"disabled":true,"level":"warn"}}"#).unwrap();
    assert_eq!(s.log_level.as_deref(), Some("disabled"));
    assert_eq!(s.webui, None);
    let s = config_summary_of(b"{}").unwrap();
    assert_eq!(s.log_level, None);
    assert!(config_summary_of(b"{not json").is_none());
}
