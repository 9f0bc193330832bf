use std::io;

use base64::Engine;

use tappad::actions::Platform;
use tappad::codex::{CodexProbes, ProbeError};
use tappad::connections::Connections;
use tappad::host::{
    authorization_state, now_ms, contains_polkit_layer, identified_name, instance_name,
    is_stale_error_text, is_stale_input_backend_error, parse_host_command, qr_code_data_url,
    retry_after_error, run_with_reconnect_on_stale_backend, service_action_name, stopped_reason, svg_data_url,
    valid_password,
    AuthorizationState, HostCommand, JsonValue, ServiceAction, PASSWORD_LIMIT_BYTES,
};
use tappad::host_input::{key_for_code, pointer_button, single_ascii_char, HostButton, HostKey};
use tappad::host_surface::{
    backend_error_reason, discovery_txt, hides_to_tray, host_surface_state, mdns_alias, mdns_host_name,
    omarchy_host_surface_state, omarchy_readiness_groups, protocol_state, render_mobile_index,
    replacement, settings_path, tray_menu_command, tray_status_label, BackendState, Replacement,
    ServerStatus, TrayCommand,
};
use tappad::linux_surface::{
    host_state_endpoint, next_local_settings, parse_local_http_url, remember_host_state_endpoint,
    LinuxHostSettings,
};
use tappad::protocol::{current_host_contract, HOST_CONTRACT_VERSION, PROTOCOL_VERSION};
use tappad::settings::{
    control_url, default_stored_settings, generate_host_id, generate_pairing_token, hex_string, hostname, preferred_lan_ipv4,
    validate_port, validate_stored, LocalAddress, RuntimeSettings, SettingsUpdate, StoredSettings,
    DEFAULT_PORT,
};

fn no_codex() -> CodexProbes {
    let missing = || ProbeError {
        reason_code: "codex_not_installed",
        detail: "Codex desktop was not found at a supported Linux installation path.".to_string(),
    };
    CodexProbes {
        start: Err(missing()),
        start_foreground: Err(missing()),
        end: Err(missing()),
        toggle_microphone: Err(missing()),
    }
}

fn test_settings() -> RuntimeSettings {
    RuntimeSettings {
        bind_host: "0.0.0.0".to_string(),
        port: 8765,
        token: "pair-token".to_string(),
        hostname: "desktop".to_string(),
        launch_at_login: true,
        lan_host: None,
    }
}

fn object(fields: Vec<(&str, JsonValue)>) -> JsonValue {
    JsonValue::Object(fields.into_iter().map(|(k, v)| (k.to_string(), v)).collect())
}

fn text(value: &str) -> JsonValue {
    JsonValue::Text(value.to_string())
}

#[test]
fn generated_token_is_mandatory_and_url_safe() {
    let token = generate_pairing_token().expect("random bytes");

    assert_eq!(token.len(), 22);
    assert!(token
        .chars()
        .all(|ch| ch.is_ascii_alphanumeric() || ch == '-' || ch == '_'));
}

#[test]
fn generated_tokens_differ() {
    let a = generate_pairing_token().expect("random bytes");
    let b = generate_pairing_token().expect("random bytes");
    assert_ne!(a, b);
}

#[test]
fn settings_are_created_when_missing() {
    let stored = default_stored_settings().expect("random bytes");
    let settings = RuntimeSettings::from_store(stored, "desktop".to_string(), false, None);

    assert_eq!(settings.port, 8765);
    assert!(!settings.token.is_empty());
    assert_eq!(settings.bind_host, "0.0.0.0");
    assert_eq!(DEFAULT_PORT, 8765);
}

#[test]
fn empty_token_update_is_rejected() {
    let settings = RuntimeSettings {
        bind_host: "0.0.0.0".to_string(),
        port: 8765,
        token: "token".to_string(),
        hostname: "host".to_string(),
        launch_at_login: false,
        lan_host: None,
    };

    assert!(settings
        .with_update(SettingsUpdate {
            port: 8766,
            token: " ".to_string(),
            launch_at_login: false,
        })
        .is_err());
}

#[test]
fn settings_updates_are_checked_and_trimmed() {
    let settings = test_settings();
    let error = settings
        .with_update(SettingsUpdate {
            port: 0,
            token: "ok".to_string(),
            launch_at_login: false,
        })
        .expect_err("port zero");
    assert_eq!(error.message, "Port must be between 1 and 65535.");
    let updated = settings
        .with_update(SettingsUpdate {
            port: 9000,
            token: "  fresh  ".to_string(),
            launch_at_login: false,
        })
        .expect("valid update");
    assert_eq!(updated.port, 9000);
    assert_eq!(updated.token, "fresh");
    assert_eq!(updated.hostname, "desktop");
    assert!(!updated.launch_at_login);
    assert!(validate_port(1).is_ok());
}

#[test]
fn stored_settings_are_validated_token_first() {
    let blank = StoredSettings {
        port: 0,
        token: "  ".to_string(),
        launch_at_login: true,
    };
    assert_eq!(validate_stored(blank).expect_err("blank").message, "Pairing token is required.");
    let valid = validate_stored(StoredSettings {
        port: 9001,
        token: " saved ".to_string(),
        launch_at_login: true,
    })
    .expect("valid");
    assert_eq!(valid.port, 9001);
    assert_eq!(valid.token, "saved");
    assert!(valid.launch_at_login);
}

#[test]
fn new_token_keeps_the_other_settings() {
    let settings = test_settings();
    let renewed = settings.with_new_token().expect("random bytes");
    assert_eq!(renewed.port, settings.port);
    assert_eq!(renewed.hostname, settings.hostname);
    assert_eq!(renewed.token.len(), 22);
    assert_ne!(renewed.token, settings.token);
    let stored = renewed.stored();
    assert_eq!(stored.token, renewed.token);
}

#[test]
fn urls_carry_the_token_only_when_asked() {
    assert_eq!(control_url("desktop", 8765, Some("t")), "http://desktop:8765/?token=t");
    assert_eq!(control_url("desktop", 8765, None), "http://desktop:8765/");
    let mut settings = test_settings();
    settings.lan_host = Some([192, 168, 1, 20]);
    assert_eq!(
        settings.lan_url(true).as_deref(),
        Some("http://192.168.1.20:8765/?token=pair-token")
    );
    assert_eq!(settings.local_url(false), "http://desktop:8765/");
}

#[test]
fn lan_address_skips_loopback_and_ipv6() {
    assert_eq!(preferred_lan_ipv4(Some(LocalAddress::V4([10, 0, 0, 2]))), Some([10, 0, 0, 2]));
    assert_eq!(preferred_lan_ipv4(Some(LocalAddress::V4([127, 0, 0, 1]))), None);
    assert_eq!(preferred_lan_ipv4(Some(LocalAddress::V6)), None);
    assert_eq!(preferred_lan_ipv4(None), None);
}

#[test]
fn host_name_is_the_first_non_blank_candidate() {
    assert_eq!(
        hostname(&[None, Some("  ".to_string()), Some(" omarchy \n".to_string())], "localhost"),
        "omarchy"
    );
    assert_eq!(hostname(&[None, Some("\t".to_string())], "localhost"), "localhost");
}

#[test]
fn tauri_state_includes_pairing_token() {
    let state = host_surface_state(&test_settings(), true, None, true, Platform::Linux, &no_codex());

    assert_eq!(state.pairing.token.as_deref(), Some("pair-token"));
    assert_eq!(state.pairing.preferred_url, "http://desktop:8765/?token=pair-token");
    assert!(state.server_status.token_enabled);
}

#[test]
fn host_surface_http_state_is_sanitized() {
    let state = host_surface_state(&test_settings(), true, None, false, Platform::Linux, &no_codex());

    assert!(state.pairing.token.is_none());
    assert_eq!(state.pairing.preferred_url, "http://desktop:8765/");
    assert!(state.server_status.token_enabled);

    let state = omarchy_host_surface_state(&test_settings(), "host-id", true, None, false, &no_codex());
    assert!(state.pairing.token.is_none());
    assert_eq!(state.pairing.preferred_url, "http://tappad-host-id.local:8765/");
    assert!(state.server_status.token_enabled);
}

#[test]
fn pairing_state_includes_pairing_token() {
    let state = omarchy_host_surface_state(&test_settings(), "host-id", true, None, true, &no_codex());
    let contract = current_host_contract(Platform::Linux, &no_codex());
    let protocol = protocol_state(&contract);

    assert_eq!(state.pairing.token.as_deref(), Some("pair-token"));
    assert_eq!(
        state.pairing.preferred_url,
        "http://tappad-host-id.local:8765/?token=pair-token"
    );
    assert!(qr_code_data_url(&state.pairing.preferred_url).starts_with("data:image/svg+xml;base64,"));
    assert!(state.server_status.token_enabled);
    assert_eq!(protocol.version, PROTOCOL_VERSION);
    assert_eq!(contract.version, HOST_CONTRACT_VERSION);
    assert_eq!(contract.protocol_version, protocol.version);
    let listed = |v: &Vec<(String, tappad::actions::CapabilityStatus)>| {
        v.iter().map(|(id, c)| format!("{id}:{c:?}")).collect::<Vec<_>>()
    };
    assert_eq!(listed(&contract.action_capabilities), listed(&state.actions));
    assert_eq!(contract.input_capabilities, protocol.input_capabilities);
    assert!(protocol.input_capabilities.pointer_button.is_supported());
}

#[test]
fn omarchy_state_names_its_service_and_readiness() {
    let state = omarchy_host_surface_state(&test_settings(), "host-id", true, None, true, &no_codex());
    assert_eq!(
        state.settings.launch_at_login.note.as_deref(),
        Some("Managed by the tappad-host systemd user service.")
    );
    assert_eq!(state.settings.launch_at_login.state, "enabled");
    let titles: Vec<&str> = state.readiness.iter().map(|g| g.title).collect();
    assert_eq!(titles, vec!["Core input readiness", "Action readiness", "Deferred action readiness"]);
    let actions: Vec<&str> = state.readiness[1].items.iter().map(|i| i.label).collect();
    assert_eq!(actions, vec!["Screenshot", "Recording", "Audio capture", "Window control", "Media control"]);
    assert_eq!(omarchy_readiness_groups().len(), 3);

    let mut settings = test_settings();
    settings.lan_host = Some([192, 168, 1, 20]);
    let state = omarchy_host_surface_state(&settings, "host-id", true, None, true, &no_codex());
    assert_eq!(state.pairing.preferred_url, "http://192.168.1.20:8765/?token=pair-token");
    assert_eq!(state.pairing.local_url, "http://tappad-host-id.local:8765/?token=pair-token");
}

#[test]
fn discovery_publishes_the_alias_and_the_host() {
    assert_eq!(mdns_alias("ab12"), "tappad-ab12.local");
    assert_eq!(mdns_host_name("ab12"), "tappad-ab12.local.");
    let txt = discovery_txt("ab12", "omarchy", Some([10, 0, 0, 2]));
    let pairs: Vec<(&str, &str)> = txt.iter().map(|(k, v)| (k.as_str(), v.as_str())).collect();
    assert_eq!(
        pairs,
        vec![
            ("id", "ab12"),
            ("name", "omarchy"),
            ("host", "tappad-ab12.local."),
            ("path", "/"),
            ("auth", "token"),
            ("version", "1"),
            ("ipv4", "10.0.0.2"),
        ]
    );
    assert_eq!(discovery_txt("ab12", "omarchy", None).len(), 6);
}

#[test]
fn host_ids_are_lowercase_hex() {
    assert_eq!(hex_string(&[0x00, 0x0f, 0xa5, 0xff]), "000fa5ff");
    assert_eq!(hex_string(&[]), "");
    let id = generate_host_id().expect("the OS has a random source");
    assert_eq!(id.len(), 32);
    assert!(id.chars().all(|c| c.is_ascii_digit() || ('a'..='f').contains(&c)));
    assert_ne!(generate_host_id().unwrap(), id);
}

#[test]
fn stopped_backend_exposes_reason() {
    let state = host_surface_state(
        &test_settings(),
        false,
        Some("port 8765 is already in use"),
        true,
        Platform::Linux,
        &no_codex(),
    );

    assert!(!state.server_status.running);
    assert_eq!(
        state.server_status.reason.as_deref(),
        Some("port 8765 is already in use")
    );

    let state = omarchy_host_surface_state(
        &test_settings(),
        "host-id",
        false,
        Some("port 8765 is already in use"),
        true,
        &no_codex(),
    );
    assert!(!state.server_status.running);
    assert_eq!(
        state.server_status.reason.as_deref(),
        Some("port 8765 is already in use")
    );
}

#[test]
fn host_surface_mobile_index_injects_action_manifest() {
    let rendered = render_mobile_index(
        r#"<html><head><script src="/app.js"></script></head></html>"#,
        r#"{"screenrecord.screen":{"state":"supported"}}"#,
    );

    assert!(rendered.contains("window.__TAPPAD_ACTIONS__"));
    assert!(rendered.contains("screenrecord.screen"));
    assert!(rendered.contains(r#"<script src="/app.js"></script>"#));
    assert_eq!(
        rendered,
        "<html><head><script src=\"/app.js\"></script><script>window.__TAPPAD_ACTIONS__ = {\"screenrecord.screen\":{\"state\":\"supported\"}};</script>\n</head></html>"
    );
}

#[test]
fn protocol_state_follows_the_contract() {
    let contract = current_host_contract(Platform::Linux, &no_codex());
    let protocol = protocol_state(&contract);
    assert_eq!(protocol.version, contract.protocol_version);
    assert_eq!(protocol.input_capabilities, contract.input_capabilities);
}

#[test]
fn settings_live_in_the_data_directory() {
    assert_eq!(settings_path("/home/u/.config/tappad"), "/home/u/.config/tappad/settings.json");
    assert_eq!(settings_path("/data/"), "/data/settings.json");
    assert_eq!(settings_path(""), "settings.json");
}

fn server_status(running: bool, reason: Option<&str>) -> ServerStatus {
    ServerStatus {
        host: "desktop".to_string(),
        port: 8765,
        bind_address: "0.0.0.0".to_string(),
        token_enabled: true,
        running,
        reason: reason.map(ToString::to_string),
    }
}

#[test]
fn tray_status_reports_running_port() {
    assert_eq!(
        tray_status_label(&server_status(true, None)),
        "TapPad: Running on :8765"
    );
}

#[test]
fn tray_status_reports_attention_reason() {
    assert_eq!(
        tray_status_label(&server_status(false, Some("port is already in use"))),
        "TapPad: port is already in use"
    );
}

#[test]
fn tray_status_falls_back_to_needs_attention() {
    assert_eq!(
        tray_status_label(&server_status(false, None)),
        "TapPad: Needs Attention"
    );
    assert_eq!(
        tray_status_label(&server_status(false, Some("   "))),
        "TapPad: Needs Attention"
    );
}

#[test]
fn tray_menu_items_map_to_commands() {
    assert_eq!(tray_menu_command("show-pairing"), Some(TrayCommand::ShowView("pairing")));
    assert_eq!(tray_menu_command("open-settings"), Some(TrayCommand::ShowView("settings")));
    assert_eq!(tray_menu_command("quit"), Some(TrayCommand::Quit));
    assert_eq!(tray_menu_command("tap-pad-status"), None);
    assert!(hides_to_tray("main", true));
    assert!(!hides_to_tray("main", false));
    assert!(!hides_to_tray("other", true));
}

#[test]
fn backend_failures_are_explained() {
    assert_eq!(
        backend_error_reason("error binding: Address already in use (os error 98)"),
        "port is already in use"
    );
    assert_eq!(backend_error_reason("  "), "backend failed to start");
    assert_eq!(backend_error_reason("permission denied"), "permission denied");
    assert_eq!(replacement(true, Some("boom")), Replacement::KeepPrevious);
    assert_eq!(
        replacement(false, Some("Address already in use")),
        Replacement::SaveStopped {
            reason: "port is already in use".to_string()
        }
    );
    assert_eq!(replacement(false, None), Replacement::SaveRunning);
    let running = BackendState::Running {
        task_finished: false,
    };
    assert!(running.is_running());
    assert_eq!(running.reason(), None);
    let ended = BackendState::Running {
        task_finished: true,
    };
    assert!(!ended.is_running());
    assert_eq!(ended.reason().as_deref(), Some("backend task stopped unexpectedly"));
    let stopped = BackendState::Stopped {
        reason: "port is already in use".to_string(),
    };
    assert_eq!(stopped.reason().as_deref(), Some("port is already in use"));
}

#[test]
fn accepts_only_bounded_non_empty_ascii_passwords() {
    assert!(valid_password("correct horse battery staple"));
    assert!(!valid_password(""));
    assert!(!valid_password("密码"));
    assert!(!valid_password("password\n"));
    assert!(!valid_password(&"a".repeat(PASSWORD_LIMIT_BYTES + 1)));
    assert!(valid_password(&"a".repeat(PASSWORD_LIMIT_BYTES)));
}

#[test]
fn detects_only_the_live_omarchy_polkit_layer() {
    let active = object(vec![(
        "DP-1",
        object(vec![(
            "levels",
            object(vec![("3", JsonValue::Array(vec![object(vec![("namespace", text("omarchy-polkit"))])]))]),
        )]),
    )]);
    let idle = object(vec![(
        "DP-1",
        object(vec![(
            "levels",
            object(vec![("2", JsonValue::Array(vec![object(vec![("namespace", text("omarchy-bar"))])]))]),
        )]),
    )]);

    assert!(contains_polkit_layer(&active));
    assert!(!contains_polkit_layer(&idle));
    assert!(!contains_polkit_layer(&text("omarchy-polkit")));
    assert!(!contains_polkit_layer(&object(vec![("name", text("omarchy-polkit"))])));
}

#[test]
fn authorization_state_follows_the_layer_listing() {
    let active = JsonValue::Array(vec![object(vec![("namespace", text("omarchy-polkit"))])]);
    assert_eq!(
        authorization_state(Some(&active)),
        AuthorizationState {
            supported: true,
            request_active: true,
        }
    );
    assert_eq!(
        authorization_state(Some(&JsonValue::Array(vec![JsonValue::Null, JsonValue::Number]))),
        AuthorizationState {
            supported: true,
            request_active: false,
        }
    );
    assert_eq!(authorization_state(None), AuthorizationState::unavailable());
}

#[test]
fn tracks_real_connections_and_disconnect_does_not_forget_identity() {
    let mut state = Connections::new();
    state.add("client-1", 1_000);
    state.identify("client-1", "Phone\nname");
    state.input("client-1", 1_500);
    let client = state.client("client-1").expect("connected client");
    assert_eq!(client.name, "Phonename");
    assert_eq!(client.input_messages, 1);
    assert_eq!(client.connected_at, 1_000);
    assert_eq!(client.last_input_at, Some(1_500));
}

#[test]
fn connections_ignore_unknown_clients_and_blank_names() {
    let mut state = Connections::new();
    state.add("client-1", 5);
    state.identify("client-1", " \u{7}\t ");
    assert_eq!(state.client("client-1").expect("client").name, "Unnamed client");
    state.identify("client-2", "Tablet");
    state.input("client-2", 9);
    assert!(state.client("client-2").is_none());
    state.identify("client-1", &format!("  {}", "x".repeat(80)));
    assert_eq!(state.client("client-1").expect("client").name.len(), 62);
    state.reject(42);
    state.reject(43);
    assert_eq!(state.rejected_pairings(), 2);
    assert_eq!(state.last_rejected_at(), Some(43));
    state.add("client-1", 50);
    let client = state.client("client-1").expect("client");
    assert_eq!(client.name, "Unnamed client");
    assert_eq!(client.connected_at, 50);
}

#[test]
fn identified_names_drop_control_characters() {
    assert_eq!(identified_name("Phone\nname").as_deref(), Some("Phonename"));
    assert_eq!(identified_name("\n\t"), None);
}

#[test]
fn instance_name_is_bounded_for_dns_sd() {
    let name = instance_name(&"x".repeat(100));

    assert_eq!(name.chars().count(), 63);
    assert!(name.starts_with("TapPad on "));
}

#[test]
fn instance_name_hides_the_local_suffix() {
    assert_eq!(instance_name("mise-omarchy.local."), "TapPad on mise-omarchy");
}

#[test]
fn instance_name_is_bounded_by_bytes_without_splitting_utf8() {
    let name = instance_name(&"主机".repeat(40));

    assert!(name.len() <= 63);
    assert!(name.starts_with("TapPad on "));
}

#[test]
fn supported_platform_adapter_advertises_pointer_button_hold() {
    assert!(tappad::protocol::input_capabilities(Platform::Linux)
        .pointer_button
        .is_supported());
}

#[test]
fn platform_adapter_rejects_unknown_pointer_buttons() {
    let error = pointer_button("side").expect_err("unknown button should fail");
    assert_eq!(error.button, "side");
    assert_eq!(error.message(), "unknown pointer button: side");
    assert_eq!(pointer_button("left"), Ok(HostButton::Left));
    assert_eq!(pointer_button("right"), Ok(HostButton::Right));
    assert_eq!(pointer_button("middle"), Ok(HostButton::Middle));
}

#[test]
fn key_codes_select_library_keys() {
    assert_eq!(key_for_code("KeyA"), Some(HostKey::Unicode('a')));
    assert_eq!(key_for_code("Digit7"), Some(HostKey::Unicode('7')));
    assert_eq!(key_for_code("Enter"), Some(HostKey::Return));
    assert_eq!(key_for_code("AltRight"), Some(HostKey::Alt));
    assert_eq!(key_for_code("MetaLeft"), Some(HostKey::Meta));
    assert_eq!(key_for_code("F12"), Some(HostKey::F12));
    assert_eq!(key_for_code("VolumeUp"), Some(HostKey::VolumeUp));
    assert_eq!(key_for_code("Keya"), None);
    assert_eq!(key_for_code("KeyAB"), None);
    assert_eq!(key_for_code("DigitX"), None);
    assert_eq!(key_for_code("Minus"), None);
    assert_eq!(single_ascii_char("A"), Some('A'));
    assert_eq!(single_ascii_char("é"), None);
    assert_eq!(single_ascii_char("ab"), None);
}

#[test]
fn retries_once_after_stale_wayland_queue_error() {
    let mut backend = "stale".to_string();
    let mut attempts = 0;
    let mut reconnects = 0;

    run_with_reconnect_on_stale_backend(
        &mut backend,
        |backend| {
            attempts += 1;
            if attempts == 1 {
                assert_eq!(backend, "stale");
                Err(io::Error::other(r#"Simulate("could not flush Wayland queue")"#))
            } else {
                assert_eq!(backend, "fresh");
                Ok(())
            }
        },
        || {
            reconnects += 1;
            Ok("fresh".to_string())
        },
    )
    .expect("operation should succeed after reconnect");

    assert_eq!(attempts, 2);
    assert_eq!(reconnects, 1);
    assert_eq!(backend, "fresh");
}

#[test]
fn does_not_retry_unrelated_input_errors() {
    let mut backend = "same".to_string();
    let mut attempts = 0;
    let mut reconnects = 0;

    let error = run_with_reconnect_on_stale_backend(
        &mut backend,
        |_| {
            attempts += 1;
            Err(io::Error::other("permission denied"))
        },
        || {
            reconnects += 1;
            Ok("fresh".to_string())
        },
    )
    .expect_err("unrelated errors should not reconnect");

    assert_eq!(error.to_string(), "permission denied");
    assert_eq!(attempts, 1);
    assert_eq!(reconnects, 0);
    assert_eq!(backend, "same");
}

#[test]
fn recognizes_broken_pipe_as_stale_backend_error() {
    let error =
        io::Error::other(r#"Io(Os { code: 32, kind: BrokenPipe, message: "Broken pipe" })"#);

    assert!(is_stale_input_backend_error(&error));
    assert!(!is_stale_input_backend_error(&io::Error::other("permission denied")));
    assert!(is_stale_error_text("could not flush Wayland queue"));
    assert!(!is_stale_error_text("Broken"));
}

#[test]
fn host_command_line_is_parsed() {
    let args = |items: &[&str]| items.iter().map(|s| s.to_string()).collect::<Vec<_>>();
    assert_eq!(parse_host_command(&args(&[])), Ok(HostCommand::Run));
    assert_eq!(parse_host_command(&args(&["status"])), Ok(HostCommand::Status));
    assert_eq!(parse_host_command(&args(&["pairing", "extra"])), Ok(HostCommand::Pairing));
    assert_eq!(parse_host_command(&args(&["reset-pairing"])), Ok(HostCommand::ResetPairing));
    assert_eq!(
        parse_host_command(&args(&["restart"])),
        Ok(HostCommand::Service(ServiceAction::Restart))
    );
    assert_eq!(parse_host_command(&args(&["-h"])), Ok(HostCommand::Help));
    assert_eq!(
        parse_host_command(&args(&["launch"])),
        Err("unknown command: launch".to_string())
    );
    assert_eq!(service_action_name(ServiceAction::Stop), "stop");
    assert_eq!(stopped_reason(true), None);
    assert_eq!(
        stopped_reason(false),
        Some("TapPad Host is not accepting local connections")
    );
}

#[test]
fn saved_settings_drive_the_local_host_state_endpoint() {
    let settings = LinuxHostSettings {
        port: 9876,
        token: Some("pair".to_string()),
        launch_at_login: true,
        ..LinuxHostSettings::default()
    }
    .with_host_state_url();

    assert_eq!(settings.host_state_url, "http://127.0.0.1:9876/api/host-state");
    assert_eq!(settings.token.as_deref(), Some("pair"));
    assert!(settings.launch_at_login);
}

#[test]
fn host_state_bridge_only_reads_local_http_endpoints() {
    assert_eq!(
        parse_local_http_url("http://127.0.0.1:8765/api/host-state").expect("local URL"),
        ("127.0.0.1".to_string(), 8765, "/api/host-state".to_string())
    );
    assert!(parse_local_http_url("https://127.0.0.1:8765/api/host-state").is_err());
    assert!(parse_local_http_url("http://example.com:8765/api/host-state").is_err());
}

#[test]
fn retry_endpoint_overrides_persisted_host_state_url_for_tauri_loads() {
    let saved = LinuxHostSettings::default();
    assert_eq!(
        host_state_endpoint(
            Some("http://127.0.0.1:9876/api/host-state".to_string()),
            &saved.host_state_url
        )
        .expect("retry URL"),
        "http://127.0.0.1:9876/api/host-state"
    );
    assert!(host_state_endpoint(
        Some("http://example.com:9876/api/host-state".to_string()),
        &saved.host_state_url
    )
    .is_err());
    assert_eq!(
        host_state_endpoint(Some("  ".to_string()), &saved.host_state_url).expect("saved URL"),
        "http://127.0.0.1:8765/api/host-state"
    );
}

#[test]
fn local_settings_are_saved_with_their_endpoint() {
    let next = next_local_settings(9777, Some(" saved ".to_string()), true).expect("valid");
    assert_eq!(next.port, 9777);
    assert_eq!(next.token.as_deref(), Some("saved"));
    assert!(next.launch_at_login);
    assert_eq!(next.host_state_url, "http://127.0.0.1:9777/api/host-state");
    assert!(next_local_settings(0, None, false).is_err());
    assert_eq!(next_local_settings(1, Some(" ".to_string()), false).expect("valid").token, None);

    let mut settings = LinuxHostSettings::default();
    assert!(!remember_host_state_endpoint(
        "http://127.0.0.1:8765/api/host-state".to_string(),
        &mut settings
    ));
    assert!(remember_host_state_endpoint(
        "http://127.0.0.1:9000/api/host-state".to_string(),
        &mut settings
    ));
    assert_eq!(settings.host_state_url, "http://127.0.0.1:9000/api/host-state");
}

#[test]
fn clock_reads_milliseconds_since_the_epoch() {
    let before = now_ms();
    let after = now_ms();
    assert!(before > 1_600_000_000_000);
    assert!(after >= before);
}

#[test]
fn pairing_qr_code_is_an_svg_data_url() {
    let url = qr_code_data_url("http://tappad-host-id.local:8765/?token=pair-token");
    let prefix = "data:image/svg+xml;base64,";
    assert!(url.starts_with(prefix));
    let svg = base64::engine::general_purpose::STANDARD
        .decode(&url[prefix.len()..])
        .expect("standard base64");
    let svg = String::from_utf8(svg).expect("utf-8 svg");
    assert!(svg.contains("<svg"));
    assert!(svg.contains("#171917"));
    assert!(svg.contains("#ffffff"));
}

#[test]
fn text_too_long_for_a_qr_code_has_no_image() {
    let long = "x".repeat(8000);
    assert_eq!(qr_code_data_url(&long), "");
}

#[test]
fn svg_data_urls_wrap_the_encoded_image() {
    assert_eq!(svg_data_url(Some("PHN2Zy8+")), "data:image/svg+xml;base64,PHN2Zy8+");
    assert_eq!(svg_data_url(None), "");
}

#[test]
fn a_failed_reconnect_is_the_result_and_keeps_the_backend() {
    let mut backend = "stale".to_string();
    let mut attempts = 0;
    let error = run_with_reconnect_on_stale_backend(
        &mut backend,
        |_| {
            attempts += 1;
            Err(io::Error::other("write failed: Broken pipe"))
        },
        || Err(io::Error::other("no compositor")),
    )
    .expect_err("a failed reconnect is returned");

    assert_eq!(error.to_string(), "no compositor");
    assert_eq!(attempts, 1);
    assert_eq!(backend, "stale");
}

#[test]
fn a_text_that_is_not_stale_returns_the_first_error_untouched() {
    let mut backend = "same".to_string();
    let mut runs = 0;
    let mut reconnects = 0;
    let error = retry_after_error(
        &mut backend,
        io::Error::other("first failure"),
        "permission denied",
        |_| {
            runs += 1;
            Ok(())
        },
        || {
            reconnects += 1;
            Ok("fresh".to_string())
        },
    )
    .expect_err("the first error is the result");
    assert_eq!(error.to_string(), "first failure");
    assert_eq!((runs, reconnects), (0, 0));
    assert_eq!(backend, "same");
}

#[test]
fn a_stale_text_reconnects_once_and_runs_again_on_the_fresh_backend() {
    let mut backend = "stale".to_string();
    let mut seen = Vec::new();
    let mut reconnects = 0;
    retry_after_error(
        &mut backend,
        io::Error::other("ignored"),
        "Io(Os { code: 32, kind: BrokenPipe, message: \"Broken pipe\" })",
        |b: &mut String| {
            seen.push(b.clone());
            Ok(())
        },
        || {
            reconnects += 1;
            Ok("fresh".to_string())
        },
    )
    .expect("the retry succeeds");
    assert_eq!(seen, vec!["fresh".to_string()]);
    assert_eq!(reconnects, 1);
    assert_eq!(backend, "fresh");
}
