use std::io;

use tappad::actions::Platform;
use tappad::backend::{
    action_refusal, asset_content_type, command_outcome, input_error, is_typeable_on,
    mobile_asset_path, paste_modifier, paste_shortcut_steps, plan_effect, rejected_message,
    truncate_to_char_boundary, ClientInputState, EffectStep, PASTE_TEXT_LIMIT_BYTES,
};
use tappad::codex::{CodexProbes, ProbeError, StartBinding};
use tappad::host::{host_log_level_for, HostLogLevel, HOST_LOG_LEVEL};
use tappad::input_chord::chord_sequence;
use tappad::protocol::{
    current_host_contract, default_click_count, input_capabilities, BackendEffect, ClientMessage,
    ProtocolRouter, ServerMessage, HOST_CONTRACT_VERSION, PROTOCOL_VERSION,
};

fn probes() -> CodexProbes {
    let missing = || ProbeError {
        reason_code: "codex_not_installed",
        detail: "Codex desktop was not found at a supported Linux installation path.".to_string(),
    };
    CodexProbes {
        start: Ok(StartBinding {
            accelerator: "Command+F2".to_string(),
            input_codes: vec!["MetaLeft".to_string(), "F2".to_string()],
        }),
        start_foreground: Err(missing()),
        end: Err(missing()),
        toggle_microphone: Err(missing()),
    }
}

fn rounded(value: f64) -> i32 {
    value.round() as i32
}

#[test]
fn ready_advertises_protocol_and_input_capabilities() {
    let contract = current_host_contract(Platform::Linux, &probes());
    let ready = ServerMessage::ready("host".to_string(), contract, 1_700_000_000_000);
    match ready {
        ServerMessage::Ready {
            host,
            time,
            protocol_version,
            input_capabilities,
            contract,
        } => {
            assert_eq!(host, "host");
            assert_eq!(time, 1_700_000_000_000);
            assert_eq!(protocol_version, PROTOCOL_VERSION);
            assert_eq!(contract.version, HOST_CONTRACT_VERSION);
            assert_eq!(contract.protocol_version, PROTOCOL_VERSION);
            assert_eq!(input_capabilities.pointer_button.state, "supported");
            let workspace = contract
                .action_capabilities
                .iter()
                .find(|(name, _)| name == "workspace.1")
                .map(|(_, capability)| capability.state);
            assert_eq!(workspace, Some("supported"));
        }
        other => panic!("expected a ready message, got {other:?}"),
    }
}

#[test]
fn action_result_is_additive_and_names_the_completed_action() {
    match ServerMessage::action_result("codex.voice.start", "sent", "Configured hotkey dispatched.") {
        ServerMessage::ActionResult {
            action,
            status,
            message,
        } => {
            assert_eq!(action, "codex.voice.start");
            assert_eq!(status, "sent");
            assert_eq!(message, "Configured hotkey dispatched.");
        }
        other => panic!("expected an action result, got {other:?}"),
    }
}

#[test]
fn click_messages_without_a_count_click_once() {
    assert_eq!(default_click_count(), 1);
}

#[test]
fn pointer_button_hold_is_supported_only_on_linux() {
    assert!(input_capabilities(Platform::Linux).pointer_button.is_supported());
    for platform in [Platform::MacOs, Platform::Windows, Platform::Unsupported] {
        let capability = input_capabilities(platform).pointer_button;
        assert!(!capability.is_supported());
        assert_eq!(
            capability.note,
            Some("Pointer button hold is unavailable on this target backend.")
        );
    }
}

#[test]
fn routes_pointer_motion_to_backend_effects() {
    let mut router = ProtocolRouter::new();

    assert_eq!(
        router.route_at(
            "client-a",
            ClientMessage::Move {
                dx: rounded(1.4),
                dy: rounded(-2.6),
            },
            0
        ),
        Some(BackendEffect::Move { dx: 1, dy: -3 })
    );
    assert_eq!(
        router.route_at("client-a", ClientMessage::Wheel { dy: rounded(3.6) }, 1),
        Some(BackendEffect::Wheel { dy: 4 })
    );
}

#[test]
fn suppresses_motion_from_second_client_until_timeout() {
    let mut router = ProtocolRouter::new();
    let start = 10_000;

    assert_eq!(
        router.route_at("client-a", ClientMessage::Move { dx: 1, dy: 1 }, start),
        Some(BackendEffect::Move { dx: 1, dy: 1 })
    );
    assert_eq!(
        router.route_at("client-b", ClientMessage::Move { dx: 2, dy: 2 }, start + 500),
        None
    );
    assert_eq!(
        router.route_at("client-b", ClientMessage::Move { dx: 2, dy: 2 }, start + 3000),
        Some(BackendEffect::Move { dx: 2, dy: 2 })
    );
}

#[test]
fn owner_keeps_the_pointer_exactly_for_the_timeout() {
    let mut router = ProtocolRouter::new();
    assert!(router.route_at("client-a", ClientMessage::Wheel { dy: 1 }, 100).is_some());
    assert!(router.route_at("client-b", ClientMessage::Wheel { dy: 1 }, 2100).is_none());
    assert!(router.route_at("client-b", ClientMessage::Wheel { dy: 1 }, 2101).is_some());
    assert!(router.route_at("client-a", ClientMessage::Wheel { dy: 1 }, 2102).is_none());
}

#[test]
fn allows_non_motion_from_any_client() {
    let mut router = ProtocolRouter::new();
    let start = 10_000;

    let _ = router.route_at("client-a", ClientMessage::Move { dx: 1, dy: 1 }, start);

    assert_eq!(
        router.route_at(
            "client-b",
            ClientMessage::Click {
                button: "left".to_string(),
                click_count: 1,
            },
            start + 500
        ),
        Some(BackendEffect::Click {
            button: "left".to_string(),
            click_count: 1,
        })
    );
}

#[test]
fn routes_pointer_button_state_without_changing_click_semantics() {
    let mut router = ProtocolRouter::new();

    assert_eq!(
        router.route_at(
            "client-a",
            ClientMessage::PointerButton {
                button: "left".to_string(),
                down: true,
            },
            0
        ),
        Some(BackendEffect::PointerButton {
            button: "left".to_string(),
            down: true,
        })
    );
}

#[test]
fn routes_authorization_through_its_dedicated_effect() {
    let mut router = ProtocolRouter::new();

    assert_eq!(
        router.route_at(
            "client-a",
            ClientMessage::Authorize {
                password: "ascii only".to_string(),
            },
            0
        ),
        Some(BackendEffect::Authorize {
            password: "ascii only".to_string(),
        })
    );
}

#[test]
fn mobile_asset_path_rejects_traversal() {
    assert_eq!(mobile_asset_path("/"), Some("index.html".to_string()));
    assert_eq!(mobile_asset_path("/app.js"), Some("app.js".to_string()));
    assert!(mobile_asset_path("/../Cargo.toml").is_none());
    assert!(mobile_asset_path("/mobile/../../Cargo.toml").is_none());
}

#[test]
fn mobile_asset_path_rejects_empty_and_current_components() {
    assert!(mobile_asset_path("/a//b.js").is_none());
    assert!(mobile_asset_path("/./app.js").is_none());
    assert_eq!(mobile_asset_path("///icons/a.svg"), Some("icons/a.svg".to_string()));
}

#[test]
fn paste_text_is_truncated_to_byte_limit() {
    let text = "a".repeat(PASTE_TEXT_LIMIT_BYTES + 1);

    let truncated = truncate_to_char_boundary(text, PASTE_TEXT_LIMIT_BYTES);

    assert_eq!(truncated.len(), PASTE_TEXT_LIMIT_BYTES);
}

#[test]
fn paste_text_truncation_preserves_utf8_boundaries() {
    let mut text = "a".repeat(PASTE_TEXT_LIMIT_BYTES - 1);
    text.push('好');

    let truncated = truncate_to_char_boundary(text, PASTE_TEXT_LIMIT_BYTES);

    assert_eq!(truncated.len(), PASTE_TEXT_LIMIT_BYTES - 1);
    assert!(truncated.is_char_boundary(truncated.len()));
}

#[test]
fn short_paste_text_is_kept_whole() {
    assert_eq!(truncate_to_char_boundary("héllo".to_string(), 6), "héllo");
    assert_eq!(truncate_to_char_boundary("héllo".to_string(), 2), "h");
}

#[test]
fn disconnect_cleanup_releases_pointer_before_super() {
    let mut state = ClientInputState::default();
    state.record(&BackendEffect::Key {
        code: "MetaLeft".to_string(),
        down: true,
    });
    state.record(&BackendEffect::PointerButton {
        button: "left".to_string(),
        down: true,
    });

    assert_eq!(
        state.drain_releases(),
        vec![
            BackendEffect::PointerButton {
                button: "left".to_string(),
                down: false,
            },
            BackendEffect::Key {
                code: "MetaLeft".to_string(),
                down: false,
            },
        ]
    );
}

#[test]
fn disconnect_cleanup_releases_ordinary_keys_before_super_and_empties_the_state() {
    let mut state = ClientInputState::new();
    for code in ["MetaRight", "ShiftLeft", "KeyA"] {
        state.record(&BackendEffect::Key {
            code: code.to_string(),
            down: true,
        });
    }
    state.record(&BackendEffect::Key {
        code: "KeyA".to_string(),
        down: false,
    });

    assert_eq!(
        state.drain_releases(),
        vec![
            BackendEffect::Key {
                code: "ShiftLeft".to_string(),
                down: false,
            },
            BackendEffect::Key {
                code: "MetaRight".to_string(),
                down: false,
            },
        ]
    );
    assert!(state.drain_releases().is_empty());
}

#[test]
fn a_press_of_held_input_is_dropped() {
    let mut state = ClientInputState::new();
    let press = BackendEffect::PointerButton {
        button: "left".to_string(),
        down: true,
    };
    assert!(!state.is_held(&press));
    state.record(&press);
    assert!(state.is_held(&press));
    assert!(matches!(
        plan_effect(Platform::Linux, &probes(), press.clone(), &state),
        EffectStep::AlreadyHeld
    ));
    state.record(&BackendEffect::PointerButton {
        button: "left".to_string(),
        down: false,
    });
    assert!(!state.is_held(&press));
}

#[test]
fn effects_are_planned_for_the_platform() {
    let state = ClientInputState::new();
    match plan_effect(Platform::Linux, &probes(), BackendEffect::Move { dx: 3, dy: -1 }, &state) {
        EffectStep::Input { effect, operation } => {
            assert_eq!(effect, BackendEffect::Move { dx: 3, dy: -1 });
            assert_eq!(operation, "move");
        }
        other => panic!("unexpected step {other:?}"),
    }
    let hold = BackendEffect::PointerButton {
        button: "left".to_string(),
        down: true,
    };
    match plan_effect(Platform::Windows, &probes(), hold, &state) {
        EffectStep::Reject {
            message: ServerMessage::Error { code, message },
        } => {
            assert_eq!(code, "unsupported_input");
            assert_eq!(message, "Pointer button hold is unavailable on this target backend.");
        }
        other => panic!("unexpected step {other:?}"),
    }
    match plan_effect(
        Platform::Linux,
        &probes(),
        BackendEffect::Text {
            value: "Hello!".to_string(),
        },
        &state,
    ) {
        EffectStep::Type { value } => assert_eq!(value, "Hello!"),
        other => panic!("unexpected step {other:?}"),
    }
    match plan_effect(
        Platform::Linux,
        &probes(),
        BackendEffect::Text {
            value: "héllo".to_string(),
        },
        &state,
    ) {
        EffectStep::Paste { value } => assert_eq!(value, "héllo"),
        other => panic!("unexpected step {other:?}"),
    }
}

#[test]
fn commands_are_validated_before_they_run() {
    let state = ClientInputState::new();
    let cmd = |action: &str| BackendEffect::Cmd {
        action: action.to_string(),
    };
    match plan_effect(Platform::Linux, &probes(), cmd("raw-shell"), &state) {
        EffectStep::Reject {
            message: ServerMessage::Error { code, message },
        } => {
            assert_eq!(code, "unknown_action");
            assert_eq!(message, "unknown desktop action: raw-shell");
        }
        other => panic!("unexpected step {other:?}"),
    }
    match plan_effect(Platform::Linux, &probes(), cmd("codex.voice.end"), &state) {
        EffectStep::Reject {
            message: ServerMessage::Error { code, message },
        } => {
            assert_eq!(code, "unavailable_action");
            assert!(message.starts_with("Linux desktop action codex.voice.end is unavailable"));
        }
        other => panic!("unexpected step {other:?}"),
    }
    match plan_effect(Platform::Linux, &probes(), cmd("codex.voice.start"), &state) {
        EffectStep::Run { action, report } => {
            assert_eq!(action, "codex.voice.start");
            assert!(report);
        }
        other => panic!("unexpected step {other:?}"),
    }
    match plan_effect(Platform::Linux, &probes(), cmd("media.mute"), &state) {
        EffectStep::Run { action, report } => {
            assert_eq!(action, "media.mute");
            assert!(!report);
        }
        other => panic!("unexpected step {other:?}"),
    }
}

#[test]
fn input_failures_and_reported_outcomes_are_answered() {
    match input_error("pointerButton", "device gone") {
        ServerMessage::Error { code, message } => {
            assert_eq!(code, "input_failed");
            assert_eq!(message, "pointerButton input failed: device gone");
        }
        other => panic!("unexpected message {other:?}"),
    }
    match command_outcome("codex.voice.start", Ok(())) {
        ServerMessage::ActionResult {
            action,
            status,
            message,
        } => {
            assert_eq!(action, "codex.voice.start");
            assert_eq!(status, "sent");
            assert!(message.contains("not confirmed"));
        }
        other => panic!("unexpected message {other:?}"),
    }
    match command_outcome("codex.voice.start", Err("no device".to_string())) {
        ServerMessage::ActionResult {
            status, message, ..
        } => {
            assert_eq!(status, "failed");
            assert_eq!(message, "no device");
        }
        other => panic!("unexpected message {other:?}"),
    }
}

#[test]
fn typeability_follows_the_input_device() {
    assert!(is_typeable_on(Platform::Linux, 'a'));
    assert!(is_typeable_on(Platform::Linux, '~'));
    assert!(!is_typeable_on(Platform::Linux, 'é'));
    assert!(is_typeable_on(Platform::Windows, '\u{7f}'));
    assert!(!is_typeable_on(Platform::Windows, 'é'));
    assert!(!is_typeable_on(Platform::MacOs, 'a'));
}

#[test]
fn paste_shortcuts_follow_the_platform() {
    assert_eq!(paste_modifier(Platform::MacOs), Some("MetaLeft"));
    assert_eq!(paste_modifier(Platform::Windows), Some("ControlLeft"));
    assert_eq!(paste_modifier(Platform::Linux), Some("ShiftLeft"));
    assert_eq!(paste_modifier(Platform::Unsupported), None);
    assert_eq!(
        paste_shortcut_steps("ShiftLeft"),
        vec![
            ("ShiftLeft".to_string(), true),
            ("Insert".to_string(), true),
            ("Insert".to_string(), false),
            ("ShiftLeft".to_string(), false),
        ]
    );
    assert_eq!(
        paste_shortcut_steps("ControlLeft"),
        vec![
            ("ControlLeft".to_string(), true),
            ("KeyV".to_string(), true),
            ("KeyV".to_string(), false),
            ("ControlLeft".to_string(), false),
        ]
    );
}

#[test]
fn assets_are_served_with_their_content_type() {
    assert_eq!(asset_content_type("index.html"), "text/html; charset=utf-8");
    assert_eq!(asset_content_type("styles/app.css"), "text/css; charset=utf-8");
    assert_eq!(asset_content_type("app.js"), "application/javascript; charset=utf-8");
    assert_eq!(asset_content_type("data/actions.json"), "application/json; charset=utf-8");
    assert_eq!(asset_content_type("icons/tap.svg"), "image/svg+xml");
    assert_eq!(asset_content_type("icons/tap.png"), "application/octet-stream");
    assert_eq!(asset_content_type(".js"), "application/octet-stream");
    assert_eq!(asset_content_type("a.b/readme"), "application/octet-stream");
}

#[test]
fn chord_releases_pressed_keys_when_later_press_fails() {
    let mut events = Vec::new();
    let result = chord_sequence(&["AltLeft", "F4"], |code, down| {
        events.push((code.to_string(), down));
        if code == "F4" && down {
            return Err(io::Error::other("press failed"));
        }
        Ok(())
    });

    assert!(result.is_err());
    assert_eq!(
        events,
        vec![
            ("AltLeft".to_string(), true),
            ("F4".to_string(), true),
            ("AltLeft".to_string(), false),
        ]
    );
}

#[test]
fn chord_reports_release_error_after_releasing_other_pressed_keys() {
    let mut events = Vec::new();
    let result = chord_sequence(&["MetaLeft", "PrintScreen"], |code, down| {
        events.push((code.to_string(), down));
        if code == "MetaLeft" && !down {
            return Err(io::Error::other("release failed"));
        }
        Ok(())
    });

    assert!(result.is_err());
    assert_eq!(
        events,
        vec![
            ("MetaLeft".to_string(), true),
            ("PrintScreen".to_string(), true),
            ("PrintScreen".to_string(), false),
            ("MetaLeft".to_string(), false),
        ]
    );
}

#[test]
fn websocket_payload_log_targets_are_disabled() {
    assert_eq!(HOST_LOG_LEVEL, HostLogLevel::Info);
    assert_eq!(host_log_level_for("tungstenite"), HostLogLevel::Off);
    assert_eq!(host_log_level_for("tokio_tungstenite"), HostLogLevel::Off);
    assert_eq!(
        host_log_level_for("tungstenite::protocol::frame"),
        HostLogLevel::Off
    );
    assert_eq!(host_log_level_for("tungstenite_extra"), HostLogLevel::Info);
    assert_eq!(host_log_level_for("tappad"), HostLogLevel::Info);
}

#[test]
fn unreadable_messages_are_rejected_with_the_reason() {
    match rejected_message("unknown variant `pointerMystery`") {
        ServerMessage::Error { code, message } => {
            assert_eq!(code, "invalid_message");
            assert_eq!(message, "Message was rejected: unknown variant `pointerMystery`");
        }
        other => panic!("unexpected message {other:?}"),
    }
}

#[test]
fn refused_actions_are_answered_with_their_error() {
    match action_refusal(&tappad::actions::ActionError::unknown("raw-shell")) {
        ServerMessage::Error { code, message } => {
            assert_eq!(code, "unknown_action");
            assert_eq!(message, "unknown desktop action: raw-shell");
        }
        other => panic!("unexpected message {other:?}"),
    }
    match action_refusal(&tappad::actions::ActionError::unavailable("Linux", "screenshot", "busy")) {
        ServerMessage::Error { code, .. } => assert_eq!(code, "unavailable_action"),
        other => panic!("unexpected message {other:?}"),
    }
}

#[test]
fn typed_characters_press_their_named_keys() {
    for c in 'a'..='z' {
        let name = format!("Key{}", c.to_ascii_uppercase());
        assert_eq!(tappad::uinput::ascii_key_code(c), tappad::uinput::key_code(&name));
        assert_eq!(tappad::uinput::ascii_key_code(c.to_ascii_uppercase()), tappad::uinput::key_code(&name));
    }
    for d in '0'..='9' {
        assert_eq!(tappad::uinput::ascii_key_code(d), tappad::uinput::key_code(&format!("Digit{d}")));
    }
    assert_eq!(tappad::uinput::ascii_key_code(' '), tappad::uinput::key_code("Space"));
    assert_eq!(tappad::uinput::ascii_key_code('\n'), tappad::uinput::key_code("Enter"));
    assert_eq!(tappad::uinput::ascii_key_code('\t'), tappad::uinput::key_code("Tab"));
    assert_eq!(tappad::uinput::ascii_key_code('é'), None);
}
