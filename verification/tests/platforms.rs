use tappad::rust_host::{
    action_capabilities as rust_host_actions, client_id, host_surface_state as rust_host_state,
    listen_port, token_accepted, CommandRegistry, RuntimeSettings as RustHostSettings,
};
use tappad::uinput::{
    _ioc, _ioc_write, ascii_key_code, click_events, is_typeable, key_code, key_events,
    move_events, needs_shift, scroll_events, type_text_events, InputEvent, BTN_LEFT, BTN_RIGHT,
    EV_KEY, EV_REL, EV_SYN, KEY_LEFTSHIFT, REL_WHEEL, REL_X, REL_Y,
};
use tappad::text::replace_all;
use tappad::windows_input::{windows_click_plan, windows_key_for_code, WindowsButton, WindowsKey};
use tappad::windows_surface::{
    action_capabilities as windows_actions, base64_url, control_url, generate_token,
    host_surface_state as windows_state, named_action_plan, render_mobile_index,
    reset_token, resolve_runtime_settings, resolve_token, to_be_bytes, NamedAction,
};

fn event(kind: u16, code: u16, value: i32) -> InputEvent {
    InputEvent { kind, code, value }
}

fn syn() -> InputEvent {
    event(EV_SYN, 0, 0)
}

#[test]
fn uinput_codes_follow_the_linux_key_table() {
    assert_eq!(key_code("Escape"), Some(1));
    assert_eq!(key_code("KeyQ"), Some(16));
    assert_eq!(key_code("ControlRight"), Some(97));
    assert_eq!(key_code("MetaLeft"), Some(125));
    assert_eq!(key_code("Unknown"), None);
    assert_eq!(ascii_key_code('a'), Some(30));
    assert_eq!(ascii_key_code('A'), Some(30));
    assert_eq!(ascii_key_code('\n'), Some(28));
    assert_eq!(ascii_key_code('é'), None);
    assert!(needs_shift('A'));
    assert!(needs_shift('!'));
    assert!(!needs_shift('a'));
    assert!(is_typeable(' '));
    assert!(!is_typeable('好'));
}

#[test]
fn pointer_input_becomes_relative_events() {
    assert_eq!(
        move_events(3, -2),
        vec![event(EV_REL, REL_X, 3), event(EV_REL, REL_Y, -2), syn()]
    );
    assert_eq!(scroll_events(-1), vec![event(EV_REL, REL_WHEEL, -1), syn()]);
    assert_eq!(
        click_events("right"),
        vec![event(EV_KEY, BTN_RIGHT, 1), syn(), event(EV_KEY, BTN_RIGHT, 0), syn()]
    );
    assert_eq!(click_events("side")[0], event(EV_KEY, BTN_LEFT, 1));
    assert_eq!(key_events("KeyQ", true), vec![event(EV_KEY, 16, 1), syn()]);
    assert!(key_events("Unknown", true).is_empty());
}

#[test]
fn typed_text_presses_shift_where_needed() {
    let events = type_text_events("aB");
    assert_eq!(
        events,
        vec![
            event(EV_KEY, 30, 1),
            syn(),
            event(EV_KEY, 30, 0),
            syn(),
            event(EV_KEY, KEY_LEFTSHIFT, 1),
            syn(),
            event(EV_KEY, 48, 1),
            syn(),
            event(EV_KEY, 48, 0),
            syn(),
            event(EV_KEY, KEY_LEFTSHIFT, 0),
            syn(),
        ]
    );
    assert!(type_text_events("é").is_empty());
}

#[test]
fn ioctl_numbers_match_the_kernel_encoding() {
    assert_eq!(_ioc(0, b'U', 1, 0), 0x5501);
    assert_eq!(_ioc_write(b'U', 100, 4), 0x4004_5564);
    assert_eq!(_ioc_write(b'U', 3, 92), 0x405c_5503);
}

#[test]
fn rust_host_registry_resolves_commands() {
    let registry = CommandRegistry::new();
    assert_eq!(registry.resolve("screenshot"), Some("omarchy capture screenshot"));
    assert_eq!(registry.resolve("workspace.10"), Some("hyprctl dispatch workspace 10"));
    assert_eq!(registry.resolve("raw-shell"), None);
    assert_eq!(registry.actions().len(), 27);
}

#[test]
fn host_surface_reports_linux_action_parity_and_deferred_webcam() {
    let commands = CommandRegistry::new();
    let settings = RustHostSettings {
        bind_host: "0.0.0.0".to_string(),
        port: 8765,
        token: Some("test-token".to_string()),
        hostname: "omarchy".to_string(),
    };

    let state = rust_host_state(&settings, &commands);

    assert_eq!(state.pairing.preferred_url, "http://omarchy:8765?token=test-token");
    assert_eq!(state.server_status.host, "omarchy");
    assert!(state.server_status.token_enabled);
    let state_of = |action: &str| {
        state
            .actions
            .iter()
            .find(|(name, _)| name == action)
            .map(|(_, capability)| capability.state)
    };
    assert_eq!(state_of("screenrecord.screen"), Some("supported"));
    assert_eq!(state_of("screenrecord.screen.audio"), Some("supported"));
    assert_eq!(state_of("screenrecord.screen.webcam"), Some("deferred"));
    assert!(state
        .readiness
        .iter()
        .any(|group| group.title == "Deferred action readiness"));
    assert_eq!(state.settings.token_summary, "Token provided by TOUCHPAD_TOKEN");
}

#[test]
fn mobile_index_injects_linux_action_manifest() {
    let html = r#"<html><head><script src="/app.js"></script></head><body></body></html>"#;
    let actions = rust_host_actions(&CommandRegistry::new());
    let webcam = actions
        .iter()
        .find(|(name, _)| name == "screenrecord.screen.webcam")
        .expect("webcam action");
    let manifest = format!(
        "{{\"{}\":{{\"state\":\"{}\"}}}}",
        webcam.0, webcam.1.state
    );
    let rendered = tappad::host_surface::render_mobile_index(html, &manifest);

    assert!(rendered.contains("window.__TAPPAD_ACTIONS__"));
    assert!(rendered.contains("screenrecord.screen.webcam"));
    assert!(rendered.contains("\"state\":\"deferred\""));
    assert!(rendered.contains(r#"<script src="/app.js"></script>"#));
}

#[test]
fn rust_host_settings_come_from_the_environment() {
    let settings = RustHostSettings::from_env(None, Some("9000"), Some("  "), "omarchy".to_string());
    assert_eq!(settings.bind_host, "0.0.0.0");
    assert_eq!(settings.port, 9000);
    assert_eq!(settings.token, None);
    let status = settings.server_status();
    assert!(!status.token_enabled);
    assert_eq!(settings.pairing_links().local_url, "http://omarchy:9000");
    assert_eq!(listen_port(Some("+80")), 80);
    assert_eq!(listen_port(Some("70000")), 8765);
    assert_eq!(listen_port(None), 8765);
}

#[test]
fn websocket_tokens_are_checked() {
    assert!(token_accepted(None, None));
    assert!(token_accepted(Some("t"), Some("t")));
    assert!(!token_accepted(Some("t"), Some("T")));
    assert!(!token_accepted(Some("t"), None));
    assert_eq!(client_id(0), "client-0");
    assert_eq!(client_id(42), "client-42");
}

#[test]
fn mobile_index_injects_windows_action_manifest() {
    let html = r#"<html><body><script src="/app.js?v11"></script></body></html>"#;
    let actions = windows_actions();
    let webcam = actions
        .iter()
        .find(|(name, _)| name == "screenrecord.screen.webcam")
        .expect("webcam action");
    let manifest = format!("{{\"{}\":{{\"state\":\"{}\"}}}}", webcam.0, webcam.1.state);
    let rendered = render_mobile_index(html, &manifest);

    assert!(rendered.contains("window.__TAPPAD_ACTIONS__"));
    assert!(rendered.contains("screenrecord.screen.webcam"));
    assert!(rendered.contains("\"state\":\"hidden\""));
    assert!(rendered.contains("\n    <script src=\"/app.js?v11\"></script>"));
}

#[test]
fn token_is_persisted_when_missing() {
    assert_eq!(resolve_token(Some(" env "), Some("stored")), Some("env".to_string()));
    assert_eq!(resolve_token(Some(" "), Some(" stored\n")), Some("stored".to_string()));
    assert_eq!(resolve_token(None, None), None);
    let token = reset_token(1_700_000_000_000_000_000);
    assert!(!token.is_empty());
    assert_eq!(token.len(), 22);
    assert_eq!(token, generate_token(1_700_000_000_000_000_000));
}

#[test]
fn windows_tokens_encode_the_time_in_url_safe_base64() {
    assert_eq!(to_be_bytes(0x0102), {
        let mut b = [0u8; 16];
        b[14] = 1;
        b[15] = 2;
        b
    });
    assert_eq!(base64_url([0u8; 16]), "AAAAAAAAAAAAAAAAAAAAAA");
    assert_eq!(base64_url([255u8; 16]), "_____________________w");
    assert_eq!(generate_token(0), "AAAAAAAAAAAAAAAAAAAAAA");
}

#[test]
fn windows_surface_reports_its_settings() {
    let settings = resolve_runtime_settings(
        None,
        Some("x"),
        Some("  ".to_string()),
        Some("ignored".to_string()),
        "tok".to_string(),
    );
    assert_eq!(settings.hostname, "localhost");
    assert_eq!(settings.port, 8765);
    let settings = resolve_runtime_settings(None, None, None, Some("PC".to_string()), "tok".to_string());
    assert_eq!(settings.hostname, "PC");
    let state = windows_state(&settings, Some([10, 0, 0, 5]));
    assert_eq!(state.pairing.preferred_url, "http://10.0.0.5:8765/?token=tok");
    assert_eq!(state.pairing.local_url, control_url("PC", 8765, "tok"));
    assert!(state.server_status.token_enabled);
    assert_eq!(state.settings.token_summary, "Token saved on this PC");
    assert_eq!(state.readiness.len(), 2);
    assert_eq!(state.actions.len(), 17);
}

#[test]
fn windows_named_actions_are_planned() {
    assert_eq!(named_action_plan("open_recordings_folder"), NamedAction::OpenRecordingsFolder);
    assert_eq!(
        named_action_plan("close_window"),
        NamedAction::Chord(vec!["AltLeft", "F4"])
    );
    assert_eq!(named_action_plan("app_launcher"), NamedAction::Tap("MetaLeft"));
}

#[test]
fn rust_host_recordings_are_saved_in_the_tappad_folder() {
    let registry = CommandRegistry::new();
    for action in [
        "screenrecord.screen",
        "screenrecord.window",
        "screenrecord.screen.audio",
        "screenrecord.screen.webcam",
    ] {
        let command = registry.resolve(action).expect("registered recorder");
        assert!(command.starts_with(r#"mkdir -p "$HOME/Videos/TapPad"; filename="$HOME/Videos/TapPad/screenrecording-"#));
        assert!(command.contains(r#"-o "$filename""#));
        assert_eq!(Some(command), tappad::actions::linux_command(action));
    }
    assert_eq!(
        registry.resolve("open_recordings_folder"),
        Some(r#"mkdir -p "$HOME/Videos/TapPad" && xdg-open "$HOME/Videos/TapPad""#)
    );
    for i in 1..=10 {
        assert_eq!(
            registry.resolve(&format!("workspace.{i}")),
            Some(format!("hyprctl dispatch workspace {i}").as_str())
        );
    }
    assert_eq!(registry.resolve("workspace.11"), None);
}

#[test]
fn windows_keys_follow_the_browser_key_codes() {
    assert_eq!(windows_key_for_code("KeyA"), Some(WindowsKey::A));
    assert_eq!(windows_key_for_code("KeyZ"), Some(WindowsKey::Z));
    assert_eq!(windows_key_for_code("Digit0"), Some(WindowsKey::Num0));
    assert_eq!(windows_key_for_code("Digit7"), Some(WindowsKey::Num7));
    assert_eq!(windows_key_for_code("Enter"), Some(WindowsKey::Return));
    assert_eq!(windows_key_for_code("ArrowLeft"), Some(WindowsKey::LeftArrow));
    assert_eq!(windows_key_for_code("ShiftRight"), Some(WindowsKey::RShift));
    assert_eq!(windows_key_for_code("ControlLeft"), Some(WindowsKey::LControl));
    assert_eq!(windows_key_for_code("AltLeft"), Some(WindowsKey::Alt));
    assert_eq!(windows_key_for_code("AltRight"), Some(WindowsKey::Alt));
    assert_eq!(windows_key_for_code("MetaRight"), Some(WindowsKey::Meta));
    assert_eq!(windows_key_for_code("CapsLock"), Some(WindowsKey::CapsLock));
    assert_eq!(windows_key_for_code("F12"), Some(WindowsKey::F12));
}

#[test]
fn windows_ignores_unknown_key_codes() {
    assert_eq!(windows_key_for_code("Minus"), None);
    assert_eq!(windows_key_for_code("keya"), None);
    assert_eq!(windows_key_for_code("F13"), None);
    assert_eq!(windows_key_for_code(""), None);
}

#[test]
fn replacing_follows_str_replace() {
    assert_eq!(replace_all("abc", "", "-"), "abc".replace("", "-"));
    assert_eq!(replace_all("abc", "", "-"), "-a-b-c-");
    assert_eq!(replace_all("", "", "x"), "x");
    assert_eq!(replace_all("aaa", "aa", "b"), "ba");
    assert_eq!(replace_all("a</head>b</head>", "</head>", "!"), "a!b!");
    assert_eq!(replace_all("none here", "zz", "y"), "none here");
}

#[test]
fn windows_clicks_press_the_named_button_at_least_once() {
    assert_eq!(windows_click_plan("right", 2), (WindowsButton::Right, 2));
    assert_eq!(windows_click_plan("middle", 1), (WindowsButton::Middle, 1));
    assert_eq!(windows_click_plan("left", 0), (WindowsButton::Left, 1));
    assert_eq!(windows_click_plan("other", 3), (WindowsButton::Left, 3));
}
