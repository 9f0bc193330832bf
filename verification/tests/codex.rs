use tappad::actions::ActionError;
use tappad::metadata::MetadataError;
use tappad::codex::{
    linux_codex_probes, probe_metadata_app_binding,
    active_window_output, app_voice_capability_for, chord_outcome, codex_dispatch,
    codex_is_running, foreground_outcome, is_codex_window_class, keybindings_invalid,
    keybindings_unreadable, modifier_code, parse_accelerator, primary_key_code,
    probe_app_binding, probe_start_binding, resolve_app_binding, start_voice_capability_for,
    verify_codex_foreground, CodexDispatch, CodexProbes, Keybinding, ProbeError, StartBinding,
};

const START_VOICE_COMMAND: &str = "realtimeVoice";
const END_VOICE_COMMAND: &str = "realtimeVoice.endCall";
const TOGGLE_MICROPHONE_COMMAND: &str = "realtimeVoice.toggleMicrophoneMute";

fn bindings(pairs: &[(&str, &str)]) -> Result<Vec<Keybinding>, ProbeError> {
    Ok(pairs
        .iter()
        .map(|(command, key)| Keybinding {
            command: command.to_string(),
            key: key.to_string(),
        })
        .collect())
}

fn running() -> Result<bool, String> {
    Ok(true)
}

fn stopped() -> Result<bool, String> {
    Ok(false)
}

fn app_probe(
    bindings: &Result<Vec<Keybinding>, ProbeError>,
    command: &str,
    class: &str,
    initial_class: &str,
    identity_verified: bool,
) -> Result<StartBinding, ProbeError> {
    let binding = resolve_app_binding(true, bindings, command)?;
    verify_codex_foreground(class, initial_class, identity_verified)?;
    Ok(binding)
}

#[test]
fn configured_global_start_binding_is_ready_when_codex_is_running() {
    let probe = probe_start_binding(
        true,
        &bindings(&[(START_VOICE_COMMAND, "Command+F2")]),
        &running(),
    );

    assert_eq!(
        probe,
        Ok(StartBinding {
            accelerator: "Command+F2".to_string(),
            input_codes: vec!["MetaLeft".to_string(), "F2".to_string()],
        })
    );

    let capability = start_voice_capability_for(&probe);
    assert_eq!(capability.state, "supported");
    assert_eq!(capability.scope, Some("os-global"));
    assert_eq!(capability.reason_code, None);
    assert_eq!(capability.binding.as_deref(), Some("Command+F2"));
    assert!(capability.note.expect("note").contains("Command+F2"));
}

#[test]
fn installed_but_stopped_codex_is_unavailable() {
    let error = probe_start_binding(
        true,
        &bindings(&[(START_VOICE_COMMAND, "Command+F2")]),
        &stopped(),
    )
    .expect_err("stopped app is unavailable");
    assert_eq!(error.reason_code, "codex_not_running");
}

#[test]
fn unreadable_runtime_is_reported() {
    let error = probe_start_binding(
        true,
        &bindings(&[(START_VOICE_COMMAND, "Command+F2")]),
        &Err("permission denied".to_string()),
    )
    .expect_err("runtime must be readable");
    assert_eq!(error.reason_code, "codex_runtime_unreadable");
    assert!(error.detail.ends_with("permission denied"));
}

#[test]
fn missing_global_binding_is_unavailable() {
    let error = probe_start_binding(true, &bindings(&[(END_VOICE_COMMAND, "F4")]), &running())
        .expect_err("binding is required");
    assert_eq!(error.reason_code, "codex_global_binding_missing");
}

#[test]
fn unreadable_or_invalid_keybinding_files_are_explicitly_unavailable() {
    let unreadable = probe_start_binding(
        true,
        &Err(keybindings_unreadable("/home/u/.codex/missing.json", "No such file or directory")),
        &running(),
    )
    .expect_err("missing keybindings must fail");
    assert_eq!(unreadable.reason_code, "codex_bindings_unreadable");
    assert_eq!(
        unreadable.detail,
        "TapPad could not read Codex keybindings at /home/u/.codex/missing.json: No such file or directory"
    );

    let invalid = probe_start_binding(
        true,
        &Err(keybindings_invalid("/home/u/.codex/keybindings.json", "expected value at line 1 column 1")),
        &running(),
    )
    .expect_err("invalid JSON must fail");
    assert_eq!(invalid.reason_code, "codex_bindings_invalid");
}

#[test]
fn unsupported_global_binding_is_not_silently_ignored() {
    let error = probe_start_binding(
        true,
        &bindings(&[(START_VOICE_COMMAND, "Command+VolumeUp")]),
        &running(),
    )
    .expect_err("unsupported key must fail");
    assert_eq!(error.reason_code, "codex_global_binding_unsupported");
    assert!(error.detail.contains("VolumeUp"));
}

#[test]
fn duplicate_global_bindings_are_not_silently_resolved() {
    let error = probe_start_binding(
        true,
        &bindings(&[
            (START_VOICE_COMMAND, "Command+F2"),
            (START_VOICE_COMMAND, "Command+F3"),
        ]),
        &running(),
    )
    .expect_err("duplicate bindings are ambiguous");
    assert_eq!(error.reason_code, "codex_global_binding_ambiguous");
}

#[test]
fn missing_codex_installation_is_reported_before_binding_dispatch() {
    let error = probe_start_binding(
        false,
        &bindings(&[(START_VOICE_COMMAND, "Command+F2")]),
        &running(),
    )
    .expect_err("installation is required");
    assert_eq!(error.reason_code, "codex_not_installed");
}

#[test]
fn app_scoped_end_and_mute_are_supported_only_for_verified_foreground_codex() {
    let configured = bindings(&[(END_VOICE_COMMAND, "F3"), (TOGGLE_MICROPHONE_COMMAND, "F4")]);

    for (action, label, command, binding) in [
        ("codex.voice.end", "End Voice Chat", END_VOICE_COMMAND, "F3"),
        (
            "codex.voice.toggle_microphone",
            "Toggle Voice Chat microphone",
            TOGGLE_MICROPHONE_COMMAND,
            "F4",
        ),
    ] {
        let probe = app_probe(&configured, command, "chatgpt", "chatgpt", true);
        let capability = app_voice_capability_for(label, &probe);
        assert_eq!(capability.state, "supported", "{action}");
        assert_eq!(capability.scope, Some("app"));
        assert_eq!(capability.reason_code, None);
        assert_eq!(capability.binding.as_deref(), Some(binding));
    }
}

#[test]
fn app_scoped_actions_reject_non_codex_or_partially_matching_window_classes() {
    let configured = bindings(&[(END_VOICE_COMMAND, "F3")]);

    for (class, initial_class) in [
        ("terminal", "terminal"),
        ("chatgpt", "terminal"),
        ("terminal", "chatgpt"),
    ] {
        let error = app_probe(&configured, END_VOICE_COMMAND, class, initial_class, true)
            .expect_err("both window classes must identify Codex");
        assert_eq!(error.reason_code, "codex_not_foreground");
    }
}

#[test]
fn app_scoped_actions_reject_spoofed_codex_class_with_wrong_executable() {
    let configured = bindings(&[(END_VOICE_COMMAND, "F3")]);
    let error = app_probe(&configured, END_VOICE_COMMAND, "chatgpt", "chatgpt", false)
        .expect_err("window class alone is not authoritative");
    assert_eq!(error.reason_code, "codex_foreground_identity_mismatch");
}

#[test]
fn app_scoped_binding_errors_are_explicit_and_never_guess() {
    assert_eq!(
        resolve_app_binding(true, &bindings(&[]), END_VOICE_COMMAND)
            .expect_err("missing binding")
            .reason_code,
        "codex_app_binding_missing"
    );
    assert_eq!(
        resolve_app_binding(
            true,
            &bindings(&[(END_VOICE_COMMAND, "F3"), (END_VOICE_COMMAND, "F5")]),
            END_VOICE_COMMAND
        )
        .expect_err("ambiguous binding")
        .reason_code,
        "codex_app_binding_ambiguous"
    );
    assert_eq!(
        resolve_app_binding(true, &bindings(&[(END_VOICE_COMMAND, "VolumeUp")]), END_VOICE_COMMAND)
            .expect_err("unsupported binding")
            .reason_code,
        "codex_app_binding_unsupported"
    );
}

#[test]
fn accelerator_parser_rejects_ambiguous_or_bare_modifier_bindings() {
    for accelerator in [
        "Command",
        "Command+Command+F2",
        "Command+F2+F3",
        "F2+Command",
        "Command++F2",
    ] {
        assert!(
            parse_accelerator(accelerator).is_err(),
            "{accelerator} should be rejected"
        );
    }
}

#[test]
fn accelerator_parser_uses_the_configured_non_default_chord() {
    assert_eq!(
        parse_accelerator("Ctrl + Shift + k"),
        Ok(vec![
            "ControlLeft".to_string(),
            "ShiftLeft".to_string(),
            "KeyK".to_string(),
        ])
    );
    assert_eq!(
        parse_accelerator("CommandOrControl+PageDown"),
        Ok(vec!["ControlLeft".to_string(), "PageDown".to_string()])
    );
}

#[test]
fn accelerator_errors_explain_the_refusal() {
    let error = parse_accelerator("Command+F2+F3").expect_err("two primary keys");
    assert_eq!(error.reason_code, "codex_global_binding_unsupported");
    assert_eq!(
        error.detail,
        "Codex's OS-global Voice Chat hotkey (Command+F2+F3) cannot be dispatched safely because it contains more than one primary key."
    );
}

#[test]
fn accelerator_tokens_map_to_input_codes() {
    assert_eq!(modifier_code("Alt"), Some("AltLeft"));
    assert_eq!(modifier_code("super"), Some("MetaLeft"));
    assert_eq!(modifier_code("F2"), None);
    assert_eq!(primary_key_code("a").as_deref(), Some("KeyA"));
    assert_eq!(primary_key_code("7").as_deref(), Some("Digit7"));
    assert_eq!(primary_key_code("F24"), None);
    assert_eq!(primary_key_code("F12").as_deref(), Some("F12"));
}

#[test]
fn window_classes_identify_codex_in_any_case() {
    assert!(is_codex_window_class("ChatGPT"));
    assert!(is_codex_window_class("codex-desktop"));
    assert!(!is_codex_window_class("codex-desktop-beta"));
}

#[test]
fn active_window_errors_are_reported() {
    assert_eq!(
        active_window_output(true, Ok("{}".to_string()), ""),
        Ok("{}".to_string())
    );
    let error = active_window_output(false, Ok(String::new()), "  no socket \n")
        .expect_err("failed command");
    assert_eq!(error.reason_code, "codex_foreground_unreadable");
    assert_eq!(
        error.detail,
        "TapPad could not inspect the active Hyprland window: no socket"
    );
    let blank = active_window_output(false, Ok(String::new()), " ").expect_err("failed command");
    assert_eq!(blank.detail, "TapPad could not inspect the active Hyprland window.");
}

fn ready(accelerator: &str, codes: &[&str]) -> Result<StartBinding, ProbeError> {
    Ok(StartBinding {
        accelerator: accelerator.to_string(),
        input_codes: codes.iter().map(|c| c.to_string()).collect(),
    })
}

#[test]
fn codex_actions_dispatch_their_probed_chords() {
    let probes = CodexProbes {
        start: ready("Command+F2", &["MetaLeft", "F2"]),
        start_foreground: ready("Ctrl+Shift+V", &["ControlLeft", "ShiftLeft", "KeyV"]),
        end: Err(ProbeError {
            reason_code: "codex_app_binding_missing",
            detail: "The Codex app shortcut is not configured.".to_string(),
        }),
        toggle_microphone: ready("F4", &["F4"]),
    };
    match codex_dispatch("codex.voice.start", &probes) {
        Ok(CodexDispatch::Chord { codes }) => assert_eq!(codes, vec!["MetaLeft", "F2"]),
        other => panic!("unexpected dispatch {other:?}"),
    }
    match codex_dispatch("codex.voice.toggle_microphone", &probes) {
        Ok(CodexDispatch::ForegroundChord { codes }) => assert_eq!(codes, vec!["F4"]),
        other => panic!("unexpected dispatch {other:?}"),
    }
    assert_eq!(
        codex_dispatch("codex.voice.end", &probes).expect_err("missing binding"),
        ActionError::Unavailable {
            platform: "Linux",
            action: "codex.voice.end".to_string(),
            reason: "The Codex app shortcut is not configured.".to_string(),
        }
    );
    assert_eq!(
        codex_dispatch("media.mute", &probes).expect_err("not a Codex action"),
        ActionError::Unknown {
            action: "media.mute".to_string()
        }
    );
    assert_eq!(foreground_outcome("codex.voice.end", &Ok(())), Ok(()));
    assert_eq!(
        chord_outcome("codex.voice.end", &Err("device gone".to_string())),
        Err(ActionError::Failed {
            platform: "Linux",
            action: "codex.voice.end".to_string(),
            detail: "device gone".to_string(),
        })
    );
}

#[test]
fn codex_runs_when_a_process_named_chatgpt_exists() {
    let entry = |name: &str, comm: Option<&str>| (name.to_string(), comm.map(|c| c.to_string()));
    assert!(codex_is_running(&[
        entry("self", Some("ChatGPT\n")),
        entry("1234", Some(" chatgpt \n")),
    ]));
    assert!(!codex_is_running(&[entry("self", Some("ChatGPT\n")), entry("12", None)]));
    assert!(!codex_is_running(&[entry("99", Some("ChatGPT-helper"))]));
    assert!(!codex_is_running(&[]));
}

#[test]
fn app_probes_check_the_binding_before_the_foreground_window() {
    let not_foreground = Err(ProbeError {
        reason_code: "codex_not_foreground",
        detail: "Codex is not the active window.".to_string(),
    });
    assert_eq!(
        probe_app_binding(true, &bindings(&[]), END_VOICE_COMMAND, &not_foreground)
            .expect_err("missing binding")
            .reason_code,
        "codex_app_binding_missing"
    );
    assert_eq!(
        probe_app_binding(true, &bindings(&[(END_VOICE_COMMAND, "F3")]), END_VOICE_COMMAND, &not_foreground)
            .expect_err("background Codex")
            .reason_code,
        "codex_not_foreground"
    );
    let binding = probe_app_binding(true, &bindings(&[(END_VOICE_COMMAND, "F3")]), END_VOICE_COMMAND, &Ok(()))
        .expect("foreground Codex");
    assert_eq!(binding.accelerator, "F3");
    assert_eq!(binding.input_codes, vec!["F3".to_string()]);
}

#[test]
fn accepted_accelerators_are_modifiers_then_one_key() {
    assert_eq!(
        parse_accelerator("Ctrl+Alt+F5").expect("chord"),
        vec!["ControlLeft".to_string(), "AltLeft".to_string(), "F5".to_string()]
    );
    assert!(parse_accelerator("Ctrl+Control+F5").is_err());
    assert!(parse_accelerator("F5+Ctrl").is_err());
    assert!(parse_accelerator("").is_err());
}

const START_FOREGROUND_COMMAND: &str = "composer.startVoiceMode";

#[test]
fn foreground_start_follows_the_installed_metadata() {
    let default: Result<String, MetadataError> = Ok("Ctrl+Alt+V".to_string());
    let binding = probe_metadata_app_binding(true, &bindings(&[]), START_FOREGROUND_COMMAND, &default, &Ok(()))
        .expect("metadata default");
    assert_eq!(binding.accelerator, "Ctrl+Alt+V");
    assert_eq!(
        binding.input_codes,
        vec!["ControlLeft".to_string(), "AltLeft".to_string(), "KeyV".to_string()]
    );

    let user = bindings(&[(START_FOREGROUND_COMMAND, "F7")]);
    let binding = probe_metadata_app_binding(true, &user, START_FOREGROUND_COMMAND, &default, &Ok(()))
        .expect("user override");
    assert_eq!(binding.accelerator, "F7");

    let no_default: Result<String, MetadataError> = Err(MetadataError::DefaultBindingMissing);
    assert!(probe_metadata_app_binding(true, &user, START_FOREGROUND_COMMAND, &no_default, &Ok(())).is_ok());
    assert_eq!(
        probe_metadata_app_binding(true, &bindings(&[]), START_FOREGROUND_COMMAND, &no_default, &Ok(()))
            .expect_err("no binding at all")
            .reason_code,
        "codex_app_binding_missing"
    );

    for (error, code) in [
        (MetadataError::ScopeMismatch, "codex_app_command_scope_mismatch"),
        (MetadataError::CommandMissing, "codex_app_command_missing"),
        (MetadataError::CommandAmbiguous, "codex_app_command_ambiguous"),
        (MetadataError::Invalid("bad header".to_string()), "codex_app_metadata_unreadable"),
        (MetadataError::Unreadable("gone".to_string()), "codex_app_metadata_unreadable"),
    ] {
        assert_eq!(
            probe_metadata_app_binding(true, &user, START_FOREGROUND_COMMAND, &Err(error), &Ok(()))
                .expect_err("metadata fault")
                .reason_code,
            code
        );
    }
    assert_eq!(
        probe_metadata_app_binding(
            true,
            &bindings(&[]),
            START_FOREGROUND_COMMAND,
            &Err(MetadataError::DefaultBindingAmbiguous),
            &Ok(())
        )
        .expect_err("ambiguous default")
        .reason_code,
        "codex_app_metadata_ambiguous"
    );
    let background = Err(ProbeError {
        reason_code: "codex_not_foreground",
        detail: "Codex is not the active window.".to_string(),
    });
    assert_eq!(
        probe_metadata_app_binding(true, &user, START_FOREGROUND_COMMAND, &default, &background)
            .expect_err("background")
            .reason_code,
        "codex_not_foreground"
    );
}

#[test]
fn linux_probes_combine_every_source() {
    let user = bindings(&[(START_VOICE_COMMAND, "Ctrl+Alt+S"), (END_VOICE_COMMAND, "F3")]);
    let probes = linux_codex_probes(
        true,
        &user,
        &Ok(true),
        &Err(MetadataError::ScopeMismatch),
        &Ok(()),
    );
    assert_eq!(probes.start.expect("start").accelerator, "Ctrl+Alt+S");
    assert_eq!(
        probes.start_foreground.expect_err("scope").reason_code,
        "codex_app_command_scope_mismatch"
    );
    assert_eq!(probes.end.expect("end").accelerator, "F3");
    assert_eq!(
        probes.toggle_microphone.expect_err("no binding").reason_code,
        "codex_app_binding_missing"
    );
}
