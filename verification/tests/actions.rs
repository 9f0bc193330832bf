use std::collections::BTreeSet;

use tappad::actions::{
    action_capabilities, action_ids, additional_action_ids, capability, capability_states,
    command_failure, recording_admission,
    execution_success_message, linux_capability, linux_command, macos_capability, macos_command,
    omarchy_action_ids, platform_capability, reports_execution_result, scoped_capability,
    ui_action_ids, validate, windows_capability, windows_input_action, ActionError, Platform,
    WindowsInputAction,
};
use tappad::codex::{is_codex_action, CodexProbes, ProbeError, StartBinding};
use tappad::protocol::{current_host_contract, HOST_CONTRACT_VERSION, PROTOCOL_VERSION};

fn missing_codex() -> ProbeError {
    ProbeError {
        reason_code: "codex_not_installed",
        detail: "Codex desktop was not found at a supported Linux installation path.".to_string(),
    }
}

fn probes_without_codex() -> CodexProbes {
    CodexProbes {
        start: Err(missing_codex()),
        start_foreground: Err(missing_codex()),
        end: Err(missing_codex()),
        toggle_microphone: Err(missing_codex()),
    }
}

fn binding(accelerator: &str, codes: &[&str]) -> StartBinding {
    StartBinding {
        accelerator: accelerator.to_string(),
        input_codes: codes.iter().map(|c| c.to_string()).collect(),
    }
}

fn probes_with_codex() -> CodexProbes {
    CodexProbes {
        start: Ok(binding("Command+F2", &["MetaLeft", "F2"])),
        start_foreground: Ok(binding("Ctrl+Shift+V", &["ControlLeft", "ShiftLeft", "KeyV"])),
        end: Ok(binding("F3", &["F3"])),
        toggle_microphone: Ok(binding("F4", &["F4"])),
    }
}

fn has_capability(list: &[(String, tappad::actions::CapabilityStatus)], action: &str) -> bool {
    list.iter().any(|(name, _)| name == action)
}

#[test]
fn every_registered_action_has_a_platform_capability() {
    let probes = probes_without_codex();
    for platform in [Platform::Linux, Platform::MacOs, Platform::Windows] {
        let capabilities = action_capabilities(platform, &probes);
        for action in action_ids() {
            assert!(has_capability(&capabilities, action), "missing {action}");
        }
        if platform == Platform::Linux {
            assert_eq!(
                capabilities.len(),
                action_ids().len() + omarchy_action_ids().len()
            );
        } else {
            assert_eq!(capabilities.len(), action_ids().len());
        }
        assert!(!has_capability(&capabilities, "raw-shell"));
    }
}

#[test]
fn omarchy_workspace_actions_are_advertised_as_supported() {
    let capabilities = action_capabilities(Platform::Linux, &probes_without_codex());
    for action in omarchy_action_ids() {
        let state = capabilities
            .iter()
            .find(|(name, _)| name == action)
            .map(|(_, capability)| capability.state);
        assert_eq!(state, Some("supported"), "missing supported capability for {action}");
    }
}

#[test]
fn current_ui_actions_remain_a_compatible_registry_subset() {
    let ids = action_ids();
    for action in ui_action_ids() {
        assert!(ids.contains(&action), "UI action {action} is unregistered");
    }
    assert_eq!(
        ids.iter().filter(|action| action.starts_with("codex.voice.")).count(),
        4
    );
}

#[test]
fn every_codex_voice_action_reports_dispatch_completion_without_claiming_state() {
    for action in [
        "codex.voice.start",
        "codex.voice.start_foreground",
        "codex.voice.end",
        "codex.voice.toggle_microphone",
    ] {
        assert!(reports_execution_result(action));
        let message = execution_success_message(action).expect("Codex dispatch copy");
        assert!(message.contains("Host"));
        assert!(message.contains("not confirmed"));
    }
    assert!(!reports_execution_result("media.mute"));
    assert_eq!(execution_success_message("media.mute"), None);
}

#[test]
fn capability_metadata_is_additive_for_existing_clients() {
    let legacy = capability("supported", None);
    assert_eq!(legacy.state, "supported");
    assert_eq!(legacy.note, None);
    assert_eq!(legacy.scope, None);
    assert_eq!(legacy.reason_code, None);
    assert_eq!(legacy.binding, None);

    let scoped = scoped_capability("unavailable", "app-only", "app", Some("codex_app_scope_only"));
    assert_eq!(scoped.state, "unavailable");
    assert_eq!(scoped.note.as_deref(), Some("app-only"));
    assert_eq!(scoped.scope, Some("app"));
    assert_eq!(scoped.reason_code, Some("codex_app_scope_only"));
    assert_eq!(scoped.binding, None);

    let mut bound = scoped_capability("supported", "configured", "os-global", None);
    bound.binding = Some("Command+F3".to_string());
    assert_eq!(bound.state, "supported");
    assert_eq!(bound.note.as_deref(), Some("configured"));
    assert_eq!(bound.scope, Some("os-global"));
    assert_eq!(bound.reason_code, None);
    assert_eq!(bound.binding.as_deref(), Some("Command+F3"));
}

#[test]
fn unknown_actions_fail_before_reaching_the_adapter() {
    for platform in [Platform::Linux, Platform::MacOs, Platform::Windows, Platform::Unsupported] {
        assert_eq!(
            validate(platform, &probes_with_codex(), "raw-shell"),
            Err(ActionError::Unknown {
                action: "raw-shell".to_string(),
            })
        );
    }
}

#[test]
fn platform_specific_actions_require_adapter_advertisement() {
    for platform in [Platform::MacOs, Platform::Windows, Platform::Unsupported] {
        assert_eq!(
            validate(platform, &probes_with_codex(), "workspace.1"),
            Err(ActionError::Unknown {
                action: "workspace.1".to_string(),
            })
        );
    }
    assert_eq!(validate(Platform::Linux, &probes_with_codex(), "workspace.1"), Ok(()));
}

#[test]
fn non_runnable_capability_explains_the_failure() {
    assert_eq!(
        validate(Platform::MacOs, &probes_with_codex(), "screenrecord.screen"),
        Err(ActionError::Unavailable {
            platform: "macOS",
            action: "screenrecord.screen".to_string(),
            reason: "capability is hidden".to_string(),
        })
    );
    let error = validate(Platform::Linux, &probes_without_codex(), "codex.voice.start")
        .expect_err("a missing Codex is unavailable");
    assert_eq!(
        error,
        ActionError::Unavailable {
            platform: "Linux",
            action: "codex.voice.start".to_string(),
            reason: "Codex desktop was not found at a supported Linux installation path.".to_string(),
        }
    );
    assert_eq!(
        error.message(),
        "Linux desktop action codex.voice.start is unavailable: Codex desktop was not found at a supported Linux installation path."
    );
}

#[test]
fn action_error_messages_name_the_platform_and_action() {
    assert_eq!(ActionError::unknown("raw-shell").message(), "unknown desktop action: raw-shell");
    assert_eq!(
        ActionError::failed("Windows", "screenshot", "exit status 1").message(),
        "Windows desktop action screenshot failed: exit status 1"
    );
}

#[test]
fn every_advertised_linux_action_has_an_implementation() {
    for action in action_ids().into_iter().chain(omarchy_action_ids()) {
        assert!(
            linux_command(action).is_some() || is_codex_action(action),
            "missing {action}"
        );
    }
}

#[test]
fn app_scoped_codex_actions_keep_app_scope_when_runtime_state_changes() {
    for probes in [probes_with_codex(), probes_without_codex()] {
        for action in ["codex.voice.end", "codex.voice.toggle_microphone"] {
            let capability = linux_capability(action, &probes);
            assert_eq!(capability.scope, Some("app"));
            assert!(matches!(capability.state, "supported" | "unavailable"));
        }
    }
}

#[test]
fn close_window_uses_the_lua_hyprland_dispatcher() {
    assert_eq!(
        linux_command("close_window"),
        Some("hyprctl eval 'hl.dispatch(hl.dsp.window.close())'")
    );
}

#[test]
fn workspace_actions_use_direct_lua_focus_dispatches() {
    let expected = [
        ("workspace.previous", "e-1"),
        ("workspace.former", "previous"),
        ("workspace.next", "e+1"),
        ("workspace.1", "1"),
        ("workspace.2", "2"),
        ("workspace.3", "3"),
        ("workspace.4", "4"),
        ("workspace.5", "5"),
    ];

    for (action, workspace) in expected {
        let expected_command = format!(
            "hyprctl eval 'hl.dispatch(hl.dsp.focus({{ workspace = \"{workspace}\" }}))'"
        );
        assert_eq!(
            linux_command(action),
            Some(expected_command.as_str()),
            "wrong mapping for {action}"
        );
    }
    assert_eq!(omarchy_action_ids(), expected.map(|(action, _)| action).to_vec());
}

#[test]
fn app_launcher_uses_the_current_omarchy_apps_menu() {
    assert_eq!(linux_command("app_launcher"), Some("omarchy-menu toggle apps"));
}

#[test]
fn volume_actions_use_the_omarchy_osd_entrypoint() {
    assert_eq!(
        linux_command("media.volume_up"),
        Some("omarchy audio output volume raise")
    );
    assert_eq!(
        linux_command("media.volume_down"),
        Some("omarchy audio output volume lower")
    );
    assert_eq!(
        linux_command("media.mute"),
        Some("omarchy audio output volume mute-toggle")
    );
}

#[test]
fn close_window_keeps_the_command_w_shortcut() {
    assert_eq!(
        macos_command("close_window"),
        Some(r#"osascript -e 'tell application "System Events" to keystroke "w" using {command down}'"#)
    );
}

#[test]
fn recording_actions_remain_hidden() {
    assert_eq!(macos_capability("screenrecord.screen").state, "hidden");
    assert_eq!(macos_capability("screenshot").state, "supported");
}

#[test]
fn every_supported_macos_action_has_an_implementation() {
    for action in action_ids() {
        assert_eq!(
            macos_capability(action).state == "supported",
            macos_command(action).is_some(),
            "capability and implementation disagree for {action}"
        );
    }
}

#[test]
fn close_window_keeps_the_alt_f4_chord() {
    assert_eq!(
        windows_input_action("close_window"),
        Some(WindowsInputAction::Chord(vec!["AltLeft", "F4"]))
    );
}

#[test]
fn recording_capability_downgrades_remain_visible() {
    assert_eq!(windows_capability("screenrecord.screen").state, "downgraded");
    assert_eq!(windows_capability("screenrecord.screen.webcam").state, "hidden");
    assert_eq!(windows_capability("screenshot").state, "supported");
}

#[test]
fn every_supported_windows_action_has_an_implementation() {
    for action in action_ids() {
        let implemented = matches!(action, "open_recordings_folder" | "lock_screen")
            || windows_input_action(action).is_some();
        assert_eq!(
            windows_capability(action).state == "supported",
            implemented,
            "capability and implementation disagree for {action}"
        );
    }
}

#[test]
fn only_linux_adds_workspace_actions() {
    assert_eq!(additional_action_ids(Platform::Linux), omarchy_action_ids());
    assert!(additional_action_ids(Platform::MacOs).is_empty());
    assert!(additional_action_ids(Platform::Windows).is_empty());
    assert!(additional_action_ids(Platform::Unsupported).is_empty());
}

#[test]
fn codex_capabilities_follow_the_probes() {
    let ready = platform_capability(Platform::Linux, &probes_with_codex(), "codex.voice.start");
    assert_eq!(ready.state, "supported");
    assert_eq!(ready.scope, Some("os-global"));
    assert_eq!(ready.binding.as_deref(), Some("Command+F2"));
    assert!(ready.note.expect("note").contains("Command+F2"));

    let missing = platform_capability(Platform::Linux, &probes_without_codex(), "codex.voice.end");
    assert_eq!(missing.state, "unavailable");
    assert_eq!(missing.scope, Some("app"));
    assert_eq!(missing.reason_code, Some("codex_not_installed"));
}

#[test]
fn shared_action_catalog_has_no_duplicates_or_raw_shell_escape() {
    let ids = action_ids();
    let unique = ids.iter().copied().collect::<BTreeSet<_>>();
    assert_eq!(unique.len(), ids.len());
    assert!(!unique.contains("raw-shell"));
}

#[test]
fn current_contract_advertises_every_shared_action() {
    for platform in [Platform::MacOs, Platform::Windows, Platform::Unsupported] {
        let contract = current_host_contract(platform, &probes_without_codex());

        assert_eq!(contract.version, HOST_CONTRACT_VERSION);
        assert_eq!(contract.protocol_version, PROTOCOL_VERSION);
        assert_eq!(contract.action_capabilities.len(), action_ids().len());
        for action in action_ids() {
            assert!(
                has_capability(&contract.action_capabilities, action),
                "missing capability advertisement for {action}"
            );
        }
        for (action, capability) in contract.action_capabilities {
            assert!(
                capability_states().contains(&capability.state),
                "{action} has unknown capability state {}",
                capability.state
            );
        }
    }
}

#[test]
fn failed_commands_explain_themselves() {
    assert_eq!(
        command_failure("Linux", "media.mute", "  wpctl: no sink\n", "exit status: 1"),
        ActionError::Failed {
            platform: "Linux",
            action: "media.mute".to_string(),
            detail: "wpctl: no sink".to_string(),
        }
    );
    assert_eq!(
        command_failure("Linux", "media.mute", " \n", "exit status: 1").message(),
        "Linux desktop action media.mute failed: command exited with exit status: 1"
    );
}

#[test]
fn only_one_recording_session_runs_at_a_time() {
    let refused = recording_admission("screenrecord.window", true).expect_err("second recording");
    assert_eq!(
        refused.message(),
        "Linux desktop action screenrecord.window is unavailable: a TapPad recording session is already active"
    );
    assert!(recording_admission("screenrecord.screen", false).is_ok());
    assert!(recording_admission("screenrecord.stop", true).is_ok());
    assert!(recording_admission("screenshot", true).is_ok());
}
