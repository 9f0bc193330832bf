use tappad::actions::Platform;
use tappad::diagnostics::{
    all_commands_status, capability, command_checks, command_status, copy_summary,
    diagnostics_capabilities, diagnostics_summary, input_device_probe, is_valid_runtime_status,
    linux_capabilities, record_action_attempt, record_action_failure, record_action_success,
    sanitize_failure_summary, webcam_recording_status, webcam_status, AttemptLog,
    DiagnosticCapability, RuntimeEvidence, PRODUCT_DEGRADED, PRODUCT_SUPPORTED,
    PRODUCT_UNSUPPORTED, RUNTIME_FAILED, RUNTIME_MISSING_DEPENDENCY, RUNTIME_PERMISSION_NEEDED,
    RUNTIME_READY, RUNTIME_UNKNOWN,
};
use tappad::settings::RuntimeSettings;

fn available(commands: &[&str]) -> Vec<String> {
    commands.iter().map(|c| c.to_string()).collect()
}

fn settings() -> RuntimeSettings {
    RuntimeSettings {
        bind_host: "0.0.0.0".to_string(),
        port: 8765,
        token: "pair-token".to_string(),
        hostname: "omarchy".to_string(),
        launch_at_login: false,
        lan_host: Some([192, 168, 1, 7]),
    }
}

fn row<'a>(rows: &'a [DiagnosticCapability], id: &str) -> &'a DiagnosticCapability {
    rows.iter().find(|c| c.id == id).expect("capability row")
}

#[test]
fn failure_summary_is_bounded_and_single_line() {
    let summary = sanitize_failure_summary(&format!("{}\nsecret", "x".repeat(220)));

    assert!(summary.len() <= 183);
    assert!(!summary.contains('\n'));
}

#[test]
fn failure_summary_truncates_on_utf8_char_boundary() {
    let summary = sanitize_failure_summary(&"界".repeat(80));

    assert!(summary.len() <= 183);
    assert!(summary.ends_with("..."));
    assert!(summary.is_char_boundary(summary.len()));
}

#[test]
fn failure_summary_keeps_the_first_non_blank_line() {
    assert_eq!(sanitize_failure_summary("\n  \n  boom\u{7} here \nlater"), "boom here");
    assert_eq!(sanitize_failure_summary(" \n\t"), "command failed");
    assert_eq!(
        sanitize_failure_summary(&"a".repeat(181)),
        format!("{}...", "a".repeat(180))
    );
}

#[test]
fn command_checks_tracks_missing_status_without_parsing_evidence() {
    let checks = command_checks(&["definitely-not-a-tappad-command"], &[]);

    assert!(!checks.all_found);
    assert_eq!(checks.into_runtime().status, RUNTIME_MISSING_DEPENDENCY);
}

#[test]
fn command_checks_record_each_command() {
    let checks = command_checks(&["wl-copy", "jq"], &available(&["jq"]));
    assert!(!checks.all_found);
    assert_eq!(
        checks.evidence,
        vec!["missing command: wl-copy".to_string(), "found command: jq".to_string()]
    );
    let ready = all_commands_status(&["jq"], &available(&["jq", "wl-copy"]));
    assert_eq!(ready.status, RUNTIME_READY);
    assert_eq!(ready.evidence, vec!["found command: jq".to_string()]);
    assert_eq!(command_status("walker", &[]).status, RUNTIME_MISSING_DEPENDENCY);
}

#[test]
fn webcam_status_needs_tools_and_a_device() {
    let tools = available(&["v4l2-ctl", "ffplay", "lsof", "gpu-screen-recorder", "hyprctl", "jq"]);
    let ready = webcam_status(&tools, true);
    assert_eq!(ready.status, RUNTIME_READY);
    assert_eq!(ready.evidence.last().map(String::as_str), Some("found device: /dev/video*"));
    let no_device = webcam_status(&tools, false);
    assert_eq!(no_device.status, RUNTIME_MISSING_DEPENDENCY);
    assert_eq!(
        no_device.evidence.last().map(String::as_str),
        Some("missing device: /dev/video*")
    );
    assert_eq!(webcam_recording_status(&tools, true).status, RUNTIME_READY);
    let recording = webcam_recording_status(&available(&["v4l2-ctl", "ffplay", "lsof"]), true);
    assert_eq!(recording.status, RUNTIME_MISSING_DEPENDENCY);
    assert_eq!(recording.evidence.len(), 7);
}

#[test]
fn copy_summary_hides_unsupported_capabilities() {
    let summary = copy_summary(&[DiagnosticCapability {
        id: "hidden",
        label: "Hidden",
        group: "Hidden",
        product_status: PRODUCT_UNSUPPORTED,
        runtime_status: RUNTIME_UNKNOWN,
        evidence: vec!["hidden from normal diagnostics".to_string()],
        last_attempt_at: None,
        last_success_at: None,
        last_failure_at: None,
        last_failure_summary: None,
    }]);

    assert!(!summary.contains("Hidden ["));
}

#[test]
fn copy_summary_lists_evidence_and_attempts() {
    let summary = copy_summary(&[DiagnosticCapability {
        id: "paste_text",
        label: "Paste text",
        group: "Text transfer",
        product_status: PRODUCT_SUPPORTED,
        runtime_status: RUNTIME_READY,
        evidence: vec!["found command: wl-copy".to_string()],
        last_attempt_at: Some("100".to_string()),
        last_success_at: None,
        last_failure_at: Some("101".to_string()),
        last_failure_summary: Some("wl-copy failed".to_string()),
    }]);
    assert_eq!(
        summary,
        "TapPad local diagnostics\n- Paste text [Text transfer]: runtime=ready, product=supported\n  evidence: found command: wl-copy\n  lastAttemptAt: 100\n  lastFailureAt: 101\n  lastFailureSummary: wl-copy failed"
    );
}

#[test]
fn runtime_status_constants_match_issue_contract() {
    assert_eq!(RUNTIME_READY, "ready");
    assert_eq!(RUNTIME_MISSING_DEPENDENCY, "missing_dependency");
    assert_eq!(RUNTIME_PERMISSION_NEEDED, "permission_needed");
    assert_eq!(RUNTIME_FAILED, "failed");
    assert_eq!(RUNTIME_UNKNOWN, "unknown");
    for status in [RUNTIME_READY, RUNTIME_MISSING_DEPENDENCY, RUNTIME_PERMISSION_NEEDED, RUNTIME_FAILED, RUNTIME_UNKNOWN] {
        assert!(is_valid_runtime_status(status));
    }
    assert!(!is_valid_runtime_status("degraded"));
    assert_eq!(PRODUCT_DEGRADED, "degraded");
}

#[test]
fn attempts_are_recorded_per_action() {
    let mut log = AttemptLog::new();
    record_action_attempt(&mut log, "screenshot", "10");
    record_action_success(&mut log, "screenshot", "11");
    record_action_attempt(&mut log, "media.mute", "12");
    record_action_failure(&mut log, "media.mute", "13", "wpctl: not found\nmore");
    let shot = log.attempt_for("screenshot");
    assert_eq!(shot.last_attempt_at.as_deref(), Some("10"));
    assert_eq!(shot.last_success_at.as_deref(), Some("11"));
    assert_eq!(shot.last_failure_at, None);
    let mute = log.attempt_for("media.mute");
    assert_eq!(mute.last_failure_at.as_deref(), Some("13"));
    assert_eq!(mute.last_failure_summary.as_deref(), Some("wpctl: not found"));
    let never = log.attempt_for("close_window");
    assert_eq!(never.last_attempt_at, None);

    let row = capability(
        "media.mute",
        "Mute volume",
        "Desktop actions",
        PRODUCT_SUPPORTED,
        RuntimeEvidence::ready("found command: wpctl"),
        &log,
    );
    assert_eq!(row.last_attempt_at.as_deref(), Some("12"));
    assert_eq!(row.evidence, vec!["found command: wpctl".to_string()]);
}

#[test]
fn runtime_evidence_accumulates() {
    let evidence = RuntimeEvidence::failed("no device").with_evidence("retry later");
    assert_eq!(evidence.status, RUNTIME_FAILED);
    assert_eq!(evidence.evidence, vec!["no device".to_string(), "retry later".to_string()]);
}

#[test]
fn input_probe_sanitizes_its_error() {
    assert_eq!(input_device_probe(Ok(())), (true, None));
    assert_eq!(
        input_device_probe(Err("open /dev/uinput\npermission denied".to_string())),
        (false, Some("open /dev/uinput".to_string()))
    );
}

#[test]
fn linux_diagnostics_report_every_capability() {
    let log = AttemptLog::new();
    let rows = linux_capabilities(
        &settings(),
        true,
        None,
        false,
        Some("permission denied"),
        &available(&["wl-copy", "omarchy"]),
        false,
        &log,
    );
    assert_eq!(rows.len(), 29);
    let server = row(&rows, "backend_server");
    assert_eq!(server.runtime_status, RUNTIME_READY);
    assert_eq!(server.evidence, vec!["backend server listening on 0.0.0.0:8765".to_string()]);
    assert_eq!(
        row(&rows, "lan_pairing_url").evidence,
        vec!["LAN IPv4 discovered: 192.168.1.7".to_string()]
    );
    let pointer = row(&rows, "pointer_move");
    assert_eq!(pointer.runtime_status, RUNTIME_FAILED);
    assert_eq!(pointer.evidence, vec!["permission denied".to_string()]);
    let typing = row(&rows, "type_text");
    assert_eq!(typing.product_status, PRODUCT_DEGRADED);
    assert_eq!(typing.evidence.len(), 2);
    assert_eq!(row(&rows, "paste_text").runtime_status, RUNTIME_READY);
    assert_eq!(row(&rows, "close_window").runtime_status, RUNTIME_MISSING_DEPENDENCY);
    assert_eq!(row(&rows, "unsupported_placeholder").product_status, PRODUCT_UNSUPPORTED);

    let summary = diagnostics_summary(
        Platform::Linux,
        &settings(),
        false,
        Some("port is already in use"),
        true,
        None,
        &[],
        false,
        &log,
    );
    assert_eq!(summary.capabilities.len(), 29);
    assert!(summary.copy_text.starts_with("TapPad local diagnostics\n"));
    assert!(summary.copy_text.contains("evidence: port is already in use"));
    assert!(!summary.copy_text.contains("Unsupported placeholder"));
}

#[test]
fn other_platforms_report_no_diagnostics() {
    let log = AttemptLog::new();
    for platform in [Platform::MacOs, Platform::Windows, Platform::Unsupported] {
        let rows = diagnostics_capabilities(platform, &settings(), true, None, true, None, &[], true, &log);
        assert!(rows.is_empty());
        let summary = diagnostics_summary(platform, &settings(), true, None, true, None, &[], true, &log);
        assert_eq!(summary.copy_text, "TapPad local diagnostics");
    }
}

#[test]
fn diagnostics_never_show_the_pairing_token() {
    let log = AttemptLog::new();
    let summary = diagnostics_summary(Platform::Linux, &settings(), true, None, true, None, &[], true, &log);
    assert!(!summary.copy_text.contains("pair-token"));
    let mut other = settings();
    other.token = "another-secret".to_string();
    let again = diagnostics_summary(Platform::Linux, &other, true, None, true, None, &[], true, &log);
    assert_eq!(summary.copy_text, again.copy_text);
    for line in summary.copy_text.lines().skip(1) {
        assert!(line.starts_with("- ") || line.starts_with("  "), "{line}");
    }
    let ids: std::collections::BTreeSet<&str> = summary.capabilities.iter().map(|c| c.id).collect();
    assert_eq!(ids.len(), 29);
    assert!(summary.capabilities.iter().all(|c| is_valid_runtime_status(c.runtime_status)));
}
