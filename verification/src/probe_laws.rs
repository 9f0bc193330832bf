//! Properties that hold for every input of the Codex probes, the accelerator
//! parser, the uinput key tables and the Linux diagnostics: the order in
//! which the probes check, how a binding count decides, which accelerators
//! are accepted, how typed characters map to key codes, and what the
//! diagnostics and their copied summary show.

use vstd::prelude::*;
use crate::codex::{
    CodexProbes, ProbeFault, accelerator_codes, accelerator_tokens, app_binding_spec, app_capability_spec,
    app_probe_spec, codex_capability_spec, default_binding_fault, matching_keys, metadata_fault, metadata_probe_spec,
    modifier_of, not_installed_fault, parse_steps, primary_of, probe_view, start_probe_spec,
};
use crate::diagnostics::{AttemptLog, DiagnosticView, capability_lines, linux_rows, summary_lines, valid_runtime_status};
use crate::metadata::MetadataErrorView;
use crate::text::trim;
use crate::uinput::{ascii_key_code_spec, key_code_spec};

verus! {

/// Whether the keybindings hold exactly one OS-global start binding that
/// can be dispatched.
pub open spec fn single_dispatchable_start(installed: bool, bindings: Result<Seq<(Seq<char>, Seq<char>)>, ProbeFault>) -> bool {
    installed && bindings is Ok && matching_keys(bindings->Ok_0, "realtimeVoice"@).len() == 1 && accelerator_codes(
        matching_keys(bindings->Ok_0, "realtimeVoice"@)[0],
    ) is Ok
}

/// Probing the OS-global start binding checks, in order, that Codex is
/// installed, that the keybindings were read, that exactly one binding
/// exists and that it can be dispatched; only then does whether Codex runs
/// matter, so any earlier fault is the result whatever the runtime state.
pub proof fn start_probe_checks_in_order(
    installed: bool,
    bindings: Result<Seq<(Seq<char>, Seq<char>)>, ProbeFault>,
    running: Result<bool, Seq<char>>,
    other_running: Result<bool, Seq<char>>,
)
    ensures
        !installed ==> start_probe_spec(installed, bindings, running) == Err::<(Seq<char>, Seq<Seq<char>>), ProbeFault>(
            not_installed_fault(),
        ),
        installed && bindings is Err ==> start_probe_spec(installed, bindings, running) == Err::<
            (Seq<char>, Seq<Seq<char>>),
            ProbeFault,
        >(bindings->Err_0),
        !single_dispatchable_start(installed, bindings) ==> start_probe_spec(installed, bindings, running) == start_probe_spec(installed, bindings, other_running),
        single_dispatchable_start(installed, bindings) ==> (start_probe_spec(installed, bindings, running) is Ok <==> running == Ok::<bool, Seq<char>>(true)),
{
}

/// How many bindings a Codex command has decides an app-scoped probe: none
/// is a missing binding, more than one an ambiguous one, and exactly one is
/// used when it can be dispatched.
pub proof fn app_binding_count_decides(
    bindings: Seq<(Seq<char>, Seq<char>)>,
    command: Seq<char>,
)
    ensures
        matching_keys(bindings, command).len() == 0 ==> (app_binding_spec(true, Ok(bindings), command) is Err
            && app_binding_spec(true, Ok(bindings), command)->Err_0.0 == "codex_app_binding_missing"@),
        matching_keys(bindings, command).len() > 1 ==> (app_binding_spec(true, Ok(bindings), command) is Err
            && app_binding_spec(true, Ok(bindings), command)->Err_0.0 == "codex_app_binding_ambiguous"@),
        matching_keys(bindings, command).len() == 1 ==> match accelerator_codes(matching_keys(bindings, command)[0]) {
            Ok(codes) => app_binding_spec(true, Ok(bindings), command) == Ok::<
                (Seq<char>, Seq<Seq<char>>),
                ProbeFault,
            >((matching_keys(bindings, command)[0], codes)),
            Err(_) => app_binding_spec(true, Ok(bindings), command) is Err && app_binding_spec(true, Ok(bindings), command)->Err_0.0
                == "codex_app_binding_unsupported"@,
        },
{
}

/// An app-scoped probe consults the foreground window only once the binding
/// resolves: a binding fault is the result whatever the window, and a
/// resolved binding is used exactly when Codex is the verified foreground.
pub proof fn app_probe_checks_binding_before_foreground(
    installed: bool,
    bindings: Result<Seq<(Seq<char>, Seq<char>)>, ProbeFault>,
    command: Seq<char>,
    foreground: Result<(), ProbeFault>,
)
    ensures
        app_binding_spec(installed, bindings, command) is Err ==> app_probe_spec(installed, bindings, command, foreground)
            == app_binding_spec(installed, bindings, command),
        app_binding_spec(installed, bindings, command) is Ok ==> (app_probe_spec(installed, bindings, command, foreground)
            is Ok <==> foreground is Ok),
        app_binding_spec(installed, bindings, command) is Ok && foreground is Err ==> app_probe_spec(
            installed,
            bindings,
            command,
            foreground,
        ) == Err::<(Seq<char>, Seq<Seq<char>>), ProbeFault>(foreground->Err_0),
{
}

/// Starting a Codex voice chat in the foreground is an app-scoped action:
/// its capability has the `app` scope, and it is supported exactly when its
/// probe found a binding and a foreground Codex, with that binding shown.
pub proof fn foreground_start_is_app_scoped(probes: CodexProbes)
    ensures
        codex_capability_spec("codex.voice.start_foreground"@, probes) == Some(
            app_capability_spec("Toggle Voice Chat"@, probe_view(probes.start_foreground)),
        ),
        codex_capability_spec("codex.voice.start_foreground"@, probes)->0.scope == Some("app"@),
        codex_capability_spec("codex.voice.start_foreground"@, probes)->0.state == "supported"@
            <==> probes.start_foreground is Ok,
        probes.start_foreground matches Ok(b) ==> codex_capability_spec("codex.voice.start_foreground"@, probes)->0.binding
            == Some(b.accelerator@),
{
    reveal_strlit("codex.voice.start");
    reveal_strlit("codex.voice.start_foreground");
    reveal_strlit("supported");
    reveal_strlit("unavailable");
    assert("codex.voice.start_foreground"@.len() != "codex.voice.start"@.len());
    assert("supported"@ != "unavailable"@) by {
        assert("supported"@[0] != "unavailable"@[0]);
    }
}

/// The diagnostics never show the pairing token: they depend on it only
/// through whether it is blank, so two tokens that are both blank, or both
/// not, give the same diagnostics.
pub proof fn diagnostics_hide_the_token(
    bind_host: Seq<char>,
    port: u16,
    token: Seq<char>,
    other_token: Seq<char>,
    launch_at_login: bool,
    lan_host: Option<[u8; 4]>,
    backend_running: bool,
    backend_reason: Option<Seq<char>>,
    input_ready: bool,
    input_error: Option<Seq<char>>,
    available: Seq<Seq<char>>,
    has_video_device: bool,
    attempts: AttemptLog,
)
    requires
        (trim(token).len() == 0) == (trim(other_token).len() == 0),
    ensures
        linux_rows(bind_host, port, token, launch_at_login, lan_host, backend_running, backend_reason, input_ready,
            input_error, available, has_video_device, attempts)
            == linux_rows(bind_host, port, other_token, launch_at_login, lan_host, backend_running, backend_reason,
            input_ready, input_error, available, has_video_device, attempts),
{
}


/// The ids of the Linux diagnostics, in order.
pub open spec fn linux_row_ids() -> Seq<Seq<char>> {
    seq![
        "backend_server"@,
        "lan_pairing_url"@,
        "token_gated_websocket"@,
        "pointer_move"@,
        "click"@,
        "scroll"@,
        "keyboard_key"@,
        "type_text"@,
        "paste_text"@,
        "screenshot"@,
        "screenrecord.screen"@,
        "screenrecord.window"@,
        "screenrecord.screen.audio"@,
        "screenrecord.stop"@,
        "open_recordings_folder"@,
        "close_window"@,
        "app_launcher"@,
        "lock_screen"@,
        "media.prev"@,
        "media.play_pause"@,
        "media.next"@,
        "media.volume_down"@,
        "media.mute"@,
        "media.volume_up"@,
        "screenrecord.screen.webcam"@,
        "tray_availability"@,
        "launch_at_login"@,
        "settings_persistence"@,
        "unsupported_placeholder"@
    ]
}

/// The place of an id among the Linux diagnostics.
spec fn linux_row_position(a: Seq<char>) -> int {
    if a == "backend_server"@ {
        0
    } else if a == "lan_pairing_url"@ {
        1
    } else if a == "token_gated_websocket"@ {
        2
    } else if a == "pointer_move"@ {
        3
    } else if a == "click"@ {
        4
    } else if a == "scroll"@ {
        5
    } else if a == "keyboard_key"@ {
        6
    } else if a == "type_text"@ {
        7
    } else if a == "paste_text"@ {
        8
    } else if a == "screenshot"@ {
        9
    } else if a == "screenrecord.screen"@ {
        10
    } else if a == "screenrecord.window"@ {
        11
    } else if a == "screenrecord.screen.audio"@ {
        12
    } else if a == "screenrecord.stop"@ {
        13
    } else if a == "open_recordings_folder"@ {
        14
    } else if a == "close_window"@ {
        15
    } else if a == "app_launcher"@ {
        16
    } else if a == "lock_screen"@ {
        17
    } else if a == "media.prev"@ {
        18
    } else if a == "media.play_pause"@ {
        19
    } else if a == "media.next"@ {
        20
    } else if a == "media.volume_down"@ {
        21
    } else if a == "media.mute"@ {
        22
    } else if a == "media.volume_up"@ {
        23
    } else if a == "screenrecord.screen.webcam"@ {
        24
    } else if a == "tray_availability"@ {
        25
    } else if a == "launch_at_login"@ {
        26
    } else if a == "settings_persistence"@ {
        27
    } else if a == "unsupported_placeholder"@ {
        28
    } else {
        -1
    }
}

/// The Linux diagnostics list twenty-nine capabilities under distinct ids;
/// every runtime status is one of the runtime statuses; only the hidden
/// placeholder is unsupported; the core input rows are ready exactly when
/// the input device opened and failed otherwise; the server row is ready
/// exactly when the backend runs; and the LAN row is ready when a LAN
/// address is known and unknown otherwise.
pub proof fn linux_diagnostics_rows(
    bind_host: Seq<char>,
    port: u16,
    token: Seq<char>,
    launch_at_login: bool,
    lan_host: Option<[u8; 4]>,
    backend_running: bool,
    backend_reason: Option<Seq<char>>,
    input_ready: bool,
    input_error: Option<Seq<char>>,
    available: Seq<Seq<char>>,
    has_video_device: bool,
    attempts: AttemptLog,
)
    ensures
        ({
            let r = linux_rows(bind_host, port, token, launch_at_login, lan_host, backend_running, backend_reason,
                input_ready, input_error, available, has_video_device, attempts);
            &&& r.len() == 29
            &&& forall|i: int| 0 <= i < 29 ==> #[trigger] r[i].id == linux_row_ids()[i]
            &&& linux_row_ids().no_duplicates()
            &&& forall|i: int| 0 <= i < 29 ==> valid_runtime_status(#[trigger] r[i].runtime_status)
            &&& forall|i: int| 0 <= i < 29 ==> (#[trigger] r[i].product_status == "unsupported"@ <==> r[i].id
                == "unsupported_placeholder"@)
            &&& forall|i: int| 3 <= i < 8 ==> #[trigger] r[i].runtime_status == (if input_ready {
                "ready"@
            } else {
                "failed"@
            })
            &&& r[0].id == "backend_server"@ && r[0].runtime_status == (if backend_running {
                "ready"@
            } else {
                "failed"@
            })
            &&& r[1].id == "lan_pairing_url"@ && r[1].runtime_status == (if lan_host is Some {
                "ready"@
            } else {
                "unknown"@
            })
        }),
{
    reveal_strlit("unsupported");
    reveal_strlit("supported");
    reveal_strlit("degraded");
    let ids = linux_row_ids();
    assert(linux_row_position(ids[0]) == 0) by {
        reveal_strlit("backend_server");
        assert(ids[0] == "backend_server"@);
    }
    assert(linux_row_position(ids[1]) == 1) by {
        reveal_strlit("lan_pairing_url");
        assert(ids[1] == "lan_pairing_url"@);
        reveal_strlit("backend_server");
        assert("lan_pairing_url"@[0] != "backend_server"@[0]);
    }
    assert(linux_row_position(ids[2]) == 2) by {
        reveal_strlit("token_gated_websocket");
        assert(ids[2] == "token_gated_websocket"@);
        reveal_strlit("backend_server");
        assert("token_gated_websocket"@[0] != "backend_server"@[0]);
        reveal_strlit("lan_pairing_url");
        assert("token_gated_websocket"@[0] != "lan_pairing_url"@[0]);
    }
    assert(linux_row_position(ids[3]) == 3) by {
        reveal_strlit("pointer_move");
        assert(ids[3] == "pointer_move"@);
        reveal_strlit("backend_server");
        assert("pointer_move"@[0] != "backend_server"@[0]);
        reveal_strlit("lan_pairing_url");
        assert("pointer_move"@[0] != "lan_pairing_url"@[0]);
        reveal_strlit("token_gated_websocket");
        assert("pointer_move"@[0] != "token_gated_websocket"@[0]);
    }
    assert(linux_row_position(ids[4]) == 4) by {
        reveal_strlit("click");
        assert(ids[4] == "click"@);
        reveal_strlit("backend_server");
        assert("click"@[0] != "backend_server"@[0]);
        reveal_strlit("lan_pairing_url");
        assert("click"@[0] != "lan_pairing_url"@[0]);
        reveal_strlit("token_gated_websocket");
        assert("click"@[0] != "token_gated_websocket"@[0]);
        reveal_strlit("pointer_move");
        assert("click"@[0] != "pointer_move"@[0]);
    }
    assert(linux_row_position(ids[5]) == 5) by {
        reveal_strlit("scroll");
        assert(ids[5] == "scroll"@);
        reveal_strlit("backend_server");
        assert("scroll"@[0] != "backend_server"@[0]);
        reveal_strlit("lan_pairing_url");
        assert("scroll"@[0] != "lan_pairing_url"@[0]);
        reveal_strlit("token_gated_websocket");
        assert("scroll"@[0] != "token_gated_websocket"@[0]);
        reveal_strlit("pointer_move");
        assert("scroll"@[0] != "pointer_move"@[0]);
        reveal_strlit("click");
        assert("scroll"@[0] != "click"@[0]);
    }
    assert(linux_row_position(ids[6]) == 6) by {
        reveal_strlit("keyboard_key");
        assert(ids[6] == "keyboard_key"@);
        reveal_strlit("backend_server");
        assert("keyboard_key"@[0] != "backend_server"@[0]);
        reveal_strlit("lan_pairing_url");
        assert("keyboard_key"@[0] != "lan_pairing_url"@[0]);
        reveal_strlit("token_gated_websocket");
        assert("keyboard_key"@[0] != "token_gated_websocket"@[0]);
        reveal_strlit("pointer_move");
        assert("keyboard_key"@[0] != "pointer_move"@[0]);
        reveal_strlit("click");
        assert("keyboard_key"@[0] != "click"@[0]);
        reveal_strlit("scroll");
        assert("keyboard_key"@[0] != "scroll"@[0]);
    }
    assert(linux_row_position(ids[7]) == 7) by {
        reveal_strlit("type_text");
        assert(ids[7] == "type_text"@);
        reveal_strlit("backend_server");
        assert("type_text"@[0] != "backend_server"@[0]);
        reveal_strlit("lan_pairing_url");
        assert("type_text"@[0] != "lan_pairing_url"@[0]);
        reveal_strlit("token_gated_websocket");
        assert("type_text"@[1] != "token_gated_websocket"@[1]);
        reveal_strlit("pointer_move");
        assert("type_text"@[0] != "pointer_move"@[0]);
        reveal_strlit("click");
        assert("type_text"@[0] != "click"@[0]);
        reveal_strlit("scroll");
        assert("type_text"@[0] != "scroll"@[0]);
        reveal_strlit("keyboard_key");
        assert("type_text"@[0] != "keyboard_key"@[0]);
    }
    assert(linux_row_position(ids[8]) == 8) by {
        reveal_strlit("paste_text");
        assert(ids[8] == "paste_text"@);
        reveal_strlit("backend_server");
        assert("paste_text"@[0] != "backend_server"@[0]);
        reveal_strlit("lan_pairing_url");
        assert("paste_text"@[0] != "lan_pairing_url"@[0]);
        reveal_strlit("token_gated_websocket");
        assert("paste_text"@[0] != "token_gated_websocket"@[0]);
        reveal_strlit("pointer_move");
        assert("paste_text"@[1] != "pointer_move"@[1]);
        reveal_strlit("click");
        assert("paste_text"@[0] != "click"@[0]);
        reveal_strlit("scroll");
        assert("paste_text"@[0] != "scroll"@[0]);
        reveal_strlit("keyboard_key");
        assert("paste_text"@[0] != "keyboard_key"@[0]);
        reveal_strlit("type_text");
        assert("paste_text"@[0] != "type_text"@[0]);
    }
    assert(linux_row_position(ids[9]) == 9) by {
        reveal_strlit("screenshot");
        assert(ids[9] == "screenshot"@);
        reveal_strlit("backend_server");
        assert("screenshot"@[0] != "backend_server"@[0]);
        reveal_strlit("lan_pairing_url");
        assert("screenshot"@[0] != "lan_pairing_url"@[0]);
        reveal_strlit("token_gated_websocket");
        assert("screenshot"@[0] != "token_gated_websocket"@[0]);
        reveal_strlit("pointer_move");
        assert("screenshot"@[0] != "pointer_move"@[0]);
        reveal_strlit("click");
        assert("screenshot"@[0] != "click"@[0]);
        reveal_strlit("scroll");
        assert("screenshot"@[3] != "scroll"@[3]);
        reveal_strlit("keyboard_key");
        assert("screenshot"@[0] != "keyboard_key"@[0]);
        reveal_strlit("type_text");
        assert("screenshot"@[0] != "type_text"@[0]);
        reveal_strlit("paste_text");
        assert("screenshot"@[0] != "paste_text"@[0]);
    }
    assert(linux_row_position(ids[10]) == 10) by {
        reveal_strlit("screenrecord.screen");
        assert(ids[10] == "screenrecord.screen"@);
        reveal_strlit("backend_server");
        assert("screenrecord.screen"@[0] != "backend_server"@[0]);
        reveal_strlit("lan_pairing_url");
        assert("screenrecord.screen"@[0] != "lan_pairing_url"@[0]);
        reveal_strlit("token_gated_websocket");
        assert("screenrecord.screen"@[0] != "token_gated_websocket"@[0]);
        reveal_strlit("pointer_move");
        assert("screenrecord.screen"@[0] != "pointer_move"@[0]);
        reveal_strlit("click");
        assert("screenrecord.screen"@[0] != "click"@[0]);
        reveal_strlit("scroll");
        assert("screenrecord.screen"@[3] != "scroll"@[3]);
        reveal_strlit("keyboard_key");
        assert("screenrecord.screen"@[0] != "keyboard_key"@[0]);
        reveal_strlit("type_text");
        assert("screenrecord.screen"@[0] != "type_text"@[0]);
        reveal_strlit("paste_text");
        assert("screenrecord.screen"@[0] != "paste_text"@[0]);
        reveal_strlit("screenshot");
        assert("screenrecord.screen"@[6] != "screenshot"@[6]);
    }
    assert(linux_row_position(ids[11]) == 11) by {
        reveal_strlit("screenrecord.window");
        assert(ids[11] == "screenrecord.window"@);
        reveal_strlit("backend_server");
        assert("screenrecord.window"@[0] != "backend_server"@[0]);
        reveal_strlit("lan_pairing_url");
        assert("screenrecord.window"@[0] != "lan_pairing_url"@[0]);
        reveal_strlit("token_gated_websocket");
        assert("screenrecord.window"@[0] != "token_gated_websocket"@[0]);
        reveal_strlit("pointer_move");
        assert("screenrecord.window"@[0] != "pointer_move"@[0]);
        reveal_strlit("click");
        assert("screenrecord.window"@[0] != "click"@[0]);
        reveal_strlit("scroll");
        assert("screenrecord.window"@[3] != "scroll"@[3]);
        reveal_strlit("keyboard_key");
        assert("screenrecord.window"@[0] != "keyboard_key"@[0]);
        reveal_strlit("type_text");
        assert("screenrecord.window"@[0] != "type_text"@[0]);
        reveal_strlit("paste_text");
        assert("screenrecord.window"@[0] != "paste_text"@[0]);
        reveal_strlit("screenshot");
        assert("screenrecord.window"@[6] != "screenshot"@[6]);
        reveal_strlit("screenrecord.screen");
        assert("screenrecord.window"@[13] != "screenrecord.screen"@[13]);
    }
    assert(linux_row_position(ids[12]) == 12) by {
        reveal_strlit("screenrecord.screen.audio");
        assert(ids[12] == "screenrecord.screen.audio"@);
        reveal_strlit("backend_server");
        assert("screenrecord.screen.audio"@[0] != "backend_server"@[0]);
        reveal_strlit("lan_pairing_url");
        assert("screenrecord.screen.audio"@[0] != "lan_pairing_url"@[0]);
        reveal_strlit("token_gated_websocket");
        assert("screenrecord.screen.audio"@[0] != "token_gated_websocket"@[0]);
        reveal_strlit("pointer_move");
        assert("screenrecord.screen.audio"@[0] != "pointer_move"@[0]);
        reveal_strlit("click");
        assert("screenrecord.screen.audio"@[0] != "click"@[0]);
        reveal_strlit("scroll");
        assert("screenrecord.screen.audio"@[3] != "scroll"@[3]);
        reveal_strlit("keyboard_key");
        assert("screenrecord.screen.audio"@[0] != "keyboard_key"@[0]);
        reveal_strlit("type_text");
        assert("screenrecord.screen.audio"@[0] != "type_text"@[0]);
        reveal_strlit("paste_text");
        assert("screenrecord.screen.audio"@[0] != "paste_text"@[0]);
        reveal_strlit("screenshot");
        assert("screenrecord.screen.audio"@[6] != "screenshot"@[6]);
        reveal_strlit("screenrecord.screen");
        assert("screenrecord.screen.audio"@.len() != "screenrecord.screen"@.len());
        reveal_strlit("screenrecord.window");
        assert("screenrecord.screen.audio"@[13] != "screenrecord.window"@[13]);
    }
    assert(linux_row_position(ids[13]) == 13) by {
        reveal_strlit("screenrecord.stop");
        assert(ids[13] == "screenrecord.stop"@);
        reveal_strlit("backend_server");
        assert("screenrecord.stop"@[0] != "backend_server"@[0]);
        reveal_strlit("lan_pairing_url");
        assert("screenrecord.stop"@[0] != "lan_pairing_url"@[0]);
        reveal_strlit("token_gated_websocket");
        assert("screenrecord.stop"@[0] != "token_gated_websocket"@[0]);
        reveal_strlit("pointer_move");
        assert("screenrecord.stop"@[0] != "pointer_move"@[0]);
        reveal_strlit("click");
        assert("screenrecord.stop"@[0] != "click"@[0]);
        reveal_strlit("scroll");
        assert("screenrecord.stop"@[3] != "scroll"@[3]);
        reveal_strlit("keyboard_key");
        assert("screenrecord.stop"@[0] != "keyboard_key"@[0]);
        reveal_strlit("type_text");
        assert("screenrecord.stop"@[0] != "type_text"@[0]);
        reveal_strlit("paste_text");
        assert("screenrecord.stop"@[0] != "paste_text"@[0]);
        reveal_strlit("screenshot");
        assert("screenrecord.stop"@[6] != "screenshot"@[6]);
        reveal_strlit("screenrecord.screen");
        assert("screenrecord.stop"@[14] != "screenrecord.screen"@[14]);
        reveal_strlit("screenrecord.window");
        assert("screenrecord.stop"@[13] != "screenrecord.window"@[13]);
        reveal_strlit("screenrecord.screen.audio");
        assert("screenrecord.stop"@[14] != "screenrecord.screen.audio"@[14]);
    }
    assert(linux_row_position(ids[14]) == 14) by {
        reveal_strlit("open_recordings_folder");
        assert(ids[14] == "open_recordings_folder"@);
        reveal_strlit("backend_server");
        assert("open_recordings_folder"@[0] != "backend_server"@[0]);
        reveal_strlit("lan_pairing_url");
        assert("open_recordings_folder"@[0] != "lan_pairing_url"@[0]);
        reveal_strlit("token_gated_websocket");
        assert("open_recordings_folder"@[0] != "token_gated_websocket"@[0]);
        reveal_strlit("pointer_move");
        assert("open_recordings_folder"@[0] != "pointer_move"@[0]);
        reveal_strlit("click");
        assert("open_recordings_folder"@[0] != "click"@[0]);
        reveal_strlit("scroll");
        assert("open_recordings_folder"@[0] != "scroll"@[0]);
        reveal_strlit("keyboard_key");
        assert("open_recordings_folder"@[0] != "keyboard_key"@[0]);
        reveal_strlit("type_text");
        assert("open_recordings_folder"@[0] != "type_text"@[0]);
        reveal_strlit("paste_text");
        assert("open_recordings_folder"@[0] != "paste_text"@[0]);
        reveal_strlit("screenshot");
        assert("open_recordings_folder"@[0] != "screenshot"@[0]);
        reveal_strlit("screenrecord.screen");
        assert("open_recordings_folder"@[0] != "screenrecord.screen"@[0]);
        reveal_strlit("screenrecord.window");
        assert("open_recordings_folder"@[0] != "screenrecord.window"@[0]);
        reveal_strlit("screenrecord.screen.audio");
        assert("open_recordings_folder"@[0] != "screenrecord.screen.audio"@[0]);
        reveal_strlit("screenrecord.stop");
        assert("open_recordings_folder"@[0] != "screenrecord.stop"@[0]);
    }
    assert(linux_row_position(ids[15]) == 15) by {
        reveal_strlit("close_window");
        assert(ids[15] == "close_window"@);
        reveal_strlit("backend_server");
        assert("close_window"@[0] != "backend_server"@[0]);
        reveal_strlit("lan_pairing_url");
        assert("close_window"@[0] != "lan_pairing_url"@[0]);
        reveal_strlit("token_gated_websocket");
        assert("close_window"@[0] != "token_gated_websocket"@[0]);
        reveal_strlit("pointer_move");
        assert("close_window"@[0] != "pointer_move"@[0]);
        reveal_strlit("click");
        assert("close_window"@[2] != "click"@[2]);
        reveal_strlit("scroll");
        assert("close_window"@[0] != "scroll"@[0]);
        reveal_strlit("keyboard_key");
        assert("close_window"@[0] != "keyboard_key"@[0]);
        reveal_strlit("type_text");
        assert("close_window"@[0] != "type_text"@[0]);
        reveal_strlit("paste_text");
        assert("close_window"@[0] != "paste_text"@[0]);
        reveal_strlit("screenshot");
        assert("close_window"@[0] != "screenshot"@[0]);
        reveal_strlit("screenrecord.screen");
        assert("close_window"@[0] != "screenrecord.screen"@[0]);
        reveal_strlit("screenrecord.window");
        assert("close_window"@[0] != "screenrecord.window"@[0]);
        reveal_strlit("screenrecord.screen.audio");
        assert("close_window"@[0] != "screenrecord.screen.audio"@[0]);
        reveal_strlit("screenrecord.stop");
        assert("close_window"@[0] != "screenrecord.stop"@[0]);
        reveal_strlit("open_recordings_folder");
        assert("close_window"@[0] != "open_recordings_folder"@[0]);
    }
    assert(linux_row_position(ids[16]) == 16) by {
        reveal_strlit("app_launcher");
        assert(ids[16] == "app_launcher"@);
        reveal_strlit("backend_server");
        assert("app_launcher"@[0] != "backend_server"@[0]);
        reveal_strlit("lan_pairing_url");
        assert("app_launcher"@[0] != "lan_pairing_url"@[0]);
        reveal_strlit("token_gated_websocket");
        assert("app_launcher"@[0] != "token_gated_websocket"@[0]);
        reveal_strlit("pointer_move");
        assert("app_launcher"@[0] != "pointer_move"@[0]);
        reveal_strlit("click");
        assert("app_launcher"@[0] != "click"@[0]);
        reveal_strlit("scroll");
        assert("app_launcher"@[0] != "scroll"@[0]);
        reveal_strlit("keyboard_key");
        assert("app_launcher"@[0] != "keyboard_key"@[0]);
        reveal_strlit("type_text");
        assert("app_launcher"@[0] != "type_text"@[0]);
        reveal_strlit("paste_text");
        assert("app_launcher"@[0] != "paste_text"@[0]);
        reveal_strlit("screenshot");
        assert("app_launcher"@[0] != "screenshot"@[0]);
        reveal_strlit("screenrecord.screen");
        assert("app_launcher"@[0] != "screenrecord.screen"@[0]);
        reveal_strlit("screenrecord.window");
        assert("app_launcher"@[0] != "screenrecord.window"@[0]);
        reveal_strlit("screenrecord.screen.audio");
        assert("app_launcher"@[0] != "screenrecord.screen.audio"@[0]);
        reveal_strlit("screenrecord.stop");
        assert("app_launcher"@[0] != "screenrecord.stop"@[0]);
        reveal_strlit("open_recordings_folder");
        assert("app_launcher"@[0] != "open_recordings_folder"@[0]);
        reveal_strlit("close_window");
        assert("app_launcher"@[0] != "close_window"@[0]);
    }
    assert(linux_row_position(ids[17]) == 17) by {
        reveal_strlit("lock_screen");
        assert(ids[17] == "lock_screen"@);
        reveal_strlit("backend_server");
        assert("lock_screen"@[0] != "backend_server"@[0]);
        reveal_strlit("lan_pairing_url");
        assert("lock_screen"@[1] != "lan_pairing_url"@[1]);
        reveal_strlit("token_gated_websocket");
        assert("lock_screen"@[0] != "token_gated_websocket"@[0]);
        reveal_strlit("pointer_move");
        assert("lock_screen"@[0] != "pointer_move"@[0]);
        reveal_strlit("click");
        assert("lock_screen"@[0] != "click"@[0]);
        reveal_strlit("scroll");
        assert("lock_screen"@[0] != "scroll"@[0]);
        reveal_strlit("keyboard_key");
        assert("lock_screen"@[0] != "keyboard_key"@[0]);
        reveal_strlit("type_text");
        assert("lock_screen"@[0] != "type_text"@[0]);
        reveal_strlit("paste_text");
        assert("lock_screen"@[0] != "paste_text"@[0]);
        reveal_strlit("screenshot");
        assert("lock_screen"@[0] != "screenshot"@[0]);
        reveal_strlit("screenrecord.screen");
        assert("lock_screen"@[0] != "screenrecord.screen"@[0]);
        reveal_strlit("screenrecord.window");
        assert("lock_screen"@[0] != "screenrecord.window"@[0]);
        reveal_strlit("screenrecord.screen.audio");
        assert("lock_screen"@[0] != "screenrecord.screen.audio"@[0]);
        reveal_strlit("screenrecord.stop");
        assert("lock_screen"@[0] != "screenrecord.stop"@[0]);
        reveal_strlit("open_recordings_folder");
        assert("lock_screen"@[0] != "open_recordings_folder"@[0]);
        reveal_strlit("close_window");
        assert("lock_screen"@[0] != "close_window"@[0]);
        reveal_strlit("app_launcher");
        assert("lock_screen"@[0] != "app_launcher"@[0]);
    }
    assert(linux_row_position(ids[18]) == 18) by {
        reveal_strlit("media.prev");
        assert(ids[18] == "media.prev"@);
        reveal_strlit("backend_server");
        assert("media.prev"@[0] != "backend_server"@[0]);
        reveal_strlit("lan_pairing_url");
        assert("media.prev"@[0] != "lan_pairing_url"@[0]);
        reveal_strlit("token_gated_websocket");
        assert("media.prev"@[0] != "token_gated_websocket"@[0]);
        reveal_strlit("pointer_move");
        assert("media.prev"@[0] != "pointer_move"@[0]);
        reveal_strlit("click");
        assert("media.prev"@[0] != "click"@[0]);
        reveal_strlit("scroll");
        assert("media.prev"@[0] != "scroll"@[0]);
        reveal_strlit("keyboard_key");
        assert("media.prev"@[0] != "keyboard_key"@[0]);
        reveal_strlit("type_text");
        assert("media.prev"@[0] != "type_text"@[0]);
        reveal_strlit("paste_text");
        assert("media.prev"@[0] != "paste_text"@[0]);
        reveal_strlit("screenshot");
        assert("media.prev"@[0] != "screenshot"@[0]);
        reveal_strlit("screenrecord.screen");
        assert("media.prev"@[0] != "screenrecord.screen"@[0]);
        reveal_strlit("screenrecord.window");
        assert("media.prev"@[0] != "screenrecord.window"@[0]);
        reveal_strlit("screenrecord.screen.audio");
        assert("media.prev"@[0] != "screenrecord.screen.audio"@[0]);
        reveal_strlit("screenrecord.stop");
        assert("media.prev"@[0] != "screenrecord.stop"@[0]);
        reveal_strlit("open_recordings_folder");
        assert("media.prev"@[0] != "open_recordings_folder"@[0]);
        reveal_strlit("close_window");
        assert("media.prev"@[0] != "close_window"@[0]);
        reveal_strlit("app_launcher");
        assert("media.prev"@[0] != "app_launcher"@[0]);
        reveal_strlit("lock_screen");
        assert("media.prev"@[0] != "lock_screen"@[0]);
    }
    assert(linux_row_position(ids[19]) == 19) by {
        reveal_strlit("media.play_pause");
        assert(ids[19] == "media.play_pause"@);
        reveal_strlit("backend_server");
        assert("media.play_pause"@[0] != "backend_server"@[0]);
        reveal_strlit("lan_pairing_url");
        assert("media.play_pause"@[0] != "lan_pairing_url"@[0]);
        reveal_strlit("token_gated_websocket");
        assert("media.play_pause"@[0] != "token_gated_websocket"@[0]);
        reveal_strlit("pointer_move");
        assert("media.play_pause"@[0] != "pointer_move"@[0]);
        reveal_strlit("click");
        assert("media.play_pause"@[0] != "click"@[0]);
        reveal_strlit("scroll");
        assert("media.play_pause"@[0] != "scroll"@[0]);
        reveal_strlit("keyboard_key");
        assert("media.play_pause"@[0] != "keyboard_key"@[0]);
        reveal_strlit("type_text");
        assert("media.play_pause"@[0] != "type_text"@[0]);
        reveal_strlit("paste_text");
        assert("media.play_pause"@[0] != "paste_text"@[0]);
        reveal_strlit("screenshot");
        assert("media.play_pause"@[0] != "screenshot"@[0]);
        reveal_strlit("screenrecord.screen");
        assert("media.play_pause"@[0] != "screenrecord.screen"@[0]);
        reveal_strlit("screenrecord.window");
        assert("media.play_pause"@[0] != "screenrecord.window"@[0]);
        reveal_strlit("screenrecord.screen.audio");
        assert("media.play_pause"@[0] != "screenrecord.screen.audio"@[0]);
        reveal_strlit("screenrecord.stop");
        assert("media.play_pause"@[0] != "screenrecord.stop"@[0]);
        reveal_strlit("open_recordings_folder");
        assert("media.play_pause"@[0] != "open_recordings_folder"@[0]);
        reveal_strlit("close_window");
        assert("media.play_pause"@[0] != "close_window"@[0]);
        reveal_strlit("app_launcher");
        assert("media.play_pause"@[0] != "app_launcher"@[0]);
        reveal_strlit("lock_screen");
        assert("media.play_pause"@[0] != "lock_screen"@[0]);
        reveal_strlit("media.prev");
        assert("media.play_pause"@[7] != "media.prev"@[7]);
    }
    assert(linux_row_position(ids[20]) == 20) by {
        reveal_strlit("media.next");
        assert(ids[20] == "media.next"@);
        reveal_strlit("backend_server");
        assert("media.next"@[0] != "backend_server"@[0]);
        reveal_strlit("lan_pairing_url");
        assert("media.next"@[0] != "lan_pairing_url"@[0]);
        reveal_strlit("token_gated_websocket");
        assert("media.next"@[0] != "token_gated_websocket"@[0]);
        reveal_strlit("pointer_move");
        assert("media.next"@[0] != "pointer_move"@[0]);
        reveal_strlit("click");
        assert("media.next"@[0] != "click"@[0]);
        reveal_strlit("scroll");
        assert("media.next"@[0] != "scroll"@[0]);
        reveal_strlit("keyboard_key");
        assert("media.next"@[0] != "keyboard_key"@[0]);
        reveal_strlit("type_text");
        assert("media.next"@[0] != "type_text"@[0]);
        reveal_strlit("paste_text");
        assert("media.next"@[0] != "paste_text"@[0]);
        reveal_strlit("screenshot");
        assert("media.next"@[0] != "screenshot"@[0]);
        reveal_strlit("screenrecord.screen");
        assert("media.next"@[0] != "screenrecord.screen"@[0]);
        reveal_strlit("screenrecord.window");
        assert("media.next"@[0] != "screenrecord.window"@[0]);
        reveal_strlit("screenrecord.screen.audio");
        assert("media.next"@[0] != "screenrecord.screen.audio"@[0]);
        reveal_strlit("screenrecord.stop");
        assert("media.next"@[0] != "screenrecord.stop"@[0]);
        reveal_strlit("open_recordings_folder");
        assert("media.next"@[0] != "open_recordings_folder"@[0]);
        reveal_strlit("close_window");
        assert("media.next"@[0] != "close_window"@[0]);
        reveal_strlit("app_launcher");
        assert("media.next"@[0] != "app_launcher"@[0]);
        reveal_strlit("lock_screen");
        assert("media.next"@[0] != "lock_screen"@[0]);
        reveal_strlit("media.prev");
        assert("media.next"@[6] != "media.prev"@[6]);
        reveal_strlit("media.play_pause");
        assert("media.next"@[6] != "media.play_pause"@[6]);
    }
    assert(linux_row_position(ids[21]) == 21) by {
        reveal_strlit("media.volume_down");
        assert(ids[21] == "media.volume_down"@);
        reveal_strlit("backend_server");
        assert("media.volume_down"@[0] != "backend_server"@[0]);
        reveal_strlit("lan_pairing_url");
        assert("media.volume_down"@[0] != "lan_pairing_url"@[0]);
        reveal_strlit("token_gated_websocket");
        assert("media.volume_down"@[0] != "token_gated_websocket"@[0]);
        reveal_strlit("pointer_move");
        assert("media.volume_down"@[0] != "pointer_move"@[0]);
        reveal_strlit("click");
        assert("media.volume_down"@[0] != "click"@[0]);
        reveal_strlit("scroll");
        assert("media.volume_down"@[0] != "scroll"@[0]);
        reveal_strlit("keyboard_key");
        assert("media.volume_down"@[0] != "keyboard_key"@[0]);
        reveal_strlit("type_text");
        assert("media.volume_down"@[0] != "type_text"@[0]);
        reveal_strlit("paste_text");
        assert("media.volume_down"@[0] != "paste_text"@[0]);
        reveal_strlit("screenshot");
        assert("media.volume_down"@[0] != "screenshot"@[0]);
        reveal_strlit("screenrecord.screen");
        assert("media.volume_down"@[0] != "screenrecord.screen"@[0]);
        reveal_strlit("screenrecord.window");
        assert("media.volume_down"@[0] != "screenrecord.window"@[0]);
        reveal_strlit("screenrecord.screen.audio");
        assert("media.volume_down"@[0] != "screenrecord.screen.audio"@[0]);
        reveal_strlit("screenrecord.stop");
        assert("media.volume_down"@[0] != "screenrecord.stop"@[0]);
        reveal_strlit("open_recordings_folder");
        assert("media.volume_down"@[0] != "open_recordings_folder"@[0]);
        reveal_strlit("close_window");
        assert("media.volume_down"@[0] != "close_window"@[0]);
        reveal_strlit("app_launcher");
        assert("media.volume_down"@[0] != "app_launcher"@[0]);
        reveal_strlit("lock_screen");
        assert("media.volume_down"@[0] != "lock_screen"@[0]);
        reveal_strlit("media.prev");
        assert("media.volume_down"@[6] != "media.prev"@[6]);
        reveal_strlit("media.play_pause");
        assert("media.volume_down"@[6] != "media.play_pause"@[6]);
        reveal_strlit("media.next");
        assert("media.volume_down"@[6] != "media.next"@[6]);
    }
    assert(linux_row_position(ids[22]) == 22) by {
        reveal_strlit("media.mute");
        assert(ids[22] == "media.mute"@);
        reveal_strlit("backend_server");
        assert("media.mute"@[0] != "backend_server"@[0]);
        reveal_strlit("lan_pairing_url");
        assert("media.mute"@[0] != "lan_pairing_url"@[0]);
        reveal_strlit("token_gated_websocket");
        assert("media.mute"@[0] != "token_gated_websocket"@[0]);
        reveal_strlit("pointer_move");
        assert("media.mute"@[0] != "pointer_move"@[0]);
        reveal_strlit("click");
        assert("media.mute"@[0] != "click"@[0]);
        reveal_strlit("scroll");
        assert("media.mute"@[0] != "scroll"@[0]);
        reveal_strlit("keyboard_key");
        assert("media.mute"@[0] != "keyboard_key"@[0]);
        reveal_strlit("type_text");
        assert("media.mute"@[0] != "type_text"@[0]);
        reveal_strlit("paste_text");
        assert("media.mute"@[0] != "paste_text"@[0]);
        reveal_strlit("screenshot");
        assert("media.mute"@[0] != "screenshot"@[0]);
        reveal_strlit("screenrecord.screen");
        assert("media.mute"@[0] != "screenrecord.screen"@[0]);
        reveal_strlit("screenrecord.window");
        assert("media.mute"@[0] != "screenrecord.window"@[0]);
        reveal_strlit("screenrecord.screen.audio");
        assert("media.mute"@[0] != "screenrecord.screen.audio"@[0]);
        reveal_strlit("screenrecord.stop");
        assert("media.mute"@[0] != "screenrecord.stop"@[0]);
        reveal_strlit("open_recordings_folder");
        assert("media.mute"@[0] != "open_recordings_folder"@[0]);
        reveal_strlit("close_window");
        assert("media.mute"@[0] != "close_window"@[0]);
        reveal_strlit("app_launcher");
        assert("media.mute"@[0] != "app_launcher"@[0]);
        reveal_strlit("lock_screen");
        assert("media.mute"@[0] != "lock_screen"@[0]);
        reveal_strlit("media.prev");
        assert("media.mute"@[6] != "media.prev"@[6]);
        reveal_strlit("media.play_pause");
        assert("media.mute"@[6] != "media.play_pause"@[6]);
        reveal_strlit("media.next");
        assert("media.mute"@[6] != "media.next"@[6]);
        reveal_strlit("media.volume_down");
        assert("media.mute"@[6] != "media.volume_down"@[6]);
    }
    assert(linux_row_position(ids[23]) == 23) by {
        reveal_strlit("media.volume_up");
        assert(ids[23] == "media.volume_up"@);
        reveal_strlit("backend_server");
        assert("media.volume_up"@[0] != "backend_server"@[0]);
        reveal_strlit("lan_pairing_url");
        assert("media.volume_up"@[0] != "lan_pairing_url"@[0]);
        reveal_strlit("token_gated_websocket");
        assert("media.volume_up"@[0] != "token_gated_websocket"@[0]);
        reveal_strlit("pointer_move");
        assert("media.volume_up"@[0] != "pointer_move"@[0]);
        reveal_strlit("click");
        assert("media.volume_up"@[0] != "click"@[0]);
        reveal_strlit("scroll");
        assert("media.volume_up"@[0] != "scroll"@[0]);
        reveal_strlit("keyboard_key");
        assert("media.volume_up"@[0] != "keyboard_key"@[0]);
        reveal_strlit("type_text");
        assert("media.volume_up"@[0] != "type_text"@[0]);
        reveal_strlit("paste_text");
        assert("media.volume_up"@[0] != "paste_text"@[0]);
        reveal_strlit("screenshot");
        assert("media.volume_up"@[0] != "screenshot"@[0]);
        reveal_strlit("screenrecord.screen");
        assert("media.volume_up"@[0] != "screenrecord.screen"@[0]);
        reveal_strlit("screenrecord.window");
        assert("media.volume_up"@[0] != "screenrecord.window"@[0]);
        reveal_strlit("screenrecord.screen.audio");
        assert("media.volume_up"@[0] != "screenrecord.screen.audio"@[0]);
        reveal_strlit("screenrecord.stop");
        assert("media.volume_up"@[0] != "screenrecord.stop"@[0]);
        reveal_strlit("open_recordings_folder");
        assert("media.volume_up"@[0] != "open_recordings_folder"@[0]);
        reveal_strlit("close_window");
        assert("media.volume_up"@[0] != "close_window"@[0]);
        reveal_strlit("app_launcher");
        assert("media.volume_up"@[0] != "app_launcher"@[0]);
        reveal_strlit("lock_screen");
        assert("media.volume_up"@[0] != "lock_screen"@[0]);
        reveal_strlit("media.prev");
        assert("media.volume_up"@[6] != "media.prev"@[6]);
        reveal_strlit("media.play_pause");
        assert("media.volume_up"@[6] != "media.play_pause"@[6]);
        reveal_strlit("media.next");
        assert("media.volume_up"@[6] != "media.next"@[6]);
        reveal_strlit("media.volume_down");
        assert("media.volume_up"@[13] != "media.volume_down"@[13]);
        reveal_strlit("media.mute");
        assert("media.volume_up"@[6] != "media.mute"@[6]);
    }
    assert(linux_row_position(ids[24]) == 24) by {
        reveal_strlit("screenrecord.screen.webcam");
        assert(ids[24] == "screenrecord.screen.webcam"@);
        reveal_strlit("backend_server");
        assert("screenrecord.screen.webcam"@[0] != "backend_server"@[0]);
        reveal_strlit("lan_pairing_url");
        assert("screenrecord.screen.webcam"@[0] != "lan_pairing_url"@[0]);
        reveal_strlit("token_gated_websocket");
        assert("screenrecord.screen.webcam"@[0] != "token_gated_websocket"@[0]);
        reveal_strlit("pointer_move");
        assert("screenrecord.screen.webcam"@[0] != "pointer_move"@[0]);
        reveal_strlit("click");
        assert("screenrecord.screen.webcam"@[0] != "click"@[0]);
        reveal_strlit("scroll");
        assert("screenrecord.screen.webcam"@[3] != "scroll"@[3]);
        reveal_strlit("keyboard_key");
        assert("screenrecord.screen.webcam"@[0] != "keyboard_key"@[0]);
        reveal_strlit("type_text");
        assert("screenrecord.screen.webcam"@[0] != "type_text"@[0]);
        reveal_strlit("paste_text");
        assert("screenrecord.screen.webcam"@[0] != "paste_text"@[0]);
        reveal_strlit("screenshot");
        assert("screenrecord.screen.webcam"@[6] != "screenshot"@[6]);
        reveal_strlit("screenrecord.screen");
        assert("screenrecord.screen.webcam"@.len() != "screenrecord.screen"@.len());
        reveal_strlit("screenrecord.window");
        assert("screenrecord.screen.webcam"@[13] != "screenrecord.window"@[13]);
        reveal_strlit("screenrecord.screen.audio");
        assert("screenrecord.screen.webcam"@[20] != "screenrecord.screen.audio"@[20]);
        reveal_strlit("screenrecord.stop");
        assert("screenrecord.screen.webcam"@[14] != "screenrecord.stop"@[14]);
        reveal_strlit("open_recordings_folder");
        assert("screenrecord.screen.webcam"@[0] != "open_recordings_folder"@[0]);
        reveal_strlit("close_window");
        assert("screenrecord.screen.webcam"@[0] != "close_window"@[0]);
        reveal_strlit("app_launcher");
        assert("screenrecord.screen.webcam"@[0] != "app_launcher"@[0]);
        reveal_strlit("lock_screen");
        assert("screenrecord.screen.webcam"@[0] != "lock_screen"@[0]);
        reveal_strlit("media.prev");
        assert("screenrecord.screen.webcam"@[0] != "media.prev"@[0]);
        reveal_strlit("media.play_pause");
        assert("screenrecord.screen.webcam"@[0] != "media.play_pause"@[0]);
        reveal_strlit("media.next");
        assert("screenrecord.screen.webcam"@[0] != "media.next"@[0]);
        reveal_strlit("media.volume_down");
        assert("screenrecord.screen.webcam"@[0] != "media.volume_down"@[0]);
        reveal_strlit("media.mute");
        assert("screenrecord.screen.webcam"@[0] != "media.mute"@[0]);
        reveal_strlit("media.volume_up");
        assert("screenrecord.screen.webcam"@[0] != "media.volume_up"@[0]);
    }
    assert(linux_row_position(ids[25]) == 25) by {
        reveal_strlit("tray_availability");
        assert(ids[25] == "tray_availability"@);
        reveal_strlit("backend_server");
        assert("tray_availability"@[0] != "backend_server"@[0]);
        reveal_strlit("lan_pairing_url");
        assert("tray_availability"@[0] != "lan_pairing_url"@[0]);
        reveal_strlit("token_gated_websocket");
        assert("tray_availability"@[1] != "token_gated_websocket"@[1]);
        reveal_strlit("pointer_move");
        assert("tray_availability"@[0] != "pointer_move"@[0]);
        reveal_strlit("click");
        assert("tray_availability"@[0] != "click"@[0]);
        reveal_strlit("scroll");
        assert("tray_availability"@[0] != "scroll"@[0]);
        reveal_strlit("keyboard_key");
        assert("tray_availability"@[0] != "keyboard_key"@[0]);
        reveal_strlit("type_text");
        assert("tray_availability"@[1] != "type_text"@[1]);
        reveal_strlit("paste_text");
        assert("tray_availability"@[0] != "paste_text"@[0]);
        reveal_strlit("screenshot");
        assert("tray_availability"@[0] != "screenshot"@[0]);
        reveal_strlit("screenrecord.screen");
        assert("tray_availability"@[0] != "screenrecord.screen"@[0]);
        reveal_strlit("screenrecord.window");
        assert("tray_availability"@[0] != "screenrecord.window"@[0]);
        reveal_strlit("screenrecord.screen.audio");
        assert("tray_availability"@[0] != "screenrecord.screen.audio"@[0]);
        reveal_strlit("screenrecord.stop");
        assert("tray_availability"@[0] != "screenrecord.stop"@[0]);
        reveal_strlit("open_recordings_folder");
        assert("tray_availability"@[0] != "open_recordings_folder"@[0]);
        reveal_strlit("close_window");
        assert("tray_availability"@[0] != "close_window"@[0]);
        reveal_strlit("app_launcher");
        assert("tray_availability"@[0] != "app_launcher"@[0]);
        reveal_strlit("lock_screen");
        assert("tray_availability"@[0] != "lock_screen"@[0]);
        reveal_strlit("media.prev");
        assert("tray_availability"@[0] != "media.prev"@[0]);
        reveal_strlit("media.play_pause");
        assert("tray_availability"@[0] != "media.play_pause"@[0]);
        reveal_strlit("media.next");
        assert("tray_availability"@[0] != "media.next"@[0]);
        reveal_strlit("media.volume_down");
        assert("tray_availability"@[0] != "media.volume_down"@[0]);
        reveal_strlit("media.mute");
        assert("tray_availability"@[0] != "media.mute"@[0]);
        reveal_strlit("media.volume_up");
        assert("tray_availability"@[0] != "media.volume_up"@[0]);
        reveal_strlit("screenrecord.screen.webcam");
        assert("tray_availability"@[0] != "screenrecord.screen.webcam"@[0]);
    }
    assert(linux_row_position(ids[26]) == 26) by {
        reveal_strlit("launch_at_login");
        assert(ids[26] == "launch_at_login"@);
        reveal_strlit("backend_server");
        assert("launch_at_login"@[0] != "backend_server"@[0]);
        reveal_strlit("lan_pairing_url");
        assert("launch_at_login"@[2] != "lan_pairing_url"@[2]);
        reveal_strlit("token_gated_websocket");
        assert("launch_at_login"@[0] != "token_gated_websocket"@[0]);
        reveal_strlit("pointer_move");
        assert("launch_at_login"@[0] != "pointer_move"@[0]);
        reveal_strlit("click");
        assert("launch_at_login"@[0] != "click"@[0]);
        reveal_strlit("scroll");
        assert("launch_at_login"@[0] != "scroll"@[0]);
        reveal_strlit("keyboard_key");
        assert("launch_at_login"@[0] != "keyboard_key"@[0]);
        reveal_strlit("type_text");
        assert("launch_at_login"@[0] != "type_text"@[0]);
        reveal_strlit("paste_text");
        assert("launch_at_login"@[0] != "paste_text"@[0]);
        reveal_strlit("screenshot");
        assert("launch_at_login"@[0] != "screenshot"@[0]);
        reveal_strlit("screenrecord.screen");
        assert("launch_at_login"@[0] != "screenrecord.screen"@[0]);
        reveal_strlit("screenrecord.window");
        assert("launch_at_login"@[0] != "screenrecord.window"@[0]);
        reveal_strlit("screenrecord.screen.audio");
        assert("launch_at_login"@[0] != "screenrecord.screen.audio"@[0]);
        reveal_strlit("screenrecord.stop");
        assert("launch_at_login"@[0] != "screenrecord.stop"@[0]);
        reveal_strlit("open_recordings_folder");
        assert("launch_at_login"@[0] != "open_recordings_folder"@[0]);
        reveal_strlit("close_window");
        assert("launch_at_login"@[0] != "close_window"@[0]);
        reveal_strlit("app_launcher");
        assert("launch_at_login"@[0] != "app_launcher"@[0]);
        reveal_strlit("lock_screen");
        assert("launch_at_login"@[1] != "lock_screen"@[1]);
        reveal_strlit("media.prev");
        assert("launch_at_login"@[0] != "media.prev"@[0]);
        reveal_strlit("media.play_pause");
        assert("launch_at_login"@[0] != "media.play_pause"@[0]);
        reveal_strlit("media.next");
        assert("launch_at_login"@[0] != "media.next"@[0]);
        reveal_strlit("media.volume_down");
        assert("launch_at_login"@[0] != "media.volume_down"@[0]);
        reveal_strlit("media.mute");
        assert("launch_at_login"@[0] != "media.mute"@[0]);
        reveal_strlit("media.volume_up");
        assert("launch_at_login"@[0] != "media.volume_up"@[0]);
        reveal_strlit("screenrecord.screen.webcam");
        assert("launch_at_login"@[0] != "screenrecord.screen.webcam"@[0]);
        reveal_strlit("tray_availability");
        assert("launch_at_login"@[0] != "tray_availability"@[0]);
    }
    assert(linux_row_position(ids[27]) == 27) by {
        reveal_strlit("settings_persistence");
        assert(ids[27] == "settings_persistence"@);
        reveal_strlit("backend_server");
        assert("settings_persistence"@[0] != "backend_server"@[0]);
        reveal_strlit("lan_pairing_url");
        assert("settings_persistence"@[0] != "lan_pairing_url"@[0]);
        reveal_strlit("token_gated_websocket");
        assert("settings_persistence"@[0] != "token_gated_websocket"@[0]);
        reveal_strlit("pointer_move");
        assert("settings_persistence"@[0] != "pointer_move"@[0]);
        reveal_strlit("click");
        assert("settings_persistence"@[0] != "click"@[0]);
        reveal_strlit("scroll");
        assert("settings_persistence"@[1] != "scroll"@[1]);
        reveal_strlit("keyboard_key");
        assert("settings_persistence"@[0] != "keyboard_key"@[0]);
        reveal_strlit("type_text");
        assert("settings_persistence"@[0] != "type_text"@[0]);
        reveal_strlit("paste_text");
        assert("settings_persistence"@[0] != "paste_text"@[0]);
        reveal_strlit("screenshot");
        assert("settings_persistence"@[1] != "screenshot"@[1]);
        reveal_strlit("screenrecord.screen");
        assert("settings_persistence"@[1] != "screenrecord.screen"@[1]);
        reveal_strlit("screenrecord.window");
        assert("settings_persistence"@[1] != "screenrecord.window"@[1]);
        reveal_strlit("screenrecord.screen.audio");
        assert("settings_persistence"@[1] != "screenrecord.screen.audio"@[1]);
        reveal_strlit("screenrecord.stop");
        assert("settings_persistence"@[1] != "screenrecord.stop"@[1]);
        reveal_strlit("open_recordings_folder");
        assert("settings_persistence"@[0] != "open_recordings_folder"@[0]);
        reveal_strlit("close_window");
        assert("settings_persistence"@[0] != "close_window"@[0]);
        reveal_strlit("app_launcher");
        assert("settings_persistence"@[0] != "app_launcher"@[0]);
        reveal_strlit("lock_screen");
        assert("settings_persistence"@[0] != "lock_screen"@[0]);
        reveal_strlit("media.prev");
        assert("settings_persistence"@[0] != "media.prev"@[0]);
        reveal_strlit("media.play_pause");
        assert("settings_persistence"@[0] != "media.play_pause"@[0]);
        reveal_strlit("media.next");
        assert("settings_persistence"@[0] != "media.next"@[0]);
        reveal_strlit("media.volume_down");
        assert("settings_persistence"@[0] != "media.volume_down"@[0]);
        reveal_strlit("media.mute");
        assert("settings_persistence"@[0] != "media.mute"@[0]);
        reveal_strlit("media.volume_up");
        assert("settings_persistence"@[0] != "media.volume_up"@[0]);
        reveal_strlit("screenrecord.screen.webcam");
        assert("settings_persistence"@[1] != "screenrecord.screen.webcam"@[1]);
        reveal_strlit("tray_availability");
        assert("settings_persistence"@[0] != "tray_availability"@[0]);
        reveal_strlit("launch_at_login");
        assert("settings_persistence"@[0] != "launch_at_login"@[0]);
    }
    assert(linux_row_position(ids[28]) == 28) by {
        reveal_strlit("unsupported_placeholder");
        assert(ids[28] == "unsupported_placeholder"@);
        reveal_strlit("backend_server");
        assert("unsupported_placeholder"@[0] != "backend_server"@[0]);
        reveal_strlit("lan_pairing_url");
        assert("unsupported_placeholder"@[0] != "lan_pairing_url"@[0]);
        reveal_strlit("token_gated_websocket");
        assert("unsupported_placeholder"@[0] != "token_gated_websocket"@[0]);
        reveal_strlit("pointer_move");
        assert("unsupported_placeholder"@[0] != "pointer_move"@[0]);
        reveal_strlit("click");
        assert("unsupported_placeholder"@[0] != "click"@[0]);
        reveal_strlit("scroll");
        assert("unsupported_placeholder"@[0] != "scroll"@[0]);
        reveal_strlit("keyboard_key");
        assert("unsupported_placeholder"@[0] != "keyboard_key"@[0]);
        reveal_strlit("type_text");
        assert("unsupported_placeholder"@[0] != "type_text"@[0]);
        reveal_strlit("paste_text");
        assert("unsupported_placeholder"@[0] != "paste_text"@[0]);
        reveal_strlit("screenshot");
        assert("unsupported_placeholder"@[0] != "screenshot"@[0]);
        reveal_strlit("screenrecord.screen");
        assert("unsupported_placeholder"@[0] != "screenrecord.screen"@[0]);
        reveal_strlit("screenrecord.window");
        assert("unsupported_placeholder"@[0] != "screenrecord.window"@[0]);
        reveal_strlit("screenrecord.screen.audio");
        assert("unsupported_placeholder"@[0] != "screenrecord.screen.audio"@[0]);
        reveal_strlit("screenrecord.stop");
        assert("unsupported_placeholder"@[0] != "screenrecord.stop"@[0]);
        reveal_strlit("open_recordings_folder");
        assert("unsupported_placeholder"@[0] != "open_recordings_folder"@[0]);
        reveal_strlit("close_window");
        assert("unsupported_placeholder"@[0] != "close_window"@[0]);
        reveal_strlit("app_launcher");
        assert("unsupported_placeholder"@[0] != "app_launcher"@[0]);
        reveal_strlit("lock_screen");
        assert("unsupported_placeholder"@[0] != "lock_screen"@[0]);
        reveal_strlit("media.prev");
        assert("unsupported_placeholder"@[0] != "media.prev"@[0]);
        reveal_strlit("media.play_pause");
        assert("unsupported_placeholder"@[0] != "media.play_pause"@[0]);
        reveal_strlit("media.next");
        assert("unsupported_placeholder"@[0] != "media.next"@[0]);
        reveal_strlit("media.volume_down");
        assert("unsupported_placeholder"@[0] != "media.volume_down"@[0]);
        reveal_strlit("media.mute");
        assert("unsupported_placeholder"@[0] != "media.mute"@[0]);
        reveal_strlit("media.volume_up");
        assert("unsupported_placeholder"@[0] != "media.volume_up"@[0]);
        reveal_strlit("screenrecord.screen.webcam");
        assert("unsupported_placeholder"@[0] != "screenrecord.screen.webcam"@[0]);
        reveal_strlit("tray_availability");
        assert("unsupported_placeholder"@[0] != "tray_availability"@[0]);
        reveal_strlit("launch_at_login");
        assert("unsupported_placeholder"@[0] != "launch_at_login"@[0]);
        reveal_strlit("settings_persistence");
        assert("unsupported_placeholder"@[0] != "settings_persistence"@[0]);
    }
    assert forall|i: int, j: int| 0 <= i < ids.len() && 0 <= j < ids.len() && i != j implies ids[i] != ids[j] by {
        assert(linux_row_position(ids[i]) == i);
        assert(linux_row_position(ids[j]) == j);
    }
    assert("supported"@ != "unsupported"@) by {
        assert("supported"@[0] != "unsupported"@[0]);
    }
    assert("degraded"@ != "unsupported"@) by {
        assert("degraded"@[0] != "unsupported"@[0]);
    }
}

/// The letter key of an upper-case letter has the code that typing the
/// letter uses.
pub(crate) proof fn letter_key_code(c: char)
    requires
        'A' <= c <= 'Z',
    ensures
        key_code_spec("Key"@.push(c)) == ascii_key_code_spec(c),
{
    reveal_strlit("Escape");
    reveal_strlit("Digit1");
    reveal_strlit("Digit2");
    reveal_strlit("Digit3");
    reveal_strlit("Digit4");
    reveal_strlit("Digit5");
    reveal_strlit("Digit6");
    reveal_strlit("Digit7");
    reveal_strlit("Digit8");
    reveal_strlit("Digit9");
    reveal_strlit("Digit0");
    reveal_strlit("Minus");
    reveal_strlit("Equal");
    reveal_strlit("Backspace");
    reveal_strlit("Tab");
    reveal_strlit("KeyQ");
    reveal_strlit("KeyW");
    reveal_strlit("KeyE");
    reveal_strlit("KeyR");
    reveal_strlit("KeyT");
    reveal_strlit("KeyY");
    reveal_strlit("KeyU");
    reveal_strlit("KeyI");
    reveal_strlit("KeyO");
    reveal_strlit("KeyP");
    reveal_strlit("BracketLeft");
    reveal_strlit("BracketRight");
    reveal_strlit("Enter");
    reveal_strlit("ControlLeft");
    reveal_strlit("ControlRight");
    reveal_strlit("KeyA");
    reveal_strlit("KeyS");
    reveal_strlit("KeyD");
    reveal_strlit("KeyF");
    reveal_strlit("KeyG");
    reveal_strlit("KeyH");
    reveal_strlit("KeyJ");
    reveal_strlit("KeyK");
    reveal_strlit("KeyL");
    reveal_strlit("Semicolon");
    reveal_strlit("Quote");
    reveal_strlit("Backquote");
    reveal_strlit("ShiftLeft");
    reveal_strlit("Backslash");
    reveal_strlit("KeyZ");
    reveal_strlit("KeyX");
    reveal_strlit("KeyC");
    reveal_strlit("KeyV");
    reveal_strlit("KeyB");
    reveal_strlit("KeyN");
    reveal_strlit("KeyM");
    reveal_strlit("Comma");
    reveal_strlit("Period");
    reveal_strlit("Slash");
    reveal_strlit("ShiftRight");
    reveal_strlit("AltLeft");
    reveal_strlit("AltRight");
    reveal_strlit("Space");
    reveal_strlit("CapsLock");
    reveal_strlit("F1");
    reveal_strlit("F2");
    reveal_strlit("F3");
    reveal_strlit("F4");
    reveal_strlit("F5");
    reveal_strlit("F6");
    reveal_strlit("F7");
    reveal_strlit("F8");
    reveal_strlit("F9");
    reveal_strlit("F10");
    reveal_strlit("F11");
    reveal_strlit("F12");
    reveal_strlit("Home");
    reveal_strlit("ArrowUp");
    reveal_strlit("PageUp");
    reveal_strlit("ArrowLeft");
    reveal_strlit("ArrowRight");
    reveal_strlit("End");
    reveal_strlit("ArrowDown");
    reveal_strlit("PageDown");
    reveal_strlit("Insert");
    reveal_strlit("Delete");
    reveal_strlit("MetaLeft");
    reveal_strlit("MetaRight");
    reveal_strlit("Key");
    let name = "Key"@.push(c);
    assert(name.len() == 4 && name[0] == 'K' && name[1] == 'e' && name[2] == 'y' && name[3] == c);
    if c == 'A' {
        assert(name =~= "KeyA"@);
    } else if c == 'B' {
        assert(name =~= "KeyB"@);
    } else if c == 'C' {
        assert(name =~= "KeyC"@);
    } else if c == 'D' {
        assert(name =~= "KeyD"@);
    } else if c == 'E' {
        assert(name =~= "KeyE"@);
    } else if c == 'F' {
        assert(name =~= "KeyF"@);
    } else if c == 'G' {
        assert(name =~= "KeyG"@);
    } else if c == 'H' {
        assert(name =~= "KeyH"@);
    } else if c == 'I' {
        assert(name =~= "KeyI"@);
    } else if c == 'J' {
        assert(name =~= "KeyJ"@);
    } else if c == 'K' {
        assert(name =~= "KeyK"@);
    } else if c == 'L' {
        assert(name =~= "KeyL"@);
    } else if c == 'M' {
        assert(name =~= "KeyM"@);
    } else if c == 'N' {
        assert(name =~= "KeyN"@);
    } else if c == 'O' {
        assert(name =~= "KeyO"@);
    } else if c == 'P' {
        assert(name =~= "KeyP"@);
    } else if c == 'Q' {
        assert(name =~= "KeyQ"@);
    } else if c == 'R' {
        assert(name =~= "KeyR"@);
    } else if c == 'S' {
        assert(name =~= "KeyS"@);
    } else if c == 'T' {
        assert(name =~= "KeyT"@);
    } else if c == 'U' {
        assert(name =~= "KeyU"@);
    } else if c == 'V' {
        assert(name =~= "KeyV"@);
    } else if c == 'W' {
        assert(name =~= "KeyW"@);
    } else if c == 'X' {
        assert(name =~= "KeyX"@);
    } else if c == 'Y' {
        assert(name =~= "KeyY"@);
    } else if c == 'Z' {
        assert(name =~= "KeyZ"@);
    }
}

/// The digit key of a digit has the code that typing the digit uses.
pub(crate) proof fn digit_key_code(c: char)
    requires
        '0' <= c <= '9',
    ensures
        key_code_spec("Digit"@.push(c)) == ascii_key_code_spec(c),
{
    reveal_strlit("Escape");
    reveal_strlit("Digit1");
    reveal_strlit("Digit2");
    reveal_strlit("Digit3");
    reveal_strlit("Digit4");
    reveal_strlit("Digit5");
    reveal_strlit("Digit6");
    reveal_strlit("Digit7");
    reveal_strlit("Digit8");
    reveal_strlit("Digit9");
    reveal_strlit("Digit0");
    reveal_strlit("Minus");
    reveal_strlit("Equal");
    reveal_strlit("Backspace");
    reveal_strlit("Tab");
    reveal_strlit("KeyQ");
    reveal_strlit("KeyW");
    reveal_strlit("KeyE");
    reveal_strlit("KeyR");
    reveal_strlit("KeyT");
    reveal_strlit("KeyY");
    reveal_strlit("KeyU");
    reveal_strlit("KeyI");
    reveal_strlit("KeyO");
    reveal_strlit("KeyP");
    reveal_strlit("BracketLeft");
    reveal_strlit("BracketRight");
    reveal_strlit("Enter");
    reveal_strlit("ControlLeft");
    reveal_strlit("ControlRight");
    reveal_strlit("KeyA");
    reveal_strlit("KeyS");
    reveal_strlit("KeyD");
    reveal_strlit("KeyF");
    reveal_strlit("KeyG");
    reveal_strlit("KeyH");
    reveal_strlit("KeyJ");
    reveal_strlit("KeyK");
    reveal_strlit("KeyL");
    reveal_strlit("Semicolon");
    reveal_strlit("Quote");
    reveal_strlit("Backquote");
    reveal_strlit("ShiftLeft");
    reveal_strlit("Backslash");
    reveal_strlit("KeyZ");
    reveal_strlit("KeyX");
    reveal_strlit("KeyC");
    reveal_strlit("KeyV");
    reveal_strlit("KeyB");
    reveal_strlit("KeyN");
    reveal_strlit("KeyM");
    reveal_strlit("Comma");
    reveal_strlit("Period");
    reveal_strlit("Slash");
    reveal_strlit("ShiftRight");
    reveal_strlit("AltLeft");
    reveal_strlit("AltRight");
    reveal_strlit("Space");
    reveal_strlit("CapsLock");
    reveal_strlit("F1");
    reveal_strlit("F2");
    reveal_strlit("F3");
    reveal_strlit("F4");
    reveal_strlit("F5");
    reveal_strlit("F6");
    reveal_strlit("F7");
    reveal_strlit("F8");
    reveal_strlit("F9");
    reveal_strlit("F10");
    reveal_strlit("F11");
    reveal_strlit("F12");
    reveal_strlit("Home");
    reveal_strlit("ArrowUp");
    reveal_strlit("PageUp");
    reveal_strlit("ArrowLeft");
    reveal_strlit("ArrowRight");
    reveal_strlit("End");
    reveal_strlit("ArrowDown");
    reveal_strlit("PageDown");
    reveal_strlit("Insert");
    reveal_strlit("Delete");
    reveal_strlit("MetaLeft");
    reveal_strlit("MetaRight");
    reveal_strlit("Digit");
    let name = "Digit"@.push(c);
    assert(name.len() == 6 && name[0] == 'D' && name[1] == 'i' && name[5] == c);
    if c == '0' {
        assert(name =~= "Digit0"@);
    } else if c == '1' {
        assert(name =~= "Digit1"@);
    } else if c == '2' {
        assert(name =~= "Digit2"@);
    } else if c == '3' {
        assert(name =~= "Digit3"@);
    } else if c == '4' {
        assert(name =~= "Digit4"@);
    } else if c == '5' {
        assert(name =~= "Digit5"@);
    } else if c == '6' {
        assert(name =~= "Digit6"@);
    } else if c == '7' {
        assert(name =~= "Digit7"@);
    } else if c == '8' {
        assert(name =~= "Digit8"@);
    } else if c == '9' {
        assert(name =~= "Digit9"@);
    }
}

/// The name of the letter key of a letter: `Key` and the upper-case letter.
pub open spec fn letter_key_name(c: char) -> Seq<char> {
    "Key"@.push(if 'a' <= c <= 'z' { ((c as u32) - 32) as char } else { c })
}

/// The name of the digit key of a digit: `Digit` and the digit.
pub open spec fn digit_key_name(c: char) -> Seq<char> {
    "Digit"@.push(c)
}

/// Typing a character presses the key that its key code name selects: a
/// letter, in either case, presses its letter key, a digit its digit key,
/// and space, newline and tab the Space, Enter and Tab keys; a character
/// outside ASCII presses no key.
pub proof fn typed_characters_use_their_keys()
    ensures
        forall|c: char| ('a' <= c <= 'z' || 'A' <= c <= 'Z') ==> #[trigger] ascii_key_code_spec(c) == key_code_spec(letter_key_name(c)),
        forall|c: char| '0' <= c <= '9' ==> #[trigger] ascii_key_code_spec(c) == key_code_spec(digit_key_name(c)),
        ascii_key_code_spec(' ') == key_code_spec("Space"@),
        ascii_key_code_spec('\n') == key_code_spec("Enter"@),
        ascii_key_code_spec('\t') == key_code_spec("Tab"@),
        forall|c: char| (c as u32) >= 128 ==> #[trigger] ascii_key_code_spec(c) is None,
{
    reveal_strlit("Key");
    reveal_strlit("Digit");
    assert forall|c: char| ('a' <= c <= 'z' || 'A' <= c <= 'Z') implies #[trigger] ascii_key_code_spec(c) == key_code_spec(letter_key_name(c)) by {
        let upper = if 'a' <= c <= 'z' { ((c as u32) - 32) as char } else { c };
        assert('A' <= upper <= 'Z');
        letter_key_code(upper);
        assert(ascii_key_code_spec(upper) == ascii_key_code_spec(c));
    }
    assert forall|c: char| '0' <= c <= '9' implies #[trigger] ascii_key_code_spec(c) == key_code_spec(digit_key_name(c)) by {
        digit_key_code(c);
    }
    reveal_strlit("Escape");
    reveal_strlit("Digit1");
    reveal_strlit("Digit2");
    reveal_strlit("Digit3");
    reveal_strlit("Digit4");
    reveal_strlit("Digit5");
    reveal_strlit("Digit6");
    reveal_strlit("Digit7");
    reveal_strlit("Digit8");
    reveal_strlit("Digit9");
    reveal_strlit("Digit0");
    reveal_strlit("Minus");
    reveal_strlit("Equal");
    reveal_strlit("Backspace");
    reveal_strlit("Tab");
    reveal_strlit("KeyQ");
    reveal_strlit("KeyW");
    reveal_strlit("KeyE");
    reveal_strlit("KeyR");
    reveal_strlit("KeyT");
    reveal_strlit("KeyY");
    reveal_strlit("KeyU");
    reveal_strlit("KeyI");
    reveal_strlit("KeyO");
    reveal_strlit("KeyP");
    reveal_strlit("BracketLeft");
    reveal_strlit("BracketRight");
    reveal_strlit("Enter");
    reveal_strlit("ControlLeft");
    reveal_strlit("ControlRight");
    reveal_strlit("KeyA");
    reveal_strlit("KeyS");
    reveal_strlit("KeyD");
    reveal_strlit("KeyF");
    reveal_strlit("KeyG");
    reveal_strlit("KeyH");
    reveal_strlit("KeyJ");
    reveal_strlit("KeyK");
    reveal_strlit("KeyL");
    reveal_strlit("Semicolon");
    reveal_strlit("Quote");
    reveal_strlit("Backquote");
    reveal_strlit("ShiftLeft");
    reveal_strlit("Backslash");
    reveal_strlit("KeyZ");
    reveal_strlit("KeyX");
    reveal_strlit("KeyC");
    reveal_strlit("KeyV");
    reveal_strlit("KeyB");
    reveal_strlit("KeyN");
    reveal_strlit("KeyM");
    reveal_strlit("Comma");
    reveal_strlit("Period");
    reveal_strlit("Slash");
    reveal_strlit("ShiftRight");
    reveal_strlit("AltLeft");
    reveal_strlit("AltRight");
    reveal_strlit("Space");
    reveal_strlit("CapsLock");
    reveal_strlit("F1");
    reveal_strlit("F2");
    reveal_strlit("F3");
    reveal_strlit("F4");
    reveal_strlit("F5");
    reveal_strlit("F6");
    reveal_strlit("F7");
    reveal_strlit("F8");
    reveal_strlit("F9");
    reveal_strlit("F10");
    reveal_strlit("F11");
    reveal_strlit("F12");
    reveal_strlit("Home");
    reveal_strlit("ArrowUp");
    reveal_strlit("PageUp");
    reveal_strlit("ArrowLeft");
    reveal_strlit("ArrowRight");
    reveal_strlit("End");
    reveal_strlit("ArrowDown");
    reveal_strlit("PageDown");
    reveal_strlit("Insert");
    reveal_strlit("Delete");
    reveal_strlit("MetaLeft");
    reveal_strlit("MetaRight");
    let space = "Space"@;
    assert(space.len() == 5 && space[0] == 'S' && space[1] == 'p' && space[4] == 'e');
    let enter = "Enter"@;
    assert(enter.len() == 5 && enter[0] == 'E' && enter[1] == 'n');
    let tab = "Tab"@;
    assert(tab.len() == 3 && tab[0] == 'T' && tab[1] == 'a');
}


/// Whether the tokens of an accelerator, read after the input codes `codes`,
/// form a chord: every token but the last names a modifier that is new, and
/// the last token names a primary key and no modifier.
pub open spec fn accelerator_well_formed(t: Seq<Seq<char>>, codes: Seq<Seq<char>>) -> bool {
    &&& t.len() >= 1
    &&& forall|i: int| 0 <= i < t.len() - 1 ==> (#[trigger] t[i]).len() > 0 && modifier_of(t[i]) is Some
        && !codes.contains(modifier_of(t[i])->0)
    &&& forall|i: int, j: int| 0 <= i < j < t.len() - 1 ==> modifier_of(#[trigger] t[i]) != modifier_of(#[trigger] t[j])
    &&& t.last().len() > 0
    &&& modifier_of(t.last()) is None
    &&& primary_of(t.last()) is Some
}

/// The input codes of a well-formed chord: its modifiers in order, then its
/// primary key.
pub open spec fn accelerator_shape_codes(t: Seq<Seq<char>>) -> Seq<Seq<char>> {
    Seq::new((t.len() - 1) as nat, |i: int| modifier_of(t[i])->0).push(primary_of(t.last())->0)
}

/// Once the primary key is read, any further token is refused.
proof fn nothing_follows_the_primary(t: Seq<Seq<char>>, codes: Seq<Seq<char>>)
    requires
        t.len() > 0,
    ensures
        parse_steps(t, codes, true) is Err,
{
}

/// Reading tokens after some codes succeeds exactly on a well-formed chord,
/// and then yields those codes followed by the chord's codes.
proof fn parse_steps_shape(t: Seq<Seq<char>>, codes: Seq<Seq<char>>)
    ensures
        parse_steps(t, codes, false) is Ok <==> accelerator_well_formed(t, codes),
        parse_steps(t, codes, false) is Ok ==> parse_steps(t, codes, false)->Ok_0 == codes + accelerator_shape_codes(t),
    decreases t.len(),
{
    if t.len() == 0 {
        return;
    }
    let t0 = t[0];
    let rest = t.drop_first();
    if t.len() == 1 {
        assert(t.last() == t0);
    }
    if t0.len() == 0 {
        if t.len() > 1 {
            assert(t[0].len() > 0 ==> true);
        }
        return;
    }
    if modifier_of(t0) is Some {
        let m = modifier_of(t0)->0;
        if codes.contains(m) || t.len() == 1 {
            if t.len() == 1 {
                assert(t.last() == t[0]);
            }
            if t.len() > 1 {
                assert(!(0 <= 0 < t.len() - 1 ==> t[0].len() > 0 && modifier_of(t[0]) is Some && !codes.contains(modifier_of(t[0])->0)));
            }
            if t.len() == 1 && !codes.contains(m) {
                parse_steps_shape(rest, codes.push(m));
                assert(parse_steps(t, codes, false) == parse_steps(rest, codes.push(m), false));
            }
            return;
        }
        parse_steps_shape(rest, codes.push(m));
        assert(parse_steps(t, codes, false) == parse_steps(rest, codes.push(m), false));
        assert(rest.last() == t.last());
        if accelerator_well_formed(t, codes) {
            assert forall|i: int| 0 <= i < rest.len() - 1 implies (#[trigger] rest[i]).len() > 0 && modifier_of(rest[i]) is Some
                && !codes.push(m).contains(modifier_of(rest[i])->0) by {
                assert(rest[i] == t[i + 1]);
                assert(modifier_of(t[0]) != modifier_of(t[i + 1]));
                if codes.push(m).contains(modifier_of(rest[i])->0) {
                    let k = choose|k: int| 0 <= k < codes.push(m).len() && codes.push(m)[k] == modifier_of(rest[i])->0;
                    if k < codes.len() {
                        assert(codes.contains(modifier_of(t[i + 1])->0));
                    }
                }
            }
            assert forall|i: int, j: int| 0 <= i < j < rest.len() - 1 implies modifier_of(#[trigger] rest[i]) != modifier_of(#[trigger] rest[j]) by {
                assert(rest[i] == t[i + 1]);
                assert(rest[j] == t[j + 1]);
            }
            assert(accelerator_well_formed(rest, codes.push(m)));
        }
        if accelerator_well_formed(rest, codes.push(m)) {
            assert forall|i: int| 0 <= i < t.len() - 1 implies (#[trigger] t[i]).len() > 0 && modifier_of(t[i]) is Some
                && !codes.contains(modifier_of(t[i])->0) by {
                if i > 0 {
                    assert(t[i] == rest[i - 1]);
                    assert(codes.push(m).contains(modifier_of(t[i])->0) ==> true);
                    if codes.contains(modifier_of(t[i])->0) {
                        let k = choose|k: int| 0 <= k < codes.len() && codes[k] == modifier_of(t[i])->0;
                        assert(codes.push(m)[k] == modifier_of(t[i])->0);
                    }
                }
            }
            assert forall|i: int, j: int| 0 <= i < j < t.len() - 1 implies modifier_of(#[trigger] t[i]) != modifier_of(#[trigger] t[j]) by {
                assert(t[j] == rest[j - 1]);
                if i == 0 {
                    assert(codes.push(m)[codes.len() as int] == m);
                } else {
                    assert(t[i] == rest[i - 1]);
                }
            }
            assert(accelerator_well_formed(t, codes));
            assert(codes.push(m) + accelerator_shape_codes(rest) =~= codes + accelerator_shape_codes(t));
        }
        assert(parse_steps(t, codes, false) is Ok ==> accelerator_well_formed(t, codes));
        assert(accelerator_well_formed(t, codes) ==> parse_steps(t, codes, false) is Ok);
    } else if primary_of(t0) is None {
        if t.len() > 1 {
            assert(!(0 <= 0 < t.len() - 1 ==> t[0].len() > 0 && modifier_of(t[0]) is Some && !codes.contains(modifier_of(t[0])->0)));
        }
        return;
    } else {
        let p = primary_of(t0)->0;
        assert(parse_steps(t, codes, false) == parse_steps(rest, codes.push(p), true));
        if t.len() > 1 {
            nothing_follows_the_primary(rest, codes.push(p));
            assert(!(0 <= 0 < t.len() - 1 ==> t[0].len() > 0 && modifier_of(t[0]) is Some && !codes.contains(modifier_of(t[0])->0)));
        } else {
            assert(rest.len() == 0);
            assert(parse_steps(rest, codes.push(p), true) == Ok::<Seq<Seq<char>>, crate::codex::AcceleratorFault>(codes.push(p)));
            assert(t.last() == t0);
            assert(codes.push(p) =~= codes + accelerator_shape_codes(t));
        }
    }
}

/// An accelerator is accepted exactly when its `+`-separated, trimmed tokens
/// form a chord: non-empty modifiers, each named once, then one primary key
/// that is no modifier. An accepted accelerator presses its modifiers in
/// order and then its primary key; a refused one is a fault.
pub proof fn accelerators_are_modifiers_then_one_key(accelerator: Seq<char>)
    ensures
        accelerator_codes(accelerator) is Ok <==> accelerator_well_formed(accelerator_tokens(accelerator), seq![]),
        accelerator_codes(accelerator) is Ok ==> accelerator_codes(accelerator)->Ok_0 == accelerator_shape_codes(
            accelerator_tokens(accelerator),
        ),
{
    parse_steps_shape(accelerator_tokens(accelerator), seq![]);
    assert(Seq::<Seq<char>>::empty() + accelerator_shape_codes(accelerator_tokens(accelerator)) =~= accelerator_shape_codes(
        accelerator_tokens(accelerator),
    ));
}


/// Whether a line of the copied summary is a capability's line, which begins
/// with `- `, or one of its details, which begin with two spaces.
pub open spec fn summary_detail_shape(l: Seq<char>) -> bool {
    l.len() >= 2 && ((l[0] == '-' && l[1] == ' ') || (l[0] == ' ' && l[1] == ' '))
}

/// A text that begins with a literal prefix keeps that prefix's first two characters.
proof fn prefixed_shape(prefix: Seq<char>, rest: Seq<char>)
    requires
        prefix.len() >= 2,
        summary_detail_shape(prefix),
    ensures
        summary_detail_shape(prefix + rest),
{
}

/// Every line that a capability adds has the shape of a summary detail.
proof fn capability_lines_shape(c: DiagnosticView)
    ensures
        forall|i: int| 0 <= i < capability_lines(c).len() ==> summary_detail_shape(#[trigger] capability_lines(c)[i]),
{
    reveal_strlit("- ");
    reveal_strlit("  evidence: ");
    reveal_strlit("  lastAttemptAt: ");
    reveal_strlit("  lastSuccessAt: ");
    reveal_strlit("  lastFailureAt: ");
    reveal_strlit("  lastFailureSummary: ");
    let head = "- "@ + c.label + " ["@ + c.group + "]: runtime="@ + c.runtime_status + ", product="@ + c.product_status;
    assert(head == "- "@ + (c.label + " ["@ + c.group + "]: runtime="@ + c.runtime_status + ", product="@ + c.product_status));
    prefixed_shape("- "@, c.label + " ["@ + c.group + "]: runtime="@ + c.runtime_status + ", product="@ + c.product_status);
    let ev = c.evidence.map_values(|e: Seq<char>| "  evidence: "@ + e);
    assert forall|i: int| 0 <= i < ev.len() implies summary_detail_shape(#[trigger] ev[i]) by {
        prefixed_shape("  evidence: "@, c.evidence[i]);
    }
    let a = match c.attempt.last_attempt_at { Some(t) => seq!["  lastAttemptAt: "@ + t], None => seq![] };
    let b = match c.attempt.last_success_at { Some(t) => seq!["  lastSuccessAt: "@ + t], None => seq![] };
    let f = match c.attempt.last_failure_at { Some(t) => seq!["  lastFailureAt: "@ + t], None => seq![] };
    let g = match c.attempt.last_failure_summary { Some(t) => seq!["  lastFailureSummary: "@ + t], None => seq![] };
    if let Some(t) = c.attempt.last_attempt_at {
        prefixed_shape("  lastAttemptAt: "@, t);
    }
    if let Some(t) = c.attempt.last_success_at {
        prefixed_shape("  lastSuccessAt: "@, t);
    }
    if let Some(t) = c.attempt.last_failure_at {
        prefixed_shape("  lastFailureAt: "@, t);
    }
    if let Some(t) = c.attempt.last_failure_summary {
        prefixed_shape("  lastFailureSummary: "@, t);
    }
    let all = seq![head] + ev + a + b + f + g;
    assert(capability_lines(c) == all);
    assert forall|i: int| 0 <= i < all.len() implies summary_detail_shape(#[trigger] all[i]) by {
        let n1 = 1 + ev.len();
        let n2 = n1 + a.len();
        let n3 = n2 + b.len();
        let n4 = n3 + f.len();
        if i == 0 {
        } else if i < n1 {
            assert(all[i] == ev[i - 1]);
        } else if i < n2 {
            assert(all[i] == a[i - n1]);
        } else if i < n3 {
            assert(all[i] == b[i - n2]);
        } else if i < n4 {
            assert(all[i] == f[i - n3]);
        } else {
            assert(all[i] == g[i - n4]);
        }
    }
}

/// The copied diagnostics summary begins with its title line; every other
/// line is a capability's line (`- label [group]: runtime=..., product=...`) or
/// one of its details (two spaces, then `evidence:` or an attempt time or
/// failure); and an unsupported capability adds no line.
pub proof fn copy_summary_line_format(caps: Seq<DiagnosticView>)
    ensures
        summary_lines(caps).len() >= 1,
        summary_lines(caps)[0] == "TapPad local diagnostics"@,
        forall|i: int| 1 <= i < summary_lines(caps).len() ==> summary_detail_shape(#[trigger] summary_lines(caps)[i]),
        caps.len() > 0 && caps.last().product_status == "unsupported"@ ==> summary_lines(caps) == summary_lines(caps.drop_last()),
    decreases caps.len(),
{
    if caps.len() > 0 {
        copy_summary_line_format(caps.drop_last());
        if caps.last().product_status != "unsupported"@ {
            let before = summary_lines(caps.drop_last());
            let more = capability_lines(caps.last());
            capability_lines_shape(caps.last());
            assert forall|i: int| 1 <= i < summary_lines(caps).len() implies summary_detail_shape(#[trigger] summary_lines(caps)[i]) by {
                if i < before.len() {
                    assert(summary_lines(caps)[i] == before[i]);
                } else {
                    assert(summary_lines(caps)[i] == more[i - before.len()]);
                }
            }
        }
    }
}


/// Starting a voice chat in the foreground follows the installed command
/// metadata: when the metadata cannot be read, or does not list the command
/// once as app-scoped, that fault is the result whatever the user's
/// bindings; otherwise a unique user binding wins over the metadata default,
/// which is used only when the user has none; and the probe succeeds only
/// when Codex is the verified foreground.
pub proof fn foreground_start_follows_the_metadata(
    bindings: Seq<(Seq<char>, Seq<char>)>,
    metadata: Result<Seq<char>, MetadataErrorView>,
    foreground: Result<(), ProbeFault>,
)
    ensures
        metadata is Err && !default_binding_fault(metadata->Err_0) ==> metadata_probe_spec(
            true,
            Ok(bindings),
            "composer.startVoiceMode"@,
            metadata,
            foreground,
        ) == Err::<(Seq<char>, Seq<Seq<char>>), ProbeFault>(metadata_fault(metadata->Err_0)),
        metadata_probe_spec(true, Ok(bindings), "composer.startVoiceMode"@, metadata, foreground) is Ok
            ==> foreground is Ok,
        (metadata is Ok || default_binding_fault(metadata->Err_0)) && matching_keys(bindings, "composer.startVoiceMode"@).len()
            == 1 && metadata_probe_spec(true, Ok(bindings), "composer.startVoiceMode"@, metadata, foreground) is Ok
            ==> metadata_probe_spec(true, Ok(bindings), "composer.startVoiceMode"@, metadata, foreground)->Ok_0.0
            == matching_keys(bindings, "composer.startVoiceMode"@)[0],
        metadata is Ok && matching_keys(bindings, "composer.startVoiceMode"@).len() == 0 && metadata_probe_spec(
            true,
            Ok(bindings),
            "composer.startVoiceMode"@,
            metadata,
            foreground,
        ) is Ok ==> metadata_probe_spec(true, Ok(bindings), "composer.startVoiceMode"@, metadata, foreground)->Ok_0.0
            == metadata->Ok_0,
{
}

} // verus!
