//! Properties of the library that hold across its functions: the action
//! registry across the platform tables, held input, client identity, the
//! binding cache and the key mapping.

use vstd::prelude::*;
use crate::actions::{
    Platform, registry, platform_capability_spec, reports_result_spec, success_message_spec, capability_state_list,
    action_id_list, codex_action_list, is_codex_text, linux_command_spec, linux_capability_spec,
    macos_capability_spec, macos_command_spec, omarchy_action_list, ui_action_list,
    windows_capability_spec, windows_implements, windows_input_action_spec,
};
use crate::actions::{runnable_state, validate_spec};
use crate::backend::{ClientInputState, EffectStep, step_spec};
use crate::codex::CodexProbes;
use crate::connections::{ClientView, Connections, client_name};
use crate::host_input::{HostKey, after_prefix, code_letter, key_for_code_spec, single_ascii};
use crate::metadata::{ArchiveFingerprint, BindingCache, MetadataErrorView};
use crate::protocol::BackendEffect;
use crate::text::ascii_lower;

verus! {

/// The characters of the action and state names that the registry uses.
pub proof fn action_texts()
    ensures
        "screenrecord.screen"@ == seq!['s', 'c', 'r', 'e', 'e', 'n', 'r', 'e', 'c', 'o', 'r', 'd', '.', 's', 'c', 'r', 'e', 'e', 'n'],
        "screenrecord.screen"@.len() == 19,
        "screenrecord.window"@ == seq!['s', 'c', 'r', 'e', 'e', 'n', 'r', 'e', 'c', 'o', 'r', 'd', '.', 'w', 'i', 'n', 'd', 'o', 'w'],
        "screenrecord.window"@.len() == 19,
        "screenrecord.screen.audio"@ == seq!['s', 'c', 'r', 'e', 'e', 'n', 'r', 'e', 'c', 'o', 'r', 'd', '.', 's', 'c', 'r', 'e', 'e', 'n', '.', 'a', 'u', 'd', 'i', 'o'],
        "screenrecord.screen.audio"@.len() == 25,
        "screenrecord.screen.webcam"@ == seq!['s', 'c', 'r', 'e', 'e', 'n', 'r', 'e', 'c', 'o', 'r', 'd', '.', 's', 'c', 'r', 'e', 'e', 'n', '.', 'w', 'e', 'b', 'c', 'a', 'm'],
        "screenrecord.screen.webcam"@.len() == 26,
        "screenrecord.stop"@ == seq!['s', 'c', 'r', 'e', 'e', 'n', 'r', 'e', 'c', 'o', 'r', 'd', '.', 's', 't', 'o', 'p'],
        "screenrecord.stop"@.len() == 17,
        "open_recordings_folder"@ == seq!['o', 'p', 'e', 'n', '_', 'r', 'e', 'c', 'o', 'r', 'd', 'i', 'n', 'g', 's', '_', 'f', 'o', 'l', 'd', 'e', 'r'],
        "open_recordings_folder"@.len() == 22,
        "screenshot"@ == seq!['s', 'c', 'r', 'e', 'e', 'n', 's', 'h', 'o', 't'],
        "screenshot"@.len() == 10,
        "close_window"@ == seq!['c', 'l', 'o', 's', 'e', '_', 'w', 'i', 'n', 'd', 'o', 'w'],
        "close_window"@.len() == 12,
        "app_launcher"@ == seq!['a', 'p', 'p', '_', 'l', 'a', 'u', 'n', 'c', 'h', 'e', 'r'],
        "app_launcher"@.len() == 12,
        "lock_screen"@ == seq!['l', 'o', 'c', 'k', '_', 's', 'c', 'r', 'e', 'e', 'n'],
        "lock_screen"@.len() == 11,
        "media.prev"@ == seq!['m', 'e', 'd', 'i', 'a', '.', 'p', 'r', 'e', 'v'],
        "media.prev"@.len() == 10,
        "media.play_pause"@ == seq!['m', 'e', 'd', 'i', 'a', '.', 'p', 'l', 'a', 'y', '_', 'p', 'a', 'u', 's', 'e'],
        "media.play_pause"@.len() == 16,
        "media.next"@ == seq!['m', 'e', 'd', 'i', 'a', '.', 'n', 'e', 'x', 't'],
        "media.next"@.len() == 10,
        "media.volume_down"@ == seq!['m', 'e', 'd', 'i', 'a', '.', 'v', 'o', 'l', 'u', 'm', 'e', '_', 'd', 'o', 'w', 'n'],
        "media.volume_down"@.len() == 17,
        "media.mute"@ == seq!['m', 'e', 'd', 'i', 'a', '.', 'm', 'u', 't', 'e'],
        "media.mute"@.len() == 10,
        "media.volume_up"@ == seq!['m', 'e', 'd', 'i', 'a', '.', 'v', 'o', 'l', 'u', 'm', 'e', '_', 'u', 'p'],
        "media.volume_up"@.len() == 15,
        "codex.voice.start"@ == seq!['c', 'o', 'd', 'e', 'x', '.', 'v', 'o', 'i', 'c', 'e', '.', 's', 't', 'a', 'r', 't'],
        "codex.voice.start"@.len() == 17,
        "codex.voice.start_foreground"@ == seq!['c', 'o', 'd', 'e', 'x', '.', 'v', 'o', 'i', 'c', 'e', '.', 's', 't', 'a', 'r', 't', '_', 'f', 'o', 'r', 'e', 'g', 'r', 'o', 'u', 'n', 'd'],
        "codex.voice.start_foreground"@.len() == 28,
        "codex.voice.end"@ == seq!['c', 'o', 'd', 'e', 'x', '.', 'v', 'o', 'i', 'c', 'e', '.', 'e', 'n', 'd'],
        "codex.voice.end"@.len() == 15,
        "codex.voice.toggle_microphone"@ == seq!['c', 'o', 'd', 'e', 'x', '.', 'v', 'o', 'i', 'c', 'e', '.', 't', 'o', 'g', 'g', 'l', 'e', '_', 'm', 'i', 'c', 'r', 'o', 'p', 'h', 'o', 'n', 'e'],
        "codex.voice.toggle_microphone"@.len() == 29,
        "workspace.previous"@ == seq!['w', 'o', 'r', 'k', 's', 'p', 'a', 'c', 'e', '.', 'p', 'r', 'e', 'v', 'i', 'o', 'u', 's'],
        "workspace.previous"@.len() == 18,
        "workspace.former"@ == seq!['w', 'o', 'r', 'k', 's', 'p', 'a', 'c', 'e', '.', 'f', 'o', 'r', 'm', 'e', 'r'],
        "workspace.former"@.len() == 16,
        "workspace.next"@ == seq!['w', 'o', 'r', 'k', 's', 'p', 'a', 'c', 'e', '.', 'n', 'e', 'x', 't'],
        "workspace.next"@.len() == 14,
        "workspace.1"@ == seq!['w', 'o', 'r', 'k', 's', 'p', 'a', 'c', 'e', '.', '1'],
        "workspace.1"@.len() == 11,
        "workspace.2"@ == seq!['w', 'o', 'r', 'k', 's', 'p', 'a', 'c', 'e', '.', '2'],
        "workspace.2"@.len() == 11,
        "workspace.3"@ == seq!['w', 'o', 'r', 'k', 's', 'p', 'a', 'c', 'e', '.', '3'],
        "workspace.3"@.len() == 11,
        "workspace.4"@ == seq!['w', 'o', 'r', 'k', 's', 'p', 'a', 'c', 'e', '.', '4'],
        "workspace.4"@.len() == 11,
        "workspace.5"@ == seq!['w', 'o', 'r', 'k', 's', 'p', 'a', 'c', 'e', '.', '5'],
        "workspace.5"@.len() == 11,
        "supported"@ == seq!['s', 'u', 'p', 'p', 'o', 'r', 't', 'e', 'd'],
        "supported"@.len() == 9,
        "hidden"@ == seq!['h', 'i', 'd', 'd', 'e', 'n'],
        "hidden"@.len() == 6,
        "unavailable"@ == seq!['u', 'n', 'a', 'v', 'a', 'i', 'l', 'a', 'b', 'l', 'e'],
        "unavailable"@.len() == 11,
        "downgraded"@ == seq!['d', 'o', 'w', 'n', 'g', 'r', 'a', 'd', 'e', 'd'],
        "downgraded"@.len() == 10,
        "deferred"@ == seq!['d', 'e', 'f', 'e', 'r', 'r', 'e', 'd'],
        "deferred"@.len() == 8,
        "raw-shell"@ == seq!['r', 'a', 'w', '-', 's', 'h', 'e', 'l', 'l'],
        "raw-shell"@.len() == 9,
{
    broadcast use vstd::string::axiom_str_literal_len, vstd::string::axiom_str_literal_get_char;
    reveal_strlit("screenrecord.screen");
    reveal_strlit("screenrecord.window");
    reveal_strlit("screenrecord.screen.audio");
    reveal_strlit("screenrecord.screen.webcam");
    reveal_strlit("screenrecord.stop");
    reveal_strlit("open_recordings_folder");
    reveal_strlit("screenshot");
    reveal_strlit("close_window");
    reveal_strlit("app_launcher");
    reveal_strlit("lock_screen");
    reveal_strlit("media.prev");
    reveal_strlit("media.play_pause");
    reveal_strlit("media.next");
    reveal_strlit("media.volume_down");
    reveal_strlit("media.mute");
    reveal_strlit("media.volume_up");
    reveal_strlit("codex.voice.start");
    reveal_strlit("codex.voice.start_foreground");
    reveal_strlit("codex.voice.end");
    reveal_strlit("codex.voice.toggle_microphone");
    reveal_strlit("workspace.previous");
    reveal_strlit("workspace.former");
    reveal_strlit("workspace.next");
    reveal_strlit("workspace.1");
    reveal_strlit("workspace.2");
    reveal_strlit("workspace.3");
    reveal_strlit("workspace.4");
    reveal_strlit("workspace.5");
    reveal_strlit("supported");
    reveal_strlit("hidden");
    reveal_strlit("unavailable");
    reveal_strlit("downgraded");
    reveal_strlit("deferred");
    reveal_strlit("raw-shell");
    assert("screenrecord.screen"@ =~= seq!['s', 'c', 'r', 'e', 'e', 'n', 'r', 'e', 'c', 'o', 'r', 'd', '.', 's', 'c', 'r', 'e', 'e', 'n']);
    assert("screenrecord.window"@ =~= seq!['s', 'c', 'r', 'e', 'e', 'n', 'r', 'e', 'c', 'o', 'r', 'd', '.', 'w', 'i', 'n', 'd', 'o', 'w']);
    assert("screenrecord.screen.audio"@ =~= seq!['s', 'c', 'r', 'e', 'e', 'n', 'r', 'e', 'c', 'o', 'r', 'd', '.', 's', 'c', 'r', 'e', 'e', 'n', '.', 'a', 'u', 'd', 'i', 'o']);
    assert("screenrecord.screen.webcam"@ =~= seq!['s', 'c', 'r', 'e', 'e', 'n', 'r', 'e', 'c', 'o', 'r', 'd', '.', 's', 'c', 'r', 'e', 'e', 'n', '.', 'w', 'e', 'b', 'c', 'a', 'm']);
    assert("screenrecord.stop"@ =~= seq!['s', 'c', 'r', 'e', 'e', 'n', 'r', 'e', 'c', 'o', 'r', 'd', '.', 's', 't', 'o', 'p']);
    assert("open_recordings_folder"@ =~= seq!['o', 'p', 'e', 'n', '_', 'r', 'e', 'c', 'o', 'r', 'd', 'i', 'n', 'g', 's', '_', 'f', 'o', 'l', 'd', 'e', 'r']);
    assert("screenshot"@ =~= seq!['s', 'c', 'r', 'e', 'e', 'n', 's', 'h', 'o', 't']);
    assert("close_window"@ =~= seq!['c', 'l', 'o', 's', 'e', '_', 'w', 'i', 'n', 'd', 'o', 'w']);
    assert("app_launcher"@ =~= seq!['a', 'p', 'p', '_', 'l', 'a', 'u', 'n', 'c', 'h', 'e', 'r']);
    assert("lock_screen"@ =~= seq!['l', 'o', 'c', 'k', '_', 's', 'c', 'r', 'e', 'e', 'n']);
    assert("media.prev"@ =~= seq!['m', 'e', 'd', 'i', 'a', '.', 'p', 'r', 'e', 'v']);
    assert("media.play_pause"@ =~= seq!['m', 'e', 'd', 'i', 'a', '.', 'p', 'l', 'a', 'y', '_', 'p', 'a', 'u', 's', 'e']);
    assert("media.next"@ =~= seq!['m', 'e', 'd', 'i', 'a', '.', 'n', 'e', 'x', 't']);
    assert("media.volume_down"@ =~= seq!['m', 'e', 'd', 'i', 'a', '.', 'v', 'o', 'l', 'u', 'm', 'e', '_', 'd', 'o', 'w', 'n']);
    assert("media.mute"@ =~= seq!['m', 'e', 'd', 'i', 'a', '.', 'm', 'u', 't', 'e']);
    assert("media.volume_up"@ =~= seq!['m', 'e', 'd', 'i', 'a', '.', 'v', 'o', 'l', 'u', 'm', 'e', '_', 'u', 'p']);
    assert("codex.voice.start"@ =~= seq!['c', 'o', 'd', 'e', 'x', '.', 'v', 'o', 'i', 'c', 'e', '.', 's', 't', 'a', 'r', 't']);
    assert("codex.voice.start_foreground"@ =~= seq!['c', 'o', 'd', 'e', 'x', '.', 'v', 'o', 'i', 'c', 'e', '.', 's', 't', 'a', 'r', 't', '_', 'f', 'o', 'r', 'e', 'g', 'r', 'o', 'u', 'n', 'd']);
    assert("codex.voice.end"@ =~= seq!['c', 'o', 'd', 'e', 'x', '.', 'v', 'o', 'i', 'c', 'e', '.', 'e', 'n', 'd']);
    assert("codex.voice.toggle_microphone"@ =~= seq!['c', 'o', 'd', 'e', 'x', '.', 'v', 'o', 'i', 'c', 'e', '.', 't', 'o', 'g', 'g', 'l', 'e', '_', 'm', 'i', 'c', 'r', 'o', 'p', 'h', 'o', 'n', 'e']);
    assert("workspace.previous"@ =~= seq!['w', 'o', 'r', 'k', 's', 'p', 'a', 'c', 'e', '.', 'p', 'r', 'e', 'v', 'i', 'o', 'u', 's']);
    assert("workspace.former"@ =~= seq!['w', 'o', 'r', 'k', 's', 'p', 'a', 'c', 'e', '.', 'f', 'o', 'r', 'm', 'e', 'r']);
    assert("workspace.next"@ =~= seq!['w', 'o', 'r', 'k', 's', 'p', 'a', 'c', 'e', '.', 'n', 'e', 'x', 't']);
    assert("workspace.1"@ =~= seq!['w', 'o', 'r', 'k', 's', 'p', 'a', 'c', 'e', '.', '1']);
    assert("workspace.2"@ =~= seq!['w', 'o', 'r', 'k', 's', 'p', 'a', 'c', 'e', '.', '2']);
    assert("workspace.3"@ =~= seq!['w', 'o', 'r', 'k', 's', 'p', 'a', 'c', 'e', '.', '3']);
    assert("workspace.4"@ =~= seq!['w', 'o', 'r', 'k', 's', 'p', 'a', 'c', 'e', '.', '4']);
    assert("workspace.5"@ =~= seq!['w', 'o', 'r', 'k', 's', 'p', 'a', 'c', 'e', '.', '5']);
    assert("supported"@ =~= seq!['s', 'u', 'p', 'p', 'o', 'r', 't', 'e', 'd']);
    assert("hidden"@ =~= seq!['h', 'i', 'd', 'd', 'e', 'n']);
    assert("unavailable"@ =~= seq!['u', 'n', 'a', 'v', 'a', 'i', 'l', 'a', 'b', 'l', 'e']);
    assert("downgraded"@ =~= seq!['d', 'o', 'w', 'n', 'g', 'r', 'a', 'd', 'e', 'd']);
    assert("deferred"@ =~= seq!['d', 'e', 'f', 'e', 'r', 'r', 'e', 'd']);
    assert("raw-shell"@ =~= seq!['r', 'a', 'w', '-', 's', 'h', 'e', 'l', 'l']);
}


/// On macOS, an action of the registry is supported exactly when a command
/// implements it.
pub proof fn macos_supported_iff_implemented(a: Seq<char>)
    requires
        action_id_list().contains(a),
    ensures
        (macos_capability_spec(a).state == "supported"@) == (macos_command_spec(a) is Some),
{

    action_texts();
    let i = choose|i: int| 0 <= i < action_id_list().len() && action_id_list()[i] == a;
    assert(0 <= i < 20);
}

/// On Windows, an action of the registry is supported exactly when Windows
/// implements it, by its own command or by synthetic keys.
pub proof fn windows_supported_iff_implemented(a: Seq<char>)
    requires
        action_id_list().contains(a),
    ensures
        (windows_capability_spec(a).state == "supported"@) == windows_implements(a),
{
    action_texts();
    let i = choose|i: int| 0 <= i < action_id_list().len() && action_id_list()[i] == a;
    assert(0 <= i < 20);
}

/// Every action that the Linux host advertises has an implementation: a shell
/// command, or the Codex voice adapter.
pub proof fn linux_actions_are_implemented(a: Seq<char>)
    requires
        registry(Platform::Linux).contains(a),
    ensures
        linux_command_spec(a) is Some || codex_action_list().contains(a),
{
    action_texts();
    let i = choose|i: int| 0 <= i < registry(Platform::Linux).len() && registry(Platform::Linux)[i] == a;
    assert(0 <= i < 28);
    if 16 <= i < 20 {
        assert(codex_action_list()[i - 16] == a);
    }
}

/// The Omarchy workspace actions are supported on Linux, whatever the Codex probes say.
pub proof fn omarchy_workspaces_are_supported(a: Seq<char>, probes: CodexProbes)
    requires
        omarchy_action_list().contains(a),
    ensures
        linux_capability_spec(a, probes).state == "supported"@,
{
    action_texts();
    let i = choose|i: int| 0 <= i < omarchy_action_list().len() && omarchy_action_list()[i] == a;
    assert(0 <= i < 8);
}

/// The app-scoped Codex voice actions keep the `app` scope on Linux, and are
/// either supported or unavailable, whatever the runtime state.
pub proof fn codex_app_actions_keep_app_scope(a: Seq<char>, probes: CodexProbes)
    requires
        a == "codex.voice.end"@ || a == "codex.voice.toggle_microphone"@ || a == "codex.voice.start_foreground"@,
    ensures
        linux_capability_spec(a, probes).scope == Some("app"@),
        linux_capability_spec(a, probes).state == "supported"@ || linux_capability_spec(a, probes).state
            == "unavailable"@,
{
    action_texts();
    let p = if a == "codex.voice.end"@ {
        probes.end
    } else if a == "codex.voice.toggle_microphone"@ {
        probes.toggle_microphone
    } else {
        probes.start_foreground
    };
    match p {
        Ok(_) => {},
        Err(_) => {},
    }
}

/// Every action that the interface shows is registered.
pub proof fn ui_actions_are_registered(a: Seq<char>)
    requires
        ui_action_list().contains(a),
    ensures
        action_id_list().contains(a),
{
    let i = choose|i: int| 0 <= i < ui_action_list().len() && ui_action_list()[i] == a;
    assert(action_id_list()[i] == a);
}

/// The place of an action name in the Linux registry.
spec fn registry_position(a: Seq<char>) -> int {
    if a == "screenrecord.screen"@ {
        0
    } else if a == "screenrecord.window"@ {
        1
    } else if a == "screenrecord.screen.audio"@ {
        2
    } else if a == "screenrecord.screen.webcam"@ {
        3
    } else if a == "screenrecord.stop"@ {
        4
    } else if a == "open_recordings_folder"@ {
        5
    } else if a == "screenshot"@ {
        6
    } else if a == "close_window"@ {
        7
    } else if a == "app_launcher"@ {
        8
    } else if a == "lock_screen"@ {
        9
    } else if a == "media.prev"@ {
        10
    } else if a == "media.play_pause"@ {
        11
    } else if a == "media.next"@ {
        12
    } else if a == "media.volume_down"@ {
        13
    } else if a == "media.mute"@ {
        14
    } else if a == "media.volume_up"@ {
        15
    } else if a == "codex.voice.start"@ {
        16
    } else if a == "codex.voice.start_foreground"@ {
        17
    } else if a == "codex.voice.end"@ {
        18
    } else if a == "codex.voice.toggle_microphone"@ {
        19
    } else if a == "workspace.previous"@ {
        20
    } else if a == "workspace.former"@ {
        21
    } else if a == "workspace.next"@ {
        22
    } else if a == "workspace.1"@ {
        23
    } else if a == "workspace.2"@ {
        24
    } else if a == "workspace.3"@ {
        25
    } else if a == "workspace.4"@ {
        26
    } else if a == "workspace.5"@ {
        27
    } else {
        -1
    }
}

/// No action is registered twice, on any platform.
pub proof fn registry_has_no_duplicates(p: Platform)
    ensures
        registry(p).no_duplicates(),
{
    action_texts();
    let r = registry(Platform::Linux);
    assert(registry_position(r[0]) == 0);
    assert(registry_position(r[1]) == 1);
    assert(registry_position(r[2]) == 2);
    assert(registry_position(r[3]) == 3);
    assert(registry_position(r[4]) == 4);
    assert(registry_position(r[5]) == 5);
    assert(registry_position(r[6]) == 6);
    assert(registry_position(r[7]) == 7);
    assert(registry_position(r[8]) == 8);
    assert(registry_position(r[9]) == 9);
    assert(registry_position(r[10]) == 10);
    assert(registry_position(r[11]) == 11);
    assert(registry_position(r[12]) == 12);
    assert(registry_position(r[13]) == 13);
    assert(registry_position(r[14]) == 14);
    assert(registry_position(r[15]) == 15);
    assert(registry_position(r[16]) == 16);
    assert(registry_position(r[17]) == 17);
    assert(registry_position(r[18]) == 18);
    assert(registry_position(r[19]) == 19);
    assert(registry_position(r[20]) == 20);
    assert(registry_position(r[21]) == 21);
    assert(registry_position(r[22]) == 22);
    assert(registry_position(r[23]) == 23);
    assert(registry_position(r[24]) == 24);
    assert(registry_position(r[25]) == 25);
    assert(registry_position(r[26]) == 26);
    assert(registry_position(r[27]) == 27);
    assert forall|i: int, j: int| 0 <= i < registry(p).len() && 0 <= j < registry(p).len() && i != j implies registry(p)[i]
        != registry(p)[j] by {
        assert(registry(p)[i] == r[i]);
        assert(registry(p)[j] == r[j]);
    }
}

/// No registry offers a raw shell escape.
pub proof fn registry_has_no_raw_shell(p: Platform)
    ensures
        !registry(p).contains("raw-shell"@),
{
    action_texts();
    if registry(p).contains("raw-shell"@) {
        let i = choose|i: int| 0 <= i < registry(p).len() && registry(p)[i] == "raw-shell"@;
        assert(0 <= i < 28);
    }
}

/// Exactly the Codex voice actions report their execution result, and each of
/// them has a success message.
pub proof fn reported_actions_have_messages(a: Seq<char>)
    ensures
        reports_result_spec(a) == (success_message_spec(a) is Some),
{
    action_texts();
    if reports_result_spec(a) {
        let i = choose|i: int| 0 <= i < codex_action_list().len() && codex_action_list()[i] == a;
        assert(0 <= i < 4);
    }
}

/// Each success message of a Codex voice action credits the Host with
/// sending the shortcut and says that the resulting state is not confirmed.
pub proof fn success_messages_do_not_claim_state(a: Seq<char>)
    ensures
        success_message_spec(a) matches Some(m) ==> crate::host::contains_text(m, "Host"@)
            && crate::host::contains_text(m, "not confirmed"@),
{
    reveal_strlit("Host");
    reveal_strlit("not confirmed");
    reveal_strlit("The Host dispatched Codex's configured voice hotkey. Voice session status is not confirmed.");
    assert("The Host dispatched Codex's configured voice hotkey. Voice session status is not confirmed."@.subrange(4int, 4int + "Host"@.len()) =~= "Host"@);
    assert("The Host dispatched Codex's configured voice hotkey. Voice session status is not confirmed."@.subrange(77int, 77int + "not confirmed"@.len()) =~= "not confirmed"@);
    reveal_strlit("The Host sent Codex's effective foreground Voice Chat shortcut while Codex was foreground. Voice session status is not confirmed.");
    assert("The Host sent Codex's effective foreground Voice Chat shortcut while Codex was foreground. Voice session status is not confirmed."@.subrange(4int, 4int + "Host"@.len()) =~= "Host"@);
    assert("The Host sent Codex's effective foreground Voice Chat shortcut while Codex was foreground. Voice session status is not confirmed."@.subrange(115int, 115int + "not confirmed"@.len()) =~= "not confirmed"@);
    reveal_strlit("The Host sent Codex's configured End Voice Chat shortcut while Codex was foreground. Voice session status is not confirmed.");
    assert("The Host sent Codex's configured End Voice Chat shortcut while Codex was foreground. Voice session status is not confirmed."@.subrange(4int, 4int + "Host"@.len()) =~= "Host"@);
    assert("The Host sent Codex's configured End Voice Chat shortcut while Codex was foreground. Voice session status is not confirmed."@.subrange(109int, 109int + "not confirmed"@.len()) =~= "not confirmed"@);
    reveal_strlit("The Host sent Codex's configured microphone shortcut while Codex was foreground. Microphone state is not confirmed.");
    assert("The Host sent Codex's configured microphone shortcut while Codex was foreground. Microphone state is not confirmed."@.subrange(4int, 4int + "Host"@.len()) =~= "Host"@);
    assert("The Host sent Codex's configured microphone shortcut while Codex was foreground. Microphone state is not confirmed."@.subrange(101int, 101int + "not confirmed"@.len()) =~= "not confirmed"@);
}

/// Every registered action has a capability whose state is one of the states
/// of the host contract.
pub proof fn capability_states_are_known(p: Platform, probes: CodexProbes, a: Seq<char>)
    requires
        registry(p).contains(a),
    ensures
        capability_state_list().contains(platform_capability_spec(p, probes, a).state),
{
    action_texts();
    let s = platform_capability_spec(p, probes, a).state;
    let i = choose|i: int| 0 <= i < registry(p).len() && registry(p)[i] == a;
    if s == "supported"@ {
        assert(capability_state_list()[0] == s);
    } else if s == "downgraded"@ {
        assert(capability_state_list()[1] == s);
    } else if s == "deferred"@ {
        assert(capability_state_list()[2] == s);
    } else if s == "hidden"@ {
        assert(capability_state_list()[3] == s);
    } else {
        assert(s == "unavailable"@);
        assert(capability_state_list()[4] == s);
    }
}

/// A remembered binding is served for its archive and command exactly while
/// the archive keeps the fingerprint it was read with; a changed archive
/// misses the cache.
pub proof fn cached_binding_follows_the_archive(
    before: BindingCache,
    after: BindingCache,
    archive: Seq<char>,
    command: Seq<char>,
    stored: ArchiveFingerprint,
    current: ArchiveFingerprint,
    outcome: Result<Seq<char>, MetadataErrorView>,
)
    requires
        after.view_entries() == before.view_entries().insert((archive, command), (stored, outcome)),
    ensures
        after.view_entries().dom().contains((archive, command)),
        (after.view_entries()[(archive, command)].0 == current) <==> current == stored,
        after.view_entries()[(archive, command)].1 == outcome,
{
}

/// Recording a press of a pointer button makes a second press of it a held
/// one, which the backend drops; recording its release frees it again.
pub proof fn press_is_held_until_released(
    s0: ClientInputState,
    s1: ClientInputState,
    s2: ClientInputState,
    button: String,
)
    requires
        s1.buttons().to_set() == s0.buttons().to_set().insert(button@),
        s2.buttons().to_set() == s1.buttons().to_set().remove(button@),
    ensures
        s1.is_held_spec(BackendEffect::PointerButton { button, down: true }),
        !s2.is_held_spec(BackendEffect::PointerButton { button, down: true }),
        !s0.is_held_spec(BackendEffect::PointerButton { button, down: false }),
{
    assert(s1.buttons().to_set().contains(button@));
    assert(!s2.buttons().to_set().contains(button@));
}

/// Naming a client changes neither its connection time nor its input count,
/// and counting its input keeps its name.
pub proof fn client_identity_survives_input(
    c0: Connections,
    c1: Connections,
    c2: Connections,
    id: Seq<char>,
    name: Seq<char>,
    now: u64,
)
    requires
        c0.view_clients().dom().contains(id),
        client_name(name).len() > 0,
        c1.view_clients() == c0.view_clients().insert(id, ClientView { name: client_name(name), ..c0.view_clients()[id] }),
        c2.view_clients() == c1.view_clients().insert(
            id,
            ClientView {
                input_messages: (c1.view_clients()[id].input_messages + 1) as u64,
                last_input_at: Some(now),
                ..c1.view_clients()[id]
            },
        ),
    ensures
        c2.view_clients()[id].name == client_name(name),
        c2.view_clients()[id].connected_at == c0.view_clients()[id].connected_at,
        c2.view_clients()[id].input_messages == (c0.view_clients()[id].input_messages + 1) as u64,
        c2.view_clients()[id].last_input_at == Some(now),
{
}

/// Every key code that names a letter key selects the lower-case letter, and
/// every digit key its digit.
pub proof fn letter_and_digit_keys_type_themselves(c: char)
    ensures
        'A' <= c <= 'Z' ==> key_for_code_spec("Key"@.push(c)) == Some(HostKey::Unicode(ascii_lower(c))),
        '0' <= c <= '9' ==> key_for_code_spec("Digit"@.push(c)) == Some(HostKey::Unicode(c)),
{
    reveal_strlit("Key");
    reveal_strlit("Digit");
    let k = "Key"@.push(c);
    let d = "Digit"@.push(c);
    assert(k.subrange(0, 3) =~= "Key"@);
    assert(k.subrange(3, 4) =~= seq![c]);
    assert(d.subrange(0, 5) =~= "Digit"@);
    assert(d.subrange(5, 6) =~= seq![c]);
    if '0' <= c <= '9' {
        assert(k.subrange(0, 3) == "Key"@);
        assert(single_ascii(k.subrange(3, 4)) == Some(c));
        assert(code_letter(k) is None);
        assert(after_prefix(d, "Key"@) is None) by {
            assert(d[0] == 'D');
        }
    }
}

/// Only actions that the host advertises as runnable may execute: an action
/// passes validation exactly when the platform registers it and its current
/// capability is runnable, and the backend runs a command only when it passed.
pub proof fn only_advertised_runnable_actions_run(p: Platform, probes: CodexProbes, a: Seq<char>)
    ensures
        validate_spec(p, probes, a) is Ok <==> (registry(p).contains(a) && runnable_state(
            platform_capability_spec(p, probes, a).state,
        )),
        forall|action: String, r: EffectStep|
            step_spec(p, probes, BackendEffect::Cmd { action }, r) && r is Run ==> validate_spec(p, probes, action@) is Ok,
{
}

} // verus!
