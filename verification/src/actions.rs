//! The desktop action registry, per-platform capabilities and the commands
//! that implement each action.

use vstd::prelude::*;
use crate::codex::{self, CodexProbes, opt_string, opt_text};
use crate::text::str_eq;

verus! {

/// What a capability says, as plain texts.
pub struct CapabilityView {
    pub state: Seq<char>,
    pub note: Option<Seq<char>>,
    pub scope: Option<Seq<char>>,
    pub reason_code: Option<Seq<char>>,
    pub binding: Option<Seq<char>>,
}

/// Whether, and how, a platform offers a desktop action.
#[derive(Debug, Clone)]
pub struct CapabilityStatus {
    pub state: &'static str,
    pub note: Option<String>,
    pub scope: Option<&'static str>,
    pub reason_code: Option<&'static str>,
    pub binding: Option<String>,
}

impl View for CapabilityStatus {
    type V = CapabilityView;

    open spec fn view(&self) -> CapabilityView {
        CapabilityView {
            state: self.state@,
            note: opt_string(self.note),
            scope: opt_text(self.scope),
            reason_code: opt_text(self.reason_code),
            binding: opt_string(self.binding),
        }
    }
}

/// A capability with a state and an optional note, and no scope.
pub open spec fn plain(state: Seq<char>, note: Option<Seq<char>>) -> CapabilityView {
    CapabilityView { state, note, scope: None, reason_code: None, binding: None }
}

/// A capability with a scope and a note.
pub open spec fn scoped(state: Seq<char>, note: Seq<char>, scope: Seq<char>, reason_code: Option<Seq<char>>) -> CapabilityView {
    CapabilityView { state, note: Some(note), scope: Some(scope), reason_code, binding: None }
}

/// Whether a capability state lets an action run.
pub open spec fn runnable_state(state: Seq<char>) -> bool {
    state == "supported"@ || state == "deferred"@
}

impl CapabilityStatus {
    /// Whether the action may run: its state is `supported` or `deferred`.
    pub fn is_runnable(&self) -> (r: bool)
        ensures
            r == runnable_state(self.state@),
    {
        str_eq(self.state, "supported") || str_eq(self.state, "deferred")
    }
}

/// The view of an optional text that is not static.
pub open spec fn opt_str<'a>(o: Option<&'a str>) -> Option<Seq<char>> {
    match o {
        Some(s) => Some(s@),
        None => None,
    }
}

/// A capability with a state and an optional note.
pub fn capability(state: &'static str, note: Option<&str>) -> (c: CapabilityStatus)
    ensures
        c@ == plain(state@, opt_str(note)),
{
    let note = match note {
        Some(n) => Some(String::from_str(n)),
        None => None,
    };
    CapabilityStatus { state, note, scope: None, reason_code: None, binding: None }
}

/// A capability that names the scope in which it holds.
pub fn scoped_capability(
    state: &'static str,
    note: &str,
    scope: &'static str,
    reason_code: Option<&'static str>,
) -> (c: CapabilityStatus)
    ensures
        c@ == scoped(state@, note@, scope@, opt_text(reason_code)),
{
    CapabilityStatus {
        state,
        note: Some(String::from_str(note)),
        scope: Some(scope),
        reason_code,
        binding: None,
    }
}

/// The states a capability can have.
pub open spec fn capability_state_list() -> Seq<Seq<char>> {
    seq!["supported"@, "downgraded"@, "deferred"@, "hidden"@, "unavailable"@]
}

/// The actions that the mobile interface shows.
pub open spec fn ui_action_list() -> Seq<Seq<char>> {
    seq![
        "screenrecord.screen"@, "screenrecord.window"@, "screenrecord.screen.audio"@,
        "screenrecord.screen.webcam"@, "screenrecord.stop"@, "open_recordings_folder"@,
        "screenshot"@, "close_window"@, "app_launcher"@, "lock_screen"@, "media.prev"@,
        "media.play_pause"@, "media.next"@, "media.volume_down"@, "media.mute"@,
        "media.volume_up"@,
    ]
}

/// The Codex voice actions.
pub open spec fn codex_action_list() -> Seq<Seq<char>> {
    seq![
        "codex.voice.start"@, "codex.voice.start_foreground"@, "codex.voice.end"@,
        "codex.voice.toggle_microphone"@,
    ]
}

/// The actions that every desktop host registers.
pub open spec fn action_id_list() -> Seq<Seq<char>> {
    ui_action_list() + codex_action_list()
}

/// The Omarchy workspace actions that the Linux host adds.
pub open spec fn omarchy_action_list() -> Seq<Seq<char>> {
    seq![
        "workspace.previous"@, "workspace.former"@, "workspace.next"@, "workspace.1"@,
        "workspace.2"@, "workspace.3"@, "workspace.4"@, "workspace.5"@,
    ]
}

/// The views of a sequence of static texts.
pub open spec fn static_texts(v: Seq<&'static str>) -> Seq<Seq<char>> {
    Seq::new(v.len(), |i: int| v[i]@)
}

/// The actions that the mobile interface shows.
pub fn ui_action_ids() -> (v: Vec<&'static str>)
    ensures
        static_texts(v@) == ui_action_list(),
{
    let mut v: Vec<&'static str> = Vec::new();
    v.push("screenrecord.screen");
    v.push("screenrecord.window");
    v.push("screenrecord.screen.audio");
    v.push("screenrecord.screen.webcam");
    v.push("screenrecord.stop");
    v.push("open_recordings_folder");
    v.push("screenshot");
    v.push("close_window");
    v.push("app_launcher");
    v.push("lock_screen");
    v.push("media.prev");
    v.push("media.play_pause");
    v.push("media.next");
    v.push("media.volume_down");
    v.push("media.mute");
    v.push("media.volume_up");
    assert(static_texts(v@) =~= ui_action_list());
    v
}

/// The states a capability can have.
pub fn capability_states() -> (v: Vec<&'static str>)
    ensures
        static_texts(v@) == capability_state_list(),
{
    let mut v: Vec<&'static str> = Vec::new();
    v.push("supported");
    v.push("downgraded");
    v.push("deferred");
    v.push("hidden");
    v.push("unavailable");
    assert(static_texts(v@) =~= capability_state_list());
    v
}

/// The actions that every desktop host registers.
pub fn action_ids() -> (v: Vec<&'static str>)
    ensures
        static_texts(v@) == action_id_list(),
{
    let mut v = ui_action_ids();
    v.push("codex.voice.start");
    v.push("codex.voice.start_foreground");
    v.push("codex.voice.end");
    v.push("codex.voice.toggle_microphone");
    assert(static_texts(v@) =~= action_id_list());
    v
}

/// The Omarchy workspace actions.
pub fn omarchy_action_ids() -> (v: Vec<&'static str>)
    ensures
        static_texts(v@) == omarchy_action_list(),
{
    let mut v: Vec<&'static str> = Vec::new();
    v.push("workspace.previous");
    v.push("workspace.former");
    v.push("workspace.next");
    v.push("workspace.1");
    v.push("workspace.2");
    v.push("workspace.3");
    v.push("workspace.4");
    v.push("workspace.5");
    assert(static_texts(v@) =~= omarchy_action_list());
    v
}

/// Whether an action reports its outcome back to the client.
pub open spec fn reports_result_spec(action: Seq<char>) -> bool {
    codex_action_list().contains(action)
}

/// Whether the host answers an action with an `actionResult` message.
pub fn reports_execution_result(action: &str) -> (r: bool)
    ensures
        r == reports_result_spec(action@),
{
    let r = str_eq(action, "codex.voice.start") || str_eq(action, "codex.voice.start_foreground")
        || str_eq(action, "codex.voice.end") || str_eq(action, "codex.voice.toggle_microphone");
    proof {
        if reports_result_spec(action@) {
            let i = choose|i: int| 0 <= i < codex_action_list().len() && codex_action_list()[i] == action@;
            assert(0 <= i < 4);
        }
        if r {
            assert(codex_action_list()[0] == "codex.voice.start"@);
            assert(codex_action_list()[1] == "codex.voice.start_foreground"@);
            assert(codex_action_list()[2] == "codex.voice.end"@);
            assert(codex_action_list()[3] == "codex.voice.toggle_microphone"@);
        }
    }
    r
}

/// The message sent when a reported action has been dispatched.
pub open spec fn success_message_spec(action: Seq<char>) -> Option<Seq<char>> {
    if action == "codex.voice.start"@ {
        Some("The Host dispatched Codex's configured voice hotkey. Voice session status is not confirmed."@)
    } else if action == "codex.voice.start_foreground"@ {
        Some("The Host sent Codex's effective foreground Voice Chat shortcut while Codex was foreground. Voice session status is not confirmed."@)
    } else if action == "codex.voice.end"@ {
        Some("The Host sent Codex's configured End Voice Chat shortcut while Codex was foreground. Voice session status is not confirmed."@)
    } else if action == "codex.voice.toggle_microphone"@ {
        Some("The Host sent Codex's configured microphone shortcut while Codex was foreground. Microphone state is not confirmed."@)
    } else {
        None
    }
}

/// The text that tells the client what a dispatched action did, and did not, confirm.
pub fn execution_success_message(action: &str) -> (r: Option<&'static str>)
    ensures
        opt_text(r) == success_message_spec(action@),
{
    if str_eq(action, "codex.voice.start") {
        Some("The Host dispatched Codex's configured voice hotkey. Voice session status is not confirmed.")
    } else if str_eq(action, "codex.voice.start_foreground") {
        Some("The Host sent Codex's effective foreground Voice Chat shortcut while Codex was foreground. Voice session status is not confirmed.")
    } else if str_eq(action, "codex.voice.end") {
        Some("The Host sent Codex's configured End Voice Chat shortcut while Codex was foreground. Voice session status is not confirmed.")
    } else if str_eq(action, "codex.voice.toggle_microphone") {
        Some("The Host sent Codex's configured microphone shortcut while Codex was foreground. Microphone state is not confirmed.")
    } else {
        None
    }
}

/// The shell command of each Linux action.
pub open spec fn linux_command_spec(action: Seq<char>) -> Option<Seq<char>> {
    if action == "screenshot"@ {
        Some(r#"omarchy capture screenshot"#@)
    } else if action == "screenrecord.screen"@ {
        Some(r#"mkdir -p "$HOME/Videos/TapPad"; filename="$HOME/Videos/TapPad/screenrecording-$(date +'%Y-%m-%d_%H-%M-%S').mp4"; echo "$filename" > /tmp/omarchy-screenrecord-filename; gpu-screen-recorder -w "$(hyprctl monitors -j | jq -r '.[] | select(.focused == true) | .name')" -k auto -f 60 -fm cfr -fallback-cpu-encoding yes -o "$filename" & pkill -RTMIN+8 waybar"#@)
    } else if action == "screenrecord.window"@ {
        Some(r#"mkdir -p "$HOME/Videos/TapPad"; filename="$HOME/Videos/TapPad/screenrecording-$(date +'%Y-%m-%d_%H-%M-%S').mp4"; echo "$filename" > /tmp/omarchy-screenrecord-filename; region=$(hyprctl activewindow -j | jq -r '"\(.at[0]),\(.at[1]) \(.size[0])x\(.size[1])"'); gpu-screen-recorder -w "$region" -k auto -f 60 -fm cfr -fallback-cpu-encoding yes -o "$filename" & pkill -RTMIN+8 waybar"#@)
    } else if action == "screenrecord.screen.audio"@ {
        Some(r#"mkdir -p "$HOME/Videos/TapPad"; filename="$HOME/Videos/TapPad/screenrecording-$(date +'%Y-%m-%d_%H-%M-%S').mp4"; echo "$filename" > /tmp/omarchy-screenrecord-filename; gpu-screen-recorder -w "$(hyprctl monitors -j | jq -r '.[] | select(.focused == true) | .name')" -k auto -f 60 -fm cfr -fallback-cpu-encoding yes -a "default_output|default_input" -ac aac -o "$filename" & pkill -RTMIN+8 waybar"#@)
    } else if action == "screenrecord.screen.webcam"@ {
        Some(r#"mkdir -p "$HOME/Videos/TapPad"; filename="$HOME/Videos/TapPad/screenrecording-$(date +'%Y-%m-%d_%H-%M-%S').mp4"; echo "$filename" > /tmp/omarchy-screenrecord-filename; device=$(v4l2-ctl --list-devices 2>/dev/null | grep -m1 "^\s*/dev/video" | tr -d '\t'); [[ -z $device ]] && notify-send "No webcam found" -u critical -t 3000 && exit 1; busy=$(lsof "$device" 2>/dev/null | tail -n +2 | awk '{print $1}' | head -1); [[ -n $busy ]] && notify-send "Webcam in use by $busy" -u critical -t 5000 && exit 1; scale=$(hyprctl monitors -j | jq -r '.[] | select(.focused == true) | .scale'); target=$(awk "BEGIN {printf \"%.0f\", 360 * $scale}"); ffplay -f v4l2 -framerate 30 "$device" -vf "crop=iw/2:ih,scale=${target}:-1" -window_title "WebcamOverlay" -noborder -fflags nobuffer -flags low_delay -probesize 32 -analyzeduration 0 -loglevel quiet & sleep 2; gpu-screen-recorder -w "$(hyprctl monitors -j | jq -r '.[] | select(.focused == true) | .name')" -k auto -f 60 -fm cfr -fallback-cpu-encoding yes -o "$filename" & pkill -RTMIN+8 waybar"#@)
    } else if action == "screenrecord.stop"@ {
        Some(r#"omarchy capture screenrecording --stop-recording"#@)
    } else if action == "open_recordings_folder"@ {
        Some(r#"mkdir -p "$HOME/Videos/TapPad" && xdg-open "$HOME/Videos/TapPad""#@)
    } else if action == "close_window"@ {
        Some(r#"hyprctl eval 'hl.dispatch(hl.dsp.window.close())'"#@)
    } else if action == "app_launcher"@ {
        Some(r#"omarchy-menu toggle apps"#@)
    } else if action == "lock_screen"@ {
        Some(r#"omarchy system lock"#@)
    } else if action == "media.play_pause"@ {
        Some(r#"playerctl play-pause"#@)
    } else if action == "media.next"@ {
        Some(r#"playerctl next"#@)
    } else if action == "media.prev"@ {
        Some(r#"playerctl previous"#@)
    } else if action == "media.volume_up"@ {
        Some(r#"omarchy audio output volume raise"#@)
    } else if action == "media.volume_down"@ {
        Some(r#"omarchy audio output volume lower"#@)
    } else if action == "media.mute"@ {
        Some(r#"omarchy audio output volume mute-toggle"#@)
    } else if action == "workspace.previous"@ {
        Some(r#"hyprctl eval 'hl.dispatch(hl.dsp.focus({ workspace = "e-1" }))'"#@)
    } else if action == "workspace.former"@ {
        Some(r#"hyprctl eval 'hl.dispatch(hl.dsp.focus({ workspace = "previous" }))'"#@)
    } else if action == "workspace.next"@ {
        Some(r#"hyprctl eval 'hl.dispatch(hl.dsp.focus({ workspace = "e+1" }))'"#@)
    } else if action == "workspace.1"@ {
        Some(r#"hyprctl eval 'hl.dispatch(hl.dsp.focus({ workspace = "1" }))'"#@)
    } else if action == "workspace.2"@ {
        Some(r#"hyprctl eval 'hl.dispatch(hl.dsp.focus({ workspace = "2" }))'"#@)
    } else if action == "workspace.3"@ {
        Some(r#"hyprctl eval 'hl.dispatch(hl.dsp.focus({ workspace = "3" }))'"#@)
    } else if action == "workspace.4"@ {
        Some(r#"hyprctl eval 'hl.dispatch(hl.dsp.focus({ workspace = "4" }))'"#@)
    } else if action == "workspace.5"@ {
        Some(r#"hyprctl eval 'hl.dispatch(hl.dsp.focus({ workspace = "5" }))'"#@)
    } else {
        None
    }
}

/// The shell command that runs an action on Linux/Omarchy, if it has one.
pub fn linux_command(action: &str) -> (r: Option<&'static str>)
    ensures
        opt_text(r) == linux_command_spec(action@),
{
    if str_eq(action, "screenshot") {
        Some(r#"omarchy capture screenshot"#)
    } else if str_eq(action, "screenrecord.screen") {
        Some(r#"mkdir -p "$HOME/Videos/TapPad"; filename="$HOME/Videos/TapPad/screenrecording-$(date +'%Y-%m-%d_%H-%M-%S').mp4"; echo "$filename" > /tmp/omarchy-screenrecord-filename; gpu-screen-recorder -w "$(hyprctl monitors -j | jq -r '.[] | select(.focused == true) | .name')" -k auto -f 60 -fm cfr -fallback-cpu-encoding yes -o "$filename" & pkill -RTMIN+8 waybar"#)
    } else if str_eq(action, "screenrecord.window") {
        Some(r#"mkdir -p "$HOME/Videos/TapPad"; filename="$HOME/Videos/TapPad/screenrecording-$(date +'%Y-%m-%d_%H-%M-%S').mp4"; echo "$filename" > /tmp/omarchy-screenrecord-filename; region=$(hyprctl activewindow -j | jq -r '"\(.at[0]),\(.at[1]) \(.size[0])x\(.size[1])"'); gpu-screen-recorder -w "$region" -k auto -f 60 -fm cfr -fallback-cpu-encoding yes -o "$filename" & pkill -RTMIN+8 waybar"#)
    } else if str_eq(action, "screenrecord.screen.audio") {
        Some(r#"mkdir -p "$HOME/Videos/TapPad"; filename="$HOME/Videos/TapPad/screenrecording-$(date +'%Y-%m-%d_%H-%M-%S').mp4"; echo "$filename" > /tmp/omarchy-screenrecord-filename; gpu-screen-recorder -w "$(hyprctl monitors -j | jq -r '.[] | select(.focused == true) | .name')" -k auto -f 60 -fm cfr -fallback-cpu-encoding yes -a "default_output|default_input" -ac aac -o "$filename" & pkill -RTMIN+8 waybar"#)
    } else if str_eq(action, "screenrecord.screen.webcam") {
        Some(r#"mkdir -p "$HOME/Videos/TapPad"; filename="$HOME/Videos/TapPad/screenrecording-$(date +'%Y-%m-%d_%H-%M-%S').mp4"; echo "$filename" > /tmp/omarchy-screenrecord-filename; device=$(v4l2-ctl --list-devices 2>/dev/null | grep -m1 "^\s*/dev/video" | tr -d '\t'); [[ -z $device ]] && notify-send "No webcam found" -u critical -t 3000 && exit 1; busy=$(lsof "$device" 2>/dev/null | tail -n +2 | awk '{print $1}' | head -1); [[ -n $busy ]] && notify-send "Webcam in use by $busy" -u critical -t 5000 && exit 1; scale=$(hyprctl monitors -j | jq -r '.[] | select(.focused == true) | .scale'); target=$(awk "BEGIN {printf \"%.0f\", 360 * $scale}"); ffplay -f v4l2 -framerate 30 "$device" -vf "crop=iw/2:ih,scale=${target}:-1" -window_title "WebcamOverlay" -noborder -fflags nobuffer -flags low_delay -probesize 32 -analyzeduration 0 -loglevel quiet & sleep 2; gpu-screen-recorder -w "$(hyprctl monitors -j | jq -r '.[] | select(.focused == true) | .name')" -k auto -f 60 -fm cfr -fallback-cpu-encoding yes -o "$filename" & pkill -RTMIN+8 waybar"#)
    } else if str_eq(action, "screenrecord.stop") {
        Some(r#"omarchy capture screenrecording --stop-recording"#)
    } else if str_eq(action, "open_recordings_folder") {
        Some(r#"mkdir -p "$HOME/Videos/TapPad" && xdg-open "$HOME/Videos/TapPad""#)
    } else if str_eq(action, "close_window") {
        Some(r#"hyprctl eval 'hl.dispatch(hl.dsp.window.close())'"#)
    } else if str_eq(action, "app_launcher") {
        Some(r#"omarchy-menu toggle apps"#)
    } else if str_eq(action, "lock_screen") {
        Some(r#"omarchy system lock"#)
    } else if str_eq(action, "media.play_pause") {
        Some(r#"playerctl play-pause"#)
    } else if str_eq(action, "media.next") {
        Some(r#"playerctl next"#)
    } else if str_eq(action, "media.prev") {
        Some(r#"playerctl previous"#)
    } else if str_eq(action, "media.volume_up") {
        Some(r#"omarchy audio output volume raise"#)
    } else if str_eq(action, "media.volume_down") {
        Some(r#"omarchy audio output volume lower"#)
    } else if str_eq(action, "media.mute") {
        Some(r#"omarchy audio output volume mute-toggle"#)
    } else if str_eq(action, "workspace.previous") {
        Some(r#"hyprctl eval 'hl.dispatch(hl.dsp.focus({ workspace = "e-1" }))'"#)
    } else if str_eq(action, "workspace.former") {
        Some(r#"hyprctl eval 'hl.dispatch(hl.dsp.focus({ workspace = "previous" }))'"#)
    } else if str_eq(action, "workspace.next") {
        Some(r#"hyprctl eval 'hl.dispatch(hl.dsp.focus({ workspace = "e+1" }))'"#)
    } else if str_eq(action, "workspace.1") {
        Some(r#"hyprctl eval 'hl.dispatch(hl.dsp.focus({ workspace = "1" }))'"#)
    } else if str_eq(action, "workspace.2") {
        Some(r#"hyprctl eval 'hl.dispatch(hl.dsp.focus({ workspace = "2" }))'"#)
    } else if str_eq(action, "workspace.3") {
        Some(r#"hyprctl eval 'hl.dispatch(hl.dsp.focus({ workspace = "3" }))'"#)
    } else if str_eq(action, "workspace.4") {
        Some(r#"hyprctl eval 'hl.dispatch(hl.dsp.focus({ workspace = "4" }))'"#)
    } else if str_eq(action, "workspace.5") {
        Some(r#"hyprctl eval 'hl.dispatch(hl.dsp.focus({ workspace = "5" }))'"#)
    } else {
        None
    }
}

/// The shell command of each macOS action.
pub open spec fn macos_command_spec(action: Seq<char>) -> Option<Seq<char>> {
    if action == "open_recordings_folder"@ {
        Some(r#"mkdir -p "$HOME/Movies/TapPad" && open "$HOME/Movies/TapPad""#@)
    } else if action == "screenshot"@ {
        Some(r#"mkdir -p "$HOME/Movies/TapPad" && screencapture -x "$HOME/Movies/TapPad/screenshot-$(date +'%Y%m%d-%H%M%S')-$(uuidgen).png""#@)
    } else if action == "close_window"@ {
        Some(r#"osascript -e 'tell application "System Events" to keystroke "w" using {command down}'"#@)
    } else if action == "app_launcher"@ {
        Some(r#"open -a Launchpad"#@)
    } else if action == "lock_screen"@ {
        Some(r#"pmset displaysleepnow"#@)
    } else if action == "media.prev"@ {
        Some(r#"osascript -e 'tell application "System Events" to key code 123 using command down'"#@)
    } else if action == "media.play_pause"@ {
        Some(r#"osascript -e 'tell application "System Events" to key code 49'"#@)
    } else if action == "media.next"@ {
        Some(r#"osascript -e 'tell application "System Events" to key code 124 using command down'"#@)
    } else if action == "media.volume_down"@ {
        Some(r#"osascript -e 'set volume output volume ((output volume of (get volume settings)) - 5)'"#@)
    } else if action == "media.mute"@ {
        Some(r#"osascript -e 'set volume output muted not (output muted of (get volume settings))'"#@)
    } else if action == "media.volume_up"@ {
        Some(r#"osascript -e 'set volume output volume ((output volume of (get volume settings)) + 5)'"#@)
    } else {
        None
    }
}

/// The shell command that runs an action on macOS, if it has one.
pub fn macos_command(action: &str) -> (r: Option<&'static str>)
    ensures
        opt_text(r) == macos_command_spec(action@),
{
    if str_eq(action, "open_recordings_folder") {
        Some(r#"mkdir -p "$HOME/Movies/TapPad" && open "$HOME/Movies/TapPad""#)
    } else if str_eq(action, "screenshot") {
        Some(r#"mkdir -p "$HOME/Movies/TapPad" && screencapture -x "$HOME/Movies/TapPad/screenshot-$(date +'%Y%m%d-%H%M%S')-$(uuidgen).png""#)
    } else if str_eq(action, "close_window") {
        Some(r#"osascript -e 'tell application "System Events" to keystroke "w" using {command down}'"#)
    } else if str_eq(action, "app_launcher") {
        Some(r#"open -a Launchpad"#)
    } else if str_eq(action, "lock_screen") {
        Some(r#"pmset displaysleepnow"#)
    } else if str_eq(action, "media.prev") {
        Some(r#"osascript -e 'tell application "System Events" to key code 123 using command down'"#)
    } else if str_eq(action, "media.play_pause") {
        Some(r#"osascript -e 'tell application "System Events" to key code 49'"#)
    } else if str_eq(action, "media.next") {
        Some(r#"osascript -e 'tell application "System Events" to key code 124 using command down'"#)
    } else if str_eq(action, "media.volume_down") {
        Some(r#"osascript -e 'set volume output volume ((output volume of (get volume settings)) - 5)'"#)
    } else if str_eq(action, "media.mute") {
        Some(r#"osascript -e 'set volume output muted not (output muted of (get volume settings))'"#)
    } else if str_eq(action, "media.volume_up") {
        Some(r#"osascript -e 'set volume output volume ((output volume of (get volume settings)) + 5)'"#)
    } else {
        None
    }
}

/// The desktop platforms that a host can run on.
#[derive(Debug, Clone, Copy, PartialEq, Eq)]
pub enum Platform {
    Linux,
    MacOs,
    Windows,
    Unsupported,
}

/// The name of a platform in messages.
pub open spec fn platform_name_spec(p: Platform) -> Seq<char> {
    match p {
        Platform::Linux => "Linux"@,
        Platform::MacOs => "macOS"@,
        Platform::Windows => "Windows"@,
        Platform::Unsupported => "Unsupported platform"@,
    }
}

/// The name of a platform in messages.
pub fn platform_name(p: Platform) -> (r: &'static str)
    ensures
        r@ == platform_name_spec(p),
{
    match p {
        Platform::Linux => "Linux",
        Platform::MacOs => "macOS",
        Platform::Windows => "Windows",
        Platform::Unsupported => "Unsupported platform",
    }
}

/// The actions that a platform registers beyond the shared ones.
pub open spec fn additional_action_list(p: Platform) -> Seq<Seq<char>> {
    match p {
        Platform::Linux => omarchy_action_list(),
        _ => seq![],
    }
}

/// Every action that a platform registers, in the order in which it is advertised.
pub open spec fn registry(p: Platform) -> Seq<Seq<char>> {
    action_id_list() + additional_action_list(p)
}

/// The actions that a platform registers beyond the shared ones.
pub fn additional_action_ids(p: Platform) -> (v: Vec<&'static str>)
    ensures
        static_texts(v@) == additional_action_list(p),
{
    match p {
        Platform::Linux => omarchy_action_ids(),
        _ => {
            let v: Vec<&'static str> = Vec::new();
            assert(static_texts(v@) =~= seq![]);
            v
        },
    }
}

/// Whether a Codex voice action is named, by its five possible texts.
pub open spec fn is_codex_text(a: Seq<char>) -> bool {
    a == "codex.voice.start"@ || a == "codex.voice.start_foreground"@ || a == "codex.voice.end"@
        || a == "codex.voice.toggle_microphone"@
}

/// The capability of a Codex voice action on a platform where it was not verified.
pub open spec fn codex_not_verified() -> CapabilityView {
    scoped(
        "unavailable"@,
        "Codex voice shortcut control has only been verified for the Linux desktop host."@,
        "unknown"@,
        Some("codex_platform_not_verified"@),
    )
}

/// Whether an action records the screen.
pub open spec fn is_recording_text(a: Seq<char>) -> bool {
    a == "screenrecord.screen"@ || a == "screenrecord.window"@ || a == "screenrecord.screen.audio"@
        || a == "screenrecord.screen.webcam"@ || a == "screenrecord.stop"@
}

/// The capability of each action on macOS.
pub open spec fn macos_capability_spec(a: Seq<char>) -> CapabilityView {
    if is_codex_text(a) {
        codex_not_verified()
    } else if is_recording_text(a) {
        plain("hidden"@, None)
    } else {
        plain("supported"@, None)
    }
}

/// The capability of each action on Windows.
pub open spec fn windows_capability_spec(a: Seq<char>) -> CapabilityView {
    if is_codex_text(a) {
        codex_not_verified()
    } else if a == "screenrecord.screen"@ {
        plain("downgraded"@, Some("Windows beta does not save recordings into Videos\\TapPad yet. Use Xbox Game Bar capture on the PC for now."@))
    } else if a == "screenrecord.window"@ {
        plain("downgraded"@, Some("Windows beta does not ship dedicated active-window capture yet. Use Xbox Game Bar on the PC for now."@))
    } else if a == "screenrecord.screen.audio"@ {
        plain("downgraded"@, Some("Windows beta does not ship TapPad-managed desktop-plus-mic capture yet. Use Xbox Game Bar audio capture on the PC for now."@))
    } else if a == "screenrecord.stop"@ {
        plain("downgraded"@, Some("Stop recording from Xbox Game Bar on the PC until TapPad-managed capture lands."@))
    } else if a == "screenrecord.screen.webcam"@ {
        plain("hidden"@, None)
    } else {
        plain("supported"@, None)
    }
}

/// The capability of each action on Linux, given the Codex probes.
pub open spec fn linux_capability_spec(a: Seq<char>, probes: CodexProbes) -> CapabilityView {
    if codex::codex_capability_spec(a, probes) is Some {
        codex::codex_capability_spec(a, probes)->0
    } else if a == "screenrecord.screen.webcam"@ {
        plain("deferred"@, Some("Visible on Linux/Omarchy when webcam tooling and a free video device are available."@))
    } else {
        plain("supported"@, None)
    }
}

/// The capability of every action on a platform without a desktop adapter.
pub open spec fn unsupported_capability_spec() -> CapabilityView {
    plain("deferred"@, Some("The unified Tauri host ships for Linux, macOS, and Windows."@))
}

/// The capability of an action on a platform.
pub open spec fn platform_capability_spec(p: Platform, probes: CodexProbes, a: Seq<char>) -> CapabilityView {
    match p {
        Platform::Linux => linux_capability_spec(a, probes),
        Platform::MacOs => macos_capability_spec(a),
        Platform::Windows => windows_capability_spec(a),
        Platform::Unsupported => unsupported_capability_spec(),
    }
}

fn codex_text(a: &str) -> (r: bool)
    ensures
        r == is_codex_text(a@),
{
    str_eq(a, "codex.voice.start") || str_eq(a, "codex.voice.start_foreground") || str_eq(a, "codex.voice.end")
        || str_eq(a, "codex.voice.toggle_microphone")
}

fn codex_not_verified_capability() -> (c: CapabilityStatus)
    ensures
        c@ == codex_not_verified(),
{
    scoped_capability(
        "unavailable",
        "Codex voice shortcut control has only been verified for the Linux desktop host.",
        "unknown",
        Some("codex_platform_not_verified"),
    )
}

/// The capability of an action on macOS: recording is hidden, Codex voice
/// control is not verified, everything else is supported.
pub fn macos_capability(action: &str) -> (c: CapabilityStatus)
    ensures
        c@ == macos_capability_spec(action@),
{
    if codex_text(action) {
        codex_not_verified_capability()
    } else if str_eq(action, "screenrecord.screen") || str_eq(action, "screenrecord.window")
        || str_eq(action, "screenrecord.screen.audio") || str_eq(action, "screenrecord.screen.webcam")
        || str_eq(action, "screenrecord.stop") {
        capability("hidden", None)
    } else {
        capability("supported", None)
    }
}

/// The capability of an action on Windows.
pub fn windows_capability(action: &str) -> (c: CapabilityStatus)
    ensures
        c@ == windows_capability_spec(action@),
{
    if codex_text(action) {
        codex_not_verified_capability()
    } else if str_eq(action, "screenrecord.screen") {
        capability("downgraded", Some("Windows beta does not save recordings into Videos\\TapPad yet. Use Xbox Game Bar capture on the PC for now."))
    } else if str_eq(action, "screenrecord.window") {
        capability("downgraded", Some("Windows beta does not ship dedicated active-window capture yet. Use Xbox Game Bar on the PC for now."))
    } else if str_eq(action, "screenrecord.screen.audio") {
        capability("downgraded", Some("Windows beta does not ship TapPad-managed desktop-plus-mic capture yet. Use Xbox Game Bar audio capture on the PC for now."))
    } else if str_eq(action, "screenrecord.stop") {
        capability("downgraded", Some("Stop recording from Xbox Game Bar on the PC until TapPad-managed capture lands."))
    } else if str_eq(action, "screenrecord.screen.webcam") {
        capability("hidden", None)
    } else {
        capability("supported", None)
    }
}

/// The capability of an action on Linux: Codex voice actions follow their
/// probes, webcam recording is deferred, everything else is supported.
pub fn linux_capability(action: &str, probes: &CodexProbes) -> (c: CapabilityStatus)
    ensures
        c@ == linux_capability_spec(action@, *probes),
{
    match codex::capability(action, probes) {
        Some(c) => c,
        None => {
            if str_eq(action, "screenrecord.screen.webcam") {
                capability("deferred", Some("Visible on Linux/Omarchy when webcam tooling and a free video device are available."))
            } else {
                capability("supported", None)
            }
        },
    }
}

/// The capability of an action on a platform without a desktop adapter.
pub fn unsupported_capability(action: &str) -> (c: CapabilityStatus)
    ensures
        c@ == unsupported_capability_spec(),
{
    capability("deferred", Some("The unified Tauri host ships for Linux, macOS, and Windows."))
}

/// The capability of an action on a platform.
pub fn platform_capability(p: Platform, probes: &CodexProbes, action: &str) -> (c: CapabilityStatus)
    ensures
        c@ == platform_capability_spec(p, *probes, action@),
{
    match p {
        Platform::Linux => linux_capability(action, probes),
        Platform::MacOs => macos_capability(action),
        Platform::Windows => windows_capability(action),
        Platform::Unsupported => unsupported_capability(action),
    }
}

/// Every registered action of a platform with its capability, in registry order.
pub fn action_capabilities(p: Platform, probes: &CodexProbes) -> (r: Vec<(String, CapabilityStatus)>)
    ensures
        r@.len() == registry(p).len(),
        forall|i: int| 0 <= i < r@.len() ==> r@[i].0@ == registry(p)[i],
        forall|i: int| 0 <= i < r@.len() ==> r@[i].1@ == platform_capability_spec(p, *probes, registry(p)[i]),
{
    let mut ids = action_ids();
    let mut extra = additional_action_ids(p);
    let ghost shared = static_texts(ids@);
    let ghost more = static_texts(extra@);
    ids.append(&mut extra);
    assert(static_texts(ids@) =~= registry(p)) by {
        assert(static_texts(ids@) =~= shared + more);
    }
    let mut r: Vec<(String, CapabilityStatus)> = Vec::new();
    let mut i: usize = 0;
    while i < ids.len()
        invariant
            i <= ids.len(),
            static_texts(ids@) == registry(p),
            r@.len() == i,
            forall|j: int| 0 <= j < i ==> r@[j].0@ == registry(p)[j],
            forall|j: int| 0 <= j < i ==> r@[j].1@ == platform_capability_spec(p, *probes, registry(p)[j]),
        decreases ids.len() - i,
    {
        let action = ids[i];
        assert(action@ == registry(p)[i as int]);
        let c = platform_capability(p, probes, action);
        r.push((String::from_str(action), c));
        i = i + 1;
    }
    r
}

/// How Windows performs an action with synthetic input.
#[derive(Debug, Clone, PartialEq, Eq)]
pub enum WindowsInputAction {
    Chord(Vec<&'static str>),
    Tap(&'static str),
}

/// A Windows input action as texts.
pub enum InputActionView {
    Chord(Seq<Seq<char>>),
    Tap(Seq<char>),
}

/// The view of an optional Windows input action.
pub open spec fn input_action_view(o: Option<WindowsInputAction>) -> Option<InputActionView> {
    match o {
        Some(WindowsInputAction::Chord(keys)) => Some(InputActionView::Chord(static_texts(keys@))),
        Some(WindowsInputAction::Tap(key)) => Some(InputActionView::Tap(key@)),
        None => None,
    }
}

/// The input that performs each Windows action that is done with keys.
pub open spec fn windows_input_action_spec(a: Seq<char>) -> Option<InputActionView> {
    if a == "screenshot"@ {
        Some(InputActionView::Chord(seq!["MetaLeft"@, "PrintScreen"@]))
    } else if a == "close_window"@ {
        Some(InputActionView::Chord(seq!["AltLeft"@, "F4"@]))
    } else if a == "app_launcher"@ {
        Some(InputActionView::Tap("MetaLeft"@))
    } else if a == "media.prev"@ {
        Some(InputActionView::Tap("MediaPrevTrack"@))
    } else if a == "media.play_pause"@ {
        Some(InputActionView::Tap("MediaPlayPause"@))
    } else if a == "media.next"@ {
        Some(InputActionView::Tap("MediaNextTrack"@))
    } else if a == "media.volume_down"@ {
        Some(InputActionView::Tap("VolumeDown"@))
    } else if a == "media.mute"@ {
        Some(InputActionView::Tap("VolumeMute"@))
    } else if a == "media.volume_up"@ {
        Some(InputActionView::Tap("VolumeUp"@))
    } else {
        None
    }
}

fn chord_of(first: &'static str, second: &'static str) -> (r: WindowsInputAction)
    ensures
        input_action_view(Some(r)) == Some(InputActionView::Chord(seq![first@, second@])),
{
    let mut keys: Vec<&'static str> = Vec::new();
    keys.push(first);
    keys.push(second);
    assert(static_texts(keys@) =~= seq![first@, second@]);
    WindowsInputAction::Chord(keys)
}

/// The synthetic input that performs a Windows action, if it is done with keys.
pub fn windows_input_action(action: &str) -> (r: Option<WindowsInputAction>)
    ensures
        input_action_view(r) == windows_input_action_spec(action@),
{
    if str_eq(action, "screenshot") {
        Some(chord_of("MetaLeft", "PrintScreen"))
    } else if str_eq(action, "close_window") {
        Some(chord_of("AltLeft", "F4"))
    } else if str_eq(action, "app_launcher") {
        Some(WindowsInputAction::Tap("MetaLeft"))
    } else if str_eq(action, "media.prev") {
        Some(WindowsInputAction::Tap("MediaPrevTrack"))
    } else if str_eq(action, "media.play_pause") {
        Some(WindowsInputAction::Tap("MediaPlayPause"))
    } else if str_eq(action, "media.next") {
        Some(WindowsInputAction::Tap("MediaNextTrack"))
    } else if str_eq(action, "media.volume_down") {
        Some(WindowsInputAction::Tap("VolumeDown"))
    } else if str_eq(action, "media.mute") {
        Some(WindowsInputAction::Tap("VolumeMute"))
    } else if str_eq(action, "media.volume_up") {
        Some(WindowsInputAction::Tap("VolumeUp"))
    } else {
        None
    }
}

/// Whether Windows implements an action: by a command of its own or by keys.
pub open spec fn windows_implements(a: Seq<char>) -> bool {
    a == "open_recordings_folder"@ || a == "lock_screen"@ || windows_input_action_spec(a) is Some
}

/// Why a desktop action was refused or failed.
#[derive(Debug, Clone, PartialEq, Eq)]
pub enum ActionError {
    Unknown { action: String },
    Unavailable { platform: &'static str, action: String, reason: String },
    Failed { platform: &'static str, action: String, detail: String },
}

/// The text of an action error.
pub open spec fn action_error_text(e: ActionError) -> Seq<char> {
    match e {
        ActionError::Unknown { action } => "unknown desktop action: "@ + action@,
        ActionError::Unavailable { platform, action, reason } => platform@ + " desktop action "@ + action@
            + " is unavailable: "@ + reason@,
        ActionError::Failed { platform, action, detail } => platform@ + " desktop action "@ + action@
            + " failed: "@ + detail@,
    }
}

impl ActionError {
    /// The error for an action that no registry holds.
    pub fn unknown(action: &str) -> (e: ActionError)
        ensures
            e matches ActionError::Unknown { action: a } && a@ == action@,
    {
        ActionError::Unknown { action: String::from_str(action) }
    }

    /// The error for a registered action that the platform cannot run now.
    pub fn unavailable(platform: &'static str, action: &str, reason: &str) -> (e: ActionError)
        ensures
            e matches ActionError::Unavailable { platform: p, action: a, reason: r } && p == platform && a@
                == action@ && r@ == reason@,
    {
        ActionError::Unavailable { platform, action: String::from_str(action), reason: String::from_str(reason) }
    }

    /// The error for an action whose execution failed.
    pub fn failed(platform: &'static str, action: &str, detail: &str) -> (e: ActionError)
        ensures
            e matches ActionError::Failed { platform: p, action: a, detail: d } && p == platform && a@ == action@
                && d@ == detail@,
    {
        ActionError::Failed { platform, action: String::from_str(action), detail: String::from_str(detail) }
    }

    /// The message that describes the error.
    pub fn message(&self) -> (s: String)
        ensures
            s@ == action_error_text(*self),
    {
        match self {
            ActionError::Unknown { action } => {
                let mut s = String::from_str("unknown desktop action: ");
                s.append(action.as_str());
                s
            },
            ActionError::Unavailable { platform, action, reason } => {
                let mut s = String::from_str(platform);
                s.append(" desktop action ");
                s.append(action.as_str());
                s.append(" is unavailable: ");
                s.append(reason.as_str());
                s
            },
            ActionError::Failed { platform, action, detail } => {
                let mut s = String::from_str(platform);
                s.append(" desktop action ");
                s.append(action.as_str());
                s.append(" failed: ");
                s.append(detail.as_str());
                s
            },
        }
    }
}

/// Whether an action starts a screen recording.
pub open spec fn recording_start_spec(action: Seq<char>) -> bool {
    action == "screenrecord.screen"@ || action == "screenrecord.window"@ || action == "screenrecord.screen.audio"@
        || action == "screenrecord.screen.webcam"@
}

/// Whether an action starts a screen recording.
pub fn is_recording_start(action: &str) -> (r: bool)
    ensures
        r == recording_start_spec(action@),
{
    str_eq(action, "screenrecord.screen") || str_eq(action, "screenrecord.window") || str_eq(
        action,
        "screenrecord.screen.audio",
    ) || str_eq(action, "screenrecord.screen.webcam")
}

/// Only one recording session may be active at a time: an action that
/// starts a recording is refused, as unavailable, while a recorder already
/// runs; every other action, and a start with no recorder running, may go on.
pub fn recording_admission(action: &str, recorder_running: bool) -> (r: Result<(), ActionError>)
    ensures
        r is Err <==> (recording_start_spec(action@) && recorder_running),
        r matches Err(e) ==> (e matches ActionError::Unavailable { platform: p, action: a, reason: why } && p == "Linux"
            && a@ == action@ && why@ == "a TapPad recording session is already active"@),
{
    if recorder_running && is_recording_start(action) {
        Err(ActionError::unavailable("Linux", action, "a TapPad recording session is already active"))
    } else {
        Ok(())
    }
}

/// The failure of an action whose shell command exited unsuccessfully: its
/// detail is the trimmed error output, or the exit status when that output
/// is blank.
pub fn command_failure(platform: &'static str, action: &str, stderr: &str, exit_status: &str) -> (e: ActionError)
    ensures
        e matches ActionError::Failed { platform: p, action: a, detail: d } && p == platform && a@ == action@
            && d@ == (if crate::text::trim(stderr@).len() > 0 {
            crate::text::trim(stderr@)
        } else {
            "command exited with "@ + exit_status@
        }),
{
    let chars = crate::text::chars_of(stderr);
    let trimmed = crate::text::trim_chars(&chars);
    if trimmed.len() > 0 {
        let detail = crate::text::string_of(&trimmed);
        ActionError::failed(platform, action, detail.as_str())
    } else {
        let mut detail = String::from_str("command exited with ");
        detail.append(exit_status);
        ActionError::failed(platform, action, detail.as_str())
    }
}

/// Whether one of the static texts equals a text.
pub fn static_texts_contain(v: &Vec<&'static str>, a: &str) -> (r: bool)
    ensures
        r == static_texts(v@).contains(a@),
{
    let mut i: usize = 0;
    while i < v.len()
        invariant
            i <= v.len(),
            forall|j: int| 0 <= j < i ==> v@[j]@ != a@,
        decreases v.len() - i,
    {
        if str_eq(v[i], a) {
            assert(static_texts(v@)[i as int] == a@);
            return true;
        }
        i = i + 1;
    }
    proof {
        if static_texts(v@).contains(a@) {
            let j = choose|j: int| 0 <= j < static_texts(v@).len() && static_texts(v@)[j] == a@;
            assert(v@[j]@ == a@);
        }
    }
    false
}

/// What validating an action yields: unknown actions are refused before any
/// adapter sees them; a registered action runs only when its capability is
/// runnable, and otherwise the refusal carries the capability's note.
pub open spec fn validate_spec(p: Platform, probes: CodexProbes, a: Seq<char>) -> Result<(), ActionErrorView> {
    if !registry(p).contains(a) {
        Err(ActionErrorView::Unknown(a))
    } else {
        let c = platform_capability_spec(p, probes, a);
        if runnable_state(c.state) {
            Ok(())
        } else {
            Err(ActionErrorView::Unavailable(
                platform_name_spec(p),
                a,
                match c.note {
                    Some(n) => n,
                    None => "capability is "@ + c.state,
                },
            ))
        }
    }
}

/// An action error as texts.
pub enum ActionErrorView {
    Unknown(Seq<char>),
    Unavailable(Seq<char>, Seq<char>, Seq<char>),
    Failed(Seq<char>, Seq<char>, Seq<char>),
}

/// The texts of an action error.
pub open spec fn error_view(e: ActionError) -> ActionErrorView {
    match e {
        ActionError::Unknown { action } => ActionErrorView::Unknown(action@),
        ActionError::Unavailable { platform, action, reason } => ActionErrorView::Unavailable(platform@, action@, reason@),
        ActionError::Failed { platform, action, detail } => ActionErrorView::Failed(platform@, action@, detail@),
    }
}

/// The texts of a validation result.
pub open spec fn validation_view(r: Result<(), ActionError>) -> Result<(), ActionErrorView> {
    match r {
        Ok(()) => Ok(()),
        Err(e) => Err(error_view(e)),
    }
}

/// Checks that an action is registered on the platform and runnable now.
pub fn validate(p: Platform, probes: &CodexProbes, action: &str) -> (r: Result<(), ActionError>)
    ensures
        validation_view(r) == validate_spec(p, *probes, action@),
{
    let ids = action_ids();
    let extra = additional_action_ids(p);
    let known = static_texts_contain(&ids, action) || static_texts_contain(&extra, action);
    proof {
        if static_texts(ids@).contains(action@) || static_texts(extra@).contains(action@) {
            vstd::seq_lib::lemma_seq_concat_contains_all_elements(action_id_list(), additional_action_list(p), action@);
        }
        if registry(p).contains(action@) {
            let j = choose|j: int| 0 <= j < registry(p).len() && registry(p)[j] == action@;
            if j < action_id_list().len() {
                assert(action_id_list()[j] == action@);
            } else {
                assert(additional_action_list(p)[j - action_id_list().len()] == action@);
            }
        }
    }
    if !known {
        return Err(ActionError::unknown(action));
    }
    let c = platform_capability(p, probes, action);
    if c.is_runnable() {
        return Ok(());
    }
    let reason = match c.note {
        Some(note) => note,
        None => {
            let mut text = String::from_str("capability is ");
            text.append(c.state);
            text
        },
    };
    Err(ActionError::unavailable(platform_name(p), action, reason.as_str()))
}

} // verus!
