//! The Rust host for Linux: its command registry and what its host surface shows.

use vstd::prelude::*;
use crate::codex::opt_string;
use crate::text::{decimal, decimal_string, str_eq};

verus! {

/// The shell commands that the Rust host runs for named actions.
pub struct CommandRegistry {
    commands: Vec<(String, String)>,
}

/// The workspace commands, for workspaces one to ten.
pub open spec fn workspace_entries() -> Seq<(Seq<char>, Seq<char>)> {
    Seq::new(10, |i: int| ("workspace."@ + decimal((i + 1) as nat), "hyprctl dispatch workspace "@ + decimal((i + 1) as nat)))
}

/// The registry's actions and their commands, in the order in which they are registered.
pub open spec fn command_table() -> Seq<(Seq<char>, Seq<char>)> {
    seq![
        ("screenshot"@, "omarchy capture screenshot"@),
        ("screenrecord.screen"@, r#"mkdir -p "$HOME/Videos/TapPad"; filename="$HOME/Videos/TapPad/screenrecording-$(date +'%Y-%m-%d_%H-%M-%S').mp4"; echo "$filename" > /tmp/omarchy-screenrecord-filename; gpu-screen-recorder -w "$(hyprctl monitors -j | jq -r '.[] | select(.focused == true) | .name')" -k auto -f 60 -fm cfr -fallback-cpu-encoding yes -o "$filename" & pkill -RTMIN+8 waybar"#@),
        ("screenrecord.window"@, r#"mkdir -p "$HOME/Videos/TapPad"; filename="$HOME/Videos/TapPad/screenrecording-$(date +'%Y-%m-%d_%H-%M-%S').mp4"; echo "$filename" > /tmp/omarchy-screenrecord-filename; region=$(hyprctl activewindow -j | jq -r '"\(.at[0]),\(.at[1]) \(.size[0])x\(.size[1])"'); gpu-screen-recorder -w "$region" -k auto -f 60 -fm cfr -fallback-cpu-encoding yes -o "$filename" & pkill -RTMIN+8 waybar"#@),
        ("screenrecord.screen.audio"@, r#"mkdir -p "$HOME/Videos/TapPad"; filename="$HOME/Videos/TapPad/screenrecording-$(date +'%Y-%m-%d_%H-%M-%S').mp4"; echo "$filename" > /tmp/omarchy-screenrecord-filename; gpu-screen-recorder -w "$(hyprctl monitors -j | jq -r '.[] | select(.focused == true) | .name')" -k auto -f 60 -fm cfr -fallback-cpu-encoding yes -a "default_output|default_input" -ac aac -o "$filename" & pkill -RTMIN+8 waybar"#@),
        ("screenrecord.screen.webcam"@, r#"mkdir -p "$HOME/Videos/TapPad"; filename="$HOME/Videos/TapPad/screenrecording-$(date +'%Y-%m-%d_%H-%M-%S').mp4"; echo "$filename" > /tmp/omarchy-screenrecord-filename; device=$(v4l2-ctl --list-devices 2>/dev/null | grep -m1 "^\s*/dev/video" | tr -d '\t'); [[ -z $device ]] && notify-send "No webcam found" -u critical -t 3000 && exit 1; busy=$(lsof "$device" 2>/dev/null | tail -n +2 | awk '{print $1}' | head -1); [[ -n $busy ]] && notify-send "Webcam in use by $busy" -u critical -t 5000 && exit 1; scale=$(hyprctl monitors -j | jq -r '.[] | select(.focused == true) | .scale'); target=$(awk "BEGIN {printf \"%.0f\", 360 * $scale}"); ffplay -f v4l2 -framerate 30 "$device" -vf "crop=iw/2:ih,scale=${target}:-1" -window_title "WebcamOverlay" -noborder -fflags nobuffer -flags low_delay -probesize 32 -analyzeduration 0 -loglevel quiet & sleep 2; gpu-screen-recorder -w "$(hyprctl monitors -j | jq -r '.[] | select(.focused == true) | .name')" -k auto -f 60 -fm cfr -fallback-cpu-encoding yes -o "$filename" & pkill -RTMIN+8 waybar"#@),
        ("screenrecord.stop"@, "omarchy capture screenrecording --stop-recording"@),
        ("open_recordings_folder"@, r#"mkdir -p "$HOME/Videos/TapPad" && xdg-open "$HOME/Videos/TapPad""#@),
        ("close_window"@, "hyprctl dispatch killactive"@),
        ("app_launcher"@, "walker"@),
        ("nightlight.toggle"@, "omarchy toggle nightlight"@),
        ("lock_screen"@, "omarchy system lock"@)
    ] + workspace_entries() + seq![
        ("media.play_pause"@, "playerctl play-pause"@),
        ("media.next"@, "playerctl next"@),
        ("media.prev"@, "playerctl previous"@),
        ("media.volume_up"@, "wpctl set-volume @DEFAULT_AUDIO_SINK@ 5%+"@),
        ("media.volume_down"@, "wpctl set-volume @DEFAULT_AUDIO_SINK@ 5%-"@),
        ("media.mute"@, "wpctl set-mute @DEFAULT_AUDIO_SINK@ toggle"@)
    ]
}

/// The command of the first entry for an action.
pub open spec fn resolve_spec(table: Seq<(Seq<char>, Seq<char>)>, action: Seq<char>) -> Option<Seq<char>>
    decreases table.len(),
{
    if table.len() == 0 {
        None
    } else if table[0].0 == action {
        Some(table[0].1)
    } else {
        resolve_spec(table.drop_first(), action)
    }
}

/// The entries of a registry as texts.
pub open spec fn entries_view(v: Seq<(String, String)>) -> Seq<(Seq<char>, Seq<char>)> {
    Seq::new(v.len(), |i: int| (v[i].0@, v[i].1@))
}

impl CommandRegistry {
    /// The registered actions and their commands.
    pub closed spec fn table(&self) -> Seq<(Seq<char>, Seq<char>)> {
        entries_view(self.commands@)
    }

    /// The registry of the Omarchy commands.
    pub fn new() -> (r: CommandRegistry)
        ensures
            r.table() == command_table(),
    {
        let mut commands: Vec<(String, String)> = Vec::new();
        commands.push((String::from_str("screenshot"), String::from_str("omarchy capture screenshot")));
        commands.push((String::from_str("screenrecord.screen"), String::from_str(r#"mkdir -p "$HOME/Videos/TapPad"; filename="$HOME/Videos/TapPad/screenrecording-$(date +'%Y-%m-%d_%H-%M-%S').mp4"; echo "$filename" > /tmp/omarchy-screenrecord-filename; gpu-screen-recorder -w "$(hyprctl monitors -j | jq -r '.[] | select(.focused == true) | .name')" -k auto -f 60 -fm cfr -fallback-cpu-encoding yes -o "$filename" & pkill -RTMIN+8 waybar"#)));
        commands.push((String::from_str("screenrecord.window"), String::from_str(r#"mkdir -p "$HOME/Videos/TapPad"; filename="$HOME/Videos/TapPad/screenrecording-$(date +'%Y-%m-%d_%H-%M-%S').mp4"; echo "$filename" > /tmp/omarchy-screenrecord-filename; region=$(hyprctl activewindow -j | jq -r '"\(.at[0]),\(.at[1]) \(.size[0])x\(.size[1])"'); gpu-screen-recorder -w "$region" -k auto -f 60 -fm cfr -fallback-cpu-encoding yes -o "$filename" & pkill -RTMIN+8 waybar"#)));
        commands.push((String::from_str("screenrecord.screen.audio"), String::from_str(r#"mkdir -p "$HOME/Videos/TapPad"; filename="$HOME/Videos/TapPad/screenrecording-$(date +'%Y-%m-%d_%H-%M-%S').mp4"; echo "$filename" > /tmp/omarchy-screenrecord-filename; gpu-screen-recorder -w "$(hyprctl monitors -j | jq -r '.[] | select(.focused == true) | .name')" -k auto -f 60 -fm cfr -fallback-cpu-encoding yes -a "default_output|default_input" -ac aac -o "$filename" & pkill -RTMIN+8 waybar"#)));
        commands.push((String::from_str("screenrecord.screen.webcam"), String::from_str(r#"mkdir -p "$HOME/Videos/TapPad"; filename="$HOME/Videos/TapPad/screenrecording-$(date +'%Y-%m-%d_%H-%M-%S').mp4"; echo "$filename" > /tmp/omarchy-screenrecord-filename; device=$(v4l2-ctl --list-devices 2>/dev/null | grep -m1 "^\s*/dev/video" | tr -d '\t'); [[ -z $device ]] && notify-send "No webcam found" -u critical -t 3000 && exit 1; busy=$(lsof "$device" 2>/dev/null | tail -n +2 | awk '{print $1}' | head -1); [[ -n $busy ]] && notify-send "Webcam in use by $busy" -u critical -t 5000 && exit 1; scale=$(hyprctl monitors -j | jq -r '.[] | select(.focused == true) | .scale'); target=$(awk "BEGIN {printf \"%.0f\", 360 * $scale}"); ffplay -f v4l2 -framerate 30 "$device" -vf "crop=iw/2:ih,scale=${target}:-1" -window_title "WebcamOverlay" -noborder -fflags nobuffer -flags low_delay -probesize 32 -analyzeduration 0 -loglevel quiet & sleep 2; gpu-screen-recorder -w "$(hyprctl monitors -j | jq -r '.[] | select(.focused == true) | .name')" -k auto -f 60 -fm cfr -fallback-cpu-encoding yes -o "$filename" & pkill -RTMIN+8 waybar"#)));
        commands.push((String::from_str("screenrecord.stop"), String::from_str("omarchy capture screenrecording --stop-recording")));
        commands.push((String::from_str("open_recordings_folder"), String::from_str(r#"mkdir -p "$HOME/Videos/TapPad" && xdg-open "$HOME/Videos/TapPad""#)));
        commands.push((String::from_str("close_window"), String::from_str("hyprctl dispatch killactive")));
        commands.push((String::from_str("app_launcher"), String::from_str("walker")));
        commands.push((String::from_str("nightlight.toggle"), String::from_str("omarchy toggle nightlight")));
        commands.push((String::from_str("lock_screen"), String::from_str("omarchy system lock")));
        let ghost head = entries_view(commands@);
        assert(head =~= seq![("screenshot"@, "omarchy capture screenshot"@), ("screenrecord.screen"@, r#"mkdir -p "$HOME/Videos/TapPad"; filename="$HOME/Videos/TapPad/screenrecording-$(date +'%Y-%m-%d_%H-%M-%S').mp4"; echo "$filename" > /tmp/omarchy-screenrecord-filename; gpu-screen-recorder -w "$(hyprctl monitors -j | jq -r '.[] | select(.focused == true) | .name')" -k auto -f 60 -fm cfr -fallback-cpu-encoding yes -o "$filename" & pkill -RTMIN+8 waybar"#@), ("screenrecord.window"@, r#"mkdir -p "$HOME/Videos/TapPad"; filename="$HOME/Videos/TapPad/screenrecording-$(date +'%Y-%m-%d_%H-%M-%S').mp4"; echo "$filename" > /tmp/omarchy-screenrecord-filename; region=$(hyprctl activewindow -j | jq -r '"\(.at[0]),\(.at[1]) \(.size[0])x\(.size[1])"'); gpu-screen-recorder -w "$region" -k auto -f 60 -fm cfr -fallback-cpu-encoding yes -o "$filename" & pkill -RTMIN+8 waybar"#@), ("screenrecord.screen.audio"@, r#"mkdir -p "$HOME/Videos/TapPad"; filename="$HOME/Videos/TapPad/screenrecording-$(date +'%Y-%m-%d_%H-%M-%S').mp4"; echo "$filename" > /tmp/omarchy-screenrecord-filename; gpu-screen-recorder -w "$(hyprctl monitors -j | jq -r '.[] | select(.focused == true) | .name')" -k auto -f 60 -fm cfr -fallback-cpu-encoding yes -a "default_output|default_input" -ac aac -o "$filename" & pkill -RTMIN+8 waybar"#@), ("screenrecord.screen.webcam"@, r#"mkdir -p "$HOME/Videos/TapPad"; filename="$HOME/Videos/TapPad/screenrecording-$(date +'%Y-%m-%d_%H-%M-%S').mp4"; echo "$filename" > /tmp/omarchy-screenrecord-filename; device=$(v4l2-ctl --list-devices 2>/dev/null | grep -m1 "^\s*/dev/video" | tr -d '\t'); [[ -z $device ]] && notify-send "No webcam found" -u critical -t 3000 && exit 1; busy=$(lsof "$device" 2>/dev/null | tail -n +2 | awk '{print $1}' | head -1); [[ -n $busy ]] && notify-send "Webcam in use by $busy" -u critical -t 5000 && exit 1; scale=$(hyprctl monitors -j | jq -r '.[] | select(.focused == true) | .scale'); target=$(awk "BEGIN {printf \"%.0f\", 360 * $scale}"); ffplay -f v4l2 -framerate 30 "$device" -vf "crop=iw/2:ih,scale=${target}:-1" -window_title "WebcamOverlay" -noborder -fflags nobuffer -flags low_delay -probesize 32 -analyzeduration 0 -loglevel quiet & sleep 2; gpu-screen-recorder -w "$(hyprctl monitors -j | jq -r '.[] | select(.focused == true) | .name')" -k auto -f 60 -fm cfr -fallback-cpu-encoding yes -o "$filename" & pkill -RTMIN+8 waybar"#@), ("screenrecord.stop"@, "omarchy capture screenrecording --stop-recording"@), ("open_recordings_folder"@, r#"mkdir -p "$HOME/Videos/TapPad" && xdg-open "$HOME/Videos/TapPad""#@), ("close_window"@, "hyprctl dispatch killactive"@), ("app_launcher"@, "walker"@), ("nightlight.toggle"@, "omarchy toggle nightlight"@), ("lock_screen"@, "omarchy system lock"@)]);
        let mut i: u64 = 1;
        while i <= 10
            invariant
                1 <= i <= 11,
                entries_view(commands@) == head + workspace_entries().subrange(0, i - 1),
            decreases 11 - i,
        {
            let mut action = String::from_str("workspace.");
            let number = decimal_string(i);
            action.append(number.as_str());
            let mut command = String::from_str("hyprctl dispatch workspace ");
            command.append(number.as_str());
                let ghost prior = entries_view(commands@);
            let ghost entry = (action@, command@);
            commands.push((action, command));
            assert(entries_view(commands@) =~= prior.push(entry));
            assert(entry == workspace_entries()[i - 1]);
            assert(entries_view(commands@) =~= head + workspace_entries().subrange(0, i as int));
            i = i + 1;
        }
        assert(workspace_entries().subrange(0, 10) =~= workspace_entries());
        let ghost middle = entries_view(commands@);
        commands.push((String::from_str("media.play_pause"), String::from_str("playerctl play-pause")));
        commands.push((String::from_str("media.next"), String::from_str("playerctl next")));
        commands.push((String::from_str("media.prev"), String::from_str("playerctl previous")));
        commands.push((String::from_str("media.volume_up"), String::from_str("wpctl set-volume @DEFAULT_AUDIO_SINK@ 5%+")));
        commands.push((String::from_str("media.volume_down"), String::from_str("wpctl set-volume @DEFAULT_AUDIO_SINK@ 5%-")));
        commands.push((String::from_str("media.mute"), String::from_str("wpctl set-mute @DEFAULT_AUDIO_SINK@ toggle")));
        assert(entries_view(commands@) =~= middle + seq![("media.play_pause"@, "playerctl play-pause"@), ("media.next"@, "playerctl next"@), ("media.prev"@, "playerctl previous"@), ("media.volume_up"@, "wpctl set-volume @DEFAULT_AUDIO_SINK@ 5%+"@), ("media.volume_down"@, "wpctl set-volume @DEFAULT_AUDIO_SINK@ 5%-"@), ("media.mute"@, "wpctl set-mute @DEFAULT_AUDIO_SINK@ toggle"@)]);
        let r = CommandRegistry { commands };
        assert(r.table() =~= command_table());
        r
    }

    /// The command that runs an action, if one is registered.
    pub fn resolve(&self, action: &str) -> (r: Option<&str>)
        ensures
            crate::actions::opt_str(r) == resolve_spec(self.table(), action@),
    {
        let mut i: usize = 0;
        assert(self.table().skip(0) =~= self.table());
        while i < self.commands.len()
            invariant
                i <= self.commands@.len(),
                resolve_spec(self.table(), action@) == resolve_spec(self.table().skip(i as int), action@),
            decreases self.commands@.len() - i,
        {
            assert(self.table().skip(i as int)[0] == (self.commands@[i as int].0@, self.commands@[i as int].1@));
            assert(self.table().skip(i as int).drop_first() =~= self.table().skip(i + 1));
            if str_eq(self.commands[i].0.as_str(), action) {
                return Some(self.commands[i].1.as_str());
            }
            i = i + 1;
        }
        None
    }

    /// The registered actions, in the order in which they are registered.
    pub fn actions(&self) -> (r: Vec<&str>)
        ensures
            r@.len() == self.table().len(),
            forall|i: int| 0 <= i < r@.len() ==> r@[i]@ == self.table()[i].0,
    {
        let mut r: Vec<&str> = Vec::new();
        let mut i: usize = 0;
        while i < self.commands.len()
            invariant
                i <= self.commands@.len(),
                r@.len() == i,
                forall|j: int| 0 <= j < i ==> r@[j]@ == self.table()[j].0,
            decreases self.commands@.len() - i,
        {
            r.push(self.commands[i].0.as_str());
            i = i + 1;
        }
        r
    }
}

/// The port that the Rust host listens on when none is configured.
pub const DEFAULT_LISTEN_PORT: u16 = 8765;

/// The port that the Rust host listens on: the configured text when it is a
/// port number, the default port otherwise.
pub fn listen_port(text: Option<&str>) -> (p: u16)
    ensures
        match text {
            Some(t) => match crate::linux_surface::parse_u16_text(t@) {
                Some(n) => p == n,
                None => p == DEFAULT_LISTEN_PORT,
            },
            None => p == DEFAULT_LISTEN_PORT,
        },
{
    match text {
        Some(t) => {
            let chars = crate::text::chars_of(t);
            match crate::linux_surface::parse_u16_chars(&chars) {
                Some(n) => n,
                None => DEFAULT_LISTEN_PORT,
            }
        },
        None => DEFAULT_LISTEN_PORT,
    }
}

/// Whether a WebSocket request may connect: any request when the host has no
/// token, otherwise only one that presents exactly that token.
pub fn token_accepted(expected: Option<&str>, provided: Option<&str>) -> (r: bool)
    ensures
        r == match expected {
            None => true,
            Some(e) => provided matches Some(p) && p@ == e@,
        },
{
    match expected {
        None => true,
        Some(e) => match provided {
            Some(p) => str_eq(p, e),
            None => false,
        },
    }
}

/// The id of the client that connected as the `n`-th, counting from zero.
pub fn client_id(n: u64) -> (r: String)
    ensures
        r@ == "client-"@ + decimal(n as nat),
{
    let mut r = String::from_str("client-");
    let digits = decimal_string(n);
    r.append(digits.as_str());
    r
}

/// The settings of the Rust host.
#[derive(Debug, Clone)]
pub struct RuntimeSettings {
    pub bind_host: String,
    pub port: u16,
    pub token: Option<String>,
    pub hostname: String,
}

/// The pairing URLs of the Rust host.
#[derive(Debug, Clone)]
pub struct PairingLinks {
    pub preferred_url: String,
    pub local_url: String,
    pub token: Option<String>,
}

/// Where the Rust host listens.
#[derive(Debug, Clone)]
pub struct ServerStatus {
    pub host: String,
    pub port: u16,
    pub bind_address: String,
    pub token_enabled: bool,
}

/// The settings that the Rust host's surface shows.
#[derive(Debug, Clone)]
pub struct SettingsSummary {
    pub port: u16,
    pub token_summary: String,
    pub launch_at_login: crate::windows_surface::CapabilityStatus,
}

/// Everything that the Rust host's surface shows.
#[derive(Debug, Clone)]
pub struct HostSurfaceState {
    pub pairing: PairingLinks,
    pub server_status: ServerStatus,
    pub readiness: Vec<crate::host_surface::ReadinessGroup>,
    pub settings: SettingsSummary,
    pub actions: Vec<(String, crate::windows_surface::CapabilityStatus)>,
}

/// The pairing URL of the Rust host: no slash before the token query.
pub open spec fn rust_host_url(host: Seq<char>, port: u16, token: Option<Seq<char>>) -> Seq<char> {
    "http://"@ + host + ":"@ + decimal(port as nat) + match token {
        Some(t) => "?token="@ + t,
        None => seq![],
    }
}

impl RuntimeSettings {
    /// The settings from the environment: the `TOUCHPAD_HOST` address or
    /// every interface, the `TOUCHPAD_PORT` port or the default, the
    /// `TOUCHPAD_TOKEN` token trimmed (none when blank), and the host name.
    pub fn from_env(host: Option<String>, port: Option<&str>, token: Option<&str>, hostname: String) -> (s: RuntimeSettings)
        ensures
            s.bind_host@ == match host {
                Some(h) => h@,
                None => "0.0.0.0"@,
            },
            s.port == match port {
                Some(t) => match crate::linux_surface::parse_u16_text(t@) {
                    Some(n) => n as u16,
                    None => DEFAULT_LISTEN_PORT,
                },
                None => DEFAULT_LISTEN_PORT,
            },
            opt_string(s.token) == match token {
                Some(t) => if crate::text::trim(t@).len() > 0 {
                    Some(crate::text::trim(t@))
                } else {
                    None
                },
                None => None,
            },
            s.hostname@ == hostname@,
    {
        let bind_host = match host {
            Some(h) => h,
            None => String::from_str("0.0.0.0"),
        };
        let token = match token {
            Some(t) => {
                let chars = crate::text::chars_of(t);
                let trimmed = crate::text::trim_chars(&chars);
                if trimmed.len() > 0 {
                    Some(crate::text::string_of(&trimmed))
                } else {
                    None
                }
            },
            None => None,
        };
        RuntimeSettings { bind_host, port: listen_port(port), token, hostname }
    }

    /// The pairing URLs: the local URL is also the preferred one.
    pub fn pairing_links(&self) -> (r: PairingLinks)
        ensures
            r.local_url@ == rust_host_url(self.hostname@, self.port, opt_string(self.token)),
            r.preferred_url@ == r.local_url@,
            opt_string(r.token) == opt_string(self.token),
    {
        let mut url = String::from_str("http://");
        url.append(self.hostname.as_str());
        url.append(":");
        let digits = decimal_string(self.port as u64);
        url.append(digits.as_str());
        match &self.token {
            Some(t) => {
                url.append("?token=");
                url.append(t.as_str());
            },
            None => {},
        }
        let token = match &self.token {
            Some(t) => Some(t.clone()),
            None => None,
        };
        PairingLinks { preferred_url: url.clone(), local_url: url, token }
    }

    /// Where the host listens and whether it asks for a token.
    pub fn server_status(&self) -> (r: ServerStatus)
        ensures
            r.host@ == self.hostname@,
            r.port == self.port,
            r.bind_address@ == self.bind_host@,
            r.token_enabled == self.token is Some,
    {
        ServerStatus {
            host: self.hostname.clone(),
            port: self.port,
            bind_address: self.bind_host.clone(),
            token_enabled: self.token.is_some(),
        }
    }
}

/// The capability of a registered action on the Rust host: the webcam
/// recording is deferred, every other action is supported.
pub open spec fn rust_host_capability(action: Seq<char>) -> (Seq<char>, Option<Seq<char>>) {
    if action == "screenrecord.screen.webcam"@ {
        (
            "deferred"@,
            Some("Visible on Linux/Omarchy when webcam tooling and a free video device are available."@),
        )
    } else {
        ("supported"@, None)
    }
}

/// The registered actions of the Rust host with their capabilities.
pub fn action_capabilities(commands: &CommandRegistry) -> (r: Vec<(String, crate::windows_surface::CapabilityStatus)>)
    ensures
        r@.len() == commands.table().len(),
        forall|i: int| 0 <= i < r@.len() ==> r@[i].0@ == commands.table()[i].0 && crate::windows_surface::status_view(
            r@[i].1,
        ) == rust_host_capability(commands.table()[i].0),
{
    let actions = commands.actions();
    let mut r: Vec<(String, crate::windows_surface::CapabilityStatus)> = Vec::new();
    let mut i: usize = 0;
    while i < actions.len()
        invariant
            i <= actions@.len(),
            actions@.len() == commands.table().len(),
            forall|j: int| 0 <= j < actions@.len() ==> actions@[j]@ == commands.table()[j].0,
            r@.len() == i,
            forall|j: int| 0 <= j < i ==> r@[j].0@ == commands.table()[j].0 && crate::windows_surface::status_view(
                r@[j].1,
            ) == rust_host_capability(commands.table()[j].0),
        decreases actions.len() - i,
    {
        let action = actions[i];
        let status = if str_eq(action, "screenrecord.screen.webcam") {
            crate::windows_surface::capability(
                "deferred",
                Some("Visible on Linux/Omarchy when webcam tooling and a free video device are available."),
            )
        } else {
            crate::windows_surface::capability("supported", None)
        };
        r.push((String::from_str(action), status));
        i = i + 1;
    }
    r
}

/// Everything that the Rust host's surface shows.
pub fn host_surface_state(settings: &RuntimeSettings, commands: &CommandRegistry) -> (r: HostSurfaceState)
    ensures
        r.pairing.local_url@ == rust_host_url(settings.hostname@, settings.port, opt_string(settings.token)),
        r.pairing.preferred_url@ == r.pairing.local_url@,
        opt_string(r.pairing.token) == opt_string(settings.token),
        r.server_status.host@ == settings.hostname@,
        r.server_status.port == settings.port,
        r.server_status.bind_address@ == settings.bind_host@,
        r.server_status.token_enabled == settings.token is Some,
        crate::host_surface::groups_view(r.readiness@) == crate::host_surface::readiness_spec(
            crate::actions::Platform::Linux,
        ),
        r.settings.port == settings.port,
        r.settings.token_summary@ == (if settings.token is Some {
            "Token provided by TOUCHPAD_TOKEN"@
        } else {
            "No pairing token configured"@
        }),
        crate::windows_surface::status_view(r.settings.launch_at_login) == (
            "manual"@,
            Some("Install the systemd user service to launch TapPad at login."@),
        ),
        r.actions@.len() == commands.table().len(),
        forall|i: int| 0 <= i < r.actions@.len() ==> r.actions@[i].0@ == commands.table()[i].0
            && crate::windows_surface::status_view(r.actions@[i].1) == rust_host_capability(commands.table()[i].0),
{
    HostSurfaceState {
        pairing: settings.pairing_links(),
        server_status: settings.server_status(),
        readiness: crate::host_surface::readiness_groups(crate::actions::Platform::Linux),
        settings: SettingsSummary {
            port: settings.port,
            token_summary: if settings.token.is_some() {
                String::from_str("Token provided by TOUCHPAD_TOKEN")
            } else {
                String::from_str("No pairing token configured")
            },
            launch_at_login: crate::windows_surface::capability(
                "manual",
                Some("Install the systemd user service to launch TapPad at login."),
            ),
        },
        actions: action_capabilities(commands),
    }
}

} // verus!
