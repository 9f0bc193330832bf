//! The Windows host: its action table, pairing URL, token encoding and the
//! plan for each named action.

use vstd::prelude::*;
use crate::codex::opt_string;
use crate::host_surface::{ReadinessGroup, readiness};
use crate::text::{decimal, decimal_string, push_char, str_eq};

verus! {

/// Whether, and how, the Windows host offers an action.
#[derive(Debug, Clone)]
pub struct CapabilityStatus {
    pub state: &'static str,
    pub note: Option<String>,
}

/// A capability as texts.
pub open spec fn status_view(c: CapabilityStatus) -> (Seq<char>, Option<Seq<char>>) {
    (c.state@, opt_string(c.note))
}

/// A capability with a state and an optional note.
pub fn capability(state: &'static str, note: Option<&str>) -> (c: CapabilityStatus)
    ensures
        status_view(c) == (state@, crate::actions::opt_str(note)),
{
    CapabilityStatus {
        state,
        note: match note {
            Some(n) => Some(String::from_str(n)),
            None => None,
        },
    }
}

/// The actions of the Windows host with their capabilities.
pub open spec fn windows_action_table() -> Seq<(Seq<char>, (Seq<char>, Option<Seq<char>>))> {
    seq![
        ("screenrecord.screen"@, ("downgraded"@, Some("Windows beta does not save recordings into Videos\\TapPad yet. Use Xbox Game Bar capture on the PC for now."@))),
        ("screenrecord.window"@, ("downgraded"@, Some("Windows beta does not ship dedicated active-window capture yet. Use Xbox Game Bar on the PC for now."@))),
        ("screenrecord.screen.audio"@, ("downgraded"@, Some("Windows beta does not ship TapPad-managed desktop-plus-mic capture yet. Use Xbox Game Bar audio capture on the PC for now."@))),
        ("screenrecord.stop"@, ("downgraded"@, Some("Stop recording from Xbox Game Bar on the PC until TapPad-managed capture lands."@))),
        ("screenrecord.screen.webcam"@, ("hidden"@, None)),
        ("open_recordings_folder"@, ("supported"@, None)),
        ("screenshot"@, ("supported"@, None)),
        ("close_window"@, ("supported"@, None)),
        ("app_launcher"@, ("supported"@, None)),
        ("nightlight.toggle"@, ("downgraded"@, Some("Windows beta opens Night light settings instead of toggling immediately."@))),
        ("lock_screen"@, ("supported"@, None)),
        ("media.prev"@, ("supported"@, None)),
        ("media.play_pause"@, ("supported"@, None)),
        ("media.next"@, ("supported"@, None)),
        ("media.volume_down"@, ("supported"@, None)),
        ("media.mute"@, ("supported"@, None)),
        ("media.volume_up"@, ("supported"@, None)),
    ]
}

/// The entries of a capability table as texts.
pub open spec fn table_view(v: Seq<(String, CapabilityStatus)>) -> Seq<(Seq<char>, (Seq<char>, Option<Seq<char>>))> {
    Seq::new(v.len(), |i: int| (v[i].0@, status_view(v[i].1)))
}

fn entry(name: &str, state: &'static str, note: Option<&str>) -> (r: (String, CapabilityStatus))
    ensures
        r.0@ == name@,
        status_view(r.1) == (state@, crate::actions::opt_str(note)),
{
    (String::from_str(name), capability(state, note))
}

/// The actions of the Windows host with their capabilities.
pub fn action_capabilities() -> (r: Vec<(String, CapabilityStatus)>)
    ensures
        table_view(r@) == windows_action_table(),
{
    let mut r: Vec<(String, CapabilityStatus)> = Vec::new();
    r.push(entry("screenrecord.screen", "downgraded", Some("Windows beta does not save recordings into Videos\\TapPad yet. Use Xbox Game Bar capture on the PC for now.")));
    r.push(entry("screenrecord.window", "downgraded", Some("Windows beta does not ship dedicated active-window capture yet. Use Xbox Game Bar on the PC for now.")));
    r.push(entry("screenrecord.screen.audio", "downgraded", Some("Windows beta does not ship TapPad-managed desktop-plus-mic capture yet. Use Xbox Game Bar audio capture on the PC for now.")));
    r.push(entry("screenrecord.stop", "downgraded", Some("Stop recording from Xbox Game Bar on the PC until TapPad-managed capture lands.")));
    r.push(entry("screenrecord.screen.webcam", "hidden", None));
    r.push(entry("open_recordings_folder", "supported", None));
    r.push(entry("screenshot", "supported", None));
    r.push(entry("close_window", "supported", None));
    r.push(entry("app_launcher", "supported", None));
    r.push(entry("nightlight.toggle", "downgraded", Some("Windows beta opens Night light settings instead of toggling immediately.")));
    r.push(entry("lock_screen", "supported", None));
    r.push(entry("media.prev", "supported", None));
    r.push(entry("media.play_pause", "supported", None));
    r.push(entry("media.next", "supported", None));
    r.push(entry("media.volume_down", "supported", None));
    r.push(entry("media.mute", "supported", None));
    r.push(entry("media.volume_up", "supported", None));
    assert(table_view(r@) =~= windows_action_table());
    r
}

/// The Windows pairing URL, which always carries the token.
pub open spec fn windows_control_url(host: Seq<char>, port: u16, token: Seq<char>) -> Seq<char> {
    "http://"@ + host + ":"@ + decimal(port as nat) + "/?token="@ + token
}

/// The Windows pairing URL.
pub fn control_url(host: &str, port: u16, token: &str) -> (url: String)
    ensures
        url@ == windows_control_url(host@, port, token@),
{
    let mut url = String::from_str("http://");
    url.append(host);
    url.append(":");
    let digits = decimal_string(port as u64);
    url.append(digits.as_str());
    url.append("/?token=");
    url.append(token);
    url
}

/// The URL-safe base64 digit for a six-bit value.
pub open spec fn b64_digit(v: u8) -> char {
    if v < 26 {
        ((v + 65) as u32) as char
    } else if v < 52 {
        ((v - 26 + 97) as u32) as char
    } else if v < 62 {
        ((v - 52 + 48) as u32) as char
    } else if v == 62 {
        '-'
    } else {
        '_'
    }
}

/// The unpadded URL-safe base64 encoding of bytes, three bytes to four
/// digits, with two or three digits for a final group of one or two bytes.
pub open spec fn base64_url_spec(b: Seq<u8>) -> Seq<char>
    decreases b.len(),
{
    if b.len() == 0 {
        seq![]
    } else if b.len() == 1 {
        seq![b64_digit(b[0] >> 2u8), b64_digit((b[0] & 3u8) << 4u8)]
    } else if b.len() == 2 {
        seq![
            b64_digit(b[0] >> 2u8),
            b64_digit(((b[0] & 3u8) << 4u8) | (b[1] >> 4u8)),
            b64_digit((b[1] & 15u8) << 2u8),
        ]
    } else {
        seq![
            b64_digit(b[0] >> 2u8),
            b64_digit(((b[0] & 3u8) << 4u8) | (b[1] >> 4u8)),
            b64_digit(((b[1] & 15u8) << 2u8) | (b[2] >> 6u8)),
            b64_digit(b[2] & 63u8),
        ] + base64_url_spec(b.subrange(3, b.len() as int))
    }
}

fn digit(v: u8) -> (c: char)
    requires
        v < 64,
    ensures
        c == b64_digit(v),
{
    if v < 26 {
        (v + 65) as char
    } else if v < 52 {
        (v - 26 + 97) as char
    } else if v < 62 {
        (v - 52 + 48) as char
    } else if v == 62 {
        '-'
    } else {
        '_'
    }
}

/// The unpadded URL-safe base64 encoding of sixteen bytes.
pub fn base64_url(bytes: [u8; 16]) -> (s: String)
    ensures
        s@ == base64_url_spec(bytes@),
{
    let mut s = String::new();
    let mut i: usize = 0;
    assert(bytes@.subrange(0, 16) =~= bytes@);
    assert(s@ + base64_url_spec(bytes@) =~= base64_url_spec(bytes@));
    while i + 3 <= 16
        invariant
            i % 3 == 0,
            i <= 15,
            base64_url_spec(bytes@) == s@ + base64_url_spec(bytes@.subrange(i as int, 16)),
        decreases 16 - i,
    {
        let b0 = bytes[i];
        let b1 = bytes[i + 1];
        let b2 = bytes[i + 2];
        let ghost rest = bytes@.subrange(i as int, 16);
        assert(rest.subrange(3, rest.len() as int) =~= bytes@.subrange(i + 3, 16));
        assert(b0 >> 2u8 < 64) by (bit_vector);
        assert(((b0 & 3u8) << 4u8) | (b1 >> 4u8) < 64) by (bit_vector);
        assert(((b1 & 15u8) << 2u8) | (b2 >> 6u8) < 64) by (bit_vector);
        assert(b2 & 63u8 < 64) by (bit_vector);
        let ghost before = s@;
        push_char(&mut s, digit(b0 >> 2u8));
        push_char(&mut s, digit(((b0 & 3u8) << 4u8) | (b1 >> 4u8)));
        push_char(&mut s, digit(((b1 & 15u8) << 2u8) | (b2 >> 6u8)));
        push_char(&mut s, digit(b2 & 63u8));
        assert(s@ =~= before + seq![
            b64_digit(b0 >> 2u8),
            b64_digit(((b0 & 3u8) << 4u8) | (b1 >> 4u8)),
            b64_digit(((b1 & 15u8) << 2u8) | (b2 >> 6u8)),
            b64_digit(b2 & 63u8),
        ]);
        i = i + 3;
    }
    let last = bytes[15];
    let ghost rest = bytes@.subrange(15, 16);
    assert(rest.len() == 1 && rest[0] == last);
    assert(last >> 2u8 < 64) by (bit_vector);
    assert((last & 3u8) << 4u8 < 64) by (bit_vector);
    let ghost before = s@;
    push_char(&mut s, digit(last >> 2u8));
    push_char(&mut s, digit((last & 3u8) << 4u8));
    assert(s@ =~= before + base64_url_spec(rest));
    s
}

/// What the Windows host does for a named action.
#[derive(Debug, Clone, PartialEq, Eq)]
pub enum NamedAction {
    OpenRecordingsFolder,
    Chord(Vec<&'static str>),
    Tap(&'static str),
    Shell(&'static str),
    Refused(String),
}

/// A plan as texts.
pub enum PlanView {
    OpenRecordingsFolder,
    Chord(Seq<Seq<char>>),
    Tap(Seq<char>),
    Shell(Seq<char>),
    Refused(Seq<char>),
}

/// The view of a plan.
pub open spec fn plan_view(p: NamedAction) -> PlanView {
    match p {
        NamedAction::OpenRecordingsFolder => PlanView::OpenRecordingsFolder,
        NamedAction::Chord(keys) => PlanView::Chord(crate::actions::static_texts(keys@)),
        NamedAction::Tap(k) => PlanView::Tap(k@),
        NamedAction::Shell(c) => PlanView::Shell(c@),
        NamedAction::Refused(m) => PlanView::Refused(m@),
    }
}

/// The plan of each named action on Windows: keys for captures, windows and
/// media, commands for Night light and locking, and a refusal for recording,
/// which goes through an external path, and for unknown actions.
pub open spec fn named_action_spec(a: Seq<char>) -> PlanView {
    if a == "open_recordings_folder"@ {
        PlanView::OpenRecordingsFolder
    } else if a == "screenshot"@ {
        PlanView::Chord(seq!["MetaLeft"@, "PrintScreen"@])
    } else if a == "close_window"@ {
        PlanView::Chord(seq!["AltLeft"@, "F4"@])
    } else if a == "app_launcher"@ {
        PlanView::Tap("MetaLeft"@)
    } else if a == "nightlight.toggle"@ {
        PlanView::Shell("start ms-settings:nightlight"@)
    } else if a == "lock_screen"@ {
        PlanView::Shell("rundll32.exe user32.dll,LockWorkStation"@)
    } else if a == "media.prev"@ {
        PlanView::Tap("MediaPrevTrack"@)
    } else if a == "media.play_pause"@ {
        PlanView::Tap("MediaPlayPause"@)
    } else if a == "media.next"@ {
        PlanView::Tap("MediaNextTrack"@)
    } else if a == "media.volume_down"@ {
        PlanView::Tap("VolumeDown"@)
    } else if a == "media.mute"@ {
        PlanView::Tap("VolumeMute"@)
    } else if a == "media.volume_up"@ {
        PlanView::Tap("VolumeUp"@)
    } else if a == "screenrecord.screen"@ || a == "screenrecord.window"@ || a == "screenrecord.screen.audio"@
        || a == "screenrecord.stop"@ {
        PlanView::Refused(
            "Windows beta still routes "@ + a
                + " through an external recording path; see Desktop Host Surface readiness notes."@,
        )
    } else {
        PlanView::Refused("unknown or unsupported Windows action: "@ + a)
    }
}

fn chord2(a: &'static str, b: &'static str) -> (r: NamedAction)
    ensures
        plan_view(r) == PlanView::Chord(seq![a@, b@]),
{
    let mut keys: Vec<&'static str> = Vec::new();
    keys.push(a);
    keys.push(b);
    assert(crate::actions::static_texts(keys@) =~= seq![a@, b@]);
    NamedAction::Chord(keys)
}

/// What the Windows host does for a named action.
pub fn named_action_plan(action: &str) -> (r: NamedAction)
    ensures
        plan_view(r) == named_action_spec(action@),
{
    if str_eq(action, "open_recordings_folder") {
        NamedAction::OpenRecordingsFolder
    } else if str_eq(action, "screenshot") {
        chord2("MetaLeft", "PrintScreen")
    } else if str_eq(action, "close_window") {
        chord2("AltLeft", "F4")
    } else if str_eq(action, "app_launcher") {
        NamedAction::Tap("MetaLeft")
    } else if str_eq(action, "nightlight.toggle") {
        NamedAction::Shell("start ms-settings:nightlight")
    } else if str_eq(action, "lock_screen") {
        NamedAction::Shell("rundll32.exe user32.dll,LockWorkStation")
    } else if str_eq(action, "media.prev") {
        NamedAction::Tap("MediaPrevTrack")
    } else if str_eq(action, "media.play_pause") {
        NamedAction::Tap("MediaPlayPause")
    } else if str_eq(action, "media.next") {
        NamedAction::Tap("MediaNextTrack")
    } else if str_eq(action, "media.volume_down") {
        NamedAction::Tap("VolumeDown")
    } else if str_eq(action, "media.mute") {
        NamedAction::Tap("VolumeMute")
    } else if str_eq(action, "media.volume_up") {
        NamedAction::Tap("VolumeUp")
    } else if str_eq(action, "screenrecord.screen") || str_eq(action, "screenrecord.window") || str_eq(
        action,
        "screenrecord.screen.audio",
    ) || str_eq(action, "screenrecord.stop") {
        let mut m = String::from_str("Windows beta still routes ");
        m.append(action);
        m.append(" through an external recording path; see Desktop Host Surface readiness notes.");
        NamedAction::Refused(m)
    } else {
        let mut m = String::from_str("unknown or unsupported Windows action: ");
        m.append(action);
        NamedAction::Refused(m)
    }
}

/// The greeting of the Windows host.
#[derive(Debug, Clone)]
pub struct ServerMessage {
    pub msg_type: &'static str,
    pub host: String,
    pub time: u64,
}

impl ServerMessage {
    /// The greeting for a new client; `time` is the current time in
    /// milliseconds since the Unix epoch.
    pub fn ready(host: String, time: u64) -> (m: ServerMessage)
        ensures
            m.msg_type@ == "ready"@,
            m.host == host,
            m.time == time,
    {
        ServerMessage { msg_type: "ready", host, time }
    }
}

/// The sixteen big-endian bytes of a number.
pub open spec fn be_bytes(n: u128) -> Seq<u8> {
    Seq::new(16, |i: int| ((n >> ((15 - i) * 8) as u128) & 0xff) as u8)
}

/// The sixteen big-endian bytes of a number (`u128::to_be_bytes`).
pub fn to_be_bytes(n: u128) -> (b: [u8; 16])
    ensures
        b@ == be_bytes(n),
{
    let mut b = [0u8; 16];
    let mut i: usize = 0;
    while i < 16
        invariant
            i <= 16,
            b@.len() == 16,
            forall|j: int| 0 <= j < i ==> b@[j] == ((n >> ((15 - j) * 8) as u128) & 0xff) as u8,
        decreases 16 - i,
    {
        let shift: u128 = ((15 - i) * 8) as u128;
        b[i] = ((n >> shift) & 0xff) as u8;
        i = i + 1;
    }
    assert(b@ =~= be_bytes(n));
    b
}

/// A pairing token of the Windows host from the current time in nanoseconds
/// since the Unix epoch: its sixteen big-endian bytes in URL-safe base64.
pub fn generate_token(nanos: u128) -> (t: String)
    ensures
        t@ == base64_url_spec(be_bytes(nanos)),
{
    base64_url(to_be_bytes(nanos))
}

/// A fresh pairing token of the Windows host, made at `nanos` nanoseconds
/// since the Unix epoch; the host then saves it in its token store.
pub fn reset_token(nanos: u128) -> (t: String)
    ensures
        t@ == base64_url_spec(be_bytes(nanos)),
{
    generate_token(nanos)
}

/// The pairing token of the Windows host: the `TOUCHPAD_TOKEN` variable when
/// it is not blank, else the stored token when it is not blank, each
/// trimmed; none when both are blank or missing, and a new one is made.
pub fn resolve_token(env_token: Option<&str>, stored: Option<&str>) -> (r: Option<String>)
    ensures
        match env_token {
            Some(e) if crate::text::trim(e@).len() > 0 => r matches Some(t) && t@ == crate::text::trim(e@),
            _ => match stored {
                Some(s) if crate::text::trim(s@).len() > 0 => r matches Some(t) && t@ == crate::text::trim(s@),
                _ => r is None,
            },
        },
{
    if let Some(e) = env_token {
        let chars = crate::text::chars_of(e);
        let trimmed = crate::text::trim_chars(&chars);
        if trimmed.len() > 0 {
            return Some(crate::text::string_of(&trimmed));
        }
    }
    if let Some(t) = stored {
        let chars = crate::text::chars_of(t);
        let trimmed = crate::text::trim_chars(&chars);
        if trimmed.len() > 0 {
            return Some(crate::text::string_of(&trimmed));
        }
    }
    None
}

/// The script tag of the mobile page that the Windows host renders before.
pub open spec fn app_script_tag() -> Seq<char> {
    "<script src=\"/app.js?v11\"></script>"@
}

/// The mobile page of the Windows host with the action manifest (JSON)
/// placed in a script before each app script tag.
pub fn render_mobile_index(html: &str, manifest: &str) -> (r: String)
    ensures
        r@ == crate::text::replace_spec(
            html@,
            app_script_tag(),
            "<script>window.__TAPPAD_ACTIONS__ = "@ + manifest@ + ";</script>"@ + "\n    "@ + app_script_tag(),
        ),
{
    proof {
        reveal_strlit("<script src=\"/app.js?v11\"></script>");
    }
    let mut replacement = String::from_str("<script>window.__TAPPAD_ACTIONS__ = ");
    replacement.append(manifest);
    replacement.append(";</script>");
    replacement.append("\n    ");
    replacement.append("<script src=\"/app.js?v11\"></script>");
    crate::text::replace_all(html, "<script src=\"/app.js?v11\"></script>", replacement.as_str())
}

/// The settings of the Windows host.
#[derive(Debug, Clone)]
pub struct RuntimeSettings {
    pub bind_host: String,
    pub port: u16,
    pub token: String,
    pub hostname: String,
}

/// The pairing URLs of the Windows host.
#[derive(Debug, Clone)]
pub struct PairingLinks {
    pub preferred_url: String,
    pub lan_url: Option<String>,
    pub local_url: String,
    pub token: String,
}

/// Where the Windows host listens.
#[derive(Debug, Clone)]
pub struct ServerStatus {
    pub host: String,
    pub port: u16,
    pub bind_address: String,
    pub token_enabled: bool,
}

/// The settings that the Windows host's surface shows.
#[derive(Debug, Clone)]
pub struct SettingsSummary {
    pub port: u16,
    pub token_summary: String,
    pub launch_at_login: CapabilityStatus,
}

/// Everything that the Windows host's surface shows.
#[derive(Debug, Clone)]
pub struct HostSurfaceState {
    pub pairing: PairingLinks,
    pub server_status: ServerStatus,
    pub readiness: Vec<crate::host_surface::ReadinessGroup>,
    pub settings: SettingsSummary,
    pub actions: Vec<(String, CapabilityStatus)>,
}

/// The host name of the Windows host: the `COMPUTERNAME` variable when it is
/// set, else `HOSTNAME`; `localhost` when the chosen one is blank or unset.
pub open spec fn windows_hostname_spec(computer_name: Option<Seq<char>>, host_name: Option<Seq<char>>) -> Seq<char> {
    let chosen = match computer_name {
        Some(c) => Some(c),
        None => host_name,
    };
    match chosen {
        Some(n) => if crate::text::trim(n).len() > 0 {
            n
        } else {
            "localhost"@
        },
        None => "localhost"@,
    }
}

/// The settings of the Windows host from its environment and its token: the
/// `TOUCHPAD_HOST` address or every interface, the `TOUCHPAD_PORT` port or
/// the default, and the host name.
pub fn resolve_runtime_settings(
    host: Option<String>,
    port: Option<&str>,
    computer_name: Option<String>,
    host_name: Option<String>,
    token: String,
) -> (s: RuntimeSettings)
    ensures
        s.bind_host@ == match host {
            Some(h) => h@,
            None => "0.0.0.0"@,
        },
        s.port == match port {
            Some(t) => match crate::linux_surface::parse_u16_text(t@) {
                Some(n) => n as u16,
                None => crate::rust_host::DEFAULT_LISTEN_PORT,
            },
            None => crate::rust_host::DEFAULT_LISTEN_PORT,
        },
        s.hostname@ == windows_hostname_spec(opt_string(computer_name), opt_string(host_name)),
        s.token@ == token@,
{
    let bind_host = match host {
        Some(h) => h,
        None => String::from_str("0.0.0.0"),
    };
    let chosen = match computer_name {
        Some(c) => Some(c),
        None => host_name,
    };
    let hostname = match chosen {
        Some(n) => {
            let chars = crate::text::chars_of(n.as_str());
            let trimmed = crate::text::trim_chars(&chars);
            if trimmed.len() > 0 {
                n
            } else {
                String::from_str("localhost")
            }
        },
        None => String::from_str("localhost"),
    };
    RuntimeSettings { bind_host, port: crate::rust_host::listen_port(port), token, hostname }
}

impl RuntimeSettings {
    /// The pairing URLs: on the LAN address when one is known, which is then
    /// preferred, and on the host name.
    pub fn pairing_links(&self, lan_host: Option<[u8; 4]>) -> (r: PairingLinks)
        ensures
            r.local_url@ == windows_control_url(self.hostname@, self.port, self.token@),
            r.lan_url is Some <==> lan_host is Some,
            r.lan_url matches Some(u) ==> u@ == windows_control_url(
                crate::settings::ipv4_text(lan_host->0),
                self.port,
                self.token@,
            ),
            r.preferred_url@ == (match r.lan_url {
                Some(u) => u@,
                None => r.local_url@,
            }),
            r.token@ == self.token@,
    {
        let local_url = control_url(self.hostname.as_str(), self.port, self.token.as_str());
        let lan_url = match lan_host {
            Some(address) => {
                let host = crate::settings::ipv4_string(address);
                Some(control_url(host.as_str(), self.port, self.token.as_str()))
            },
            None => None,
        };
        let preferred_url = match &lan_url {
            Some(u) => u.clone(),
            None => local_url.clone(),
        };
        PairingLinks { preferred_url, lan_url, local_url, token: self.token.clone() }
    }

    /// Where the host listens and whether its token is set.
    pub fn server_status(&self) -> (r: ServerStatus)
        ensures
            r.host@ == self.hostname@,
            r.port == self.port,
            r.bind_address@ == self.bind_host@,
            r.token_enabled == (crate::text::trim(self.token@).len() > 0),
    {
        let chars = crate::text::chars_of(self.token.as_str());
        let trimmed = crate::text::trim_chars(&chars);
        ServerStatus {
            host: self.hostname.clone(),
            port: self.port,
            bind_address: self.bind_host.clone(),
            token_enabled: trimmed.len() > 0,
        }
    }
}

/// The readiness that the Windows host reports.
pub open spec fn windows_readiness_spec() -> Seq<(Seq<char>, Seq<(Seq<char>, Seq<char>, Option<Seq<char>>)>)> {
    seq![
        ("Core input readiness"@, seq![
            ("Pointer"@, "ready"@, None), ("Keyboard"@, "ready"@, None),
            ("Text transfer"@, "ready"@, None), ("Paste"@, "ready"@, None),
        ]),
        ("Action readiness"@, seq![
            ("Screenshot"@, "ready"@, None),
            ("Recording"@, "degraded"@, Some("Use Xbox Game Bar until TapPad-managed recording ships on Windows."@)),
            ("Audio capture"@, "degraded"@, Some("Desktop-plus-mic capture is still handled outside TapPad on Windows."@)),
            ("Window control"@, "ready"@, None),
            ("Night Light"@, "degraded"@, Some("TapPad opens Night light settings instead of toggling immediately in the Windows beta."@)),
            ("Media control"@, "ready"@, None),
        ]),
    ]
}

/// The readiness groups of the Windows host.
pub fn readiness_groups() -> (r: Vec<crate::host_surface::ReadinessGroup>)
    ensures
        crate::host_surface::groups_view(r@) == windows_readiness_spec(),
{
    let mut core: Vec<crate::host_surface::ReadinessItem> = Vec::new();
    core.push(readiness("Pointer", "ready", None));
    core.push(readiness("Keyboard", "ready", None));
    core.push(readiness("Text transfer", "ready", None));
    core.push(readiness("Paste", "ready", None));
    let mut actions: Vec<crate::host_surface::ReadinessItem> = Vec::new();
    actions.push(readiness("Screenshot", "ready", None));
    actions.push(readiness("Recording", "degraded", Some("Use Xbox Game Bar until TapPad-managed recording ships on Windows.")));
    actions.push(readiness("Audio capture", "degraded", Some("Desktop-plus-mic capture is still handled outside TapPad on Windows.")));
    actions.push(readiness("Window control", "ready", None));
    actions.push(readiness(
        "Night Light",
        "degraded",
        Some("TapPad opens Night light settings instead of toggling immediately in the Windows beta."),
    ));
    actions.push(readiness("Media control", "ready", None));
    let mut r: Vec<ReadinessGroup> = Vec::new();
    r.push(ReadinessGroup { title: "Core input readiness", items: core });
    r.push(ReadinessGroup { title: "Action readiness", items: actions });
    proof {
        let g = crate::host_surface::groups_view(r@);
        let w = windows_readiness_spec();
        assert(g[0].1 =~= w[0].1);
        assert(g[1].1 =~= w[1].1);
        assert(g =~= w);
    }
    r
}

/// Everything that the Windows host's surface shows.
pub fn host_surface_state(settings: &RuntimeSettings, lan_host: Option<[u8; 4]>) -> (r: HostSurfaceState)
    ensures
        r.pairing.local_url@ == windows_control_url(settings.hostname@, settings.port, settings.token@),
        r.pairing.lan_url is Some <==> lan_host is Some,
        r.pairing.preferred_url@ == (match r.pairing.lan_url {
            Some(u) => u@,
            None => r.pairing.local_url@,
        }),
        r.server_status.token_enabled == (crate::text::trim(settings.token@).len() > 0),
        crate::host_surface::groups_view(r.readiness@) == windows_readiness_spec(),
        r.settings.port == settings.port,
        r.settings.token_summary@ == "Token saved on this PC"@,
        status_view(r.settings.launch_at_login) == (
            "manual"@,
            Some("Launch at login is still manual in the Windows beta."@),
        ),
        table_view(r.actions@) == windows_action_table(),
{
    HostSurfaceState {
        pairing: settings.pairing_links(lan_host),
        server_status: settings.server_status(),
        readiness: readiness_groups(),
        settings: SettingsSummary {
            port: settings.port,
            token_summary: String::from_str("Token saved on this PC"),
            launch_at_login: capability("manual", Some("Launch at login is still manual in the Windows beta.")),
        },
        actions: action_capabilities(),
    }
}

} // verus!
