//! The host surface: what the desktop window and tray show about pairing,
//! the server, readiness and actions.

use vstd::prelude::*;
use crate::actions::{CapabilityStatus, CapabilityView, Platform, action_capabilities, capability, plain, registry, platform_capability_spec};
use crate::codex::{CodexProbes, opt_string};
use crate::settings::{RuntimeSettings, control_url_spec, ipv4_text};
use crate::text::{chars_of, decimal, decimal_string, trim, trim_chars};

verus! {

/// The URLs that pair a phone with the host.
#[derive(Debug, Clone)]
pub struct PairingLinks {
    pub preferred_url: String,
    pub lan_url: Option<String>,
    pub local_url: String,
    pub token: Option<String>,
}

/// Where the server listens and whether it runs.
#[derive(Debug, Clone)]
pub struct ServerStatus {
    pub host: String,
    pub port: u16,
    pub bind_address: String,
    pub token_enabled: bool,
    pub running: bool,
    pub reason: Option<String>,
}

/// A group of readiness items.
#[derive(Debug, Clone)]
pub struct ReadinessGroup {
    pub title: &'static str,
    pub items: Vec<ReadinessItem>,
}

/// Whether one capability is ready.
#[derive(Debug, Clone)]
pub struct ReadinessItem {
    pub label: &'static str,
    pub state: &'static str,
    pub note: Option<String>,
}

/// The settings that the surface shows.
#[derive(Debug, Clone)]
pub struct SettingsSummary {
    pub port: u16,
    pub token_summary: String,
    pub launch_at_login: CapabilityStatus,
}

/// Everything that the host surface shows.
#[derive(Debug, Clone)]
pub struct HostSurfaceState {
    pub pairing: PairingLinks,
    pub server_status: ServerStatus,
    pub readiness: Vec<ReadinessGroup>,
    pub settings: SettingsSummary,
    pub actions: Vec<(String, CapabilityStatus)>,
}

/// A readiness item as texts.
pub open spec fn item_view(i: ReadinessItem) -> (Seq<char>, Seq<char>, Option<Seq<char>>) {
    (i.label@, i.state@, opt_string(i.note))
}

/// The readiness groups as texts.
pub open spec fn groups_view(g: Seq<ReadinessGroup>) -> Seq<(Seq<char>, Seq<(Seq<char>, Seq<char>, Option<Seq<char>>)>)> {
    Seq::new(g.len(), |i: int| (g[i].title@, Seq::new(g[i].items@.len(), |j: int| item_view(g[i].items@[j]))))
}

/// The readiness that the desktop host reports on each platform.
pub open spec fn readiness_spec(p: Platform) -> Seq<(Seq<char>, Seq<(Seq<char>, Seq<char>, Option<Seq<char>>)>)> {
    match p {
        Platform::Linux => seq![
            ("Core input readiness"@, seq![
                ("Pointer"@, "ready"@, None), ("Keyboard"@, "ready"@, None),
                ("Text transfer"@, "ready"@, None), ("Paste"@, "ready"@, None),
            ]),
            ("Action readiness"@, seq![
                ("Screenshot"@, "ready"@, None), ("Recording"@, "ready"@, None),
                ("Audio capture"@, "ready"@, None), ("Window control"@, "ready"@, None),
                ("Night Light"@, "ready"@, None), ("Media control"@, "ready"@, None),
            ]),
            ("Deferred action readiness"@, seq![
                ("Webcam recording"@, "deferred"@, Some("Requires v4l2, ffplay, and an available webcam device."@)),
            ]),
        ],
        Platform::Windows => seq![
            ("Core input readiness"@, seq![
                ("Pointer"@, "ready"@, None), ("Keyboard"@, "ready"@, None),
                ("Text transfer"@, "ready"@, None), ("Paste"@, "ready"@, None),
            ]),
            ("Action readiness"@, seq![
                ("Screenshot"@, "ready"@, None),
                ("Recording"@, "degraded"@, Some("Use Xbox Game Bar until TapPad-managed recording ships on Windows."@)),
                ("Audio capture"@, "degraded"@, Some("Desktop-plus-mic capture is still handled outside TapPad on Windows."@)),
                ("Window control"@, "ready"@, None),
                ("Night Light"@, "degraded"@, Some("TapPad opens Night light settings instead of toggling immediately."@)),
                ("Media control"@, "ready"@, None),
            ]),
        ],
        _ => seq![
            ("Desktop host readiness"@, seq![
                ("Unified Tauri host"@, "deferred"@, Some("This host surface targets Linux and Windows; macOS keeps the native host surface."@)),
            ]),
        ],
    }
}

/// A readiness item.
pub fn readiness(label: &'static str, state: &'static str, note: Option<&str>) -> (r: ReadinessItem)
    ensures
        item_view(r) == (label@, state@, crate::actions::opt_str(note)),
{
    ReadinessItem {
        label,
        state,
        note: match note {
            Some(n) => Some(String::from_str(n)),
            None => None,
        },
    }
}

fn group(title: &'static str, items: Vec<ReadinessItem>) -> (g: ReadinessGroup)
    ensures
        g.title == title,
        g.items@ == items@,
{
    ReadinessGroup { title, items }
}

fn core_input_group() -> (g: ReadinessGroup)
    ensures
        groups_view(seq![g]) == readiness_spec(Platform::Linux).subrange(0, 1),
{
    let mut items: Vec<ReadinessItem> = Vec::new();
    items.push(readiness("Pointer", "ready", None));
    items.push(readiness("Keyboard", "ready", None));
    items.push(readiness("Text transfer", "ready", None));
    items.push(readiness("Paste", "ready", None));
    let g = group("Core input readiness", items);
    assert(groups_view(seq![g]) =~= readiness_spec(Platform::Linux).subrange(0, 1)) by {
        assert(groups_view(seq![g])[0].1 =~= readiness_spec(Platform::Linux)[0].1);
    }
    g
}

/// The readiness groups that the host surface shows on a platform.
pub fn readiness_groups(p: Platform) -> (r: Vec<ReadinessGroup>)
    ensures
        groups_view(r@) == readiness_spec(p),
{
    let mut groups: Vec<ReadinessGroup> = Vec::new();
    match p {
        Platform::Linux => {
            groups.push(core_input_group());
            let mut items: Vec<ReadinessItem> = Vec::new();
            items.push(readiness("Screenshot", "ready", None));
            items.push(readiness("Recording", "ready", None));
            items.push(readiness("Audio capture", "ready", None));
            items.push(readiness("Window control", "ready", None));
            items.push(readiness("Night Light", "ready", None));
            items.push(readiness("Media control", "ready", None));
            groups.push(group("Action readiness", items));
            let mut deferred: Vec<ReadinessItem> = Vec::new();
            deferred.push(readiness("Webcam recording", "deferred", Some("Requires v4l2, ffplay, and an available webcam device.")));
            groups.push(group("Deferred action readiness", deferred));
            assert(groups_view(groups@)[0] == readiness_spec(p)[0]) by {
                assert(groups_view(seq![groups@[0]])[0] == groups_view(groups@)[0]);
            }
            assert(groups_view(groups@)[1].1 =~= readiness_spec(p)[1].1);
            assert(groups_view(groups@)[2].1 =~= readiness_spec(p)[2].1);
        },
        Platform::Windows => {
            groups.push(core_input_group());
            let mut items: Vec<ReadinessItem> = Vec::new();
            items.push(readiness("Screenshot", "ready", None));
            items.push(readiness("Recording", "degraded", Some("Use Xbox Game Bar until TapPad-managed recording ships on Windows.")));
            items.push(readiness("Audio capture", "degraded", Some("Desktop-plus-mic capture is still handled outside TapPad on Windows.")));
            items.push(readiness("Window control", "ready", None));
            items.push(readiness("Night Light", "degraded", Some("TapPad opens Night light settings instead of toggling immediately.")));
            items.push(readiness("Media control", "ready", None));
            groups.push(group("Action readiness", items));
            assert(groups_view(groups@)[0] == readiness_spec(p)[0]) by {
                assert(groups_view(seq![groups@[0]])[0] == groups_view(groups@)[0]);
                assert(readiness_spec(Platform::Linux)[0] == readiness_spec(p)[0]);
            }
            assert(groups_view(groups@)[1].1 =~= readiness_spec(p)[1].1);
        },
        _ => {
            let mut items: Vec<ReadinessItem> = Vec::new();
            items.push(readiness("Unified Tauri host", "deferred", Some("This host surface targets Linux and Windows; macOS keeps the native host surface.")));
            groups.push(group("Desktop host readiness", items));
            assert(groups_view(groups@)[0].1 =~= readiness_spec(p)[0].1);
        },
    }
    assert(groups_view(groups@) =~= readiness_spec(p));
    groups
}

/// The pairing URLs: the LAN URL is preferred when a LAN address is known.
pub fn pairing_links(settings: &RuntimeSettings, include_pairing_token: bool) -> (r: PairingLinks)
    ensures
        r.local_url@ == control_url_spec(settings.hostname@, settings.port, if include_pairing_token { Some(settings.token@) } else { None }),
        r.lan_url is Some <==> settings.lan_host is Some,
        r.lan_url matches Some(u) ==> u@ == control_url_spec(ipv4_text(settings.lan_host->0), settings.port, if include_pairing_token { Some(settings.token@) } else { None }),
        r.preferred_url@ == (match r.lan_url { Some(u) => u@, None => r.local_url@ }),
        opt_string(r.token) == (if include_pairing_token { Some(settings.token@) } else { None }),
{
    let local_url = settings.local_url(include_pairing_token);
    let lan_url = settings.lan_url(include_pairing_token);
    let preferred_url = match &lan_url {
        Some(u) => String::from_str(u.as_str()),
        None => String::from_str(local_url.as_str()),
    };
    PairingLinks {
        preferred_url,
        lan_url,
        local_url,
        token: if include_pairing_token { Some(String::from_str(settings.token.as_str())) } else { None },
    }
}

/// The tray's one-line status: the port while running, else the reason the
/// server stopped, or a request for attention when there is no reason.
pub open spec fn tray_label_spec(running: bool, port: u16, reason: Option<Seq<char>>) -> Seq<char> {
    if running {
        "TapPad: Running on :"@ + decimal(port as nat)
    } else {
        match reason {
            Some(r) => if trim(r).len() > 0 { "TapPad: "@ + r } else { "TapPad: Needs Attention"@ },
            None => "TapPad: Needs Attention"@,
        }
    }
}

/// The tray's one-line status.
pub fn tray_status_label(status: &ServerStatus) -> (r: String)
    ensures
        r@ == tray_label_spec(status.running, status.port, opt_string(status.reason)),
{
    if status.running {
        let mut s = String::from_str("TapPad: Running on :");
        let digits = decimal_string(status.port as u64);
        s.append(digits.as_str());
        return s;
    }
    match &status.reason {
        Some(reason) => {
            let chars = chars_of(reason.as_str());
            let trimmed = trim_chars(&chars);
            if trimmed.len() > 0 {
                let mut s = String::from_str("TapPad: ");
                s.append(reason.as_str());
                s
            } else {
                String::from_str("TapPad: Needs Attention")
            }
        },
        None => String::from_str("TapPad: Needs Attention"),
    }
}

/// Everything that the host surface shows for the running host.
pub fn host_surface_state(
    settings: &RuntimeSettings,
    backend_running: bool,
    backend_reason: Option<&str>,
    include_pairing_token: bool,
    p: Platform,
    probes: &CodexProbes,
) -> (r: HostSurfaceState)
    ensures
        r.pairing.local_url@ == control_url_spec(settings.hostname@, settings.port, if include_pairing_token { Some(settings.token@) } else { None }),
        r.pairing.preferred_url@ == (match r.pairing.lan_url { Some(u) => u@, None => r.pairing.local_url@ }),
        opt_string(r.pairing.token) == (if include_pairing_token { Some(settings.token@) } else { None }),
        r.server_status.host@ == settings.hostname@,
        r.server_status.port == settings.port,
        r.server_status.bind_address@ == settings.bind_host@,
        r.server_status.token_enabled == (trim(settings.token@).len() > 0),
        r.server_status.running == backend_running,
        opt_string(r.server_status.reason) == crate::actions::opt_str(backend_reason),
        groups_view(r.readiness@) == readiness_spec(p),
        r.settings.port == settings.port,
        r.settings.token_summary@ == "Pairing token saved locally"@,
        r.settings.launch_at_login@ == plain(
            if settings.launch_at_login { "enabled"@ } else { "disabled"@ },
            Some("Managed by the Tauri autostart plugin."@),
        ),
        r.actions@.len() == registry(p).len(),
        forall|i: int| 0 <= i < r.actions@.len() ==> r.actions@[i].0@ == registry(p)[i],
        forall|i: int| 0 <= i < r.actions@.len() ==> r.actions@[i].1@ == platform_capability_spec(p, *probes, registry(p)[i]),
{
    let token_chars = chars_of(settings.token.as_str());
    let token_trimmed = trim_chars(&token_chars);
    HostSurfaceState {
        pairing: pairing_links(settings, include_pairing_token),
        server_status: ServerStatus {
            host: String::from_str(settings.hostname.as_str()),
            port: settings.port,
            bind_address: String::from_str(settings.bind_host.as_str()),
            token_enabled: token_trimmed.len() > 0,
            running: backend_running,
            reason: match backend_reason {
                Some(reason) => Some(String::from_str(reason)),
                None => None,
            },
        },
        readiness: readiness_groups(p),
        settings: SettingsSummary {
            port: settings.port,
            token_summary: String::from_str("Pairing token saved locally"),
            launch_at_login: capability(
                if settings.launch_at_login { "enabled" } else { "disabled" },
                Some("Managed by the Tauri autostart plugin."),
            ),
        },
        actions: action_capabilities(p, probes),
    }
}

/// The mDNS alias of the Omarchy host: a name of its own, derived from its
/// stable host id, that does not claim the machine's own `.local` name.
pub open spec fn mdns_alias_spec(host_id: Seq<char>) -> Seq<char> {
    "tappad-"@ + host_id + ".local"@
}

/// The mDNS alias of a host id.
pub fn mdns_alias(host_id: &str) -> (r: String)
    ensures
        r@ == mdns_alias_spec(host_id@),
{
    let mut alias = String::from_str("tappad-");
    alias.append(host_id);
    alias.append(".local");
    alias
}

/// The fully qualified name that the Omarchy host publishes over mDNS.
pub open spec fn mdns_host_name_spec(host_id: Seq<char>) -> Seq<char> {
    mdns_alias_spec(host_id) + "."@
}

/// The fully qualified mDNS name of a host id.
pub fn mdns_host_name(host_id: &str) -> (r: String)
    ensures
        r@ == mdns_host_name_spec(host_id@),
{
    let mut host = mdns_alias(host_id);
    host.append(".");
    host
}

/// The TXT properties of the host's DNS-SD service: its id, its machine
/// name, its mDNS host name, the page's path, the token authentication, the
/// protocol version, and its LAN address when one is known.
pub open spec fn discovery_txt_spec(host_id: Seq<char>, hostname: Seq<char>, lan_host: Option<[u8; 4]>) -> Seq<(Seq<char>, Seq<char>)> {
    seq![
        ("id"@, host_id),
        ("name"@, hostname),
        ("host"@, mdns_host_name_spec(host_id)),
        ("path"@, "/"@),
        ("auth"@, "token"@),
        ("version"@, "1"@),
    ] + match lan_host {
        Some(a) => seq![("ipv4"@, ipv4_text(a))],
        None => Seq::empty(),
    }
}

/// A pair of texts as views.
pub open spec fn pair_texts(v: Seq<(String, String)>) -> Seq<(Seq<char>, Seq<char>)> {
    v.map_values(|p: (String, String)| (p.0@, p.1@))
}

fn text_pair(key: &str, value: &str) -> (r: (String, String))
    ensures
        r.0@ == key@,
        r.1@ == value@,
{
    (String::from_str(key), String::from_str(value))
}

/// The TXT properties that the host publishes with its DNS-SD service.
pub fn discovery_txt(host_id: &str, hostname: &str, lan_host: Option<[u8; 4]>) -> (r: Vec<(String, String)>)
    ensures
        pair_texts(r@) == discovery_txt_spec(host_id@, hostname@, lan_host),
{
    let host = mdns_host_name(host_id);
    let mut v: Vec<(String, String)> = Vec::new();
    v.push(text_pair("id", host_id));
    v.push(text_pair("name", hostname));
    v.push(text_pair("host", host.as_str()));
    v.push(text_pair("path", "/"));
    v.push(text_pair("auth", "token"));
    v.push(text_pair("version", "1"));
    match lan_host {
        Some(a) => {
            let address = crate::settings::ipv4_string(a);
            v.push(text_pair("ipv4", address.as_str()));
        },
        None => {},
    }
    assert(pair_texts(v@) =~= discovery_txt_spec(host_id@, hostname@, lan_host));
    v
}

/// The readiness that the Omarchy host reports.
pub open spec fn omarchy_readiness_spec() -> Seq<(Seq<char>, Seq<(Seq<char>, Seq<char>, Option<Seq<char>>)>)> {
    seq![
        ("Core input readiness"@, seq![
            ("Pointer"@, "ready"@, None), ("Keyboard"@, "ready"@, None),
            ("Text transfer"@, "ready"@, None), ("Paste"@, "ready"@, None),
        ]),
        ("Action readiness"@, seq![
            ("Screenshot"@, "ready"@, None), ("Recording"@, "ready"@, None),
            ("Audio capture"@, "ready"@, None), ("Window control"@, "ready"@, None),
            ("Media control"@, "ready"@, None),
        ]),
        ("Deferred action readiness"@, seq![
            ("Webcam recording"@, "deferred"@, Some("Requires v4l2, ffplay, and an available webcam device."@)),
        ]),
    ]
}

/// The readiness groups of the Omarchy host.
pub fn omarchy_readiness_groups() -> (r: Vec<ReadinessGroup>)
    ensures
        groups_view(r@) == omarchy_readiness_spec(),
{
    let mut groups: Vec<ReadinessGroup> = Vec::new();
    groups.push(core_input_group());
    let mut items: Vec<ReadinessItem> = Vec::new();
    items.push(readiness("Screenshot", "ready", None));
    items.push(readiness("Recording", "ready", None));
    items.push(readiness("Audio capture", "ready", None));
    items.push(readiness("Window control", "ready", None));
    items.push(readiness("Media control", "ready", None));
    groups.push(group("Action readiness", items));
    let mut deferred: Vec<ReadinessItem> = Vec::new();
    deferred.push(readiness("Webcam recording", "deferred", Some("Requires v4l2, ffplay, and an available webcam device.")));
    groups.push(group("Deferred action readiness", deferred));
    assert(groups_view(groups@)[0] == omarchy_readiness_spec()[0]) by {
        assert(groups_view(seq![groups@[0]])[0] == groups_view(groups@)[0]);
        assert(readiness_spec(Platform::Linux)[0] == omarchy_readiness_spec()[0]);
    }
    assert(groups_view(groups@)[1].1 =~= omarchy_readiness_spec()[1].1);
    assert(groups_view(groups@)[2].1 =~= omarchy_readiness_spec()[2].1);
    assert(groups_view(groups@) =~= omarchy_readiness_spec());
    groups
}

/// The pairing URLs of the Omarchy host: the local URL names its mDNS alias,
/// and the LAN URL, preferred when a LAN address is known, its address.
pub fn omarchy_pairing_links(settings: &RuntimeSettings, host_id: &str, include_pairing_token: bool) -> (r: PairingLinks)
    ensures
        r.local_url@ == control_url_spec(mdns_alias_spec(host_id@), settings.port, if include_pairing_token { Some(settings.token@) } else { None }),
        r.lan_url is Some <==> settings.lan_host is Some,
        r.lan_url matches Some(u) ==> u@ == control_url_spec(ipv4_text(settings.lan_host->0), settings.port, if include_pairing_token { Some(settings.token@) } else { None }),
        r.preferred_url@ == (match r.lan_url { Some(u) => u@, None => r.local_url@ }),
        opt_string(r.token) == (if include_pairing_token { Some(settings.token@) } else { None }),
{
    let alias = mdns_alias(host_id);
    let local_url = if include_pairing_token {
        crate::settings::control_url(alias.as_str(), settings.port, Some(settings.token.as_str()))
    } else {
        crate::settings::control_url(alias.as_str(), settings.port, None)
    };
    let lan_url = settings.lan_url(include_pairing_token);
    let preferred_url = match &lan_url {
        Some(u) => String::from_str(u.as_str()),
        None => String::from_str(local_url.as_str()),
    };
    PairingLinks {
        preferred_url,
        lan_url,
        local_url,
        token: if include_pairing_token { Some(String::from_str(settings.token.as_str())) } else { None },
    }
}

/// Everything that the Omarchy host's surface shows: as the desktop host's,
/// but paired through the host's mDNS alias, with the Omarchy readiness and a
/// login start managed by the host's systemd user service.
pub fn omarchy_host_surface_state(
    settings: &RuntimeSettings,
    host_id: &str,
    backend_running: bool,
    backend_reason: Option<&str>,
    include_pairing_token: bool,
    probes: &CodexProbes,
) -> (r: HostSurfaceState)
    ensures
        r.pairing.local_url@ == control_url_spec(mdns_alias_spec(host_id@), settings.port, if include_pairing_token { Some(settings.token@) } else { None }),
        r.pairing.lan_url is Some <==> settings.lan_host is Some,
        r.pairing.lan_url matches Some(u) ==> u@ == control_url_spec(ipv4_text(settings.lan_host->0), settings.port, if include_pairing_token { Some(settings.token@) } else { None }),
        r.pairing.preferred_url@ == (match r.pairing.lan_url { Some(u) => u@, None => r.pairing.local_url@ }),
        opt_string(r.pairing.token) == (if include_pairing_token { Some(settings.token@) } else { None }),
        r.server_status.host@ == settings.hostname@,
        r.server_status.port == settings.port,
        r.server_status.bind_address@ == settings.bind_host@,
        r.server_status.token_enabled == (trim(settings.token@).len() > 0),
        r.server_status.running == backend_running,
        opt_string(r.server_status.reason) == crate::actions::opt_str(backend_reason),
        groups_view(r.readiness@) == omarchy_readiness_spec(),
        r.settings.port == settings.port,
        r.settings.token_summary@ == "Pairing token saved locally"@,
        r.settings.launch_at_login@ == plain(
            if settings.launch_at_login { "enabled"@ } else { "disabled"@ },
            Some("Managed by the tappad-host systemd user service."@),
        ),
        r.actions@.len() == registry(Platform::Linux).len(),
        forall|i: int| 0 <= i < r.actions@.len() ==> r.actions@[i].0@ == registry(Platform::Linux)[i],
        forall|i: int| 0 <= i < r.actions@.len() ==> r.actions@[i].1@ == platform_capability_spec(Platform::Linux, *probes, registry(Platform::Linux)[i]),
{
    let token_chars = chars_of(settings.token.as_str());
    let token_trimmed = trim_chars(&token_chars);
    HostSurfaceState {
        pairing: omarchy_pairing_links(settings, host_id, include_pairing_token),
        server_status: ServerStatus {
            host: String::from_str(settings.hostname.as_str()),
            port: settings.port,
            bind_address: String::from_str(settings.bind_host.as_str()),
            token_enabled: token_trimmed.len() > 0,
            running: backend_running,
            reason: match backend_reason {
                Some(reason) => Some(String::from_str(reason)),
                None => None,
            },
        },
        readiness: omarchy_readiness_groups(),
        settings: SettingsSummary {
            port: settings.port,
            token_summary: String::from_str("Pairing token saved locally"),
            launch_at_login: capability(
                if settings.launch_at_login { "enabled" } else { "disabled" },
                Some("Managed by the tappad-host systemd user service."),
            ),
        },
        actions: action_capabilities(Platform::Linux, probes),
    }
}

/// What the host surface says of a backend that failed to start.
pub open spec fn backend_error_reason_spec(error: Seq<char>) -> Seq<char> {
    if crate::host::contains_text(error, "Address already in use"@) {
        "port is already in use"@
    } else if crate::text::trim(error).len() == 0 {
        "backend failed to start"@
    } else {
        error
    }
}

/// The reason shown for a backend that failed to start with an error text:
/// a busy port is named, a blank error becomes a generic sentence.
pub fn backend_error_reason(error: &str) -> (r: String)
    ensures
        r@ == backend_error_reason_spec(error@),
{
    let chars = crate::text::chars_of(error);
    let needle = crate::text::chars_of("Address already in use");
    if crate::host::text_contains(&chars, &needle) {
        return String::from_str("port is already in use");
    }
    let trimmed = crate::text::trim_chars(&chars);
    if trimmed.len() == 0 {
        String::from_str("backend failed to start")
    } else {
        String::from_str(error)
    }
}

/// The state of the desktop backend: running (with whether its task has
/// ended), or stopped with a reason.
#[derive(Debug, Clone)]
pub enum BackendState {
    Running { task_finished: bool },
    Stopped { reason: String },
}

impl BackendState {
    /// Whether the backend serves clients.
    pub fn is_running(&self) -> (r: bool)
        ensures
            r == (*self matches BackendState::Running { task_finished } && !task_finished),
    {
        match self {
            BackendState::Running { task_finished } => !*task_finished,
            BackendState::Stopped { .. } => false,
        }
    }

    /// Why the backend does not serve clients, if it does not.
    pub fn reason(&self) -> (r: Option<String>)
        ensures
            match *self {
                BackendState::Running { task_finished } => if task_finished {
                    r matches Some(t) && t@ == "backend task stopped unexpectedly"@
                } else {
                    r is None
                },
                BackendState::Stopped { reason } => r matches Some(t) && t@ == reason@,
            },
    {
        match self {
            BackendState::Running { task_finished } => {
                if *task_finished {
                    Some(String::from_str("backend task stopped unexpectedly"))
                } else {
                    None
                }
            },
            BackendState::Stopped { reason } => Some(reason.clone()),
        }
    }
}

/// What the controller does after trying to start a backend with new settings.
#[derive(Debug, Clone, PartialEq, Eq)]
pub enum Replacement {
    /// The start failed while the old backend runs: the old one is kept and
    /// the error is returned.
    KeepPrevious,
    /// The start failed while no backend ran: the new settings are saved and
    /// the backend is marked stopped with this reason.
    SaveStopped { reason: String },
    /// The new backend runs: the new settings are saved and the old backend
    /// is shut down.
    SaveRunning,
}

/// Decides what replacing the backend leads to, from whether the previous
/// backend was running and the error text of the new start, if it failed.
pub fn replacement(previous_was_running: bool, start_error: Option<&str>) -> (r: Replacement)
    ensures
        start_error is None ==> r == Replacement::SaveRunning,
        start_error is Some && previous_was_running ==> r == Replacement::KeepPrevious,
        start_error is Some && !previous_was_running ==> (r matches Replacement::SaveStopped { reason } && reason@
            == backend_error_reason_spec(start_error->0@)),
{
    match start_error {
        None => Replacement::SaveRunning,
        Some(e) => {
            if previous_was_running {
                Replacement::KeepPrevious
            } else {
                Replacement::SaveStopped { reason: backend_error_reason(e) }
            }
        },
    }
}

/// What the tray does for a menu item.
#[derive(Debug, Clone, Copy, PartialEq, Eq)]
pub enum TrayCommand {
    /// The host window is shown on a view.
    ShowView(&'static str),
    Quit,
}

/// The command of a tray menu item: show pairing, open settings, or quit;
/// none for any other item.
pub fn tray_menu_command(id: &str) -> (r: Option<TrayCommand>)
    ensures
        id@ == "show-pairing"@ ==> (r matches Some(TrayCommand::ShowView(v)) && v@ == "pairing"@),
        id@ == "open-settings"@ ==> (r matches Some(TrayCommand::ShowView(v)) && v@ == "settings"@),
        id@ == "quit"@ ==> r == Some(TrayCommand::Quit),
        id@ != "show-pairing"@ && id@ != "open-settings"@ && id@ != "quit"@ ==> r is None,
{
    broadcast use vstd::string::axiom_str_literal_len, vstd::string::axiom_str_literal_get_char;

    proof {
        reveal_strlit("show-pairing");
        reveal_strlit("open-settings");
        reveal_strlit("quit");
        assert("show-pairing"@[0] == 's');
        assert("open-settings"@[0] == 'o');
        assert("quit"@[0] == 'q');
        assert("show-pairing"@ != "open-settings"@);
        assert("show-pairing"@ != "quit"@);
        assert("open-settings"@ != "quit"@);
    }
    if crate::text::str_eq(id, "show-pairing") {
        Some(TrayCommand::ShowView("pairing"))
    } else if crate::text::str_eq(id, "open-settings") {
        Some(TrayCommand::ShowView("settings"))
    } else if crate::text::str_eq(id, "quit") {
        Some(TrayCommand::Quit)
    } else {
        None
    }
}

/// Whether closing a window hides it to the tray: only the main window, and
/// only while the tray exists.
pub fn hides_to_tray(window_label: &str, tray_exists: bool) -> (r: bool)
    ensures
        r == (window_label@ == "main"@ && tray_exists),
{
    crate::text::str_eq(window_label, "main") && tray_exists
}

/// The mobile page with the action manifest (JSON) placed in a script before
/// each `</head>`.
pub fn render_mobile_index(html: &str, manifest: &str) -> (r: String)
    ensures
        r@ == crate::text::replace_spec(
            html@,
            "</head>"@,
            "<script>window.__TAPPAD_ACTIONS__ = "@ + manifest@ + ";</script>"@ + "\n</head>"@,
        ),
{
    proof {
        reveal_strlit("</head>");
    }
    let mut replacement = String::from_str("<script>window.__TAPPAD_ACTIONS__ = ");
    replacement.append(manifest);
    replacement.append(";</script>");
    replacement.append("\n</head>");
    crate::text::replace_all(html, "</head>", replacement.as_str())
}

/// The protocol version and input capabilities that a host's state reports.
#[derive(Debug, Clone)]
pub struct ProtocolState {
    pub version: u16,
    pub input_capabilities: crate::protocol::InputCapabilities,
}

/// The protocol part of a host's state, from its contract.
pub fn protocol_state(contract: &crate::protocol::HostContract) -> (r: ProtocolState)
    ensures
        r.version == contract.protocol_version,
        r.input_capabilities == contract.input_capabilities,
{
    ProtocolState {
        version: contract.protocol_version,
        input_capabilities: crate::protocol::InputCapabilities {
            pointer_button: crate::protocol::InputCapabilityStatus {
                state: contract.input_capabilities.pointer_button.state,
                note: contract.input_capabilities.pointer_button.note,
            },
        },
    }
}

/// A path joined with a relative name, as `Path::join` does on Unix.
pub open spec fn join_path(dir: Seq<char>, name: Seq<char>) -> Seq<char> {
    if dir.len() == 0 {
        name
    } else if dir.last() == '/' {
        dir + name
    } else {
        dir + "/"@ + name
    }
}

/// Where the desktop host keeps its settings in its data directory.
pub fn settings_path(data_dir: &str) -> (r: String)
    ensures
        r@ == join_path(data_dir@, "settings.json"@),
{
    let n = data_dir.unicode_len();
    if n == 0 {
        return String::from_str("settings.json");
    }
    let mut r = String::from_str(data_dir);
    if data_dir.get_char(n - 1) != '/' {
        r.append("/");
    }
    r.append("settings.json");
    r
}

} // verus!
