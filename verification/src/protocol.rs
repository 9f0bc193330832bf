//! Messages between the mobile client and the host, the host contract, and
//! the routing of client messages to backend effects.

use vstd::prelude::*;
use crate::actions::{CapabilityStatus, Platform, action_capabilities, registry, platform_capability_spec};
use crate::codex::{CodexProbes, opt_text};
use crate::text::str_eq;

verus! {

/// The version of the client protocol.
pub const PROTOCOL_VERSION: u16 = 2;

/// The version of the host contract.
pub const HOST_CONTRACT_VERSION: u16 = 1;

/// The capability of one kind of input.
#[derive(Debug, Clone, PartialEq, Eq)]
pub struct InputCapabilityStatus {
    pub state: &'static str,
    pub note: Option<&'static str>,
}

impl InputCapabilityStatus {
    /// Whether the input is supported.
    pub fn is_supported(&self) -> (r: bool)
        ensures
            r == (self.state@ == "supported"@),
    {
        str_eq(self.state, "supported")
    }
}

/// The input capabilities that a host advertises.
#[derive(Debug, Clone, PartialEq, Eq)]
pub struct InputCapabilities {
    pub pointer_button: InputCapabilityStatus,
}

/// Whether a platform's input backend can hold pointer buttons.
pub open spec fn pointer_button_supported(p: Platform) -> bool {
    p == Platform::Linux
}

/// The input capabilities of a platform, as a value.
pub open spec fn input_capabilities_spec(p: Platform) -> InputCapabilities {
    if pointer_button_supported(p) {
        InputCapabilities { pointer_button: InputCapabilityStatus { state: "supported", note: None } }
    } else {
        InputCapabilities {
            pointer_button: InputCapabilityStatus {
                state: "unsupported",
                note: Some("Pointer button hold is unavailable on this target backend."),
            },
        }
    }
}

/// The input capabilities of a platform: pointer button hold is supported by
/// the Linux backend and unavailable elsewhere.
pub fn input_capabilities(p: Platform) -> (c: InputCapabilities)
    ensures
        c == input_capabilities_spec(p),
        pointer_button_supported(p) ==> c.pointer_button.state@ == "supported"@ && c.pointer_button.note is None,
        !pointer_button_supported(p) ==> c.pointer_button.state@ == "unsupported"@ && opt_text(c.pointer_button.note)
            == Some("Pointer button hold is unavailable on this target backend."@),
{
    match p {
        Platform::Linux => InputCapabilities {
            pointer_button: InputCapabilityStatus { state: "supported", note: None },
        },
        _ => InputCapabilities {
            pointer_button: InputCapabilityStatus {
                state: "unsupported",
                note: Some("Pointer button hold is unavailable on this target backend."),
            },
        },
    }
}

/// What a host offers: its contract and protocol versions, its input
/// capabilities, and the capability of every registered action.
#[derive(Debug, Clone)]
pub struct HostContract {
    pub version: u16,
    pub protocol_version: u16,
    pub input_capabilities: InputCapabilities,
    pub action_capabilities: Vec<(String, CapabilityStatus)>,
}

/// The contract of a host on a platform.
pub fn current_host_contract(p: Platform, probes: &CodexProbes) -> (c: HostContract)
    ensures
        c.version == HOST_CONTRACT_VERSION,
        c.protocol_version == PROTOCOL_VERSION,
        c.input_capabilities == input_capabilities_spec(p),
        c.input_capabilities.pointer_button.state@ == (if pointer_button_supported(p) { "supported"@ } else {
            "unsupported"@
        }),
        c.action_capabilities@.len() == registry(p).len(),
        forall|i: int| 0 <= i < c.action_capabilities@.len() ==> c.action_capabilities@[i].0@ == registry(p)[i],
        forall|i: int| 0 <= i < c.action_capabilities@.len() ==> c.action_capabilities@[i].1@
            == platform_capability_spec(p, *probes, registry(p)[i]),
{
    HostContract {
        version: HOST_CONTRACT_VERSION,
        protocol_version: PROTOCOL_VERSION,
        input_capabilities: input_capabilities(p),
        action_capabilities: action_capabilities(p, probes),
    }
}

/// A message from the client, with pointer deltas already rounded to whole pixels.
#[derive(Debug, Clone, PartialEq, Eq)]
pub enum ClientMessage {
    Move { dx: i32, dy: i32 },
    Wheel { dy: i32 },
    Click { button: String, click_count: u8 },
    PointerButton { button: String, down: bool },
    Key { code: String, down: bool },
    Text { value: String },
    Paste { value: String },
    Cmd { action: String },
    Authorize { password: String },
}

/// The click count of a click message that names none.
pub fn default_click_count() -> (n: u8)
    ensures
        n == 1,
{
    1
}

/// A message from the host to the client.
#[derive(Debug, Clone)]
pub enum ServerMessage {
    Ready {
        host: String,
        time: u64,
        protocol_version: u16,
        input_capabilities: InputCapabilities,
        contract: HostContract,
    },
    Error { code: &'static str, message: String },
    ActionResult { action: String, status: &'static str, message: String },
}

impl ServerMessage {
    /// The greeting that tells a new client what the host offers; `time` is
    /// the current time in milliseconds since the Unix epoch.
    pub fn ready(host: String, contract: HostContract, time: u64) -> (m: ServerMessage)
        ensures
            m matches ServerMessage::Ready { host: h, time: t, protocol_version: v, input_capabilities: i, contract: c }
                && h == host && t == time && v == contract.protocol_version && i == contract.input_capabilities
                && c == contract,
    {
        let protocol_version = contract.protocol_version;
        let input_capabilities = InputCapabilities {
            pointer_button: InputCapabilityStatus {
                state: contract.input_capabilities.pointer_button.state,
                note: contract.input_capabilities.pointer_button.note,
            },
        };
        ServerMessage::Ready { host, time, protocol_version, input_capabilities, contract }
    }

    /// An error with a stable code and a message.
    pub fn error(code: &'static str, message: &str) -> (m: ServerMessage)
        ensures
            m matches ServerMessage::Error { code: c, message: t } && c == code && t@ == message@,
    {
        ServerMessage::Error { code, message: String::from_str(message) }
    }

    /// The outcome of an action that reports its result.
    pub fn action_result(action: &str, status: &'static str, message: &str) -> (m: ServerMessage)
        ensures
            m matches ServerMessage::ActionResult { action: a, status: s, message: t } && a@ == action@ && s == status
                && t@ == message@,
    {
        ServerMessage::ActionResult {
            action: String::from_str(action),
            status,
            message: String::from_str(message),
        }
    }
}

/// What the backend does for a routed client message.
#[derive(Debug, Clone, PartialEq, Eq)]
pub enum BackendEffect {
    Move { dx: i32, dy: i32 },
    Wheel { dy: i32 },
    Click { button: String, click_count: u8 },
    PointerButton { button: String, down: bool },
    Key { code: String, down: bool },
    Text { value: String },
    Paste { value: String },
    Cmd { action: String },
    Authorize { password: String },
}

/// Whether a message moves the pointer or the wheel.
pub open spec fn is_motion(m: ClientMessage) -> bool {
    m is Move || m is Wheel
}

/// The effect that a client message asks for.
pub open spec fn effect_of(m: ClientMessage) -> BackendEffect {
    match m {
        ClientMessage::Move { dx, dy } => BackendEffect::Move { dx, dy },
        ClientMessage::Wheel { dy } => BackendEffect::Wheel { dy },
        ClientMessage::Click { button, click_count } => BackendEffect::Click { button, click_count },
        ClientMessage::PointerButton { button, down } => BackendEffect::PointerButton { button, down },
        ClientMessage::Key { code, down } => BackendEffect::Key { code, down },
        ClientMessage::Text { value } => BackendEffect::Text { value },
        ClientMessage::Paste { value } => BackendEffect::Paste { value },
        ClientMessage::Cmd { action } => BackendEffect::Cmd { action },
        ClientMessage::Authorize { password } => BackendEffect::Authorize { password },
    }
}

/// The client that currently owns the pointer, and when it last moved it.
pub struct ActiveClientTracker {
    current: Option<(String, u64)>,
    timeout_ms: u64,
}

/// The owner of the pointer as texts: the client and the time of its last motion.
pub open spec fn owner_view(o: Option<(String, u64)>) -> Option<(Seq<char>, u64)> {
    match o {
        Some((c, t)) => Some((c@, t)),
        None => None,
    }
}

/// Whether a client may move the pointer at `now`: the owner always may;
/// another client may once the owner has been idle for longer than the timeout.
pub open spec fn accepts_spec(owner: Option<(Seq<char>, u64)>, timeout: u64, client: Seq<char>, now: u64) -> bool {
    match owner {
        Some((c, since)) => c == client || (if now >= since { now - since } else { 0 }) > timeout,
        None => true,
    }
}

impl ActiveClientTracker {
    /// The owner and the time of its last motion.
    pub closed spec fn owner(&self) -> Option<(Seq<char>, u64)> {
        owner_view(self.current)
    }

    /// The idle time after which another client may take over.
    pub closed spec fn timeout(&self) -> u64 {
        self.timeout_ms
    }

    /// A tracker with no owner.
    pub fn new(timeout_ms: u64) -> (t: ActiveClientTracker)
        ensures
            t.owner() is None,
            t.timeout() == timeout_ms,
    {
        ActiveClientTracker { current: None, timeout_ms }
    }

    /// Decides whether `client_id` may move the pointer at `now`; a client
    /// that may becomes the owner, with `now` as its last motion.
    pub fn accepts(&mut self, client_id: &str, now: u64) -> (r: bool)
        ensures
            r == accepts_spec(old(self).owner(), old(self).timeout(), client_id@, now),
            final(self).timeout() == old(self).timeout(),
            r ==> final(self).owner() == Some((client_id@, now)),
            !r ==> final(self).owner() == old(self).owner(),
    {
        let take = match &self.current {
            Some((current, since)) => {
                if str_eq(current.as_str(), client_id) {
                    true
                } else {
                    let idle: u64 = if now >= *since { now - *since } else { 0 };
                    idle > self.timeout_ms
                }
            },
            None => true,
        };
        if take {
            self.current = Some((String::from_str(client_id), now));
        }
        take
    }
}

/// Routes client messages to backend effects, letting one client at a time
/// move the pointer.
pub struct ProtocolRouter {
    active_client: ActiveClientTracker,
}

/// How long, in milliseconds, a client keeps the pointer after its last motion.
pub const ACTIVE_CLIENT_TIMEOUT_MS: u64 = 2000;

impl ProtocolRouter {
    /// The owner of the pointer.
    pub closed spec fn owner(&self) -> Option<(Seq<char>, u64)> {
        self.active_client.owner()
    }

    /// The idle time after which another client may take over.
    pub closed spec fn timeout(&self) -> u64 {
        self.active_client.timeout()
    }

    /// A router with no pointer owner and a two-second takeover timeout.
    pub fn new() -> (r: ProtocolRouter)
        ensures
            r.owner() is None,
            r.timeout() == ACTIVE_CLIENT_TIMEOUT_MS,
    {
        ProtocolRouter { active_client: ActiveClientTracker::new(ACTIVE_CLIENT_TIMEOUT_MS) }
    }

    /// The effect of a client message received at `now` (milliseconds):
    /// motion from a client other than the pointer's owner is dropped until
    /// the owner has been idle for longer than the timeout; every other
    /// message passes unchanged.
    pub fn route_at(&mut self, client_id: &str, message: ClientMessage, now: u64) -> (r: Option<BackendEffect>)
        ensures
            final(self).timeout() == old(self).timeout(),
            is_motion(message) ==> (r is Some <==> accepts_spec(old(self).owner(), old(self).timeout(), client_id@, now)),
            is_motion(message) && r is Some ==> final(self).owner() == Some((client_id@, now)),
            is_motion(message) && r is None ==> final(self).owner() == old(self).owner(),
            !is_motion(message) ==> r is Some && final(self).owner() == old(self).owner(),
            r is Some ==> r->0 == effect_of(message),
    {
        let motion = match &message {
            ClientMessage::Move { .. } => true,
            ClientMessage::Wheel { .. } => true,
            _ => false,
        };
        if motion && !self.active_client.accepts(client_id, now) {
            return None;
        }
        Some(match message {
            ClientMessage::Move { dx, dy } => BackendEffect::Move { dx, dy },
            ClientMessage::Wheel { dy } => BackendEffect::Wheel { dy },
            ClientMessage::Click { button, click_count } => BackendEffect::Click { button, click_count },
            ClientMessage::PointerButton { button, down } => BackendEffect::PointerButton { button, down },
            ClientMessage::Key { code, down } => BackendEffect::Key { code, down },
            ClientMessage::Text { value } => BackendEffect::Text { value },
            ClientMessage::Paste { value } => BackendEffect::Paste { value },
            ClientMessage::Cmd { action } => BackendEffect::Cmd { action },
            ClientMessage::Authorize { password } => BackendEffect::Authorize { password },
        })
    }
}

/// Motion from a second client is suppressed while the owner is active, and
/// accepted once the owner has been idle for longer than the timeout.
pub proof fn second_client_waits_for_timeout(
    owner: Seq<char>,
    since: u64,
    timeout: u64,
    other: Seq<char>,
    now: u64,
)
    requires
        owner != other,
    ensures
        now <= since + timeout ==> !accepts_spec(Some((owner, since)), timeout, other, now),
        now > since + timeout ==> accepts_spec(Some((owner, since)), timeout, other, now),
        accepts_spec(Some((owner, since)), timeout, owner, now),
{
}

} // verus!
