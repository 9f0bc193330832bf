//! The Omarchy host: polkit authorization, DNS-SD naming, client names,
//! input backend recovery and the log filter.

use vstd::prelude::*;
use base64::Engine;
use vstd::string::StringSliceAdditionalSpecFns;
use crate::backend::{truncate_to_char_boundary, truncated_bytes, utf8};
use crate::diagnostics::drop_controls;
use crate::text::{chars_of, is_white, string_of, str_eq, trim, trim_chars};

verus! {

/// The longest password, in bytes, that the host forwards to polkit.
pub const PASSWORD_LIMIT_BYTES: usize = 1024;

/// Whether the host can answer polkit requests and whether one is showing.
#[derive(Debug, Clone, Copy, PartialEq, Eq)]
pub struct AuthorizationState {
    pub supported: bool,
    pub request_active: bool,
}

impl AuthorizationState {
    /// The state of a host that cannot answer polkit requests.
    pub fn unavailable() -> (s: AuthorizationState)
        ensures
            !s.supported && !s.request_active,
    {
        AuthorizationState { supported: false, request_active: false }
    }
}

/// Whether a byte is printable ASCII or a space.
pub open spec fn password_byte(b: u8) -> bool {
    0x20 <= b && b <= 0x7e
}

/// Whether a password may be forwarded: not empty, at most the byte limit,
/// and made of printable ASCII and spaces only.
pub open spec fn valid_password_spec(bytes: Seq<u8>) -> bool {
    bytes.len() > 0 && bytes.len() <= 1024 && forall|i: int| 0 <= i < bytes.len() ==> password_byte(#[trigger] bytes[i])
}

/// Checks a password before it is forwarded.
pub fn valid_password(password: &str) -> (r: bool)
    ensures
        r == valid_password_spec(password.spec_bytes()),
{
    let bytes = password.as_bytes();
    if bytes.len() == 0 || bytes.len() > PASSWORD_LIMIT_BYTES {
        return false;
    }
    let mut i: usize = 0;
    while i < bytes.len()
        invariant
            i <= bytes@.len(),
            bytes@ == password.spec_bytes(),
            forall|j: int| 0 <= j < i ==> password_byte(#[trigger] bytes@[j]),
        decreases bytes@.len() - i,
    {
        let b = bytes[i];
        if !(0x20 <= b && b <= 0x7e) {
            return false;
        }
        i = i + 1;
    }
    true
}

/// The layer namespace of the Omarchy polkit prompt.
pub const POLKIT_LAYER_NAMESPACE: &'static str = "omarchy-polkit";

/// A JSON document as the host reads it; numbers are kept without their value.
#[derive(Debug)]
pub enum JsonValue {
    Null,
    Bool(bool),
    Number,
    Text(String),
    Array(Vec<JsonValue>),
    /// The fields of an object, each name once.
    Object(Vec<(String, JsonValue)>),
}

/// Whether a field is `"namespace": "omarchy-polkit"`.
pub open spec fn is_polkit_namespace(name: Seq<char>, value: JsonValue) -> bool {
    name == "namespace"@ && (value matches JsonValue::Text(t) && t@ == "omarchy-polkit"@)
}

/// Whether a JSON document holds, at any depth, an object whose namespace is
/// the Omarchy polkit prompt.
pub open spec fn has_polkit_layer(v: JsonValue) -> bool
    decreases v,
{
    match v {
        JsonValue::Object(fields) => exists|i: int|
            #![trigger fields@[i]]
            0 <= i < fields@.len() && (is_polkit_namespace(fields@[i].0@, fields@[i].1) || has_polkit_layer(fields@[i].1)),
        JsonValue::Array(values) => exists|i: int| #![trigger values@[i]] 0 <= i < values@.len() && has_polkit_layer(values@[i]),
        _ => false,
    }
}

/// Whether the layers that the compositor lists show the polkit prompt.
pub fn contains_polkit_layer(value: &JsonValue) -> (r: bool)
    ensures
        r == has_polkit_layer(*value),
    decreases value,
{
    match value {
        JsonValue::Object(fields) => {
            let mut i: usize = 0;
            while i < fields.len()
                invariant
                    i <= fields@.len(),
                    *value == JsonValue::Object(*fields),
                    forall|j: int|
                        #![trigger fields@[j]]
                        0 <= j < i ==> !(is_polkit_namespace(fields@[j].0@, fields@[j].1) || has_polkit_layer(fields@[j].1)),
                decreases fields.len() - i,
            {
                let field = &fields[i];
                let named = str_eq(field.0.as_str(), "namespace") && match &field.1 {
                    JsonValue::Text(t) => str_eq(t.as_str(), POLKIT_LAYER_NAMESPACE),
                    _ => false,
                };
                proof {
                    assert(decreases_to!(*value => (*value)->Object_0));
                    assert(decreases_to!((*value)->Object_0 => (*value)->Object_0@));
                    assert(decreases_to!((*value)->Object_0@ => (*value)->Object_0@[i as int]));
                    assert(decreases_to!((*value)->Object_0@[i as int] => (*value)->Object_0@[i as int].1));
                }
                if named || contains_polkit_layer(&field.1) {
                    return true;
                }
                i = i + 1;
            }
            false
        },
        JsonValue::Array(values) => {
            let mut i: usize = 0;
            while i < values.len()
                invariant
                    i <= values@.len(),
                    *value == JsonValue::Array(*values),
                    forall|j: int| #![trigger values@[j]] 0 <= j < i ==> !has_polkit_layer(values@[j]),
                decreases values.len() - i,
            {
                proof {
                    assert(decreases_to!(*value => (*value)->Array_0));
                    assert(decreases_to!((*value)->Array_0 => (*value)->Array_0@));
                    assert(decreases_to!((*value)->Array_0@ => (*value)->Array_0@[i as int]));
                }
                if contains_polkit_layer(&values[i]) {
                    return true;
                }
                i = i + 1;
            }
            false
        },
        _ => false,
    }
}

/// The authorization state of a host that listed the compositor's layers:
/// unavailable when the listing failed or was not JSON (`None`), and
/// otherwise supported, with a request showing when the polkit prompt is among
/// the layers.
pub fn authorization_state(layers: Option<&JsonValue>) -> (s: AuthorizationState)
    ensures
        layers is None ==> !s.supported && !s.request_active,
        layers matches Some(v) ==> s.supported && s.request_active == has_polkit_layer(*v),
{
    match layers {
        None => AuthorizationState::unavailable(),
        Some(v) => AuthorizationState { supported: true, request_active: contains_polkit_layer(v) },
    }
}

/// The outside type of a point in time on the system clock.
#[verifier::external_type_specification]
#[verifier::external_body]
pub struct ExSystemTime(std::time::SystemTime);

/// The current time of the system clock (`SystemTime::now`); nothing is
/// promised of it.
#[verifier::external_body]
fn system_now() -> (t: std::time::SystemTime) {
    std::time::SystemTime::now()
}

/// How long after the Unix epoch a time lies (`SystemTime::duration_since`
/// with `UNIX_EPOCH`), or `None` for a time before it; nothing is promised
/// of the length.
#[verifier::external_body]
fn since_unix_epoch(t: std::time::SystemTime) -> (d: Option<std::time::Duration>) {
    t.duration_since(std::time::UNIX_EPOCH).ok()
}

/// The whole milliseconds of a duration (`Duration::as_millis`); nothing is
/// stated of the number.
#[verifier::external_body]
fn whole_millis(d: std::time::Duration) -> (ms: u128) {
    d.as_millis()
}

/// The current time in milliseconds since the Unix epoch, wrapped to 64 bits
/// as a cast does; zero for a clock set before the epoch.
pub fn now_ms() -> u64 {
    match since_unix_epoch(system_now()) {
        Some(d) => {
            let ms = whole_millis(d);
            #[verifier::truncate]
            (ms as u64)
        },
        None => 0,
    }
}

/// A text without its trailing occurrences of `c`.
pub open spec fn strip_trailing(s: Seq<char>, c: char) -> Seq<char>
    decreases s.len(),
{
    if s.len() > 0 && s.last() == c {
        strip_trailing(s.drop_last(), c)
    } else {
        s
    }
}

/// A text without a suffix, when it ends with it.
pub open spec fn strip_suffix(s: Seq<char>, suffix: Seq<char>) -> Seq<char> {
    if s.len() >= suffix.len() && s.subrange(s.len() - suffix.len(), s.len() as int) == suffix {
        s.subrange(0, s.len() - suffix.len())
    } else {
        s
    }
}

/// The DNS-SD instance name of a host, before it is bounded.
pub open spec fn instance_label(hostname: Seq<char>) -> Seq<char> {
    "TapPad on "@ + strip_suffix(strip_trailing(trim(hostname), '.'), ".local"@)
}

/// The DNS-SD instance name for a host name: `TapPad on` and the host name
/// without a trailing dot or `.local`, cut to 63 bytes at a character boundary.
pub fn instance_name(hostname: &str) -> (r: String)
    ensures
        utf8(r@) == truncated_bytes(instance_label(hostname@), 63),
{
    let raw = chars_of(hostname);
    let mut name = trim_chars(&raw);
    let ghost trimmed = name@;
    while name.len() > 0 && name[name.len() - 1] == '.'
        invariant
            strip_trailing(trimmed, '.') == strip_trailing(name@, '.'),
        decreases name.len(),
    {
        let ghost before = name@;
        name.pop();
        assert(before.drop_last() =~= name@);
    }
    assert(strip_trailing(name@, '.') == name@);
    let suffix = chars_of(".local");
    let n = name.len();
    let s = suffix.len();
    let mut ends = n >= s;
    let mut k: usize = 0;
    while ends && k < s
        invariant
            k <= s,
            s == suffix@.len(),
            n == name@.len(),
            ends ==> n >= s,
            ends ==> forall|j: int| 0 <= j < k ==> name@[n - s + j] == suffix@[j],
            !ends ==> !(n >= s && name@.subrange(n - s, n as int) == suffix@),
        decreases s - k,
    {
        if name[n - s + k] != suffix[k] {
            ends = false;
            assert(name@.subrange(n - s, n as int)[k as int] != suffix@[k as int]);
        }
        k = k + 1;
    }
    if ends {
        assert(name@.subrange(n - s, n as int) =~= suffix@);
    }
    let mut host: Vec<char> = Vec::new();
    let keep: usize = if ends { n - s } else { n };
    let mut i: usize = 0;
    while i < keep
        invariant
            i <= keep,
            keep <= n,
            n == name@.len(),
            host@ == name@.subrange(0, i as int),
        decreases keep - i,
    {
        host.push(name[i]);
        i = i + 1;
    }
    let mut label = String::from_str("TapPad on ");
    let rest = string_of(&host);
    label.append(rest.as_str());
    assert(label@ =~= instance_label(hostname@));
    truncate_to_char_boundary(label, 63)
}

/// The name a client gives itself, as the host keeps it: control characters
/// removed, at most 64 characters, trimmed; a blank name is ignored.
pub open spec fn client_name(name: Seq<char>) -> Option<Seq<char>> {
    let kept = drop_controls(name);
    let bounded = if kept.len() > 64 { kept.subrange(0, 64) } else { kept };
    if trim(bounded).len() == 0 {
        None
    } else {
        Some(trim(bounded))
    }
}

/// The name to show for a client that identified itself, if it gave one.
pub fn identified_name(name: &str) -> (r: Option<String>)
    ensures
        crate::codex::opt_string(r) == client_name(name@),
{
    let raw = chars_of(name);
    let mut kept: Vec<char> = Vec::new();
    let mut i: usize = 0;
    while i < raw.len()
        invariant
            i <= raw.len(),
            raw@ == name@,
            kept@ == drop_controls(raw@.subrange(0, i as int)),
        decreases raw.len() - i,
    {
        let c = raw[i];
        let ghost p = raw@.subrange(0, i + 1);
        assert(p.drop_last() =~= raw@.subrange(0, i as int));
        let code: u32 = c as u32;
        if !(code <= 0x1f || (0x7f <= code && code <= 0x9f)) {
            kept.push(c);
        }
        i = i + 1;
    }
    assert(raw@.subrange(0, raw@.len() as int) =~= raw@);
    if kept.len() > 64 {
        kept.truncate(64);
    }
    let trimmed = trim_chars(&kept);
    if trimmed.len() == 0 {
        None
    } else {
        Some(string_of(&trimmed))
    }
}

/// Whether the text of an input error shows that the backend's connection
/// went stale: a Wayland queue that could not be flushed, or a broken pipe.
pub open spec fn stale_error_text(text: Seq<char>) -> bool {
    contains_text(text, "could not flush Wayland queue"@) || contains_text(text, "Broken pipe"@)
}

/// Whether `needle` occurs in `text`.
pub open spec fn contains_text(text: Seq<char>, needle: Seq<char>) -> bool {
    exists|i: int| 0 <= i <= text.len() - needle.len() && #[trigger] text.subrange(i, i + needle.len()) == needle
}

fn matches_at(text: &[char], needle: &[char], i: usize) -> (r: bool)
    requires
        i + needle@.len() <= text@.len(),
    ensures
        r == (text@.subrange(i as int, i + needle@.len()) == needle@),
{
    let mut k: usize = 0;
    while k < needle.len()
        invariant
            k <= needle@.len(),
            i + needle@.len() <= text@.len(),
            text@.len() == text.len(),
            forall|m: int| 0 <= m < k ==> text@[i + m] == needle@[m],
        decreases needle@.len() - k,
    {
        if text[i + k] != needle[k] {
            assert(text@.subrange(i as int, i + needle@.len())[k as int] != needle@[k as int]);
            return false;
        }
        k = k + 1;
    }
    assert(text@.subrange(i as int, i + needle@.len()) =~= needle@);
    true
}

/// Whether `needle` occurs in `text`.
pub fn text_contains(text: &[char], needle: &[char]) -> (r: bool)
    ensures
        r == contains_text(text@, needle@),
{
    if needle.len() > text.len() {
        return false;
    }
    let last: usize = text.len() - needle.len();
    let mut i: usize = 0;
    while i < last
        invariant
            last == text@.len() - needle@.len(),
            i <= last,
            forall|j: int| 0 <= j < i ==> #[trigger] text@.subrange(j, j + needle@.len()) != needle@,
        decreases last - i,
    {
        if matches_at(text, needle, i) {
            return true;
        }
        i = i + 1;
    }
    if matches_at(text, needle, last) {
        return true;
    }
    proof {
        if contains_text(text@, needle@) {
            let j = choose|j: int| 0 <= j <= text@.len() - needle@.len() && #[trigger] text@.subrange(j, j + needle@.len()) == needle@;
            assert(text@.subrange(j, j + needle@.len()) != needle@);
        }
    }
    false
}

/// Whether an input error's text shows a stale backend connection.
pub fn is_stale_error_text(text: &str) -> (r: bool)
    ensures
        r == stale_error_text(text@),
{
    let t = chars_of(text);
    let a = chars_of("could not flush Wayland queue");
    let b = chars_of("Broken pipe");
    text_contains(&t, &a) || text_contains(&t, &b)
}

/// The level at which host logs are kept for a log target.
#[derive(Debug, Clone, Copy, PartialEq, Eq)]
pub enum HostLogLevel {
    Off,
    Info,
}

/// The level of every log target that does not carry raw payloads.
pub const HOST_LOG_LEVEL: HostLogLevel = HostLogLevel::Info;

/// Whether a log target belongs to a module under `prefix`, or is it.
pub open spec fn under_target(target: Seq<char>, prefix: Seq<char>) -> bool {
    target == prefix || (target.len() >= prefix.len() + 2 && target.subrange(0, prefix.len() + 2int) == prefix + "::"@)
}

/// The WebSocket libraries whose logs carry raw payloads are silenced.
pub open spec fn log_level_spec(target: Seq<char>) -> HostLogLevel {
    if under_target(target, "tungstenite"@) || under_target(target, "tokio_tungstenite"@) {
        HostLogLevel::Off
    } else {
        HostLogLevel::Info
    }
}

fn is_under(target: &[char], prefix: &str) -> (r: bool)
    ensures
        r == under_target(target@, prefix@),
{
    let p = chars_of(prefix);
    let mut whole = p.clone();
    whole.push(':');
    whole.push(':');
    assert(whole@ =~= p@ + "::"@) by {
        reveal_strlit("::");
    }
    if crate::text::chars_eq(target, prefix) {
        return true;
    }
    if target.len() < whole.len() {
        return false;
    }
    let mut k: usize = 0;
    while k < whole.len()
        invariant
            k <= whole@.len(),
            whole@.len() <= target@.len(),
            whole@ == prefix@ + "::"@,
            target@ != prefix@,
            forall|m: int| 0 <= m < k ==> target@[m] == whole@[m],
        decreases whole@.len() - k,
    {
        if target[k] != whole[k] {
            assert(target@.subrange(0, whole@.len() as int)[k as int] != whole@[k as int]);
            return false;
        }
        k = k + 1;
    }
    assert(target@.subrange(0, whole@.len() as int) =~= whole@);
    true
}

/// The level at which the host keeps logs of a target.
pub fn host_log_level_for(target: &str) -> (r: HostLogLevel)
    ensures
        r == log_level_spec(target@),
{
    let t = chars_of(target);
    if is_under(&t, "tungstenite") || is_under(&t, "tokio_tungstenite") {
        HostLogLevel::Off
    } else {
        HostLogLevel::Info
    }
}

/// The standard library's I/O error.
#[verifier::external_type_specification]
#[verifier::external_body]
pub struct ExIoError(std::io::Error);

/// The text that an I/O error displays (`ToString` on `std::io::Error`);
/// nothing is stated of it.
#[verifier::external_body]
fn io_error_text(error: &std::io::Error) -> String {
    error.to_string()
}

/// Whether an input error shows a stale backend connection, judged by the
/// text it displays.
pub fn is_stale_input_backend_error(error: &std::io::Error) -> bool {
    let text = io_error_text(error);
    is_stale_error_text(text.as_str())
}

/// What follows an input operation that failed with `first`, whose displayed
/// text is `text`. A text that does not show a stale backend (see
/// `stale_error_text`) leaves the backend as it is and gives back `first`;
/// nothing runs. A stale text leads to one reconnection: a failed
/// reconnection's error is the result and the backend stays; otherwise the
/// fresh backend replaces the old one and the operation runs once more on
/// it, giving the result.
pub fn retry_after_error<T, Op, Re>(
    backend: &mut T,
    first: std::io::Error,
    text: &str,
    mut operation: Op,
    mut reconnect: Re,
) -> (r: Result<(), std::io::Error>)
    where
        Op: FnMut(&mut T) -> Result<(), std::io::Error>,
        Re: FnMut() -> Result<T, std::io::Error>,
    requires
        forall|b: &mut T| call_requires(operation, (b,)),
        call_requires(reconnect, ()),
    ensures
        !stale_error_text(text@) ==> r == Err::<(), std::io::Error>(first) && *final(backend) == *old(backend),
        stale_error_text(text@) ==> exists|c: Result<T, std::io::Error>| #[trigger] call_ensures(reconnect, (), c)
            && match c {
            Err(e) => r == Err::<(), std::io::Error>(e) && *final(backend) == *old(backend),
            Ok(fresh) => exists|b2: &mut T|
                mut_ref_current(b2) == fresh && mut_ref_future(b2) == *final(backend)
                    && #[trigger] call_ensures(operation, (b2,), r),
        },
{
    broadcast use vstd::function::group_function_axioms;
    if !is_stale_error_text(text) {
        return Err(first);
    }
    let again = reconnect();
    let ghost again_value = again;
    match again {
        Ok(fresh) => {
            *backend = fresh;
            operation(backend)
        },
        Err(e) => {
            assert(again_value == Err::<T, std::io::Error>(e));
            Err(e)
        },
    }
}

/// Runs an input operation on the backend. A success is the result and
/// nothing else runs. After an error, `retry_after_error` decides on the
/// text that the error displays: an error that does not show a stale backend
/// is the result, and a stale one leads to one reconnection and one more run.
/// The text comes from the machine, so this contract states both outcomes of
/// an error; `retry_after_error` states which one each text gives.
pub fn run_with_reconnect_on_stale_backend<T, Op, Re>(
    backend: &mut T,
    mut operation: Op,
    reconnect: Re,
) -> (r: Result<(), std::io::Error>)
    where
        Op: FnMut(&mut T) -> Result<(), std::io::Error>,
        Re: FnMut() -> Result<T, std::io::Error>,
    requires
        forall|b: &mut T| call_requires(operation, (b,)),
        call_requires(reconnect, ()),
    ensures
        exists|b: &mut T, first: Result<(), std::io::Error>|
            mut_ref_current(b) == *old(backend) && #[trigger] call_ensures(operation, (b,), first) && {
                ||| first is Ok && r == first && *final(backend) == mut_ref_future(b)
                ||| first is Err && r == first && *final(backend) == mut_ref_future(b)
                ||| first is Err && exists|c: Result<T, std::io::Error>| #[trigger] call_ensures(reconnect, (), c) && match c {
                    Err(e) => r == Err::<(), std::io::Error>(e) && *final(backend) == mut_ref_future(b),
                    Ok(fresh) => exists|b2: &mut T|
                        mut_ref_current(b2) == fresh && mut_ref_future(b2) == *final(backend)
                            && #[trigger] call_ensures(operation, (b2,), r),
                }
            },
{
    broadcast use vstd::function::group_function_axioms;
    let first = operation(backend);
    if first.is_ok() {
        return first;
    }
    let ghost first_value = first;
    match first {
        Ok(()) => Ok(()),
        Err(error) => {
            assert(first_value == Err::<(), std::io::Error>(error));
            let text = io_error_text(&error);
            retry_after_error(backend, error, text.as_str(), operation, reconnect)
        },
    }
}

/// A command of the host's command line.
#[derive(Debug, Clone, Copy, PartialEq, Eq, Structural)]
pub enum HostCommand {
    Run,
    Status,
    Pairing,
    ResetPairing,
    /// `start`, `stop` or `restart` of the user service.
    Service(ServiceAction),
    Help,
}

/// What is asked of the host's user service.
#[derive(Debug, Clone, Copy, PartialEq, Eq, Structural)]
pub enum ServiceAction {
    Start,
    Stop,
    Restart,
}

/// The command that a first argument names, if it names one.
pub open spec fn host_command_spec(a: Seq<char>) -> Option<HostCommand> {
    if a == "run"@ {
        Some(HostCommand::Run)
    } else if a == "status"@ {
        Some(HostCommand::Status)
    } else if a == "pairing"@ {
        Some(HostCommand::Pairing)
    } else if a == "reset-pairing"@ {
        Some(HostCommand::ResetPairing)
    } else if a == "start"@ {
        Some(HostCommand::Service(ServiceAction::Start))
    } else if a == "stop"@ {
        Some(HostCommand::Service(ServiceAction::Stop))
    } else if a == "restart"@ {
        Some(HostCommand::Service(ServiceAction::Restart))
    } else if a == "help"@ || a == "--help"@ || a == "-h"@ {
        Some(HostCommand::Help)
    } else {
        None
    }
}

/// The command of the host's arguments (after the program name): `run` when
/// there is none, the command that the first names, or an error that quotes
/// an unknown one.
pub fn parse_host_command(args: &[String]) -> (r: Result<HostCommand, String>)
    ensures
        args@.len() == 0 ==> r == Ok::<HostCommand, String>(HostCommand::Run),
        args@.len() > 0 ==> match host_command_spec(args@[0]@) {
            Some(c) => r == Ok::<HostCommand, String>(c),
            None => r matches Err(e) && e@ == "unknown command: "@ + args@[0]@,
        },
{
    if args.len() == 0 {
        return Ok(HostCommand::Run);
    }
    let a = args[0].as_str();
    if str_eq(a, "run") {
        Ok(HostCommand::Run)
    } else if str_eq(a, "status") {
        Ok(HostCommand::Status)
    } else if str_eq(a, "pairing") {
        Ok(HostCommand::Pairing)
    } else if str_eq(a, "reset-pairing") {
        Ok(HostCommand::ResetPairing)
    } else if str_eq(a, "start") {
        Ok(HostCommand::Service(ServiceAction::Start))
    } else if str_eq(a, "stop") {
        Ok(HostCommand::Service(ServiceAction::Stop))
    } else if str_eq(a, "restart") {
        Ok(HostCommand::Service(ServiceAction::Restart))
    } else if str_eq(a, "help") || str_eq(a, "--help") || str_eq(a, "-h") {
        Ok(HostCommand::Help)
    } else {
        let mut e = String::from_str("unknown command: ");
        e.append(a);
        Err(e)
    }
}

/// The name of a service action, as `systemctl` takes it.
pub fn service_action_name(a: ServiceAction) -> (r: &'static str)
    ensures
        r@ == match a {
            ServiceAction::Start => "start"@,
            ServiceAction::Stop => "stop"@,
            ServiceAction::Restart => "restart"@,
        },
{
    match a {
        ServiceAction::Start => "start",
        ServiceAction::Stop => "stop",
        ServiceAction::Restart => "restart",
    }
}

/// Why a host that is not running does not serve clients, for its status.
pub fn stopped_reason(running: bool) -> (r: Option<&'static str>)
    ensures
        running ==> r is None,
        !running ==> (r matches Some(t) && t@ == "TapPad Host is not accepting local connections"@),
{
    if running {
        None
    } else {
        Some("TapPad Host is not accepting local connections")
    }
}

/// The UTF-8 bytes of the SVG image of the QR code that the `qrcode` crate
/// builds of some data (`QrCode::new`, medium error correction, rendered at
/// least 260 pixels square in `#171917` on `#ffffff`), or `None` when the data
/// does not fit in a QR code.
pub uninterp spec fn qr_svg(data: Seq<u8>) -> Option<Seq<u8>>;

/// The standard base64 digit for a six-bit value.
pub open spec fn standard_digit(v: u8) -> char {
    if v < 26 {
        ((v + 65) as u32) as char
    } else if v < 52 {
        ((v - 26 + 97) as u32) as char
    } else if v < 62 {
        ((v - 52 + 48) as u32) as char
    } else if v == 62 {
        '+'
    } else {
        '/'
    }
}

/// The standard base64 encoding of bytes with padding: three bytes to four
/// digits, and a final group of one or two bytes to two or three digits
/// followed by `=` up to four characters.
pub open spec fn standard_base64(b: Seq<u8>) -> Seq<char>
    decreases b.len(),
{
    if b.len() == 0 {
        seq![]
    } else if b.len() == 1 {
        seq![standard_digit(b[0] >> 2u8), standard_digit((b[0] & 3u8) << 4u8), '=', '=']
    } else if b.len() == 2 {
        seq![
            standard_digit(b[0] >> 2u8),
            standard_digit(((b[0] & 3u8) << 4u8) | (b[1] >> 4u8)),
            standard_digit((b[1] & 15u8) << 2u8),
            '=',
        ]
    } else {
        seq![
            standard_digit(b[0] >> 2u8),
            standard_digit(((b[0] & 3u8) << 4u8) | (b[1] >> 4u8)),
            standard_digit(((b[1] & 15u8) << 2u8) | (b[2] >> 6u8)),
            standard_digit(b[2] & 63u8),
        ] + standard_base64(b.subrange(3, b.len() as int))
    }
}

/// Renders a QR code of the data as an SVG image with the `qrcode` crate
/// (`QrCode::new`, then `render::<svg::Color>()` with the minimum size and
/// colours above). The result is the name `qr_svg` of the data; as a
/// `String`'s bytes it is no longer than `isize::MAX`.
#[verifier::external_body]
fn render_qr_svg(data: &[u8]) -> (r: Option<Vec<u8>>)
    ensures
        match r {
            Some(svg) => qr_svg(data@) == Some(svg@) && svg@.len() <= isize::MAX,
            None => qr_svg(data@) is None,
        },
{
    match qrcode::QrCode::new(data) {
        Ok(code) => Some(
            code.render::<qrcode::render::svg::Color>().min_dimensions(260, 260).dark_color(
                qrcode::render::svg::Color("#171917"),
            ).light_color(qrcode::render::svg::Color("#ffffff")).build().into_bytes(),
        ),
        Err(_) => None,
    }
}

/// Encodes bytes with `base64::engine::general_purpose::STANDARD`: the
/// standard base64 encoding with padding (`standard_base64`), whose length
/// is four characters for every started group of three bytes.
#[verifier::external_body]
fn encode_standard(bytes: &[u8]) -> (s: String)
    requires
        bytes@.len() <= isize::MAX,
    ensures
        s@ == standard_base64(bytes@),
        s@.len() == 4 * ((bytes@.len() + 2) / 3),
{
    base64::engine::general_purpose::STANDARD.encode(bytes)
}

/// The data URL of an SVG image from its base64 text; empty when there is no image.
pub fn svg_data_url(encoded_svg: Option<&str>) -> (r: String)
    ensures
        match encoded_svg {
            Some(e) => r@ == "data:image/svg+xml;base64,"@ + e@,
            None => r@ == Seq::<char>::empty(),
        },
{
    match encoded_svg {
        Some(e) => {
            let mut url = String::from_str("data:image/svg+xml;base64,");
            url.append(e);
            url
        },
        None => String::new(),
    }
}

/// The QR code of a pairing URL as an SVG data URL, empty when the text does
/// not fit in a QR code.
pub fn qr_code_data_url(text: &str) -> (r: String)
    ensures
        match qr_svg(text.spec_bytes()) {
            Some(svg) => r@ == "data:image/svg+xml;base64,"@ + standard_base64(svg),
            None => r@ == Seq::<char>::empty(),
        },
{
    let bytes = text.as_bytes();
    match render_qr_svg(bytes) {
        Some(svg) => {
            let encoded = encode_standard(svg.as_slice());
            svg_data_url(Some(encoded.as_str()))
        },
        None => svg_data_url(None),
    }
}

} // verus!
