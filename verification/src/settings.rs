//! The desktop host's settings: the port, the pairing token, and the URLs a
//! phone opens to pair.

use vstd::prelude::*;
use base64::Engine;
use crate::windows_surface::base64_url_spec;
use crate::text::{decimal, decimal_string, push_char, chars_of, trim, trim_chars, string_of};

verus! {

/// The outside error type of the system random source.
#[verifier::external_type_specification]
#[verifier::external_body]
pub struct ExRandomError(getrandom::Error);

/// The settings that the desktop host runs with.
#[derive(Debug, Clone)]
pub struct RuntimeSettings {
    pub bind_host: String,
    pub port: u16,
    pub token: String,
    pub hostname: String,
    pub launch_at_login: bool,
    pub lan_host: Option<[u8; 4]>,
}

/// A change of settings that the user asked for.
#[derive(Debug, Clone)]
pub struct SettingsUpdate {
    pub port: u16,
    pub token: String,
    pub launch_at_login: bool,
}

/// Why settings were refused.
#[derive(Debug, Clone, PartialEq, Eq)]
pub struct SettingsError {
    pub message: &'static str,
}

/// Checks that a port can be listened on.
pub fn validate_port(port: u16) -> (r: Result<(), SettingsError>)
    ensures
        r is Ok <==> port != 0,
        r matches Err(e) ==> e.message@ == "Port must be between 1 and 65535."@,
{
    if port == 0 {
        Err(SettingsError { message: "Port must be between 1 and 65535." })
    } else {
        Ok(())
    }
}

/// The pairing token without surrounding white space; a blank token is refused.
pub fn normalize_token(token: String) -> (r: Result<String, SettingsError>)
    ensures
        r is Ok <==> trim(token@).len() > 0,
        r matches Ok(t) ==> t@ == trim(token@),
        r matches Err(e) ==> e.message@ == "Pairing token is required."@,
{
    let chars = chars_of(token.as_str());
    let trimmed = trim_chars(&chars);
    if trimmed.len() == 0 {
        Err(SettingsError { message: "Pairing token is required." })
    } else {
        Ok(string_of(&trimmed))
    }
}

/// The URL that opens the mobile controller on a host.
pub open spec fn control_url_spec(host: Seq<char>, port: u16, token: Option<Seq<char>>) -> Seq<char> {
    "http://"@ + host + ":"@ + decimal(port as nat) + "/"@ + match token {
        Some(t) => "?token="@ + t,
        None => seq![],
    }
}

/// The URL that opens the mobile controller, with the pairing token when given.
pub fn control_url(host: &str, port: u16, token: Option<&str>) -> (url: String)
    ensures
        url@ == control_url_spec(host@, port, crate::actions::opt_str(token)),
{
    let mut url = String::from_str("http://");
    url.append(host);
    url.append(":");
    let digits = decimal_string(port as u64);
    url.append(digits.as_str());
    url.append("/");
    match token {
        Some(t) => {
            url.append("?token=");
            url.append(t);
        },
        None => {},
    }
    assert(url@ =~= control_url_spec(host@, port, crate::actions::opt_str(token)));
    url
}

/// The dotted-decimal form of an IPv4 address.
pub open spec fn ipv4_text(a: [u8; 4]) -> Seq<char> {
    decimal(a[0] as nat) + "."@ + decimal(a[1] as nat) + "."@ + decimal(a[2] as nat) + "."@ + decimal(a[3] as nat)
}

/// The dotted-decimal form of an IPv4 address.
pub fn ipv4_string(a: [u8; 4]) -> (s: String)
    ensures
        s@ == ipv4_text(a),
{
    let mut s = decimal_string(a[0] as u64);
    s.append(".");
    let b = decimal_string(a[1] as u64);
    s.append(b.as_str());
    s.append(".");
    let c = decimal_string(a[2] as u64);
    s.append(c.as_str());
    s.append(".");
    let d = decimal_string(a[3] as u64);
    s.append(d.as_str());
    assert(s@ =~= ipv4_text(a));
    s
}

impl RuntimeSettings {
    /// The controller URL on the host name.
    pub fn local_url(&self, include_token: bool) -> (url: String)
        ensures
            url@ == control_url_spec(self.hostname@, self.port, if include_token { Some(self.token@) } else { None }),
    {
        if include_token {
            control_url(self.hostname.as_str(), self.port, Some(self.token.as_str()))
        } else {
            control_url(self.hostname.as_str(), self.port, None)
        }
    }

    /// The controller URL on the LAN address, when one was discovered.
    pub fn lan_url(&self, include_token: bool) -> (url: Option<String>)
        ensures
            url is Some <==> self.lan_host is Some,
            url matches Some(u) ==> u@ == control_url_spec(
                ipv4_text(self.lan_host->0),
                self.port,
                if include_token { Some(self.token@) } else { None },
            ),
    {
        match self.lan_host {
            Some(address) => {
                let host = ipv4_string(address);
                if include_token {
                    Some(control_url(host.as_str(), self.port, Some(self.token.as_str())))
                } else {
                    Some(control_url(host.as_str(), self.port, None))
                }
            },
            None => None,
        }
    }

    /// The settings after an update: the port and token are checked, the host
    /// name and LAN address are kept, and the server binds every interface.
    pub fn with_update(&self, update: SettingsUpdate) -> (r: Result<RuntimeSettings, SettingsError>)
        ensures
            r is Ok <==> update.port != 0 && trim(update.token@).len() > 0,
            update.port == 0 ==> (r matches Err(e) && e.message@ == "Port must be between 1 and 65535."@),
            update.port != 0 && trim(update.token@).len() == 0 ==> (r matches Err(e) && e.message@
                == "Pairing token is required."@),
            r matches Ok(s) ==> s.bind_host@ == "0.0.0.0"@ && s.port == update.port && s.token@ == trim(update.token@)
                && s.hostname@ == self.hostname@ && s.launch_at_login == update.launch_at_login && s.lan_host
                == self.lan_host,
    {
        match validate_port(update.port) {
            Err(e) => {
                return Err(e);
            },
            Ok(()) => {},
        }
        let token = match normalize_token(update.token) {
            Err(e) => {
                return Err(e);
            },
            Ok(t) => t,
        };
        Ok(RuntimeSettings {
            bind_host: String::from_str("0.0.0.0"),
            port: update.port,
            token,
            hostname: String::from_str(self.hostname.as_str()),
            launch_at_login: update.launch_at_login,
            lan_host: self.lan_host,
        })
    }
}

/// Whether a character belongs to the URL-safe base64 alphabet.
pub open spec fn url_safe_char(c: char) -> bool {
    ('A' <= c && c <= 'Z') || ('a' <= c && c <= 'z') || ('0' <= c && c <= '9') || c == '-' || c == '_'
}

/// The length of an unpadded base64 encoding of `n` bytes.
pub open spec fn unpadded_len(n: nat) -> nat {
    (n / 3) * 4 + if n % 3 == 0 { 0nat } else if n % 3 == 1 { 2nat } else { 3nat }
}

/// Encodes bytes with `base64::engine::general_purpose::URL_SAFE_NO_PAD`:
/// the URL-safe base64 encoding without padding (`base64_url_spec`), which
/// uses only the URL-safe alphabet and has `unpadded_len` of the input
/// length.
#[verifier::external_body]
fn encode_url_safe_no_pad(bytes: &[u8; 16]) -> (s: String)
    ensures
        s@ == base64_url_spec(bytes@),
        s@.len() == unpadded_len(16),
        forall|i: int| 0 <= i < s@.len() ==> url_safe_char(#[trigger] s@[i]),
{
    base64::engine::general_purpose::URL_SAFE_NO_PAD.encode(bytes)
}

/// Fills the buffer with bytes from the operating system's random source
/// (`getrandom::getrandom`); nothing is promised of the bytes.
#[verifier::external_body]
fn fill_random(bytes: &mut [u8; 16]) -> (r: Result<(), getrandom::Error>) {
    getrandom::getrandom(bytes)
}

/// Why a pairing token could not be generated.
#[derive(Debug, Clone, PartialEq, Eq)]
pub struct TokenError {
    pub message: &'static str,
}

/// A fresh pairing token: sixteen random bytes in URL-safe base64, which is
/// twenty-two URL-safe characters.
pub fn generate_pairing_token() -> (r: Result<String, TokenError>)
    ensures
        r matches Ok(t) ==> t@.len() == 22 && forall|i: int| 0 <= i < t@.len() ==> url_safe_char(#[trigger] t@[i]),
        r matches Ok(t) ==> exists|b: Seq<u8>| b.len() == 16 && t@ == base64_url_spec(b),
        r matches Err(e) ==> e.message@ == "failed to generate pairing token"@,
{
    let mut bytes = [0u8; 16];
    match fill_random(&mut bytes) {
        Err(_) => Err(TokenError { message: "failed to generate pairing token" }),
        Ok(()) => {
            let token = encode_url_safe_no_pad(&bytes);
            assert(bytes@.len() == 16);
            Ok(token)
        },
    }
}

/// The lowercase hexadecimal digit of a value below sixteen.
pub open spec fn hex_digit(v: int) -> char {
    if v < 10 { (('0' as int) + v) as char } else { (('a' as int) + v - 10) as char }
}

/// Bytes in lowercase hexadecimal, two digits a byte, high digit first.
pub open spec fn hex_spec(b: Seq<u8>) -> Seq<char> {
    Seq::new(2 * b.len(), |i: int| hex_digit(if i % 2 == 0 { b[i / 2] / 16 } else { b[i / 2] % 16 } as int))
}

/// Whether a character is a lowercase hexadecimal digit.
pub open spec fn lower_hex_char(c: char) -> bool {
    ('0' <= c && c <= '9') || ('a' <= c && c <= 'f')
}

fn hex_char(v: u8) -> (c: char)
    requires
        v < 16,
    ensures
        c == hex_digit(v as int),
        lower_hex_char(c),
{
    if v < 10 {
        ((48u8 + v) as char)
    } else {
        ((87u8 + v) as char)
    }
}

/// Bytes in lowercase hexadecimal.
pub fn hex_string(bytes: &[u8]) -> (s: String)
    requires
        2 * bytes@.len() <= usize::MAX,
    ensures
        s@ == hex_spec(bytes@),
{
    let mut s = String::new();
    let mut k: usize = 0;
    while k < bytes.len()
        invariant
            k <= bytes@.len(),
            s@.len() == 2 * k,
            forall|j: int| 0 <= j < 2 * k ==> s@[j] == hex_spec(bytes@)[j],
        decreases bytes@.len() - k,
    {
        let b = bytes[k];
        let high = hex_char(b / 16);
        let low = hex_char(b % 16);
        let ghost before = s@;
        push_char(&mut s, high);
        push_char(&mut s, low);
        assert forall|j: int| 0 <= j < 2 * (k + 1) implies s@[j] == hex_spec(bytes@)[j] by {
            if j < 2 * k {
                assert(s@[j] == before[j]);
            } else if j == 2 * k {
                assert(j / 2 == k as int && j % 2 == 0);
            } else {
                assert(j / 2 == k as int && j % 2 == 1);
            }
        }
        k = k + 1;
    }
    assert(s@ =~= hex_spec(bytes@));
    s
}

/// A fresh host id: sixteen random bytes in lowercase hexadecimal, which is
/// thirty-two hexadecimal digits, fit for an mDNS alias.
pub fn generate_host_id() -> (r: Result<String, TokenError>)
    ensures
        r matches Ok(t) ==> t@.len() == 32 && forall|i: int| 0 <= i < t@.len() ==> lower_hex_char(#[trigger] t@[i]),
        r matches Ok(t) ==> exists|b: Seq<u8>| b.len() == 16 && t@ == hex_spec(b),
        r matches Err(e) ==> e.message@ == "failed to generate host id"@,
{
    let mut bytes = [0u8; 16];
    match fill_random(&mut bytes) {
        Err(_) => Err(TokenError { message: "failed to generate host id" }),
        Ok(()) => {
            let id = hex_string(&bytes);
            assert(bytes@.len() == 16);
            assert forall|i: int| 0 <= i < id@.len() implies lower_hex_char(#[trigger] id@[i]) by {
                let v: int = if i % 2 == 0 { bytes@[i / 2] / 16 } else { bytes@[i / 2] % 16 } as int;
                assert(0 <= v < 16);
                assert(id@[i] == hex_digit(v));
            }
            Ok(id)
        },
    }
}

/// The settings that the desktop host keeps on disk.
#[derive(Debug, Clone)]
pub struct StoredSettings {
    pub port: u16,
    pub token: String,
    pub launch_at_login: bool,
}

/// The port of a host that has no stored settings yet.
pub const DEFAULT_PORT: u16 = 8765;

/// Stored settings as they are used: the token trimmed, then the port checked.
pub fn validate_stored(stored: StoredSettings) -> (r: Result<StoredSettings, SettingsError>)
    ensures
        trim(stored.token@).len() == 0 ==> (r matches Err(e) && e.message@ == "Pairing token is required."@),
        trim(stored.token@).len() > 0 && stored.port == 0 ==> (r matches Err(e) && e.message@
            == "Port must be between 1 and 65535."@),
        trim(stored.token@).len() > 0 && stored.port != 0 ==> (r matches Ok(s) && s.port == stored.port && s.token@
            == trim(stored.token@) && s.launch_at_login == stored.launch_at_login),
{
    let token = match normalize_token(stored.token) {
        Err(e) => {
            return Err(e);
        },
        Ok(t) => t,
    };
    match validate_port(stored.port) {
        Err(e) => Err(e),
        Ok(()) => Ok(StoredSettings { port: stored.port, token, launch_at_login: stored.launch_at_login }),
    }
}

/// The settings that a host without stored settings starts with: the default
/// port, a fresh pairing token, and no launch at login.
pub fn default_stored_settings() -> (r: Result<StoredSettings, TokenError>)
    ensures
        r matches Ok(s) ==> s.port == DEFAULT_PORT && s.token@.len() == 22 && !s.launch_at_login,
        r matches Err(e) ==> e.message@ == "failed to generate pairing token"@,
{
    match generate_pairing_token() {
        Ok(token) => Ok(StoredSettings { port: DEFAULT_PORT, token, launch_at_login: false }),
        Err(e) => Err(e),
    }
}

/// Whether an IPv4 address is a loopback address (127.0.0.0/8).
pub open spec fn is_loopback(a: [u8; 4]) -> bool {
    a[0] == 127
}

/// A local address of the machine, as the system reports it.
#[derive(Debug, Clone, Copy, PartialEq, Eq)]
pub enum LocalAddress {
    V4([u8; 4]),
    V6,
}

/// The LAN address that pairing URLs use: the machine's local IPv4 address
/// unless it is a loopback address; none for IPv6 or when none was found.
pub fn preferred_lan_ipv4(local: Option<LocalAddress>) -> (r: Option<[u8; 4]>)
    ensures
        r == match local {
            Some(LocalAddress::V4(a)) => if is_loopback(a) {
                None
            } else {
                Some(a)
            },
            _ => None,
        },
{
    match local {
        Some(LocalAddress::V4(a)) => {
            if a[0] == 127 {
                None
            } else {
                Some(a)
            }
        },
        _ => None,
    }
}

/// The first of the candidate names that is not blank, trimmed, or the fallback.
pub open spec fn hostname_spec(candidates: Seq<Option<Seq<char>>>, fallback: Seq<char>) -> Seq<char>
    decreases candidates.len(),
{
    if candidates.len() == 0 {
        fallback
    } else {
        match candidates[0] {
            Some(name) => if trim(name).len() > 0 {
                trim(name)
            } else {
                hostname_spec(candidates.drop_first(), fallback)
            },
            None => hostname_spec(candidates.drop_first(), fallback),
        }
    }
}

/// The views of candidate names.
pub open spec fn candidate_texts(v: Seq<Option<String>>) -> Seq<Option<Seq<char>>> {
    v.map_values(|c: Option<String>| match c {
        Some(s) => Some(s@),
        None => None,
    })
}

/// The host name: the first of the candidates (for the desktop host the
/// `COMPUTERNAME` and `HOSTNAME` variables, then the kernel's host name) that
/// is not blank, trimmed; the fallback (`localhost` there) when none is.
pub fn hostname(candidates: &[Option<String>], fallback: &str) -> (r: String)
    ensures
        r@ == hostname_spec(candidate_texts(candidates@), fallback@),
{
    let ghost all = candidate_texts(candidates@);
    assert(all.subrange(0, all.len() as int) =~= all);
    let mut i: usize = 0;
    while i < candidates.len()
        invariant
            i <= candidates@.len(),
            all == candidate_texts(candidates@),
            hostname_spec(all, fallback@) == hostname_spec(all.subrange(i as int, all.len() as int), fallback@),
        decreases candidates.len() - i,
    {
        let ghost rest = all.subrange(i as int, all.len() as int);
        assert(rest.drop_first() =~= all.subrange(i + 1, all.len() as int));
        match &candidates[i] {
            Some(name) => {
                let chars = chars_of(name.as_str());
                let trimmed = trim_chars(&chars);
                if trimmed.len() > 0 {
                    return string_of(&trimmed);
                }
            },
            None => {},
        }
        i = i + 1;
    }
    String::from_str(fallback)
}

impl RuntimeSettings {
    /// The settings of a host from its stored settings, its host name and LAN
    /// address; the server binds every interface.
    pub fn from_store(stored: StoredSettings, hostname: String, launch_at_login: bool, lan_host: Option<[u8; 4]>) -> (s:
        RuntimeSettings)
        ensures
            s.bind_host@ == "0.0.0.0"@,
            s.port == stored.port,
            s.token@ == stored.token@,
            s.hostname@ == hostname@,
            s.launch_at_login == launch_at_login,
            s.lan_host == lan_host,
    {
        RuntimeSettings {
            bind_host: String::from_str("0.0.0.0"),
            port: stored.port,
            token: stored.token,
            hostname,
            launch_at_login,
            lan_host,
        }
    }

    /// The same settings with a fresh pairing token.
    pub fn with_new_token(&self) -> (r: Result<RuntimeSettings, TokenError>)
        ensures
            r matches Ok(s) ==> s.bind_host@ == self.bind_host@ && s.port == self.port && s.token@.len() == 22
                && s.hostname@ == self.hostname@ && s.launch_at_login == self.launch_at_login && s.lan_host
                == self.lan_host,
            r matches Err(e) ==> e.message@ == "failed to generate pairing token"@,
    {
        match generate_pairing_token() {
            Ok(token) => Ok(
                RuntimeSettings {
                    bind_host: self.bind_host.clone(),
                    port: self.port,
                    token,
                    hostname: self.hostname.clone(),
                    launch_at_login: self.launch_at_login,
                    lan_host: self.lan_host,
                },
            ),
            Err(e) => Err(e),
        }
    }

    /// The settings that are kept on disk.
    pub fn stored(&self) -> (s: StoredSettings)
        ensures
            s.port == self.port,
            s.token@ == self.token@,
            s.launch_at_login == self.launch_at_login,
    {
        StoredSettings { port: self.port, token: self.token.clone(), launch_at_login: self.launch_at_login }
    }
}

} // verus!
