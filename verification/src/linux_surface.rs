//! The Linux host surface: its saved settings and the local endpoint from
//! which it reads the host state.

use vstd::prelude::*;
use crate::codex::{all_digits, digits_value};
use crate::text::{chars_of, decimal, decimal_string, string_of, trim, trim_chars};

verus! {

/// The settings of the Linux host surface.
#[derive(Debug, Clone)]
pub struct LinuxHostSettings {
    pub host_state_url: String,
    pub port: u16,
    pub token: Option<String>,
    pub launch_at_login: bool,
}

/// The host-state URL on the local host for a port.
pub open spec fn local_state_url(port: u16) -> Seq<char> {
    "http://127.0.0.1:"@ + decimal(port as nat) + "/api/host-state"@
}

impl LinuxHostSettings {
    /// The defaults: port 8765, its local host-state URL, no token, no launch at login.
    pub fn default_settings() -> (s: LinuxHostSettings)
        ensures
            s.host_state_url@ == "http://127.0.0.1:8765/api/host-state"@,
            s.port == 8765,
            s.token is None,
            !s.launch_at_login,
    {
        LinuxHostSettings {
            host_state_url: String::from_str("http://127.0.0.1:8765/api/host-state"),
            port: 8765,
            token: None,
            launch_at_login: false,
        }
    }

    /// The settings with the host-state URL of their own port.
    pub fn with_host_state_url(self) -> (s: LinuxHostSettings)
        ensures
            s.host_state_url@ == local_state_url(self.port),
            s.port == self.port,
            s.token == self.token,
            s.launch_at_login == self.launch_at_login,
    {
        let mut url = String::from_str("http://127.0.0.1:");
        let digits = decimal_string(self.port as u64);
        url.append(digits.as_str());
        url.append("/api/host-state");
        let mut this = self;
        this.host_state_url = url;
        this
    }
}

impl Default for LinuxHostSettings {
    fn default() -> (s: LinuxHostSettings)
        ensures
            s.host_state_url@ == "http://127.0.0.1:8765/api/host-state"@,
            s.port == 8765,
            s.token is None,
            !s.launch_at_login,
    {
        LinuxHostSettings::default_settings()
    }
}

/// The `u16` that a text denotes, as `str::parse::<u16>` reads it.
pub open spec fn parse_u16_text(s: Seq<char>) -> Option<nat> {
    let d = if s.len() > 0 && s[0] == '+' { s.drop_first() } else { s };
    if d.len() > 0 && all_digits(d) && digits_value(d) <= 65535 {
        Some(digits_value(d))
    } else {
        None
    }
}

/// The index of the first occurrence of a character.
pub open spec fn first_index(s: Seq<char>, c: char) -> Option<int> {
    if exists|i: int| 0 <= i < s.len() && s[i] == c {
        Some(choose|i: int| 0 <= i < s.len() && s[i] == c && forall|j: int| 0 <= j < i ==> s[j] != c)
    } else {
        None
    }
}

/// The index of the last occurrence of a character.
pub open spec fn last_index(s: Seq<char>, c: char) -> Option<int> {
    if exists|i: int| 0 <= i < s.len() && s[i] == c {
        Some(choose|i: int| 0 <= i < s.len() && s[i] == c && forall|j: int| i < j < s.len() ==> s[j] != c)
    } else {
        None
    }
}

/// What reading a host-state URL yields: the host, the port and the path,
/// or why the URL is refused. Only plain HTTP on the local host is accepted.
pub open spec fn local_url_spec(url: Seq<char>) -> Result<(Seq<char>, u16, Seq<char>), Seq<char>> {
    if !(url.len() >= 7 && url.subrange(0, 7) == "http://"@) {
        Err("Host-state endpoint must use http://."@)
    } else {
        let rest = url.subrange(7, url.len() as int);
        let authority = match first_index(rest, '/') {
            Some(i) => rest.subrange(0, i),
            None => rest,
        };
        let path = match first_index(rest, '/') {
            Some(i) => rest.subrange(i + 1, rest.len() as int),
            None => "api/host-state"@,
        };
        match last_index(authority, ':') {
            None => Err("Host-state endpoint must include a port."@),
            Some(k) => {
                let host = authority.subrange(0, k);
                let port = authority.subrange(k + 1, authority.len() as int);
                if host != "127.0.0.1"@ && host != "localhost"@ {
                    Err("Host-state endpoint must stay on localhost."@)
                } else {
                    match parse_u16_text(port) {
                        None => Err("Host-state endpoint port is invalid."@),
                        Some(n) => Ok((host, n as u16, "/"@ + path)),
                    }
                }
            },
        }
    }
}

fn find_first(s: &[char], c: char) -> (r: Option<usize>)
    ensures
        match r {
            Some(i) => first_index(s@, c) == Some(i as int) && i < s@.len(),
            None => first_index(s@, c) is None,
        },
{
    let mut i: usize = 0;
    while i < s.len()
        invariant
            i <= s@.len(),
            forall|j: int| 0 <= j < i ==> s@[j] != c,
        decreases s@.len() - i,
    {
        if s[i] == c {
            proof {
                let w = choose|w: int| 0 <= w < s@.len() && s@[w] == c && forall|j: int| 0 <= j < w ==> s@[j] != c;
                if w != i {
                    if w < i {
                        assert(s@[w] != c);
                    } else {
                        assert(s@[i as int] != c);
                    }
                }
            }
            return Some(i);
        }
        i = i + 1;
    }
    None
}

fn find_last(s: &[char], c: char) -> (r: Option<usize>)
    ensures
        match r {
            Some(i) => last_index(s@, c) == Some(i as int) && i < s@.len(),
            None => last_index(s@, c) is None,
        },
{
    let mut i: usize = s.len();
    while i > 0
        invariant
            i <= s@.len(),
            forall|j: int| i <= j < s@.len() ==> s@[j] != c,
        decreases i,
    {
        if s[i - 1] == c {
            proof {
                let k = (i - 1) as int;
                let w = choose|w: int| 0 <= w < s@.len() && s@[w] == c && forall|j: int| w < j < s@.len() ==> s@[j] != c;
                if w != k {
                    if w > k {
                        assert(s@[w] != c);
                    } else {
                        assert(s@[k] != c);
                    }
                }
            }
            return Some(i - 1);
        }
        i = i - 1;
    }
    None
}

fn slice_chars(s: &[char], from: usize, to: usize) -> (r: Vec<char>)
    requires
        from <= to <= s@.len(),
    ensures
        r@ == s@.subrange(from as int, to as int),
{
    let mut r: Vec<char> = Vec::new();
    let mut i: usize = from;
    while i < to
        invariant
            from <= i <= to,
            to <= s@.len(),
            r@ == s@.subrange(from as int, i as int),
        decreases to - i,
    {
        r.push(s[i]);
        i = i + 1;
    }
    r
}

pub(crate) fn parse_u16_chars(s: &[char]) -> (r: Option<u16>)
    ensures
        match r {
            Some(n) => parse_u16_text(s@) == Some(n as nat),
            None => parse_u16_text(s@) is None,
        },
{
    let start: usize = if s.len() > 0 && s[0] == '+' { 1 } else { 0 };
    let ghost d = if s@.len() > 0 && s@[0] == '+' { s@.drop_first() } else { s@ };
    assert(d =~= s@.subrange(start as int, s@.len() as int));
    if start >= s.len() {
        return None;
    }
    let mut value: u32 = 0;
    let mut i: usize = start;
    while i < s.len()
        invariant
            start <= i <= s.len(),
            d == s@.subrange(start as int, s@.len() as int),
            d == (if s@.len() > 0 && s@[0] == '+' { s@.drop_first() } else { s@ }),
            value <= 65535,
            all_digits(s@.subrange(start as int, i as int)),
            value == digits_value(s@.subrange(start as int, i as int)),
        decreases s.len() - i,
    {
        let c = s[i];
        let ghost prefix = s@.subrange(start as int, i + 1);
        assert(prefix.drop_last() =~= s@.subrange(start as int, i as int));
        if c < '0' || c > '9' {
            assert(d[i - start] == c);
            assert(!all_digits(d));
            return None;
        }
        let digit: u32 = c as u32 - 48;
        let next: u32 = value * 10 + digit;
        assert(next == digits_value(prefix));
        if next > 65535 {
            proof {
                assert(d.subrange(0, i - start + 1) =~= prefix);
                crate::codex::lemma_digits_value_grows(d, i - start + 1);
            }
            return None;
        }
        value = next;
        i = i + 1;
    }
    assert(s@.subrange(start as int, s@.len() as int) =~= d);
    Some(value as u16)
}

/// Reads a host-state URL, accepting only plain HTTP on the local host.
pub fn parse_local_http_url(url: &str) -> (r: Result<(String, u16, String), String>)
    ensures
        match local_url_spec(url@) {
            Ok((host, port, path)) => r matches Ok((h, p, q)) && h@ == host && p == port && q@ == path,
            Err(message) => r matches Err(m) && m@ == message,
        },
{
    let chars = chars_of(url);
    proof {
        reveal_strlit("http://");
    }
    let mut is_http = chars.len() >= 7;
    if is_http {
        let head = slice_chars(&chars, 0, 7);
        is_http = crate::text::chars_eq(&head, "http://");
    }
    if !is_http {
        return Err(String::from_str("Host-state endpoint must use http://."));
    }
    let rest = slice_chars(&chars, 7, chars.len());
    let (authority, path) = match find_first(&rest, '/') {
        Some(i) => (slice_chars(&rest, 0, i), slice_chars(&rest, i + 1, rest.len())),
        None => (slice_chars(&rest, 0, rest.len()), chars_of("api/host-state")),
    };
    assert(rest@.subrange(0, rest@.len() as int) =~= rest@);
    let k = match find_last(&authority, ':') {
        None => {
            return Err(String::from_str("Host-state endpoint must include a port."));
        },
        Some(k) => k,
    };
    let host = slice_chars(&authority, 0, k);
    let port_text = slice_chars(&authority, k + 1, authority.len());
    if !crate::text::chars_eq(&host, "127.0.0.1") && !crate::text::chars_eq(&host, "localhost") {
        return Err(String::from_str("Host-state endpoint must stay on localhost."));
    }
    let port = match parse_u16_chars(&port_text) {
        None => {
            return Err(String::from_str("Host-state endpoint port is invalid."));
        },
        Some(p) => p,
    };
    let mut full_path = String::from_str("/");
    let tail = string_of(&path);
    full_path.append(tail.as_str());
    Ok((string_of(&host), port, full_path))
}

/// The endpoint to load: the requested URL when it is not blank, else the
/// saved one; either must be a local HTTP URL.
pub fn host_state_endpoint(requested_url: Option<String>, saved_url: &str) -> (r: Result<String, String>)
    ensures
        ({
            let endpoint = match requested_url {
                Some(u) => if trim(u@).len() > 0 { trim(u@) } else { saved_url@ },
                None => saved_url@,
            };
            match local_url_spec(endpoint) {
                Ok(_) => r matches Ok(e) && e@ == endpoint,
                Err(message) => r matches Err(m) && m@ == message,
            }
        }),
{
    let endpoint = match requested_url {
        Some(u) => {
            let chars = chars_of(u.as_str());
            let trimmed = trim_chars(&chars);
            if trimmed.len() > 0 {
                string_of(&trimmed)
            } else {
                String::from_str(saved_url)
            }
        },
        None => String::from_str(saved_url),
    };
    match parse_local_http_url(endpoint.as_str()) {
        Err(message) => Err(message),
        Ok(_) => Ok(endpoint),
    }
}

/// Remembers a loaded endpoint; returns whether the saved URL changed and
/// must be written back.
pub fn remember_host_state_endpoint(endpoint: String, settings: &mut LinuxHostSettings) -> (changed: bool)
    ensures
        changed == (old(settings).host_state_url@ != endpoint@),
        final(settings).host_state_url@ == endpoint@,
        final(settings).port == old(settings).port,
        final(settings).token == old(settings).token,
        final(settings).launch_at_login == old(settings).launch_at_login,
{
    if crate::text::str_eq(settings.host_state_url.as_str(), endpoint.as_str()) {
        return false;
    }
    settings.host_state_url = endpoint;
    true
}

/// The settings that saving produces: a port of zero is refused, a blank
/// token is dropped, and the host-state URL follows the port.
pub fn next_local_settings(port: u16, token: Option<String>, launch_at_login: bool) -> (r: Result<LinuxHostSettings, String>)
    ensures
        port == 0 <==> r is Err,
        r matches Err(m) ==> m@ == "Port must be between 1 and 65535."@,
        r matches Ok(s) ==> s.port == port && s.launch_at_login == launch_at_login && s.host_state_url@
            == local_state_url(port) && crate::codex::opt_string(s.token) == (match token {
            Some(t) => if trim(t@).len() > 0 { Some(trim(t@)) } else { None },
            None => None,
        }),
{
    if port == 0 {
        return Err(String::from_str("Port must be between 1 and 65535."));
    }
    let token = match token {
        Some(t) => {
            let chars = chars_of(t.as_str());
            let trimmed = trim_chars(&chars);
            if trimmed.len() > 0 {
                Some(string_of(&trimmed))
            } else {
                None
            }
        },
        None => None,
    };
    let base = LinuxHostSettings::default_settings();
    let next = LinuxHostSettings { port, token, launch_at_login, host_state_url: base.host_state_url };
    Ok(next.with_host_state_url())
}

} // verus!
