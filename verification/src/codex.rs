//! Codex voice-chat shortcuts: reading configured accelerators and deciding
//! whether a voice action can be dispatched.

use vstd::prelude::*;
use crate::metadata::{MetadataError, MetadataErrorView, metadata_error_view};
use crate::actions::{CapabilityStatus, CapabilityView, codex_action_list, scoped, scoped_capability};
use crate::text::{
    chars_eq, chars_eq_ignore_case, chars_of, decimal, decimal_string, eq_ignore_ascii_case, push_char,
    char_texts, split_chars, split_on, string_of, string_texts, str_eq, trim, trim_chars, upper_char, upper_text,
};

verus! {

/// The outcomes of the Codex probes that the Linux host runs for each voice action.
pub struct CodexProbes {
    pub start: Result<StartBinding, ProbeError>,
    pub start_foreground: Result<StartBinding, ProbeError>,
    pub end: Result<StartBinding, ProbeError>,
    pub toggle_microphone: Result<StartBinding, ProbeError>,
}

/// Why a Codex probe could not produce a dispatchable binding.
#[derive(Debug, Clone, PartialEq, Eq)]
pub struct ProbeError {
    pub reason_code: &'static str,
    pub detail: String,
}

/// A configured accelerator together with the input codes that press it.
#[derive(Debug, Clone, PartialEq, Eq)]
pub struct StartBinding {
    pub accelerator: String,
    pub input_codes: Vec<String>,
}

/// The reasons for which an accelerator is refused.
#[derive(Debug, Clone, Copy, PartialEq, Eq)]
pub enum AcceleratorFault {
    EmptyKey,
    ModifierAfterPrimary,
    RepeatedModifier,
    ExtraPrimary,
    UnsupportedKey,
    MissingPrimary,
}

/// The explanation that completes the sentence of a refused accelerator.
pub open spec fn fault_reason(f: AcceleratorFault) -> Seq<char> {
    match f {
        AcceleratorFault::EmptyKey => "contains an empty key"@,
        AcceleratorFault::ModifierAfterPrimary => "places a modifier after the primary key"@,
        AcceleratorFault::RepeatedModifier => "repeats a modifier"@,
        AcceleratorFault::ExtraPrimary => "contains more than one primary key"@,
        AcceleratorFault::UnsupportedKey => "uses an unsupported key"@,
        AcceleratorFault::MissingPrimary => "does not contain a primary key"@,
    }
}

/// The modifier input code that an accelerator token names, if any.
pub open spec fn modifier_of(t: Seq<char>) -> Option<Seq<char>> {
    if eq_ignore_ascii_case(t, "command"@) || eq_ignore_ascii_case(t, "cmd"@)
        || eq_ignore_ascii_case(t, "super"@) || eq_ignore_ascii_case(t, "meta"@) {
        Some("MetaLeft"@)
    } else if eq_ignore_ascii_case(t, "commandorcontrol"@) || eq_ignore_ascii_case(t, "cmdorctrl"@)
        || eq_ignore_ascii_case(t, "control"@) || eq_ignore_ascii_case(t, "ctrl"@) {
        Some("ControlLeft"@)
    } else if eq_ignore_ascii_case(t, "option"@) || eq_ignore_ascii_case(t, "alt"@) {
        Some("AltLeft"@)
    } else if eq_ignore_ascii_case(t, "shift"@) {
        Some("ShiftLeft"@)
    } else {
        None
    }
}

/// Whether every character is an ASCII digit.
pub open spec fn all_digits(d: Seq<char>) -> bool {
    forall|i: int| 0 <= i < d.len() ==> '0' <= #[trigger] d[i] && d[i] <= '9'
}

/// The value of a string of decimal digits.
pub open spec fn digits_value(d: Seq<char>) -> nat
    decreases d.len(),
{
    if d.len() == 0 {
        0
    } else {
        digits_value(d.drop_last()) * 10 + ((d.last() as nat) - 48) as nat
    }
}

/// The `u8` that a text denotes, as `str::parse::<u8>` reads it: an optional
/// `+` sign and at least one decimal digit, of value at most 255.
pub open spec fn parse_u8_text(s: Seq<char>) -> Option<nat> {
    let d = if s.len() > 0 && s[0] == '+' { s.drop_first() } else { s };
    if d.len() > 0 && all_digits(d) && digits_value(d) <= 255 {
        Some(digits_value(d))
    } else {
        None
    }
}

/// The primary-key input code that an accelerator token names, if any.
pub open spec fn primary_of(t: Seq<char>) -> Option<Seq<char>> {
    let u = upper_text(t);
    if u.len() > 0 && u[0] == 'F' && parse_u8_text(u.drop_first()) is Some
        && 1 <= parse_u8_text(u.drop_first())->0 <= 12 {
        Some(seq!['F'] + decimal(parse_u8_text(u.drop_first())->0))
    } else if u.len() == 1 && 'A' <= u[0] && u[0] <= 'Z' {
        Some("Key"@.push(u[0]))
    } else if u.len() == 1 && '0' <= u[0] && u[0] <= '9' {
        Some("Digit"@.push(u[0]))
    } else if u == "ENTER"@ || u == "RETURN"@ {
        Some("Enter"@)
    } else if u == "ESC"@ || u == "ESCAPE"@ {
        Some("Escape"@)
    } else if u == "TAB"@ {
        Some("Tab"@)
    } else if u == "SPACE"@ {
        Some("Space"@)
    } else if u == "BACKSPACE"@ {
        Some("Backspace"@)
    } else if u == "DELETE"@ {
        Some("Delete"@)
    } else if u == "HOME"@ {
        Some("Home"@)
    } else if u == "END"@ {
        Some("End"@)
    } else if u == "PAGEUP"@ {
        Some("PageUp"@)
    } else if u == "PAGEDOWN"@ {
        Some("PageDown"@)
    } else if u == "UP"@ || u == "ARROWUP"@ {
        Some("ArrowUp"@)
    } else if u == "DOWN"@ || u == "ARROWDOWN"@ {
        Some("ArrowDown"@)
    } else if u == "LEFT"@ || u == "ARROWLEFT"@ {
        Some("ArrowLeft"@)
    } else if u == "RIGHT"@ || u == "ARROWRIGHT"@ {
        Some("ArrowRight"@)
    } else {
        None
    }
}

/// The trimmed `+`-separated tokens of an accelerator.
pub open spec fn accelerator_tokens(s: Seq<char>) -> Seq<Seq<char>> {
    split_on(s, '+').map_values(|p: Seq<char>| trim(p))
}

/// Reads tokens left to right, given the codes collected so far and whether
/// the primary key has been seen.
pub open spec fn parse_steps(tokens: Seq<Seq<char>>, codes: Seq<Seq<char>>, seen: bool) -> Result<
    Seq<Seq<char>>,
    AcceleratorFault,
>
    decreases tokens.len(),
{
    if tokens.len() == 0 {
        if seen {
            Ok(codes)
        } else {
            Err(AcceleratorFault::MissingPrimary)
        }
    } else {
        let t = tokens[0];
        if t.len() == 0 {
            Err(AcceleratorFault::EmptyKey)
        } else if modifier_of(t) is Some {
            let m = modifier_of(t)->0;
            if seen {
                Err(AcceleratorFault::ModifierAfterPrimary)
            } else if codes.contains(m) {
                Err(AcceleratorFault::RepeatedModifier)
            } else {
                parse_steps(tokens.drop_first(), codes.push(m), false)
            }
        } else if seen {
            Err(AcceleratorFault::ExtraPrimary)
        } else if primary_of(t) is None {
            Err(AcceleratorFault::UnsupportedKey)
        } else {
            parse_steps(tokens.drop_first(), codes.push(primary_of(t)->0), true)
        }
    }
}

/// The input codes an accelerator presses, or why it is refused.
pub open spec fn accelerator_codes(s: Seq<char>) -> Result<Seq<Seq<char>>, AcceleratorFault> {
    parse_steps(accelerator_tokens(s), seq![], false)
}

/// The sentence that explains a refused accelerator.
pub open spec fn invalid_accelerator_detail(accelerator: Seq<char>, reason: Seq<char>) -> Seq<char> {
    "Codex's OS-global Voice Chat hotkey ("@ + accelerator + ") cannot be dispatched safely because it "@
        + reason + "."@
}

/// The error for an accelerator that cannot be dispatched safely.
pub fn invalid_accelerator(accelerator: &str, reason: &str) -> (e: ProbeError)
    ensures
        e.reason_code@ == "codex_global_binding_unsupported"@,
        e.detail@ == invalid_accelerator_detail(accelerator@, reason@),
{
    let mut detail = String::from_str("Codex's OS-global Voice Chat hotkey (");
    detail.append(accelerator);
    detail.append(") cannot be dispatched safely because it ");
    detail.append(reason);
    detail.append(".");
    ProbeError { reason_code: "codex_global_binding_unsupported", detail }
}

/// The view of an optional static text.
pub open spec fn opt_text(o: Option<&'static str>) -> Option<Seq<char>> {
    match o {
        Some(s) => Some(s@),
        None => None,
    }
}

/// The view of an optional string.
pub open spec fn opt_string(o: Option<String>) -> Option<Seq<char>> {
    match o {
        Some(s) => Some(s@),
        None => None,
    }
}

fn modifier_code_chars(t: &[char]) -> (r: Option<&'static str>)
    ensures
        opt_text(r) == modifier_of(t@),
{
    if chars_eq_ignore_case(t, "command") || chars_eq_ignore_case(t, "cmd")
        || chars_eq_ignore_case(t, "super") || chars_eq_ignore_case(t, "meta") {
        Some("MetaLeft")
    } else if chars_eq_ignore_case(t, "commandorcontrol") || chars_eq_ignore_case(t, "cmdorctrl")
        || chars_eq_ignore_case(t, "control") || chars_eq_ignore_case(t, "ctrl") {
        Some("ControlLeft")
    } else if chars_eq_ignore_case(t, "option") || chars_eq_ignore_case(t, "alt") {
        Some("AltLeft")
    } else if chars_eq_ignore_case(t, "shift") {
        Some("ShiftLeft")
    } else {
        None
    }
}

/// The modifier input code that an accelerator token names, if any.
pub fn modifier_code(token: &str) -> (r: Option<&'static str>)
    ensures
        opt_text(r) == modifier_of(token@),
{
    let t = chars_of(token);
    modifier_code_chars(&t)
}

/// Reads `d` as `str::parse::<u8>` does.
fn parse_u8_chars(s: &[char]) -> (r: Option<u8>)
    ensures
        match r {
            Some(n) => parse_u8_text(s@) == Some(n as nat),
            None => parse_u8_text(s@) is None,
        },
{
    let start: usize = if s.len() > 0 && s[0] == '+' { 1 } else { 0 };
    let ghost d = if s@.len() > 0 && s@[0] == '+' { s@.drop_first() } else { s@ };
    assert(d =~= s@.subrange(start as int, s@.len() as int));
    if start >= s.len() {
        return None;
    }
    let mut value: u16 = 0;
    let mut i: usize = start;
    while i < s.len()
        invariant
            start <= i <= s.len(),
            d == s@.subrange(start as int, s@.len() as int),
            d == (if s@.len() > 0 && s@[0] == '+' { s@.drop_first() } else { s@ }),
            value <= 255,
            all_digits(s@.subrange(start as int, i as int)),
            value == digits_value(s@.subrange(start as int, i as int)),
        decreases s.len() - i,
    {
        let c = s[i];
        let ghost prefix = s@.subrange(start as int, i + 1);
        assert(prefix.drop_last() =~= s@.subrange(start as int, i as int));
        if c < '0' || c > '9' {
            assert(d[i - start] == c);
            assert(!all_digits(d));
            return None;
        }
        let digit: u16 = (c as u32 - 48) as u16;
        let next: u16 = value * 10 + digit;
        assert(next == digits_value(prefix));
        if next > 255 {
            proof {
                assert(d.subrange(0, i - start + 1) =~= prefix);
                lemma_digits_value_grows(d, i - start + 1);
            }
            return None;
        }
        value = next;
        i = i + 1;
    }
    assert(s@.subrange(start as int, s@.len() as int) =~= d);
    Some(value as u8)
}

/// The value of a digit string is at least the value of any prefix.
pub proof fn lemma_digits_value_grows(d: Seq<char>, k: int)
    requires
        0 <= k <= d.len(),
        all_digits(d.subrange(0, k)),
    ensures
        all_digits(d) ==> digits_value(d) >= digits_value(d.subrange(0, k)),
    decreases d.len() - k,
{
    if k == d.len() {
        assert(d.subrange(0, k) =~= d);
    } else if all_digits(d) {
        let p = d.subrange(0, k + 1);
        assert(p.drop_last() =~= d.subrange(0, k));
        assert(all_digits(p));
        lemma_digits_value_grows(d, k + 1);
    }
}

fn text_is(u: &[char], lit: &str) -> (r: bool)
    ensures
        r == (u@ == lit@),
{
    chars_eq(u, lit)
}

/// The primary-key input code that an accelerator token names, if any.
pub fn primary_key_code(token: &str) -> (r: Option<String>)
    ensures
        opt_string(r) == primary_of(token@),
{
    let t = chars_of(token);
    let mut u: Vec<char> = Vec::new();
    let mut i: usize = 0;
    while i < t.len()
        invariant
            i <= t.len(),
            t@ == token@,
            u@ == upper_text(t@).subrange(0, i as int),
        decreases t.len() - i,
    {
        u.push(upper_char(t[i]));
        i = i + 1;
    }
    assert(u@ =~= upper_text(token@));
    if u.len() > 0 && u[0] == 'F' {
        let rest = vstd::slice::slice_subrange(u.as_slice(), 1, u.len());
        let number = parse_u8_chars(rest);
        proof {
            assert(rest@ =~= u@.drop_first());
        }
        if let Some(n) = number {
            if 1 <= n && n <= 12 {
                let mut code = String::from_str("F");
                proof {
                    reveal_strlit("F");
                }
                let digits = decimal_string(n as u64);
                code.append(digits.as_str());
                assert(code@ =~= seq!['F'] + decimal(n as nat));
                return Some(code);
            }
        }
    }
    if u.len() == 1 && 'A' <= u[0] && u[0] <= 'Z' {
        let mut code = String::from_str("Key");
        push_char(&mut code, u[0]);
        return Some(code);
    }
    if u.len() == 1 && '0' <= u[0] && u[0] <= '9' {
        let mut code = String::from_str("Digit");
        push_char(&mut code, u[0]);
        return Some(code);
    }
    let name: Option<&'static str> = if text_is(&u, "ENTER") || text_is(&u, "RETURN") {
        Some("Enter")
    } else if text_is(&u, "ESC") || text_is(&u, "ESCAPE") {
        Some("Escape")
    } else if text_is(&u, "TAB") {
        Some("Tab")
    } else if text_is(&u, "SPACE") {
        Some("Space")
    } else if text_is(&u, "BACKSPACE") {
        Some("Backspace")
    } else if text_is(&u, "DELETE") {
        Some("Delete")
    } else if text_is(&u, "HOME") {
        Some("Home")
    } else if text_is(&u, "END") {
        Some("End")
    } else if text_is(&u, "PAGEUP") {
        Some("PageUp")
    } else if text_is(&u, "PAGEDOWN") {
        Some("PageDown")
    } else if text_is(&u, "UP") || text_is(&u, "ARROWUP") {
        Some("ArrowUp")
    } else if text_is(&u, "DOWN") || text_is(&u, "ARROWDOWN") {
        Some("ArrowDown")
    } else if text_is(&u, "LEFT") || text_is(&u, "ARROWLEFT") {
        Some("ArrowLeft")
    } else if text_is(&u, "RIGHT") || text_is(&u, "ARROWRIGHT") {
        Some("ArrowRight")
    } else {
        None
    };
    match name {
        Some(n) => Some(String::from_str(n)),
        None => None,
    }
}

/// Whether one of the strings equals a text.
pub fn texts_contain(codes: &Vec<String>, m: &str) -> (r: bool)
    ensures
        r == string_texts(codes@).contains(m@),
{
    let mut i: usize = 0;
    while i < codes.len()
        invariant
            i <= codes.len(),
            forall|j: int| 0 <= j < i ==> codes@[j]@ != m@,
        decreases codes.len() - i,
    {
        if str_eq(codes[i].as_str(), m) {
            assert(string_texts(codes@)[i as int] == m@);
            return true;
        }
        i = i + 1;
    }
    proof {
        if string_texts(codes@).contains(m@) {
            let j = choose|j: int| 0 <= j < string_texts(codes@).len() && string_texts(codes@)[j] == m@;
            assert(codes@[j]@ == m@);
        }
    }
    false
}

/// The input codes that an accelerator such as `Ctrl+Shift+K` presses, in
/// order: its modifiers, each at most once, then exactly one primary key.
pub fn parse_accelerator(accelerator: &str) -> (r: Result<Vec<String>, ProbeError>)
    ensures
        match accelerator_codes(accelerator@) {
            Ok(codes) => r is Ok && string_texts(r->Ok_0@) == codes,
            Err(f) => r is Err && r->Err_0.reason_code@ == "codex_global_binding_unsupported"@
                && r->Err_0.detail@ == invalid_accelerator_detail(accelerator@, fault_reason(f)),
        },
{
    let chars = chars_of(accelerator);
    let pieces = split_chars(&chars, '+');
    let ghost tokens = accelerator_tokens(accelerator@);
    let mut codes: Vec<String> = Vec::new();
    let mut seen = false;
    let mut i: usize = 0;
    assert(tokens.skip(0) =~= tokens);
    assert(chars@ == accelerator@);
    assert(string_texts(codes@) =~= seq![]);
    while i < pieces.len()
        invariant
            i <= pieces.len(),
            tokens == accelerator_tokens(accelerator@),
            char_texts(pieces@) == split_on(accelerator@, '+'),
            accelerator_codes(accelerator@) == parse_steps(tokens.skip(i as int), string_texts(codes@), seen),
        decreases pieces.len() - i,
    {
        let token = trim_chars(pieces[i].as_slice());
        assert(token@ == tokens[i as int]);
        assert(tokens.skip(i as int)[0] == tokens[i as int]);
        assert(tokens.skip(i as int).drop_first() =~= tokens.skip(i + 1));
        if token.len() == 0 {
            return Err(invalid_accelerator(accelerator, "contains an empty key"));
        }
        let text = string_of(&token);
        match modifier_code(text.as_str()) {
            Some(modifier) => {
                if seen {
                    return Err(invalid_accelerator(accelerator, "places a modifier after the primary key"));
                }
                if texts_contain(&codes, modifier) {
                    return Err(invalid_accelerator(accelerator, "repeats a modifier"));
                }
                let ghost before = string_texts(codes@);
                codes.push(String::from_str(modifier));
                assert(string_texts(codes@) =~= before.push(modifier@));
            },
            None => {
                if seen {
                    return Err(invalid_accelerator(accelerator, "contains more than one primary key"));
                }
                match primary_key_code(text.as_str()) {
                    None => {
                        return Err(invalid_accelerator(accelerator, "uses an unsupported key"));
                    },
                    Some(primary) => {
                        let ghost before = string_texts(codes@);
                        codes.push(primary);
                        assert(string_texts(codes@) =~= before.push(primary@));
                        seen = true;
                    },
                }
            },
        }
        i = i + 1;
    }
    if !seen {
        return Err(invalid_accelerator(accelerator, "does not contain a primary key"));
    }
    Ok(codes)
}

/// A keybinding as Codex stores it: the command and the accelerator bound to it.
#[derive(Debug, Clone, PartialEq, Eq)]
pub struct Keybinding {
    pub command: String,
    pub key: String,
}

/// A probe outcome as texts: the accelerator, or the reason code and detail.
pub open spec fn probe_view(p: Result<StartBinding, ProbeError>) -> Result<Seq<char>, (Seq<char>, Seq<char>)> {
    match p {
        Ok(b) => Ok(b.accelerator@),
        Err(e) => Err((e.reason_code@, e.detail@)),
    }
}

/// Whether an action is one of the Codex voice actions.
pub fn is_codex_action(action: &str) -> (r: bool)
    ensures
        r == codex_action_list().contains(action@),
{
    crate::actions::reports_execution_result(action)
}

/// The note of a ready OS-global start capability.
pub open spec fn start_note(accelerator: Seq<char>) -> Seq<char> {
    "Dispatches Codex's configured OS-global Voice Chat hotkey ("@ + accelerator
        + "). TapPad can verify hotkey dispatch, not that a voice session started."@
}

/// The note of a ready app-scoped capability.
pub open spec fn app_note(label: Seq<char>, accelerator: Seq<char>) -> Seq<char> {
    "Codex is foreground. Sends its configured "@ + label + " app shortcut ("@ + accelerator
        + ") without confirming voice state."@
}

/// The capability of the OS-global start action for a probe outcome.
pub open spec fn start_capability_spec(p: Result<Seq<char>, (Seq<char>, Seq<char>)>) -> CapabilityView {
    match p {
        Ok(acc) => CapabilityView {
            state: "supported"@,
            note: Some(start_note(acc)),
            scope: Some("os-global"@),
            reason_code: None,
            binding: Some(acc),
        },
        Err((code, detail)) => scoped("unavailable"@, detail, "os-global"@, Some(code)),
    }
}

/// The capability of an app-scoped action for a probe outcome.
pub open spec fn app_capability_spec(label: Seq<char>, p: Result<Seq<char>, (Seq<char>, Seq<char>)>) -> CapabilityView {
    match p {
        Ok(acc) => CapabilityView {
            state: "supported"@,
            note: Some(app_note(label, acc)),
            scope: Some("app"@),
            reason_code: None,
            binding: Some(acc),
        },
        Err((code, detail)) => scoped("unavailable"@, detail, "app"@, Some(code)),
    }
}

/// The OS-global start capability when the probe failed.
pub fn unavailable_start(error: &ProbeError) -> (c: CapabilityStatus)
    ensures
        c@ == scoped("unavailable"@, error.detail@, "os-global"@, Some(error.reason_code@)),
{
    scoped_capability("unavailable", error.detail.as_str(), "os-global", Some(error.reason_code))
}

/// An app-scoped capability when the probe failed.
pub fn unavailable_app(error: &ProbeError) -> (c: CapabilityStatus)
    ensures
        c@ == scoped("unavailable"@, error.detail@, "app"@, Some(error.reason_code@)),
{
    scoped_capability("unavailable", error.detail.as_str(), "app", Some(error.reason_code))
}

/// The capability of `codex.voice.start` for the outcome of its probe.
pub fn start_voice_capability_for(probe: &Result<StartBinding, ProbeError>) -> (c: CapabilityStatus)
    ensures
        c@ == start_capability_spec(probe_view(*probe)),
{
    match probe {
        Ok(binding) => {
            let mut note = String::from_str("Dispatches Codex's configured OS-global Voice Chat hotkey (");
            note.append(binding.accelerator.as_str());
            note.append("). TapPad can verify hotkey dispatch, not that a voice session started.");
            let mut c = scoped_capability("supported", note.as_str(), "os-global", None);
            c.binding = Some(String::from_str(binding.accelerator.as_str()));
            c
        },
        Err(error) => unavailable_start(error),
    }
}

/// The capability of an app-scoped voice action for the outcome of its probe.
pub fn app_voice_capability_for(label: &str, probe: &Result<StartBinding, ProbeError>) -> (c: CapabilityStatus)
    ensures
        c@ == app_capability_spec(label@, probe_view(*probe)),
{
    match probe {
        Ok(binding) => {
            let mut note = String::from_str("Codex is foreground. Sends its configured ");
            note.append(label);
            note.append(" app shortcut (");
            note.append(binding.accelerator.as_str());
            note.append(") without confirming voice state.");
            let mut c = scoped_capability("supported", note.as_str(), "app", None);
            c.binding = Some(String::from_str(binding.accelerator.as_str()));
            c
        },
        Err(error) => unavailable_app(error),
    }
}

/// The capability that the Codex probes give a voice action, or `None` for
/// an action that is not a Codex voice action.
pub open spec fn codex_capability_spec(action: Seq<char>, probes: CodexProbes) -> Option<CapabilityView> {
    if action == "codex.voice.start"@ {
        Some(start_capability_spec(probe_view(probes.start)))
    } else if action == "codex.voice.start_foreground"@ {
        Some(app_capability_spec("Toggle Voice Chat"@, probe_view(probes.start_foreground)))
    } else if action == "codex.voice.end"@ {
        Some(app_capability_spec("End Voice Chat"@, probe_view(probes.end)))
    } else if action == "codex.voice.toggle_microphone"@ {
        Some(app_capability_spec("Toggle Voice Chat microphone"@, probe_view(probes.toggle_microphone)))
    } else {
        None
    }
}

/// The view of an optional capability.
pub open spec fn opt_capability(c: Option<CapabilityStatus>) -> Option<CapabilityView> {
    match c {
        Some(c) => Some(c@),
        None => None,
    }
}

/// The capability of a Codex voice action, from the probes of the running host.
pub fn capability(action: &str, probes: &CodexProbes) -> (c: Option<CapabilityStatus>)
    ensures
        opt_capability(c) == codex_capability_spec(action@, *probes),
{
    if str_eq(action, "codex.voice.start") {
        Some(start_voice_capability_for(&probes.start))
    } else if str_eq(action, "codex.voice.start_foreground") {
        Some(app_voice_capability_for("Toggle Voice Chat", &probes.start_foreground))
    } else if str_eq(action, "codex.voice.end") {
        Some(app_voice_capability_for("End Voice Chat", &probes.end))
    } else if str_eq(action, "codex.voice.toggle_microphone") {
        Some(app_voice_capability_for("Toggle Voice Chat microphone", &probes.toggle_microphone))
    } else {
        None
    }
}

/// A probe failure as texts: the reason code and the detail.
pub type ProbeFault = (Seq<char>, Seq<char>);

/// The keybindings as (command, key) texts.
pub open spec fn keybinding_texts(v: Seq<Keybinding>) -> Seq<(Seq<char>, Seq<char>)> {
    Seq::new(v.len(), |i: int| (v[i].command@, v[i].key@))
}

/// The keys bound to a command, in the order in which they are listed.
pub open spec fn matching_keys(b: Seq<(Seq<char>, Seq<char>)>, command: Seq<char>) -> Seq<Seq<char>>
    decreases b.len(),
{
    if b.len() == 0 {
        seq![]
    } else {
        let r = matching_keys(b.drop_last(), command);
        if b.last().0 == command {
            r.push(b.last().1)
        } else {
            r
        }
    }
}

/// A probe result as texts: the accelerator and its input codes, or the failure.
pub open spec fn binding_result_view(r: Result<StartBinding, ProbeError>) -> Result<(Seq<char>, Seq<Seq<char>>), ProbeFault> {
    match r {
        Ok(b) => Ok((b.accelerator@, string_texts(b.input_codes@))),
        Err(e) => Err((e.reason_code@, e.detail@)),
    }
}

/// The keybindings read from disk, or why they could not be read, as texts.
pub open spec fn bindings_view(r: Result<Vec<Keybinding>, ProbeError>) -> Result<Seq<(Seq<char>, Seq<char>)>, ProbeFault> {
    match r {
        Ok(v) => Ok(keybinding_texts(v@)),
        Err(e) => Err((e.reason_code@, e.detail@)),
    }
}

/// Whether the Codex runtime is running, or why it could not be inspected, as texts.
pub open spec fn running_view(r: Result<bool, String>) -> Result<bool, Seq<char>> {
    match r {
        Ok(b) => Ok(b),
        Err(e) => Err(e@),
    }
}

/// The failure when no supported Codex installation exists.
pub open spec fn not_installed_fault() -> ProbeFault {
    ("codex_not_installed"@, "Codex desktop was not found at a supported Linux installation path."@)
}

/// What probing the OS-global start binding yields.
pub open spec fn start_probe_spec(
    installed: bool,
    bindings: Result<Seq<(Seq<char>, Seq<char>)>, ProbeFault>,
    running: Result<bool, Seq<char>>,
) -> Result<(Seq<char>, Seq<Seq<char>>), ProbeFault> {
    if !installed {
        Err(not_installed_fault())
    } else {
        match bindings {
            Err(fault) => Err(fault),
            Ok(b) => {
                let keys = matching_keys(b, "realtimeVoice"@);
                if keys.len() == 0 {
                    Err(("codex_global_binding_missing"@, "Codex has no configured OS-global Voice Chat hotkey."@))
                } else if keys.len() > 1 {
                    Err((
                        "codex_global_binding_ambiguous"@,
                        "Codex has more than one configured OS-global Voice Chat hotkey; TapPad will not guess which binding is active."@,
                    ))
                } else {
                    match accelerator_codes(keys[0]) {
                        Err(f) => Err((
                            "codex_global_binding_unsupported"@,
                            invalid_accelerator_detail(keys[0], fault_reason(f)),
                        )),
                        Ok(codes) => match running {
                            Ok(true) => Ok((keys[0], codes)),
                            Ok(false) => Err((
                                "codex_not_running"@,
                                "Codex desktop is installed but not running, so its global Voice Chat hotkey is not registered."@,
                            )),
                            Err(text) => Err((
                                "codex_runtime_unreadable"@,
                                "TapPad could not inspect the Codex desktop runtime: "@ + text,
                            )),
                        },
                    }
                }
            },
        }
    }
}

/// What resolving an app-scoped binding yields.
pub open spec fn app_binding_spec(
    installed: bool,
    bindings: Result<Seq<(Seq<char>, Seq<char>)>, ProbeFault>,
    command: Seq<char>,
) -> Result<(Seq<char>, Seq<Seq<char>>), ProbeFault> {
    if !installed {
        Err(not_installed_fault())
    } else {
        match bindings {
            Err(fault) => Err(fault),
            Ok(b) => {
                let keys = matching_keys(b, command);
                if keys.len() == 0 {
                    Err(("codex_app_binding_missing"@, "The Codex app shortcut is not configured."@))
                } else if keys.len() > 1 {
                    Err(("codex_app_binding_ambiguous"@, "Codex has more than one binding for this app shortcut."@))
                } else {
                    match accelerator_codes(keys[0]) {
                        Err(_) => Err((
                            "codex_app_binding_unsupported"@,
                            "Codex's configured app shortcut ("@ + keys[0] + ") cannot be dispatched safely."@,
                        )),
                        Ok(codes) => Ok((keys[0], codes)),
                    }
                }
            },
        }
    }
}

/// The number of bindings for a command (counting stops at two) and the key of the first.
fn find_binding(bindings: &Vec<Keybinding>, command: &str) -> (r: (usize, Option<usize>))
    ensures
        r.0 == (if matching_keys(keybinding_texts(bindings@), command@).len() > 1 { 2 } else {
            matching_keys(keybinding_texts(bindings@), command@).len()
        }),
        matching_keys(keybinding_texts(bindings@), command@).len() >= 1 ==> r.1 is Some && r.1->0
            < bindings@.len() && bindings@[r.1->0 as int].key@ == matching_keys(
            keybinding_texts(bindings@),
            command@,
        )[0],
{
    let mut count: usize = 0;
    let mut first: Option<usize> = None;
    let mut i: usize = 0;
    while i < bindings.len()
        invariant
            i <= bindings.len(),
            count == (if matching_keys(keybinding_texts(bindings@.subrange(0, i as int)), command@).len() > 1 { 2 } else {
                matching_keys(keybinding_texts(bindings@.subrange(0, i as int)), command@).len()
            }),
            matching_keys(keybinding_texts(bindings@.subrange(0, i as int)), command@).len() >= 1 ==> first is Some
                && first->0 < bindings@.len() && bindings@[first->0 as int].key@ == matching_keys(
                keybinding_texts(bindings@.subrange(0, i as int)),
                command@,
            )[0],
            matching_keys(keybinding_texts(bindings@.subrange(0, i as int)), command@).len() == 0 ==> first is None,
        decreases bindings.len() - i,
    {
        let ghost prev = keybinding_texts(bindings@.subrange(0, i as int));
        let ghost next = keybinding_texts(bindings@.subrange(0, i + 1));
        assert(next.drop_last() =~= prev);
        assert(next.last() == (bindings@[i as int].command@, bindings@[i as int].key@));
        if str_eq(bindings[i].command.as_str(), command) {
            if first.is_none() {
                first = Some(i);
            }
            if count < 2 {
                count = count + 1;
            }
            assert(matching_keys(next, command@) == matching_keys(prev, command@).push(bindings@[i as int].key@));
        }
        i = i + 1;
    }
    assert(bindings@.subrange(0, bindings@.len() as int) =~= bindings@);
    (count, first)
}

/// Copies a probe error.
pub fn copy_probe_error(e: &ProbeError) -> (r: ProbeError)
    ensures
        r.reason_code == e.reason_code,
        r.detail@ == e.detail@,
{
    ProbeError { reason_code: e.reason_code, detail: String::from_str(e.detail.as_str()) }
}

/// Probes the OS-global start binding from what the host read: whether Codex
/// is installed, its keybindings, and whether it is running.
pub fn probe_start_binding(
    installed: bool,
    bindings: &Result<Vec<Keybinding>, ProbeError>,
    running: &Result<bool, String>,
) -> (r: Result<StartBinding, ProbeError>)
    ensures
        binding_result_view(r) == start_probe_spec(installed, bindings_view(*bindings), running_view(*running)),
{
    if !installed {
        return Err(ProbeError {
            reason_code: "codex_not_installed",
            detail: String::from_str("Codex desktop was not found at a supported Linux installation path."),
        });
    }
    let list = match bindings {
        Err(e) => {
            return Err(copy_probe_error(e));
        },
        Ok(list) => list,
    };
    let (count, first) = find_binding(list, "realtimeVoice");
    if count == 0 {
        return Err(ProbeError {
            reason_code: "codex_global_binding_missing",
            detail: String::from_str("Codex has no configured OS-global Voice Chat hotkey."),
        });
    }
    if count > 1 {
        return Err(ProbeError {
            reason_code: "codex_global_binding_ambiguous",
            detail: String::from_str(
                "Codex has more than one configured OS-global Voice Chat hotkey; TapPad will not guess which binding is active.",
            ),
        });
    }
    let index = first.unwrap();
    let key = list[index].key.as_str();
    let input_codes = match parse_accelerator(key) {
        Err(e) => {
            return Err(e);
        },
        Ok(codes) => codes,
    };
    match running {
        Ok(true) => Ok(StartBinding { accelerator: String::from_str(key), input_codes }),
        Ok(false) => Err(ProbeError {
            reason_code: "codex_not_running",
            detail: String::from_str(
                "Codex desktop is installed but not running, so its global Voice Chat hotkey is not registered.",
            ),
        }),
        Err(text) => {
            let mut detail = String::from_str("TapPad could not inspect the Codex desktop runtime: ");
            detail.append(text.as_str());
            Err(ProbeError { reason_code: "codex_runtime_unreadable", detail })
        },
    }
}

/// Resolves the binding of an app-scoped Codex command from what the host read.
pub fn resolve_app_binding(
    installed: bool,
    bindings: &Result<Vec<Keybinding>, ProbeError>,
    command: &str,
) -> (r: Result<StartBinding, ProbeError>)
    ensures
        binding_result_view(r) == app_binding_spec(installed, bindings_view(*bindings), command@),
{
    if !installed {
        return Err(ProbeError {
            reason_code: "codex_not_installed",
            detail: String::from_str("Codex desktop was not found at a supported Linux installation path."),
        });
    }
    let list = match bindings {
        Err(e) => {
            return Err(copy_probe_error(e));
        },
        Ok(list) => list,
    };
    let (count, first) = find_binding(list, command);
    if count == 0 {
        return Err(ProbeError {
            reason_code: "codex_app_binding_missing",
            detail: String::from_str("The Codex app shortcut is not configured."),
        });
    }
    if count > 1 {
        return Err(ProbeError {
            reason_code: "codex_app_binding_ambiguous",
            detail: String::from_str("Codex has more than one binding for this app shortcut."),
        });
    }
    let index = first.unwrap();
    let key = list[index].key.as_str();
    match parse_accelerator(key) {
        Err(_) => {
            let mut detail = String::from_str("Codex's configured app shortcut (");
            detail.append(key);
            detail.append(") cannot be dispatched safely.");
            Err(ProbeError { reason_code: "codex_app_binding_unsupported", detail })
        },
        Ok(input_codes) => Ok(StartBinding { accelerator: String::from_str(key), input_codes }),
    }
}

/// What probing an app-scoped Codex command yields: the binding's fault, or
/// else the foreground check's fault, or else the binding.
pub open spec fn app_probe_spec(
    installed: bool,
    bindings: Result<Seq<(Seq<char>, Seq<char>)>, ProbeFault>,
    command: Seq<char>,
    foreground: Result<(), ProbeFault>,
) -> Result<(Seq<char>, Seq<Seq<char>>), ProbeFault> {
    match app_binding_spec(installed, bindings, command) {
        Err(fault) => Err(fault),
        Ok(b) => match foreground {
            Err(fault) => Err(fault),
            Ok(()) => Ok(b),
        },
    }
}

/// The probe of an app-scoped Codex command: its binding must resolve first,
/// and then Codex must be the verified foreground window.
pub fn probe_app_binding(
    installed: bool,
    bindings: &Result<Vec<Keybinding>, ProbeError>,
    command: &str,
    foreground: &Result<(), ProbeError>,
) -> (r: Result<StartBinding, ProbeError>)
    ensures
        binding_result_view(r) == app_probe_spec(installed, bindings_view(*bindings), command@, unit_result_view(*foreground)),
{
    let binding = resolve_app_binding(installed, bindings, command);
    match binding {
        Err(e) => Err(e),
        Ok(b) => match foreground {
            Err(e) => Err(copy_probe_error(e)),
            Ok(()) => Ok(b),
        },
    }
}

/// The fault that a metadata error makes of an app-scoped command: the
/// archive could not be read or was malformed, the command is missing,
/// listed twice or not app-scoped, or its default binding is missing or
/// ambiguous.
pub open spec fn metadata_fault(e: MetadataErrorView) -> ProbeFault {
    match e {
        MetadataErrorView::Unreadable(d) => ("codex_app_metadata_unreadable"@, "Codex command metadata could not be read: "@ + d),
        MetadataErrorView::Invalid(d) => ("codex_app_metadata_unreadable"@, "Codex command metadata is malformed: "@ + d),
        MetadataErrorView::CommandMissing => ("codex_app_command_missing"@, "Codex command metadata does not list this command."@),
        MetadataErrorView::CommandAmbiguous => (
            "codex_app_command_ambiguous"@,
            "Codex command metadata lists this command more than once."@,
        ),
        MetadataErrorView::ScopeMismatch => (
            "codex_app_command_scope_mismatch"@,
            "Codex command metadata does not mark this command as app-scoped."@,
        ),
        MetadataErrorView::DefaultBindingMissing => ("codex_app_binding_missing"@, "The Codex app shortcut is not configured."@),
        MetadataErrorView::DefaultBindingAmbiguous => (
            "codex_app_metadata_ambiguous"@,
            "Codex command metadata has more than one default binding for this command."@,
        ),
    }
}

/// Whether a metadata error concerns only the default binding, which a
/// user's own binding replaces.
pub open spec fn default_binding_fault(e: MetadataErrorView) -> bool {
    e is DefaultBindingMissing || e is DefaultBindingAmbiguous
}

/// The effective binding of an app-scoped command whose installed metadata
/// was read: Codex must be installed, its keybindings read, and the metadata
/// must list the command once as app-scoped; then a unique user binding
/// wins, two or more are ambiguous, and with none the metadata default is
/// used; the binding must be dispatchable.
pub open spec fn metadata_binding_spec(
    installed: bool,
    bindings: Result<Seq<(Seq<char>, Seq<char>)>, ProbeFault>,
    command: Seq<char>,
    metadata: Result<Seq<char>, MetadataErrorView>,
) -> Result<(Seq<char>, Seq<Seq<char>>), ProbeFault> {
    if !installed {
        Err(not_installed_fault())
    } else {
        match bindings {
            Err(fault) => Err(fault),
            Ok(b) => {
                if metadata is Err && !default_binding_fault(metadata->Err_0) {
                    Err(metadata_fault(metadata->Err_0))
                } else {
                    let keys = matching_keys(b, command);
                    if keys.len() > 1 {
                        Err(("codex_app_binding_ambiguous"@, "Codex has more than one binding for this app shortcut."@))
                    } else {
                        let key: Result<Seq<char>, ProbeFault> = if keys.len() == 1 {
                            Ok(keys[0])
                        } else {
                            match metadata {
                                Ok(k) => Ok(k),
                                Err(e) => Err(metadata_fault(e)),
                            }
                        };
                        match key {
                            Err(fault) => Err(fault),
                            Ok(k) => match accelerator_codes(k) {
                                Err(_) => Err((
                                    "codex_app_binding_unsupported"@,
                                    "Codex's configured app shortcut ("@ + k + ") cannot be dispatched safely."@,
                                )),
                                Ok(codes) => Ok((k, codes)),
                            },
                        }
                    }
                }
            },
        }
    }
}

/// What probing an app-scoped command with installed metadata yields: the
/// binding's fault, or else the foreground check's fault, or else the binding.
pub open spec fn metadata_probe_spec(
    installed: bool,
    bindings: Result<Seq<(Seq<char>, Seq<char>)>, ProbeFault>,
    command: Seq<char>,
    metadata: Result<Seq<char>, MetadataErrorView>,
    foreground: Result<(), ProbeFault>,
) -> Result<(Seq<char>, Seq<Seq<char>>), ProbeFault> {
    match metadata_binding_spec(installed, bindings, command, metadata) {
        Err(fault) => Err(fault),
        Ok(b) => match foreground {
            Err(fault) => Err(fault),
            Ok(()) => Ok(b),
        },
    }
}

/// The probe error for a metadata error.
fn metadata_probe_error(e: &MetadataError) -> (r: ProbeError)
    ensures
        (r.reason_code@, r.detail@) == metadata_fault(metadata_error_view(*e)),
{
    match e {
        MetadataError::Unreadable(d) => {
            let mut detail = String::from_str("Codex command metadata could not be read: ");
            detail.append(d.as_str());
            ProbeError { reason_code: "codex_app_metadata_unreadable", detail }
        },
        MetadataError::Invalid(d) => {
            let mut detail = String::from_str("Codex command metadata is malformed: ");
            detail.append(d.as_str());
            ProbeError { reason_code: "codex_app_metadata_unreadable", detail }
        },
        MetadataError::CommandMissing => ProbeError {
            reason_code: "codex_app_command_missing",
            detail: String::from_str("Codex command metadata does not list this command."),
        },
        MetadataError::CommandAmbiguous => ProbeError {
            reason_code: "codex_app_command_ambiguous",
            detail: String::from_str("Codex command metadata lists this command more than once."),
        },
        MetadataError::ScopeMismatch => ProbeError {
            reason_code: "codex_app_command_scope_mismatch",
            detail: String::from_str("Codex command metadata does not mark this command as app-scoped."),
        },
        MetadataError::DefaultBindingMissing => ProbeError {
            reason_code: "codex_app_binding_missing",
            detail: String::from_str("The Codex app shortcut is not configured."),
        },
        MetadataError::DefaultBindingAmbiguous => ProbeError {
            reason_code: "codex_app_metadata_ambiguous",
            detail: String::from_str("Codex command metadata has more than one default binding for this command."),
        },
    }
}

/// The probe of an app-scoped Codex command whose default binding comes from
/// the installed command metadata (`composer.startVoiceMode`): the metadata
/// must list the command once as app-scoped, a unique user binding overrides
/// the metadata default, and Codex must then be the verified foreground.
pub fn probe_metadata_app_binding(
    installed: bool,
    bindings: &Result<Vec<Keybinding>, ProbeError>,
    command: &str,
    metadata: &Result<String, MetadataError>,
    foreground: &Result<(), ProbeError>,
) -> (r: Result<StartBinding, ProbeError>)
    ensures
        binding_result_view(r) == metadata_probe_spec(
            installed,
            bindings_view(*bindings),
            command@,
            crate::metadata::outcome_view(*metadata),
            unit_result_view(*foreground),
        ),
{
    if !installed {
        return Err(ProbeError {
            reason_code: "codex_not_installed",
            detail: String::from_str("Codex desktop was not found at a supported Linux installation path."),
        });
    }
    let list = match bindings {
        Err(e) => {
            return Err(copy_probe_error(e));
        },
        Ok(list) => list,
    };
    let default_only = match metadata {
        Err(MetadataError::DefaultBindingMissing) => true,
        Err(MetadataError::DefaultBindingAmbiguous) => true,
        _ => false,
    };
    if let Err(e) = metadata {
        if !default_only {
            return Err(metadata_probe_error(e));
        }
    }
    let (count, first) = find_binding(list, command);
    if count > 1 {
        return Err(ProbeError {
            reason_code: "codex_app_binding_ambiguous",
            detail: String::from_str("Codex has more than one binding for this app shortcut."),
        });
    }
    let key: &str = if count == 1 {
        let index = first.unwrap();
        list[index].key.as_str()
    } else {
        match metadata {
            Ok(k) => k.as_str(),
            Err(e) => {
                return Err(metadata_probe_error(e));
            },
        }
    };
    let binding = match parse_accelerator(key) {
        Err(_) => {
            let mut detail = String::from_str("Codex's configured app shortcut (");
            detail.append(key);
            detail.append(") cannot be dispatched safely.");
            return Err(ProbeError { reason_code: "codex_app_binding_unsupported", detail });
        },
        Ok(input_codes) => StartBinding { accelerator: String::from_str(key), input_codes },
    };
    match foreground {
        Err(e) => Err(copy_probe_error(e)),
        Ok(()) => Ok(binding),
    }
}

/// The Codex probes of the Linux host, from what it read: whether Codex is
/// installed, the user's keybindings, whether Codex runs, the default
/// binding that the installed metadata gives `composer.startVoiceMode`, and
/// the foreground check. The OS-global start uses the `realtimeVoice`
/// binding; foreground start follows the metadata; end and microphone use
/// the user's app bindings.
pub fn linux_codex_probes(
    installed: bool,
    bindings: &Result<Vec<Keybinding>, ProbeError>,
    running: &Result<bool, String>,
    start_metadata: &Result<String, MetadataError>,
    foreground: &Result<(), ProbeError>,
) -> (p: CodexProbes)
    ensures
        binding_result_view(p.start) == start_probe_spec(installed, bindings_view(*bindings), running_view(*running)),
        binding_result_view(p.start_foreground) == metadata_probe_spec(
            installed,
            bindings_view(*bindings),
            "composer.startVoiceMode"@,
            crate::metadata::outcome_view(*start_metadata),
            unit_result_view(*foreground),
        ),
        binding_result_view(p.end) == app_probe_spec(
            installed,
            bindings_view(*bindings),
            "realtimeVoice.endCall"@,
            unit_result_view(*foreground),
        ),
        binding_result_view(p.toggle_microphone) == app_probe_spec(
            installed,
            bindings_view(*bindings),
            "realtimeVoice.toggleMicrophoneMute"@,
            unit_result_view(*foreground),
        ),
{
    CodexProbes {
        start: probe_start_binding(installed, bindings, running),
        start_foreground: probe_metadata_app_binding(installed, bindings, "composer.startVoiceMode", start_metadata, foreground),
        end: probe_app_binding(installed, bindings, "realtimeVoice.endCall", foreground),
        toggle_microphone: probe_app_binding(installed, bindings, "realtimeVoice.toggleMicrophoneMute", foreground),
    }
}

/// Whether a Hyprland window class names the Codex desktop app.
pub open spec fn codex_class_spec(class: Seq<char>) -> bool {
    eq_ignore_ascii_case(class, "chatgpt"@) || eq_ignore_ascii_case(class, "codex"@)
        || eq_ignore_ascii_case(class, "codex-desktop"@)
}

/// Whether a window class names Codex, ignoring ASCII case.
pub fn is_codex_window_class(class: &str) -> (r: bool)
    ensures
        r == codex_class_spec(class@),
{
    let c = chars_of(class);
    chars_eq_ignore_case(&c, "chatgpt") || chars_eq_ignore_case(&c, "codex") || chars_eq_ignore_case(
        &c,
        "codex-desktop",
    )
}

/// What checking the foreground window yields, given its two classes and
/// whether its process is the installed Codex executable.
pub open spec fn foreground_spec(class: Seq<char>, initial_class: Seq<char>, identity_verified: bool) -> Result<(), ProbeFault> {
    if !codex_class_spec(class) || !codex_class_spec(initial_class) {
        Err(("codex_not_foreground"@, "Focus Codex on the desktop to use this app shortcut."@))
    } else if !identity_verified {
        Err((
            "codex_foreground_identity_mismatch"@,
            "The foreground window could not be verified as the installed Codex app."@,
        ))
    } else {
        Ok(())
    }
}

/// The failure view of a unit result.
pub open spec fn unit_result_view(r: Result<(), ProbeError>) -> Result<(), ProbeFault> {
    match r {
        Ok(()) => Ok(()),
        Err(e) => Err((e.reason_code@, e.detail@)),
    }
}

/// Checks that the foreground window is Codex: both of its classes must name
/// Codex, and its process must be the installed executable.
pub fn verify_codex_foreground(class: &str, initial_class: &str, identity_verified: bool) -> (r: Result<(), ProbeError>)
    ensures
        unit_result_view(r) == foreground_spec(class@, initial_class@, identity_verified),
{
    if !is_codex_window_class(class) || !is_codex_window_class(initial_class) {
        return Err(ProbeError {
            reason_code: "codex_not_foreground",
            detail: String::from_str("Focus Codex on the desktop to use this app shortcut."),
        });
    }
    if !identity_verified {
        return Err(ProbeError {
            reason_code: "codex_foreground_identity_mismatch",
            detail: String::from_str("The foreground window could not be verified as the installed Codex app."),
        });
    }
    Ok(())
}

/// The error when the active window could not be inspected.
pub fn foreground_probe_error(error: &str) -> (e: ProbeError)
    ensures
        e.reason_code@ == "codex_foreground_unreadable"@,
        e.detail@ == "TapPad could not inspect the active Hyprland window: "@ + error@,
{
    let mut detail = String::from_str("TapPad could not inspect the active Hyprland window: ");
    detail.append(error);
    ProbeError { reason_code: "codex_foreground_unreadable", detail }
}

/// The active-window JSON from `hyprctl`, or the error that its output reports:
/// `stdout` is the decoded output (or the decoding error), `stderr` the error output.
pub fn active_window_output(success: bool, stdout: Result<String, String>, stderr: &str) -> (r: Result<String, ProbeError>)
    ensures
        success && stdout is Ok ==> r is Ok && r->Ok_0@ == stdout->Ok_0@,
        success && stdout is Err ==> r is Err && r->Err_0.reason_code@ == "codex_foreground_unreadable"@
            && r->Err_0.detail@ == "TapPad could not inspect the active Hyprland window: "@ + stdout->Err_0@,
        !success ==> r is Err && r->Err_0.reason_code@ == "codex_foreground_unreadable"@
            && r->Err_0.detail@ == (if trim(stderr@).len() == 0 {
                "TapPad could not inspect the active Hyprland window."@
            } else {
                "TapPad could not inspect the active Hyprland window: "@ + trim(stderr@)
            }),
{
    if success {
        return match stdout {
            Ok(text) => Ok(text),
            Err(error) => Err(foreground_probe_error(error.as_str())),
        };
    }
    let raw = chars_of(stderr);
    let detail = trim_chars(&raw);
    if detail.len() == 0 {
        Err(ProbeError {
            reason_code: "codex_foreground_unreadable",
            detail: String::from_str("TapPad could not inspect the active Hyprland window."),
        })
    } else {
        let text = string_of(&detail);
        Err(foreground_probe_error(text.as_str()))
    }
}

/// The error when the keybindings file could not be read.
pub fn keybindings_unreadable(path: &str, error: &str) -> (e: ProbeError)
    ensures
        e.reason_code@ == "codex_bindings_unreadable"@,
        e.detail@ == "TapPad could not read Codex keybindings at "@ + path@ + ": "@ + error@,
{
    let mut detail = String::from_str("TapPad could not read Codex keybindings at ");
    detail.append(path);
    detail.append(": ");
    detail.append(error);
    ProbeError { reason_code: "codex_bindings_unreadable", detail }
}

/// The error when the keybindings file is not valid JSON.
pub fn keybindings_invalid(path: &str, error: &str) -> (e: ProbeError)
    ensures
        e.reason_code@ == "codex_bindings_invalid"@,
        e.detail@ == "Codex keybindings at "@ + path@ + " are not valid JSON: "@ + error@,
{
    let mut detail = String::from_str("Codex keybindings at ");
    detail.append(path);
    detail.append(" are not valid JSON: ");
    detail.append(error);
    ProbeError { reason_code: "codex_bindings_invalid", detail }
}

/// How the Linux host dispatches a Codex voice action.
#[derive(Debug, Clone)]
pub enum CodexDispatch {
    /// The chord of the OS-global binding is sent at once.
    Chord { codes: Vec<String> },
    /// The active window is read and checked to be Codex, then the chord of
    /// the app binding is sent.
    ForegroundChord { codes: Vec<String> },
}

/// The probe of a Codex voice action, and whether it is app-scoped.
pub open spec fn action_probe(action: Seq<char>, probes: CodexProbes) -> Option<(Result<StartBinding, ProbeError>, bool)> {
    if action == "codex.voice.start"@ {
        Some((probes.start, false))
    } else if action == "codex.voice.start_foreground"@ {
        Some((probes.start_foreground, true))
    } else if action == "codex.voice.end"@ {
        Some((probes.end, true))
    } else if action == "codex.voice.toggle_microphone"@ {
        Some((probes.toggle_microphone, true))
    } else {
        None
    }
}

/// A copy of some input codes.
fn copy_codes(codes: &Vec<String>) -> (r: Vec<String>)
    ensures
        string_texts(r@) == string_texts(codes@),
{
    let mut r: Vec<String> = Vec::new();
    let mut i: usize = 0;
    while i < codes.len()
        invariant
            i <= codes@.len(),
            string_texts(r@) == string_texts(codes@.subrange(0, i as int)),
        decreases codes.len() - i,
    {
        r.push(codes[i].clone());
        proof {
            assert(string_texts(codes@.subrange(0, i + 1)) =~= string_texts(codes@.subrange(0, i as int)).push(codes@[i as int]@));
        }
        i = i + 1;
    }
    assert(codes@.subrange(0, codes@.len() as int) =~= codes@);
    r
}

/// How a Codex voice action is dispatched, from the probes of the host: the
/// chord of its binding, checked for a foreground Codex first when the
/// action is app-scoped; a failed probe makes the action unavailable with the
/// probe's detail, and an action that is not a Codex voice action is unknown.
pub fn codex_dispatch(action: &str, probes: &CodexProbes) -> (r: Result<CodexDispatch, crate::actions::ActionError>)
    ensures
        match action_probe(action@, *probes) {
            None => r matches Err(crate::actions::ActionError::Unknown { action: a }) && a@ == action@,
            Some((Err(e), _)) => r matches Err(crate::actions::ActionError::Unavailable { platform, action: a, reason })
                && platform@ == "Linux"@ && a@ == action@ && reason@ == e.detail@,
            Some((Ok(b), false)) => r matches Ok(CodexDispatch::Chord { codes }) && string_texts(codes@) == string_texts(
                b.input_codes@,
            ),
            Some((Ok(b), true)) => r matches Ok(CodexDispatch::ForegroundChord { codes }) && string_texts(codes@)
                == string_texts(b.input_codes@),
        },
{
    let (probe, app_scoped) = if str_eq(action, "codex.voice.start") {
        (&probes.start, false)
    } else if str_eq(action, "codex.voice.start_foreground") {
        (&probes.start_foreground, true)
    } else if str_eq(action, "codex.voice.end") {
        (&probes.end, true)
    } else if str_eq(action, "codex.voice.toggle_microphone") {
        (&probes.toggle_microphone, true)
    } else {
        return Err(crate::actions::ActionError::unknown(action));
    };
    match probe {
        Err(e) => Err(crate::actions::ActionError::unavailable("Linux", action, e.detail.as_str())),
        Ok(b) => {
            let codes = copy_codes(&b.input_codes);
            if app_scoped {
                Ok(CodexDispatch::ForegroundChord { codes })
            } else {
                Ok(CodexDispatch::Chord { codes })
            }
        },
    }
}

/// The outcome of an app-scoped action after the foreground check: a failed
/// check makes the action unavailable with its detail.
pub fn foreground_outcome(action: &str, check: &Result<(), ProbeError>) -> (r: Result<(), crate::actions::ActionError>)
    ensures
        check is Ok ==> r is Ok,
        check matches Err(e) ==> (r matches Err(crate::actions::ActionError::Unavailable { platform, action: a, reason })
            && platform@ == "Linux"@ && a@ == action@ && reason@ == e.detail@),
{
    match check {
        Ok(()) => Ok(()),
        Err(e) => Err(crate::actions::ActionError::unavailable("Linux", action, e.detail.as_str())),
    }
}

/// The outcome of sending a Codex chord: a failure of the input device makes
/// the action failed with the device's error.
pub fn chord_outcome(action: &str, sent: &Result<(), String>) -> (r: Result<(), crate::actions::ActionError>)
    ensures
        sent is Ok ==> r is Ok,
        sent matches Err(e) ==> (r matches Err(crate::actions::ActionError::Failed { platform, action: a, detail })
            && platform@ == "Linux"@ && a@ == action@ && detail@ == e@),
{
    match sent {
        Ok(()) => Ok(()),
        Err(e) => Err(crate::actions::ActionError::failed("Linux", action, e.as_str())),
    }
}

/// Whether a process name, as `/proc/<pid>/comm` holds it, is the Codex
/// desktop app: `ChatGPT` in any letter case, around white space.
pub open spec fn is_codex_process_name(comm: Seq<char>) -> bool {
    eq_ignore_ascii_case(trim(comm), "ChatGPT"@)
}

/// Whether a `/proc` entry name is a process id: made of ASCII digits only.
pub open spec fn is_pid_name(name: Seq<char>) -> bool {
    forall|i: int| 0 <= i < name.len() ==> '0' <= #[trigger] name[i] && name[i] <= '9'
}

/// Whether Codex runs, from the `/proc` entries that were read: each entry's
/// name and, where it could be read, its process name.
pub open spec fn codex_running_spec(entries: Seq<(Seq<char>, Option<Seq<char>>)>) -> bool {
    exists|i: int|
        0 <= i < entries.len() && is_pid_name(#[trigger] entries[i].0) && (entries[i].1 matches Some(c)
            && is_codex_process_name(c))
}

/// The views of `/proc` entries.
pub open spec fn proc_entries_view(v: Seq<(String, Option<String>)>) -> Seq<(Seq<char>, Option<Seq<char>>)> {
    v.map_values(|e: (String, Option<String>)| (e.0@, opt_string(e.1)))
}

/// Whether Codex runs: some entry of `/proc` named by digits alone has the
/// process name `ChatGPT`.
pub fn codex_is_running(entries: &[(String, Option<String>)]) -> (r: bool)
    ensures
        r == codex_running_spec(proc_entries_view(entries@)),
{
    let ghost v = proc_entries_view(entries@);
    let mut i: usize = 0;
    while i < entries.len()
        invariant
            i <= entries@.len(),
            v == proc_entries_view(entries@),
            forall|j: int| 0 <= j < i ==> !(is_pid_name(#[trigger] v[j].0) && (v[j].1 matches Some(c)
                && is_codex_process_name(c))),
        decreases entries.len() - i,
    {
        let name = chars_of(entries[i].0.as_str());
        let mut digits = true;
        let mut k: usize = 0;
        while k < name.len()
            invariant
                k <= name@.len(),
                digits == forall|m: int| 0 <= m < k ==> '0' <= #[trigger] name@[m] && name@[m] <= '9',
            decreases name.len() - k,
        {
            if !('0' <= name[k] && name[k] <= '9') {
                digits = false;
            }
            k = k + 1;
        }
        assert(v[i as int].0 == name@);
        if digits {
            match &entries[i].1 {
                Some(comm) => {
                    let chars = chars_of(comm.as_str());
                    let trimmed = trim_chars(&chars);
                    if chars_eq_ignore_case(&trimmed, "ChatGPT") {
                        assert(is_pid_name(v[i as int].0));
                        return true;
                    }
                },
                None => {},
            }
        }
        i = i + 1;
    }
    false
}

} // verus!
