//! Decisions of the host's WebSocket backend that do not touch devices:
//! bounding pasted text, mapping request paths to bundled assets, and the
//! input a client holds.

use vstd::prelude::*;
use vstd::string::StringSliceAdditionalSpecFns;
use vstd::utf8::{encode_utf8, is_char_boundary};
use crate::order::{TextSet, strictly_sorted};
use crate::actions::{Platform, ActionError, ActionErrorView, validate, validate_spec, error_view, action_error_text, reports_execution_result, reports_result_spec};
use crate::codex::CodexProbes;
use crate::protocol::{BackendEffect, ServerMessage, input_capabilities, pointer_button_supported};
use crate::uinput::{ascii_key_code_spec, is_typeable};
use crate::text::{chars_of, split_on, split_chars, char_texts, string_texts, str_eq};

verus! {

/// The most bytes of text that one paste sends.
pub const PASTE_TEXT_LIMIT_BYTES: usize = 12000;

/// The largest character boundary of `bytes` that is at most `limit`.
pub open spec fn boundary_at_most(bytes: Seq<u8>, limit: nat) -> nat
    decreases limit,
{
    if limit == 0 || is_char_boundary(bytes, limit as int) {
        limit
    } else {
        boundary_at_most(bytes, (limit - 1) as nat)
    }
}

/// The UTF-8 bytes of a text.
pub open spec fn utf8(s: Seq<char>) -> Seq<u8> {
    encode_utf8(s)
}

/// The bytes that a text keeps when it is cut to at most `max_bytes` bytes
/// without splitting a character.
pub open spec fn truncated_bytes(s: Seq<char>, max_bytes: nat) -> Seq<u8> {
    if utf8(s).len() <= max_bytes {
        utf8(s)
    } else {
        utf8(s).subrange(0, boundary_at_most(utf8(s), max_bytes) as int)
    }
}

/// Cuts a text to at most `max_bytes` bytes, at the last character boundary
/// that fits.
pub fn truncate_to_char_boundary(text: String, max_bytes: usize) -> (r: String)
    ensures
        utf8(r@) == truncated_bytes(text@, max_bytes as nat),
{
    broadcast use vstd::utf8::encode_utf8_valid_utf8, vstd::utf8::is_char_boundary_start_end_of_seq,
        vstd::utf8::valid_utf8_split, vstd::utf8::decode_utf8_encode_utf8, vstd::utf8::encode_utf8_decode_utf8;

    let s = text.as_str();
    if s.as_bytes().len() <= max_bytes {
        return text;
    }
    let mut limit: usize = max_bytes;
    while limit > 0 && !s.is_char_boundary(limit)
        invariant
            limit <= max_bytes,
            boundary_at_most(utf8(text@), max_bytes as nat) == boundary_at_most(utf8(text@), limit as nat),
            s@ == text@,
        decreases limit,
    {
        limit = limit - 1;
    }
    let (head, _) = s.split_at(limit);
    String::from_str(head)
}

/// A text without its leading occurrences of `c`.
pub open spec fn strip_leading(s: Seq<char>, c: char) -> Seq<char>
    decreases s.len(),
{
    if s.len() > 0 && s[0] == c {
        strip_leading(s.drop_first(), c)
    } else {
        s
    }
}

proof fn lemma_strip_leading(s: Seq<char>, c: char, k: int)
    requires
        0 <= k <= s.len(),
        forall|i: int| 0 <= i < k ==> #[trigger] s[i] == c,
        k == s.len() || s[k] != c,
    ensures
        strip_leading(s, c) == s.subrange(k, s.len() as int),
    decreases s.len(),
{
    if k == 0 {
        assert(s.subrange(0, s.len() as int) =~= s);
    } else {
        assert forall|i: int| 0 <= i < k - 1 implies #[trigger] s.drop_first()[i] == c by {
            assert(s.drop_first()[i] == s[i + 1]);
        }
        lemma_strip_leading(s.drop_first(), c, k - 1);
        assert(s.drop_first().subrange(k - 1, s.len() - 1) =~= s.subrange(k, s.len() as int));
    }
}

/// Whether a path component could escape the asset directory or is empty.
pub open spec fn unsafe_component(p: Seq<char>) -> bool {
    p.len() == 0 || p == "."@ || p == ".."@
}

/// The bundled asset that a request path names: the index for the root, and
/// nothing for a path with an empty, `.` or `..` component.
pub open spec fn asset_path_spec(uri: Seq<char>) -> Option<Seq<char>> {
    let path = strip_leading(uri, '/');
    if path.len() == 0 {
        Some("index.html"@)
    } else if exists|i: int| 0 <= i < split_on(path, '/').len() && unsafe_component(#[trigger] split_on(path, '/')[i]) {
        None
    } else {
        Some(path)
    }
}

fn is_unsafe_component(p: &[char]) -> (r: bool)
    ensures
        r == unsafe_component(p@),
{
    p.len() == 0 || crate::text::chars_eq(p, ".") || crate::text::chars_eq(p, "..")
}

/// The asset path for a request path, refusing any traversal.
pub fn mobile_asset_path(uri_path: &str) -> (r: Option<String>)
    ensures
        crate::codex::opt_string(r) == asset_path_spec(uri_path@),
{
    let chars = chars_of(uri_path);
    let mut k: usize = 0;
    while k < chars.len() && chars[k] == '/'
        invariant
            k <= chars.len(),
            chars@ == uri_path@,
            forall|i: int| 0 <= i < k ==> #[trigger] chars@[i] == '/',
        decreases chars.len() - k,
    {
        k = k + 1;
    }
    proof {
        lemma_strip_leading(chars@, '/', k as int);
    }
    let mut path: Vec<char> = Vec::new();
    let mut j: usize = k;
    while j < chars.len()
        invariant
            k <= j <= chars.len(),
            path@ == chars@.subrange(k as int, j as int),
        decreases chars.len() - j,
    {
        path.push(chars[j]);
        j = j + 1;
    }
    assert(path@ == strip_leading(uri_path@, '/'));
    if path.len() == 0 {
        return Some(String::from_str("index.html"));
    }
    let pieces = split_chars(&path, '/');
    let mut i: usize = 0;
    while i < pieces.len()
        invariant
            i <= pieces.len(),
            char_texts(pieces@) == split_on(path@, '/'),
            path@ == strip_leading(uri_path@, '/'),
            path@.len() > 0,
            forall|m: int| 0 <= m < i ==> !unsafe_component(#[trigger] split_on(path@, '/')[m]),
        decreases pieces.len() - i,
    {
        if is_unsafe_component(pieces[i].as_slice()) {
            assert(unsafe_component(split_on(path@, '/')[i as int]));
            return None;
        }
        i = i + 1;
    }
    Some(crate::text::string_of(&path))
}

/// Whether a key code is one of the Super keys.
pub open spec fn is_meta(code: Seq<char>) -> bool {
    code == "MetaLeft"@ || code == "MetaRight"@
}

/// The codes that are Super keys (`meta`) or that are not, in order.
pub open spec fn keep_meta(s: Seq<Seq<char>>, meta: bool) -> Seq<Seq<char>>
    decreases s.len(),
{
    if s.len() == 0 {
        seq![]
    } else {
        let r = keep_meta(s.drop_last(), meta);
        if is_meta(s.last()) == meta {
            r.push(s.last())
        } else {
            r
        }
    }
}

/// A release effect as a flag (button or key) and a name.
pub open spec fn release_view(e: BackendEffect) -> (bool, Seq<char>) {
    match e {
        BackendEffect::PointerButton { button, .. } => (true, button@),
        BackendEffect::Key { code, .. } => (false, code@),
        _ => (false, seq![]),
    }
}

/// Whether an effect releases a button or a key.
pub open spec fn is_release(e: BackendEffect) -> bool {
    e matches BackendEffect::PointerButton { down: false, .. } || e matches BackendEffect::Key { down: false, .. }
}

/// The releases that end a client's held input: every held button, then the
/// held keys other than Super, then the Super keys, each group in increasing
/// order of name.
pub open spec fn release_plan(buttons: Seq<Seq<char>>, keys: Seq<Seq<char>>) -> Seq<(bool, Seq<char>)> {
    buttons.map_values(|b: Seq<char>| (true, b)) + keep_meta(keys, false).map_values(|k: Seq<char>| (false, k))
        + keep_meta(keys, true).map_values(|k: Seq<char>| (false, k))
}

/// The pointer buttons and keys that one client holds down.
pub struct ClientInputState {
    held_buttons: TextSet,
    held_keys: TextSet,
}

impl ClientInputState {
    /// The held buttons, in increasing order.
    pub closed spec fn buttons(&self) -> Seq<Seq<char>> {
        self.held_buttons@
    }

    /// The held keys, in increasing order.
    pub closed spec fn keys(&self) -> Seq<Seq<char>> {
        self.held_keys@
    }

    /// The state is well formed.
    pub closed spec fn wf(&self) -> bool {
        self.held_buttons.wf() && self.held_keys.wf()
    }

    /// A well-formed state holds its buttons and its keys each in strictly
    /// increasing order.
    pub proof fn lemma_held_sorted(&self)
        requires
            self.wf(),
        ensures
            strictly_sorted(self.buttons()),
            strictly_sorted(self.keys()),
    {
        self.held_buttons.lemma_sorted();
        self.held_keys.lemma_sorted();
    }

    /// Whether an effect presses a button or key that is already held.
    pub open spec fn is_held_spec(&self, effect: BackendEffect) -> bool {
        match effect {
            BackendEffect::PointerButton { button, down: true } => self.buttons().contains(button@),
            BackendEffect::Key { code, down: true } => self.keys().contains(code@),
            _ => false,
        }
    }

    /// A client that holds nothing.
    pub fn new() -> (s: ClientInputState)
        ensures
            s.wf(),
            s.buttons() == Seq::<Seq<char>>::empty(),
            s.keys() == Seq::<Seq<char>>::empty(),
    {
        ClientInputState { held_buttons: TextSet::new(), held_keys: TextSet::new() }
    }

    /// Whether an effect presses a button or key that is already held.
    pub fn is_held(&self, effect: &BackendEffect) -> (r: bool)
        ensures
            r == self.is_held_spec(*effect),
    {
        match effect {
            BackendEffect::PointerButton { button, down } => *down && self.held_buttons.contains(button.as_str()),
            BackendEffect::Key { code, down } => *down && self.held_keys.contains(code.as_str()),
            _ => false,
        }
    }

    /// Records a press or release that the device performed.
    pub fn record(&mut self, effect: &BackendEffect)
        ensures
            final(self).wf(),
            match *effect {
                BackendEffect::PointerButton { button, down } => final(self).keys() == old(self).keys()
                    && final(self).buttons().to_set() == (if down {
                    old(self).buttons().to_set().insert(button@)
                } else {
                    old(self).buttons().to_set().remove(button@)
                }),
                BackendEffect::Key { code, down } => final(self).buttons() == old(self).buttons()
                    && final(self).keys().to_set() == (if down {
                    old(self).keys().to_set().insert(code@)
                } else {
                    old(self).keys().to_set().remove(code@)
                }),
                _ => final(self).buttons() == old(self).buttons() && final(self).keys() == old(self).keys(),
            },
    {
        match effect {
            BackendEffect::PointerButton { button, down } => {
                if *down {
                    self.held_buttons.insert(button.as_str());
                } else {
                    self.held_buttons.remove(button.as_str());
                }
            },
            BackendEffect::Key { code, down } => {
                if *down {
                    self.held_keys.insert(code.as_str());
                } else {
                    self.held_keys.remove(code.as_str());
                }
            },
            _ => {},
        }
        proof {
            use_type_invariant(&self.held_buttons);
            use_type_invariant(&self.held_keys);
        }
    }

    /// Empties the state and returns the releases that undo everything held:
    /// pointer buttons first, then ordinary keys, then the Super keys.
    pub fn drain_releases(&mut self) -> (r: Vec<BackendEffect>)
        ensures
            final(self).wf(),
            final(self).buttons() == Seq::<Seq<char>>::empty(),
            final(self).keys() == Seq::<Seq<char>>::empty(),
            strictly_sorted(old(self).buttons()),
            strictly_sorted(old(self).keys()),
            forall|i: int| 0 <= i < r@.len() ==> is_release(#[trigger] r@[i]),
            r@.map_values(|e: BackendEffect| release_view(e)) == release_plan(old(self).buttons(), old(self).keys()),
    {
        proof {
            use_type_invariant(&self.held_buttons);
            use_type_invariant(&self.held_keys);
            self.lemma_held_sorted();
        }
        let buttons = self.held_buttons.take_all();
        let keys = self.held_keys.take_all();
        let ghost bs = string_texts(buttons@);
        let ghost ks = string_texts(keys@);
        let mut releases: Vec<BackendEffect> = Vec::new();
        let ghost mut expected: Seq<(bool, Seq<char>)> = seq![];
        let mut i: usize = 0;
        while i < buttons.len()
            invariant
                i <= buttons.len(),
                bs == string_texts(buttons@),
                releases@.len() == expected.len(),
                forall|j: int| 0 <= j < releases@.len() ==> is_release(#[trigger] releases@[j]),
                forall|j: int| 0 <= j < releases@.len() ==> release_view(#[trigger] releases@[j]) == expected[j],
                expected == bs.subrange(0, i as int).map_values(|b: Seq<char>| (true, b)),
            decreases buttons.len() - i,
        {
            releases.push(BackendEffect::PointerButton { button: String::from_str(buttons[i].as_str()), down: false });
            proof {
                expected = expected.push((true, bs[i as int]));
                assert(expected =~= bs.subrange(0, i + 1).map_values(|b: Seq<char>| (true, b)));
            }
            i = i + 1;
        }
        assert(bs.subrange(0, bs.len() as int) =~= bs);
        let ghost after_buttons = expected;
        let mut round: usize = 0;
        while round < 2
            invariant
                round <= 2,
                ks == string_texts(keys@),
                releases@.len() == expected.len(),
                forall|j: int| 0 <= j < releases@.len() ==> is_release(#[trigger] releases@[j]),
                forall|j: int| 0 <= j < releases@.len() ==> release_view(#[trigger] releases@[j]) == expected[j],
                round == 0 ==> expected == after_buttons,
                round == 1 ==> expected == after_buttons + keep_meta(ks, false).map_values(|c: Seq<char>| (false, c)),
                round == 2 ==> expected == after_buttons + keep_meta(ks, false).map_values(|c: Seq<char>| (false, c))
                    + keep_meta(ks, true).map_values(|c: Seq<char>| (false, c)),
            decreases 2 - round,
        {
            let meta = round == 1;
            let ghost start = expected;
            let mut k: usize = 0;
            assert(keep_meta(ks.subrange(0, 0), meta).map_values(|c: Seq<char>| (false, c)) =~= seq![]);
            assert(start + seq![] =~= start);
            while k < keys.len()
                invariant
                    k <= keys.len(),
                    ks == string_texts(keys@),
                    releases@.len() == expected.len(),
                    forall|j: int| 0 <= j < releases@.len() ==> is_release(#[trigger] releases@[j]),
                    forall|j: int| 0 <= j < releases@.len() ==> release_view(#[trigger] releases@[j]) == expected[j],
                    expected == start + keep_meta(ks.subrange(0, k as int), meta).map_values(|c: Seq<char>| (false, c)),
                decreases keys.len() - k,
            {
                let code = keys[k].as_str();
                let code_is_meta = str_eq(code, "MetaLeft") || str_eq(code, "MetaRight");
                let ghost prefix = ks.subrange(0, k + 1);
                assert(prefix.drop_last() =~= ks.subrange(0, k as int));
                assert(prefix.last() == code@);
                if code_is_meta == meta {
                    releases.push(BackendEffect::Key { code: String::from_str(code), down: false });
                    proof {
                        let old_keep = keep_meta(ks.subrange(0, k as int), meta);
                        assert(keep_meta(prefix, meta) == old_keep.push(code@));
                        expected = expected.push((false, code@));
                        assert(old_keep.push(code@).map_values(|c: Seq<char>| (false, c)) =~= old_keep.map_values(
                            |c: Seq<char>| (false, c),
                        ).push((false, code@)));
                        assert(expected =~= start + keep_meta(prefix, meta).map_values(|c: Seq<char>| (false, c)));
                    }
                } else {
                    assert(keep_meta(prefix, meta) == keep_meta(ks.subrange(0, k as int), meta));
                }
                k = k + 1;
            }
            assert(ks.subrange(0, ks.len() as int) =~= ks);
            round = round + 1;
        }
        assert(releases@.map_values(|e: BackendEffect| release_view(e)) =~= release_plan(bs, ks));
        releases
    }
}

impl Default for ClientInputState {
    /// A client that holds nothing.
    fn default() -> (s: ClientInputState)
        ensures
            s.wf(),
            s.buttons() == Seq::<Seq<char>>::empty(),
            s.keys() == Seq::<Seq<char>>::empty(),
    {
        ClientInputState::new()
    }
}

/// Whether the desktop backend's input device on a platform types a
/// character directly: the Linux device types the characters that have a key
/// on a US layout, the Windows device any ASCII character, the others none.
pub open spec fn typeable_on(p: Platform, c: char) -> bool {
    match p {
        Platform::Linux => ascii_key_code_spec(c) is Some,
        Platform::Windows => (c as u32) < 128,
        _ => false,
    }
}

/// Whether a character is typed directly by the desktop backend on a platform.
pub fn is_typeable_on(p: Platform, c: char) -> (r: bool)
    ensures
        r == typeable_on(p, c),
{
    match p {
        Platform::Linux => is_typeable(c),
        Platform::Windows => (c as u32) < 128,
        _ => false,
    }
}

/// Whether every character of a text is typed directly.
pub open spec fn all_typeable(p: Platform, s: Seq<char>) -> bool {
    forall|i: int| 0 <= i < s.len() ==> typeable_on(p, #[trigger] s[i])
}

/// What the backend does with an effect routed from one client.
#[derive(Debug, Clone)]
pub enum EffectStep {
    /// The button or key is already held by this client: nothing is sent.
    AlreadyHeld,
    /// The effect is sent to the input device; `operation` names it in an error.
    Input { effect: BackendEffect, operation: &'static str },
    /// The text is typed on the input device.
    Type { value: String },
    /// The text is pasted through the clipboard, apart from the connection.
    Paste { value: String },
    /// The client is answered with an error and nothing is done.
    Reject { message: ServerMessage },
    /// The action is run; `report` says whether its outcome is sent back.
    Run { action: String, report: bool },
    /// Nothing is done and nothing is answered.
    Ignore,
}

/// The code of the error that answers a refused action.
pub open spec fn rejection_code(e: ActionErrorView) -> Seq<char> {
    match e {
        ActionErrorView::Unknown(_) => "unknown_action"@,
        _ => "unavailable_action"@,
    }
}

/// The text of an action error as texts.
pub open spec fn error_view_text(e: ActionErrorView) -> Seq<char> {
    match e {
        ActionErrorView::Unknown(a) => "unknown desktop action: "@ + a,
        ActionErrorView::Unavailable(p, a, r) => p + " desktop action "@ + a + " is unavailable: "@ + r,
        ActionErrorView::Failed(p, a, d) => p + " desktop action "@ + a + " failed: "@ + d,
    }
}

/// Whether a message is an error with this code and text.
pub open spec fn is_error(m: ServerMessage, code: Seq<char>, text: Seq<char>) -> bool {
    m matches ServerMessage::Error { code: c, message: t } && c@ == code && t@ == text
}

/// The step for an effect that no held input stops.
pub open spec fn step_spec(p: Platform, probes: CodexProbes, effect: BackendEffect, r: EffectStep) -> bool {
    match effect {
        BackendEffect::Move { .. } => r matches EffectStep::Input { effect: e, operation: o } && e == effect && o@
            == "move"@,
        BackendEffect::Wheel { .. } => r matches EffectStep::Input { effect: e, operation: o } && e == effect && o@
            == "wheel"@,
        BackendEffect::Click { .. } => r matches EffectStep::Input { effect: e, operation: o } && e == effect && o@
            == "click"@,
        BackendEffect::PointerButton { .. } => if pointer_button_supported(p) {
            r matches EffectStep::Input { effect: e, operation: o } && e == effect && o@ == "pointerButton"@
        } else {
            r matches EffectStep::Reject { message } && is_error(
                message,
                "unsupported_input"@,
                "Pointer button hold is unavailable on this target backend."@,
            )
        },
        BackendEffect::Key { .. } => r matches EffectStep::Input { effect: e, operation: o } && e == effect && o@
            == "key"@,
        BackendEffect::Text { value } => if all_typeable(p, value@) {
            r matches EffectStep::Type { value: v } && v@ == value@
        } else {
            r matches EffectStep::Paste { value: v } && v@ == value@
        },
        BackendEffect::Paste { value } => r matches EffectStep::Paste { value: v } && v@ == value@,
        BackendEffect::Cmd { action } => match validate_spec(p, probes, action@) {
            Err(e) => r matches EffectStep::Reject { message } && is_error(message, rejection_code(e), error_view_text(e)),
            Ok(()) => r matches EffectStep::Run { action: a, report } && a@ == action@ && report == reports_result_spec(
                action@,
            ),
        },
        BackendEffect::Authorize { .. } => r is Ignore,
    }
}

/// Whether every character of a text is typed directly.
fn text_is_typeable(p: Platform, value: &str) -> (r: bool)
    ensures
        r == all_typeable(p, value@),
{
    let chars = chars_of(value);
    let mut i: usize = 0;
    while i < chars.len()
        invariant
            i <= chars.len(),
            chars@ == value@,
            forall|j: int| 0 <= j < i ==> typeable_on(p, #[trigger] value@[j]),
        decreases chars.len() - i,
    {
        if !is_typeable_on(p, chars[i]) {
            return false;
        }
        i = i + 1;
    }
    true
}

/// Decides what the backend does with an effect routed from a client that
/// holds `client_input`: a press of what the client already holds is
/// dropped; pointer input goes to the device, pointer button hold only where
/// the platform supports it; text is typed when the device types every
/// character and pasted otherwise; an action is validated first and run
/// only when it is available.
pub fn plan_effect(p: Platform, probes: &CodexProbes, effect: BackendEffect, client_input: &ClientInputState) -> (r:
    EffectStep)
    ensures
        client_input.is_held_spec(effect) ==> r is AlreadyHeld,
        !client_input.is_held_spec(effect) ==> step_spec(p, *probes, effect, r),
{
    if client_input.is_held(&effect) {
        return EffectStep::AlreadyHeld;
    }
    match effect {
        BackendEffect::Move { dx, dy } => EffectStep::Input { effect: BackendEffect::Move { dx, dy }, operation: "move" },
        BackendEffect::Wheel { dy } => EffectStep::Input { effect: BackendEffect::Wheel { dy }, operation: "wheel" },
        BackendEffect::Click { button, click_count } => EffectStep::Input {
            effect: BackendEffect::Click { button, click_count },
            operation: "click",
        },
        BackendEffect::PointerButton { button, down } => {
            let capability = input_capabilities(p).pointer_button;
            proof {
                reveal_strlit("supported");
                reveal_strlit("unsupported");
            }
            if !capability.is_supported() {
                let note = match capability.note {
                    Some(n) => n,
                    None => "Pointer button hold is unavailable on this target backend.",
                };
                return EffectStep::Reject { message: ServerMessage::error("unsupported_input", note) };
            }
            EffectStep::Input { effect: BackendEffect::PointerButton { button, down }, operation: "pointerButton" }
        },
        BackendEffect::Key { code, down } => EffectStep::Input {
            effect: BackendEffect::Key { code, down },
            operation: "key",
        },
        BackendEffect::Text { value } => {
            if text_is_typeable(p, value.as_str()) {
                EffectStep::Type { value }
            } else {
                EffectStep::Paste { value }
            }
        },
        BackendEffect::Paste { value } => EffectStep::Paste { value },
        BackendEffect::Cmd { action } => {
            match validate(p, probes, action.as_str()) {
                Err(error) => {
                    let code = match error {
                        ActionError::Unknown { .. } => "unknown_action",
                        _ => "unavailable_action",
                    };
                    let text = error.message();
                    EffectStep::Reject { message: ServerMessage::error(code, text.as_str()) }
                },
                Ok(()) => {
                    let report = reports_execution_result(action.as_str());
                    EffectStep::Run { action, report }
                },
            }
        },
        BackendEffect::Authorize { .. } => EffectStep::Ignore,
    }
}

/// The message of the input error of the operation named `operation`.
pub open spec fn input_error_text(operation: Seq<char>, error: Seq<char>) -> Seq<char> {
    operation + " input failed: "@ + error
}

/// The error that answers a failed input operation.
pub fn input_error(operation: &'static str, error: &str) -> (m: ServerMessage)
    ensures
        is_error(m, "input_failed"@, input_error_text(operation@, error@)),
{
    let mut text = String::from_str(operation);
    text.append(" input failed: ");
    text.append(error);
    ServerMessage::error("input_failed", text.as_str())
}

/// The error that answers a refused action: `unknown_action` for an action
/// that no registry holds, `unavailable_action` otherwise, with the error's
/// text.
pub fn action_refusal(error: &ActionError) -> (m: ServerMessage)
    ensures
        is_error(m, if error is Unknown { "unknown_action"@ } else { "unavailable_action"@ }, action_error_text(*error)),
{
    let code = match error {
        ActionError::Unknown { .. } => "unknown_action",
        _ => "unavailable_action",
    };
    let text = error.message();
    ServerMessage::error(code, text.as_str())
}

/// The error that answers a client message that could not be read, with the
/// reader's explanation.
pub fn rejected_message(reason: &str) -> (m: ServerMessage)
    ensures
        is_error(m, "invalid_message"@, "Message was rejected: "@ + reason@),
{
    let mut text = String::from_str("Message was rejected: ");
    text.append(reason);
    ServerMessage::error("invalid_message", text.as_str())
}

/// The outcome that is sent back of an action that reports its result: sent,
/// with a fixed note, or failed, with the error's text.
pub fn command_outcome(action: &str, result: Result<(), String>) -> (m: ServerMessage)
    ensures
        m matches ServerMessage::ActionResult { action: a, status: s, message: t } && a@ == action@ && match result {
            Ok(()) => s@ == "sent"@ && t@
                == "The Host dispatched Codex's configured voice hotkey. Voice session status is not confirmed."@,
            Err(e) => s@ == "failed"@ && t@ == e@,
        },
{
    match result {
        Ok(()) => ServerMessage::action_result(
            action,
            "sent",
            "The Host dispatched Codex's configured voice hotkey. Voice session status is not confirmed.",
        ),
        Err(e) => ServerMessage::action_result(action, "failed", e.as_str()),
    }
}

/// The modifier of the paste shortcut that the desktop backend sends on a
/// platform after filling the clipboard: Super on macOS, Control on Windows,
/// Shift on Linux (with Insert); none where pasting is not implemented.
pub open spec fn paste_modifier_spec(p: Platform) -> Option<Seq<char>> {
    match p {
        Platform::MacOs => Some("MetaLeft"@),
        Platform::Windows => Some("ControlLeft"@),
        Platform::Linux => Some("ShiftLeft"@),
        Platform::Unsupported => None,
    }
}

/// The modifier of the paste shortcut on a platform.
pub fn paste_modifier(p: Platform) -> (r: Option<&'static str>)
    ensures
        crate::codex::opt_text(r) == paste_modifier_spec(p),
{
    match p {
        Platform::MacOs => Some("MetaLeft"),
        Platform::Windows => Some("ControlLeft"),
        Platform::Linux => Some("ShiftLeft"),
        Platform::Unsupported => None,
    }
}

/// The key that pastes with a modifier: Insert with Shift, V otherwise.
pub open spec fn paste_key_spec(modifier: Seq<char>) -> Seq<char> {
    if modifier == "ShiftLeft"@ {
        "Insert"@
    } else {
        "KeyV"@
    }
}

/// The key events of the paste shortcut, in order: the modifier and the key
/// pressed, then the key and the modifier released.
pub open spec fn paste_steps_spec(modifier: Seq<char>) -> Seq<(Seq<char>, bool)> {
    seq![(modifier, true), (paste_key_spec(modifier), true), (paste_key_spec(modifier), false), (modifier, false)]
}

/// The key events of the paste shortcut with a modifier.
pub fn paste_shortcut_steps(modifier: &str) -> (r: Vec<(String, bool)>)
    ensures
        r@.len() == 4,
        forall|i: int| 0 <= i < 4 ==> (#[trigger] r@[i]).0@ == paste_steps_spec(modifier@)[i].0 && r@[i].1
            == paste_steps_spec(modifier@)[i].1,
{
    let key = if str_eq(modifier, "ShiftLeft") {
        "Insert"
    } else {
        "KeyV"
    };
    let mut r: Vec<(String, bool)> = Vec::new();
    r.push((String::from_str(modifier), true));
    r.push((String::from_str(key), true));
    r.push((String::from_str(key), false));
    r.push((String::from_str(modifier), false));
    r
}

/// The extension of a file path: what follows the last dot of its last
/// component, unless that dot begins the name.
pub open spec fn path_extension(path: Seq<char>) -> Option<Seq<char>> {
    let name = split_on(path, '/').last();
    if exists|i: int| 0 < i < name.len() && name[i] == '.' {
        let d = choose|i: int| 0 < i < name.len() && name[i] == '.' && forall|j: int| i < j < name.len() ==> name[j] != '.';
        Some(name.subrange(d + 1, name.len() as int))
    } else {
        None
    }
}

/// The content type of a bundled asset, by the extension of its path.
pub open spec fn content_type_spec(path: Seq<char>) -> Seq<char> {
    match path_extension(path) {
        Some(e) => if e == "html"@ {
            "text/html; charset=utf-8"@
        } else if e == "css"@ {
            "text/css; charset=utf-8"@
        } else if e == "js"@ {
            "application/javascript; charset=utf-8"@
        } else if e == "json"@ {
            "application/json; charset=utf-8"@
        } else if e == "svg"@ {
            "image/svg+xml"@
        } else {
            "application/octet-stream"@
        },
        None => "application/octet-stream"@,
    }
}

/// The content type that a bundled asset is served with.
pub fn asset_content_type(path: &str) -> (r: &'static str)
    ensures
        r@ == content_type_spec(path@),
{
    let chars = chars_of(path);
    let parts = split_chars(&chars, '/');
    proof {
        crate::text::lemma_split_nonempty(chars@, '/');
    }
    let name = &parts[parts.len() - 1];
    let ghost nm = split_on(path@, '/').last();
    assert(name@ == nm);
    let mut i: usize = name.len();
    while i > 1 && name[i - 1] != '.'
        invariant
            i <= name@.len(),
            name@ == nm,
            forall|j: int| i <= j < nm.len() ==> nm[j] != '.',
        decreases i,
    {
        i = i - 1;
    }
    if i <= 1 {
        proof {
            assert(!(exists|k: int| 0 < k < nm.len() && nm[k] == '.')) by {
                if exists|k: int| 0 < k < nm.len() && nm[k] == '.' {
                    let k = choose|k: int| 0 < k < nm.len() && nm[k] == '.';
                    assert(k >= i);
                }
            }
        }
        return "application/octet-stream";
    }
    let dot = i - 1;
    assert(0 < dot < nm.len() && nm[dot as int] == '.' && forall|j: int| dot < j < nm.len() ==> nm[j] != '.');
    let ghost d = choose|k: int| 0 < k < nm.len() && nm[k] == '.' && forall|j: int| k < j < nm.len() ==> nm[j] != '.';
    proof {
        if d < dot {
            assert(nm[dot as int] != '.');
        }
        if d > dot {
            assert(nm[d] != '.');
        }
    }
    let mut ext = String::new();
    let mut k: usize = dot + 1;
    while k < name.len()
        invariant
            dot < k <= name@.len(),
            name@ == nm,
            ext@ == nm.subrange(dot + 1, k as int),
        decreases name.len() - k,
    {
        crate::text::push_char(&mut ext, name[k]);
        k = k + 1;
    }
    let e = ext.as_str();
    if str_eq(e, "html") {
        "text/html; charset=utf-8"
    } else if str_eq(e, "css") {
        "text/css; charset=utf-8"
    } else if str_eq(e, "js") {
        "application/javascript; charset=utf-8"
    } else if str_eq(e, "json") {
        "application/json; charset=utf-8"
    } else if str_eq(e, "svg") {
        "image/svg+xml"
    } else {
        "application/octet-stream"
    }
}

} // verus!
