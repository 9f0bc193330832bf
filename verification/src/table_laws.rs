//! Laws of the key and command tables: the Linux key codes name one key
//! each, typed characters press the key of their US layout, the Omarchy
//! host's library keys follow their key codes and agree with the Windows
//! host's, accelerator tokens name the key they press, and the Linux actions
//! run distinct commands, shared with the standalone Linux host.

use vstd::prelude::*;
use crate::host_input::{HostKey, key_for_code_spec};
use crate::actions::linux_command_spec;
use crate::codex::primary_of;
use crate::rust_host::command_table;
use crate::text::{ascii_lower, ascii_upper, eq_ignore_ascii_case, upper_text};
use crate::uinput::{ascii_key_code_spec, key_code_spec};
use crate::windows_input::{WindowsKey, windows_key_spec};

verus! {

/// The key code name that a Linux key code of the table belongs to.
spec fn key_name_of_code(x: u16) -> Seq<char> {
    if x == 1 {
        "Escape"@
    } else if x == 2 {
        "Digit1"@
    } else if x == 3 {
        "Digit2"@
    } else if x == 4 {
        "Digit3"@
    } else if x == 5 {
        "Digit4"@
    } else if x == 6 {
        "Digit5"@
    } else if x == 7 {
        "Digit6"@
    } else if x == 8 {
        "Digit7"@
    } else if x == 9 {
        "Digit8"@
    } else if x == 10 {
        "Digit9"@
    } else if x == 11 {
        "Digit0"@
    } else if x == 12 {
        "Minus"@
    } else if x == 13 {
        "Equal"@
    } else if x == 14 {
        "Backspace"@
    } else if x == 15 {
        "Tab"@
    } else if x == 16 {
        "KeyQ"@
    } else if x == 17 {
        "KeyW"@
    } else if x == 18 {
        "KeyE"@
    } else if x == 19 {
        "KeyR"@
    } else if x == 20 {
        "KeyT"@
    } else if x == 21 {
        "KeyY"@
    } else if x == 22 {
        "KeyU"@
    } else if x == 23 {
        "KeyI"@
    } else if x == 24 {
        "KeyO"@
    } else if x == 25 {
        "KeyP"@
    } else if x == 26 {
        "BracketLeft"@
    } else if x == 27 {
        "BracketRight"@
    } else if x == 28 {
        "Enter"@
    } else if x == 29 {
        "ControlLeft"@
    } else if x == 97 {
        "ControlRight"@
    } else if x == 30 {
        "KeyA"@
    } else if x == 31 {
        "KeyS"@
    } else if x == 32 {
        "KeyD"@
    } else if x == 33 {
        "KeyF"@
    } else if x == 34 {
        "KeyG"@
    } else if x == 35 {
        "KeyH"@
    } else if x == 36 {
        "KeyJ"@
    } else if x == 37 {
        "KeyK"@
    } else if x == 38 {
        "KeyL"@
    } else if x == 39 {
        "Semicolon"@
    } else if x == 40 {
        "Quote"@
    } else if x == 41 {
        "Backquote"@
    } else if x == 42 {
        "ShiftLeft"@
    } else if x == 43 {
        "Backslash"@
    } else if x == 44 {
        "KeyZ"@
    } else if x == 45 {
        "KeyX"@
    } else if x == 46 {
        "KeyC"@
    } else if x == 47 {
        "KeyV"@
    } else if x == 48 {
        "KeyB"@
    } else if x == 49 {
        "KeyN"@
    } else if x == 50 {
        "KeyM"@
    } else if x == 51 {
        "Comma"@
    } else if x == 52 {
        "Period"@
    } else if x == 53 {
        "Slash"@
    } else if x == 54 {
        "ShiftRight"@
    } else if x == 56 {
        "AltLeft"@
    } else if x == 100 {
        "AltRight"@
    } else if x == 57 {
        "Space"@
    } else if x == 58 {
        "CapsLock"@
    } else if x == 59 {
        "F1"@
    } else if x == 60 {
        "F2"@
    } else if x == 61 {
        "F3"@
    } else if x == 62 {
        "F4"@
    } else if x == 63 {
        "F5"@
    } else if x == 64 {
        "F6"@
    } else if x == 65 {
        "F7"@
    } else if x == 66 {
        "F8"@
    } else if x == 67 {
        "F9"@
    } else if x == 68 {
        "F10"@
    } else if x == 87 {
        "F11"@
    } else if x == 88 {
        "F12"@
    } else if x == 102 {
        "Home"@
    } else if x == 103 {
        "ArrowUp"@
    } else if x == 104 {
        "PageUp"@
    } else if x == 105 {
        "ArrowLeft"@
    } else if x == 106 {
        "ArrowRight"@
    } else if x == 107 {
        "End"@
    } else if x == 108 {
        "ArrowDown"@
    } else if x == 109 {
        "PageDown"@
    } else if x == 110 {
        "Insert"@
    } else if x == 111 {
        "Delete"@
    } else if x == 125 {
        "MetaLeft"@
    } else if x == 126 {
        "MetaRight"@
    } else {
        Seq::empty()
    }
}

/// A name that the key table knows is the name of its code.
proof fn key_name_of_its_code(a: Seq<char>)
    ensures
        key_code_spec(a) matches Some(x) ==> a == key_name_of_code(x),
{
}

/// Distinct key code names select distinct Linux key codes: a code that the
/// table gives belongs to one name only.
pub proof fn key_codes_name_one_key(a: Seq<char>, b: Seq<char>)
    ensures
        key_code_spec(a) is Some && key_code_spec(a) == key_code_spec(b) ==> a == b,
{
    key_name_of_its_code(a);
    key_name_of_its_code(b);
}

/// The browser key code name of the key that types a character on a US
/// keyboard: the letter, digit and punctuation keys (a shifted character
/// names the key it shares with its unshifted one), and Space, Enter and Tab
/// for space, newline and tab.
pub open spec fn us_key_name(c: char) -> Seq<char> {
    if ('a' <= c && c <= 'z') || ('A' <= c && c <= 'Z') {
        "Key"@.push(ascii_upper(c))
    } else if '0' <= c && c <= '9' {
        "Digit"@.push(c)
    } else if c == ' ' {
        "Space"@
    } else if c == '\n' {
        "Enter"@
    } else if c == '\t' {
        "Tab"@
    } else if c == '-' || c == '_' {
        "Minus"@
    } else if c == '=' || c == '+' {
        "Equal"@
    } else if c == '[' || c == '{' {
        "BracketLeft"@
    } else if c == ']' || c == '}' {
        "BracketRight"@
    } else if c == '\\' || c == '|' {
        "Backslash"@
    } else if c == ';' || c == ':' {
        "Semicolon"@
    } else if c == '\'' || c == '"' {
        "Quote"@
    } else if c == '`' || c == '~' {
        "Backquote"@
    } else if c == ',' || c == '<' {
        "Comma"@
    } else if c == '.' || c == '>' {
        "Period"@
    } else if c == '/' || c == '?' {
        "Slash"@
    } else if c == '!' {
        "Digit1"@
    } else if c == '@' {
        "Digit2"@
    } else if c == '#' {
        "Digit3"@
    } else if c == '$' {
        "Digit4"@
    } else if c == '%' {
        "Digit5"@
    } else if c == '^' {
        "Digit6"@
    } else if c == '&' {
        "Digit7"@
    } else if c == '*' {
        "Digit8"@
    } else if c == '(' {
        "Digit9"@
    } else if c == ')' {
        "Digit0"@
    } else {
        Seq::empty()
    }
}

/// The characters that the host types with a key: printable ASCII, newline
/// and tab.
pub open spec fn typed_with_a_key(c: char) -> bool {
    (' ' <= c && c <= '~') || c == '\n' || c == '\t'
}

/// The punctuation keys, and space, newline and tab, have the codes that
/// typing their characters uses.
proof fn punctuation_key_code(c: char)
    requires
        typed_with_a_key(c),
        !('a' <= c && c <= 'z'),
        !('A' <= c && c <= 'Z'),
        !('0' <= c && c <= '9'),
    ensures
        key_code_spec(us_key_name(c)) == ascii_key_code_spec(c),
{
    reveal_strlit("Escape");
    reveal_strlit("Digit1");
    reveal_strlit("Digit2");
    reveal_strlit("Digit3");
    reveal_strlit("Digit4");
    reveal_strlit("Digit5");
    reveal_strlit("Digit6");
    reveal_strlit("Digit7");
    reveal_strlit("Digit8");
    reveal_strlit("Digit9");
    reveal_strlit("Digit0");
    reveal_strlit("Minus");
    reveal_strlit("Equal");
    reveal_strlit("Backspace");
    reveal_strlit("Tab");
    reveal_strlit("KeyQ");
    reveal_strlit("KeyW");
    reveal_strlit("KeyE");
    reveal_strlit("KeyR");
    reveal_strlit("KeyT");
    reveal_strlit("KeyY");
    reveal_strlit("KeyU");
    reveal_strlit("KeyI");
    reveal_strlit("KeyO");
    reveal_strlit("KeyP");
    reveal_strlit("BracketLeft");
    reveal_strlit("BracketRight");
    reveal_strlit("Enter");
    reveal_strlit("ControlLeft");
    reveal_strlit("ControlRight");
    reveal_strlit("KeyA");
    reveal_strlit("KeyS");
    reveal_strlit("KeyD");
    reveal_strlit("KeyF");
    reveal_strlit("KeyG");
    reveal_strlit("KeyH");
    reveal_strlit("KeyJ");
    reveal_strlit("KeyK");
    reveal_strlit("KeyL");
    reveal_strlit("Semicolon");
    reveal_strlit("Quote");
    reveal_strlit("Backquote");
    reveal_strlit("ShiftLeft");
    reveal_strlit("Backslash");
    reveal_strlit("KeyZ");
    reveal_strlit("KeyX");
    reveal_strlit("KeyC");
    reveal_strlit("KeyV");
    reveal_strlit("KeyB");
    reveal_strlit("KeyN");
    reveal_strlit("KeyM");
    reveal_strlit("Comma");
    reveal_strlit("Period");
    reveal_strlit("Slash");
    reveal_strlit("ShiftRight");
    reveal_strlit("AltLeft");
    reveal_strlit("AltRight");
    reveal_strlit("Space");
    reveal_strlit("CapsLock");
    reveal_strlit("F1");
    reveal_strlit("F2");
    reveal_strlit("F3");
    reveal_strlit("F4");
    reveal_strlit("F5");
    reveal_strlit("F6");
    reveal_strlit("F7");
    reveal_strlit("F8");
    reveal_strlit("F9");
    reveal_strlit("F10");
    reveal_strlit("F11");
    reveal_strlit("F12");
    reveal_strlit("Home");
    reveal_strlit("ArrowUp");
    reveal_strlit("PageUp");
    reveal_strlit("ArrowLeft");
    reveal_strlit("ArrowRight");
    reveal_strlit("End");
    reveal_strlit("ArrowDown");
    reveal_strlit("PageDown");
    reveal_strlit("Insert");
    reveal_strlit("Delete");
    reveal_strlit("MetaLeft");
    reveal_strlit("MetaRight");
    if c == ' ' {
        let name = "Space"@;
        assert(name.len() == 5 && name[0] == 'S' && name[1] == 'p' && name[2] == 'a' && name[3] == 'c' && name[4] == 'e');
    } else if c == '\n' {
        let name = "Enter"@;
        assert(name.len() == 5 && name[0] == 'E' && name[1] == 'n' && name[2] == 't' && name[3] == 'e' && name[4] == 'r');
    } else if c == '\t' {
        let name = "Tab"@;
        assert(name.len() == 3 && name[0] == 'T' && name[1] == 'a' && name[2] == 'b');
    } else if c == '-' || c == '_' {
        let name = "Minus"@;
        assert(name.len() == 5 && name[0] == 'M' && name[1] == 'i' && name[2] == 'n' && name[3] == 'u' && name[4] == 's');
    } else if c == '=' || c == '+' {
        let name = "Equal"@;
        assert(name.len() == 5 && name[0] == 'E' && name[1] == 'q' && name[2] == 'u' && name[3] == 'a' && name[4] == 'l');
    } else if c == '[' || c == '{' {
        let name = "BracketLeft"@;
        assert(name.len() == 11 && name[0] == 'B' && name[1] == 'r' && name[2] == 'a' && name[3] == 'c' && name[4] == 'k' && name[5] == 'e' && name[6] == 't' && name[7] == 'L' && name[8] == 'e' && name[9] == 'f' && name[10] == 't');
    } else if c == ']' || c == '}' {
        let name = "BracketRight"@;
        assert(name.len() == 12 && name[0] == 'B' && name[1] == 'r' && name[2] == 'a' && name[3] == 'c' && name[4] == 'k' && name[5] == 'e' && name[6] == 't' && name[7] == 'R' && name[8] == 'i' && name[9] == 'g' && name[10] == 'h' && name[11] == 't');
    } else if c == '\\' || c == '|' {
        let name = "Backslash"@;
        assert(name.len() == 9 && name[0] == 'B' && name[1] == 'a' && name[2] == 'c' && name[3] == 'k' && name[4] == 's' && name[5] == 'l' && name[6] == 'a' && name[7] == 's' && name[8] == 'h');
    } else if c == ';' || c == ':' {
        let name = "Semicolon"@;
        assert(name.len() == 9 && name[0] == 'S' && name[1] == 'e' && name[2] == 'm' && name[3] == 'i' && name[4] == 'c' && name[5] == 'o' && name[6] == 'l' && name[7] == 'o' && name[8] == 'n');
    } else if c == '\'' || c == '"' {
        let name = "Quote"@;
        assert(name.len() == 5 && name[0] == 'Q' && name[1] == 'u' && name[2] == 'o' && name[3] == 't' && name[4] == 'e');
    } else if c == '`' || c == '~' {
        let name = "Backquote"@;
        assert(name.len() == 9 && name[0] == 'B' && name[1] == 'a' && name[2] == 'c' && name[3] == 'k' && name[4] == 'q' && name[5] == 'u' && name[6] == 'o' && name[7] == 't' && name[8] == 'e');
    } else if c == ',' || c == '<' {
        let name = "Comma"@;
        assert(name.len() == 5 && name[0] == 'C' && name[1] == 'o' && name[2] == 'm' && name[3] == 'm' && name[4] == 'a');
    } else if c == '.' || c == '>' {
        let name = "Period"@;
        assert(name.len() == 6 && name[0] == 'P' && name[1] == 'e' && name[2] == 'r' && name[3] == 'i' && name[4] == 'o' && name[5] == 'd');
    } else if c == '/' || c == '?' {
        let name = "Slash"@;
        assert(name.len() == 5 && name[0] == 'S' && name[1] == 'l' && name[2] == 'a' && name[3] == 's' && name[4] == 'h');
    } else {
        let d = if c == ')' { '0' } else if c == '!' { '1' } else if c == '@' { '2' } else if c == '#' { '3' } else if c == '$' { '4' } else if c == '%' { '5' } else if c == '^' { '6' } else if c == '&' { '7' } else if c == '*' { '8' } else { '9' };
        crate::probe_laws::digit_key_code(d);
        reveal_strlit("Digit");
        assert(us_key_name(c) == "Digit"@.push(d));
    }
}

/// Typing a character presses the key that types it on a US keyboard: every
/// printable ASCII character, newline and tab has the Linux key code of its
/// key's browser key code name (a letter in either case its letter key, a
/// shifted symbol the key it shares with its unshifted one), and no other
/// character has a key.
pub proof fn typed_characters_press_their_keys()
    ensures
        forall|c: char| typed_with_a_key(c) ==> #[trigger] ascii_key_code_spec(c) is Some
            && ascii_key_code_spec(c) == key_code_spec(us_key_name(c)),
        forall|c: char| !typed_with_a_key(c) ==> #[trigger] ascii_key_code_spec(c) is None,
{
    assert forall|c: char| typed_with_a_key(c) implies #[trigger] ascii_key_code_spec(c) is Some
        && ascii_key_code_spec(c) == key_code_spec(us_key_name(c)) by {
        if ('a' <= c && c <= 'z') || ('A' <= c && c <= 'Z') {
            let upper = ascii_upper(c);
            crate::probe_laws::letter_key_code(upper);
        } else if '0' <= c && c <= '9' {
            crate::probe_laws::digit_key_code(c);
        } else {
            punctuation_key_code(c);
        }
    }
}

/// The key code name of a key of the Omarchy host's input library: a
/// character's letter or digit key, the named key otherwise, and the left
/// key of the Alt and Meta pairs.
spec fn host_key_code_name(k: HostKey) -> Seq<char> {
    match k {
        HostKey::Unicode(c) => if '0' <= c && c <= '9' { "Digit"@.push(c) } else { "Key"@.push(ascii_upper(c)) },
        HostKey::Return => "Enter"@,
        HostKey::Escape => "Escape"@,
        HostKey::Backspace => "Backspace"@,
        HostKey::Tab => "Tab"@,
        HostKey::Space => "Space"@,
        HostKey::Delete => "Delete"@,
        HostKey::Insert => "Insert"@,
        HostKey::Home => "Home"@,
        HostKey::End => "End"@,
        HostKey::PageUp => "PageUp"@,
        HostKey::PageDown => "PageDown"@,
        HostKey::UpArrow => "ArrowUp"@,
        HostKey::DownArrow => "ArrowDown"@,
        HostKey::LeftArrow => "ArrowLeft"@,
        HostKey::RightArrow => "ArrowRight"@,
        HostKey::LShift => "ShiftLeft"@,
        HostKey::RShift => "ShiftRight"@,
        HostKey::LControl => "ControlLeft"@,
        HostKey::RControl => "ControlRight"@,
        HostKey::Alt => "AltLeft"@,
        HostKey::Meta => "MetaLeft"@,
        HostKey::CapsLock => "CapsLock"@,
        HostKey::PrintScr => "PrintScreen"@,
        HostKey::F1 => "F1"@,
        HostKey::F2 => "F2"@,
        HostKey::F3 => "F3"@,
        HostKey::F4 => "F4"@,
        HostKey::F5 => "F5"@,
        HostKey::F6 => "F6"@,
        HostKey::F7 => "F7"@,
        HostKey::F8 => "F8"@,
        HostKey::F9 => "F9"@,
        HostKey::F10 => "F10"@,
        HostKey::F11 => "F11"@,
        HostKey::F12 => "F12"@,
        HostKey::MediaPrevTrack => "MediaPrevTrack"@,
        HostKey::MediaPlayPause => "MediaPlayPause"@,
        HostKey::MediaNextTrack => "MediaNextTrack"@,
        HostKey::VolumeDown => "VolumeDown"@,
        HostKey::VolumeMute => "VolumeMute"@,
        HostKey::VolumeUp => "VolumeUp"@,
    }
}

/// A key code that the host knows is the name of its key, or the right key
/// of the Alt or Meta pair.
proof fn host_key_of_its_code(a: Seq<char>)
    ensures
        key_for_code_spec(a) matches Some(k) ==> a == host_key_code_name(k)
            || (a == "AltRight"@ && k == HostKey::Alt) || (a == "MetaRight"@ && k == HostKey::Meta),
{
    reveal_strlit("Key");
    reveal_strlit("Digit");
    match crate::host_input::code_letter(a) {
        Some(c) => {
            let rest = a.subrange(3, a.len() as int);
            assert(a.subrange(0, 3) == "Key"@);
            assert(rest.len() == 1 && rest[0] == c);
            assert(a =~= "Key"@.push(c)) by {
                assert forall|i: int| 0 <= i < a.len() implies a[i] == "Key"@.push(c)[i] by {
                    if i < 3 {
                        assert(a[i] == a.subrange(0, 3)[i]);
                    } else {
                        assert(a[i] == rest[i - 3]);
                    }
                }
            }
            assert(ascii_upper(ascii_lower(c)) == c);
        },
        None => match crate::host_input::code_digit(a) {
            Some(d) => {
                let rest = a.subrange(5, a.len() as int);
                assert(a.subrange(0, 5) == "Digit"@);
                assert(rest.len() == 1 && rest[0] == d);
                assert(a =~= "Digit"@.push(d)) by {
                    assert forall|i: int| 0 <= i < a.len() implies a[i] == "Digit"@.push(d)[i] by {
                        if i < 5 {
                            assert(a[i] == a.subrange(0, 5)[i]);
                        } else {
                            assert(a[i] == rest[i - 5]);
                        }
                    }
                }
            },
            None => {},
        },
    }
}

/// Distinct key codes select distinct keys of the Omarchy host's input
/// library, except the left and right keys of the Alt pair and of the Meta
/// pair, which press the same key.
pub proof fn host_keys_name_one_code(a: Seq<char>, b: Seq<char>)
    ensures
        key_for_code_spec(a) is Some && key_for_code_spec(a) == key_for_code_spec(b) ==> a == b
            || ((a == "AltLeft"@ || a == "AltRight"@) && (b == "AltLeft"@ || b == "AltRight"@))
            || ((a == "MetaLeft"@ || a == "MetaRight"@) && (b == "MetaLeft"@ || b == "MetaRight"@)),
{
    host_key_of_its_code(a);
    host_key_of_its_code(b);
}

/// Whether an accelerator token names a key: the key's own name in any
/// case, the single letter or digit that the key types, the direction of an
/// arrow key, `Return` for Enter, `Esc` for Escape, or `F` and the number of
/// a function key.
pub open spec fn token_names_key(t: Seq<char>, k: Seq<char>) -> bool {
    ||| eq_ignore_ascii_case(k, t)
    ||| (t.len() == 1 && k == us_key_name(t[0]))
    ||| eq_ignore_ascii_case(k, "Arrow"@ + t)
    ||| (eq_ignore_ascii_case(t, "return"@) && k == "Enter"@)
    ||| (eq_ignore_ascii_case(t, "esc"@) && k == "Escape"@)
    ||| (t.len() >= 2 && ascii_upper(t[0]) == 'F' && (crate::codex::parse_u8_text(upper_text(t).drop_first()) matches Some(n)
        && k == seq!['F'] + crate::text::decimal(n)))
}

/// Texts with the same upper-case form are equal ignoring ASCII case.
proof fn same_upper_ignoring_case(a: Seq<char>, b: Seq<char>)
    requires
        upper_text(a) == upper_text(b),
    ensures
        eq_ignore_ascii_case(a, b),
{
    assert(a.len() == upper_text(a).len());
    assert(b.len() == upper_text(b).len());
    assert forall|i: int| 0 <= i < a.len() implies ascii_lower(#[trigger] a[i]) == ascii_lower(b[i]) by {
        assert(upper_text(a).len() == upper_text(b).len());
        assert(upper_text(a)[i] == upper_text(b)[i]);
        assert(upper_text(a)[i] == ascii_upper(a[i]));
        assert(upper_text(b)[i] == ascii_upper(b[i]));
        let x = a[i];
        let y = b[i];
        assert(ascii_upper(x) == ascii_upper(y));
        assert(ascii_lower(x) == ascii_lower(y)) by {
            if 'a' <= x && x <= 'z' {
                assert((x as u32) - 32 == (ascii_upper(x) as u32));
            }
            if 'a' <= y && y <= 'z' {
                assert((y as u32) - 32 == (ascii_upper(y) as u32));
            }
        }
    }
}

/// The named primary keys of accelerators are keys of the Linux key table.
proof fn named_primary_keys_are_known(k: Seq<char>)
    requires
        k == "ArrowDown"@ || k == "ArrowLeft"@ || k == "ArrowRight"@ || k == "ArrowUp"@ || k == "Backspace"@ || k == "Delete"@ || k == "End"@ || k == "Enter"@ || k == "Escape"@ || k == "Home"@ || k == "PageDown"@ || k == "PageUp"@ || k == "Space"@ || k == "Tab"@,
    ensures
        key_code_spec(k) is Some,
{
    reveal_strlit("Escape");
    reveal_strlit("Digit1");
    reveal_strlit("Digit2");
    reveal_strlit("Digit3");
    reveal_strlit("Digit4");
    reveal_strlit("Digit5");
    reveal_strlit("Digit6");
    reveal_strlit("Digit7");
    reveal_strlit("Digit8");
    reveal_strlit("Digit9");
    reveal_strlit("Digit0");
    reveal_strlit("Minus");
    reveal_strlit("Equal");
    reveal_strlit("Backspace");
    reveal_strlit("Tab");
    reveal_strlit("KeyQ");
    reveal_strlit("KeyW");
    reveal_strlit("KeyE");
    reveal_strlit("KeyR");
    reveal_strlit("KeyT");
    reveal_strlit("KeyY");
    reveal_strlit("KeyU");
    reveal_strlit("KeyI");
    reveal_strlit("KeyO");
    reveal_strlit("KeyP");
    reveal_strlit("BracketLeft");
    reveal_strlit("BracketRight");
    reveal_strlit("Enter");
    reveal_strlit("ControlLeft");
    reveal_strlit("ControlRight");
    reveal_strlit("KeyA");
    reveal_strlit("KeyS");
    reveal_strlit("KeyD");
    reveal_strlit("KeyF");
    reveal_strlit("KeyG");
    reveal_strlit("KeyH");
    reveal_strlit("KeyJ");
    reveal_strlit("KeyK");
    reveal_strlit("KeyL");
    reveal_strlit("Semicolon");
    reveal_strlit("Quote");
    reveal_strlit("Backquote");
    reveal_strlit("ShiftLeft");
    reveal_strlit("Backslash");
    reveal_strlit("KeyZ");
    reveal_strlit("KeyX");
    reveal_strlit("KeyC");
    reveal_strlit("KeyV");
    reveal_strlit("KeyB");
    reveal_strlit("KeyN");
    reveal_strlit("KeyM");
    reveal_strlit("Comma");
    reveal_strlit("Period");
    reveal_strlit("Slash");
    reveal_strlit("ShiftRight");
    reveal_strlit("AltLeft");
    reveal_strlit("AltRight");
    reveal_strlit("Space");
    reveal_strlit("CapsLock");
    reveal_strlit("F1");
    reveal_strlit("F2");
    reveal_strlit("F3");
    reveal_strlit("F4");
    reveal_strlit("F5");
    reveal_strlit("F6");
    reveal_strlit("F7");
    reveal_strlit("F8");
    reveal_strlit("F9");
    reveal_strlit("F10");
    reveal_strlit("F11");
    reveal_strlit("F12");
    reveal_strlit("Home");
    reveal_strlit("ArrowUp");
    reveal_strlit("PageUp");
    reveal_strlit("ArrowLeft");
    reveal_strlit("ArrowRight");
    reveal_strlit("End");
    reveal_strlit("ArrowDown");
    reveal_strlit("PageDown");
    reveal_strlit("Insert");
    reveal_strlit("Delete");
    reveal_strlit("MetaLeft");
    reveal_strlit("MetaRight");
    if k == "ArrowDown"@ {
        assert(k.len() == 9 && k[0] == 'A' && k[1] == 'r' && k[2] == 'r' && k[3] == 'o' && k[4] == 'w' && k[5] == 'D' && k[6] == 'o' && k[7] == 'w' && k[8] == 'n');
    } else if k == "ArrowLeft"@ {
        assert(k.len() == 9 && k[0] == 'A' && k[1] == 'r' && k[2] == 'r' && k[3] == 'o' && k[4] == 'w' && k[5] == 'L' && k[6] == 'e' && k[7] == 'f' && k[8] == 't');
    } else if k == "ArrowRight"@ {
        assert(k.len() == 10 && k[0] == 'A' && k[1] == 'r' && k[2] == 'r' && k[3] == 'o' && k[4] == 'w' && k[5] == 'R' && k[6] == 'i' && k[7] == 'g' && k[8] == 'h' && k[9] == 't');
    } else if k == "ArrowUp"@ {
        assert(k.len() == 7 && k[0] == 'A' && k[1] == 'r' && k[2] == 'r' && k[3] == 'o' && k[4] == 'w' && k[5] == 'U' && k[6] == 'p');
    } else if k == "Backspace"@ {
        assert(k.len() == 9 && k[0] == 'B' && k[1] == 'a' && k[2] == 'c' && k[3] == 'k' && k[4] == 's' && k[5] == 'p' && k[6] == 'a' && k[7] == 'c' && k[8] == 'e');
    } else if k == "Delete"@ {
        assert(k.len() == 6 && k[0] == 'D' && k[1] == 'e' && k[2] == 'l' && k[3] == 'e' && k[4] == 't' && k[5] == 'e');
    } else if k == "End"@ {
        assert(k.len() == 3 && k[0] == 'E' && k[1] == 'n' && k[2] == 'd');
    } else if k == "Enter"@ {
        assert(k.len() == 5 && k[0] == 'E' && k[1] == 'n' && k[2] == 't' && k[3] == 'e' && k[4] == 'r');
    } else if k == "Escape"@ {
        assert(k.len() == 6 && k[0] == 'E' && k[1] == 's' && k[2] == 'c' && k[3] == 'a' && k[4] == 'p' && k[5] == 'e');
    } else if k == "Home"@ {
        assert(k.len() == 4 && k[0] == 'H' && k[1] == 'o' && k[2] == 'm' && k[3] == 'e');
    } else if k == "PageDown"@ {
        assert(k.len() == 8 && k[0] == 'P' && k[1] == 'a' && k[2] == 'g' && k[3] == 'e' && k[4] == 'D' && k[5] == 'o' && k[6] == 'w' && k[7] == 'n');
    } else if k == "PageUp"@ {
        assert(k.len() == 6 && k[0] == 'P' && k[1] == 'a' && k[2] == 'g' && k[3] == 'e' && k[4] == 'U' && k[5] == 'p');
    } else if k == "Space"@ {
        assert(k.len() == 5 && k[0] == 'S' && k[1] == 'p' && k[2] == 'a' && k[3] == 'c' && k[4] == 'e');
    } else if k == "Tab"@ {
        assert(k.len() == 3 && k[0] == 'T' && k[1] == 'a' && k[2] == 'b');
    }
}

/// The function keys F1 to F12 are keys of the Linux key table.
proof fn function_keys_are_known(n: nat)
    requires
        1 <= n <= 12,
    ensures
        key_code_spec(seq!['F'] + crate::text::decimal(n)) is Some,
{
    reveal_strlit("Escape");
    reveal_strlit("Digit1");
    reveal_strlit("Digit2");
    reveal_strlit("Digit3");
    reveal_strlit("Digit4");
    reveal_strlit("Digit5");
    reveal_strlit("Digit6");
    reveal_strlit("Digit7");
    reveal_strlit("Digit8");
    reveal_strlit("Digit9");
    reveal_strlit("Digit0");
    reveal_strlit("Minus");
    reveal_strlit("Equal");
    reveal_strlit("Backspace");
    reveal_strlit("Tab");
    reveal_strlit("KeyQ");
    reveal_strlit("KeyW");
    reveal_strlit("KeyE");
    reveal_strlit("KeyR");
    reveal_strlit("KeyT");
    reveal_strlit("KeyY");
    reveal_strlit("KeyU");
    reveal_strlit("KeyI");
    reveal_strlit("KeyO");
    reveal_strlit("KeyP");
    reveal_strlit("BracketLeft");
    reveal_strlit("BracketRight");
    reveal_strlit("Enter");
    reveal_strlit("ControlLeft");
    reveal_strlit("ControlRight");
    reveal_strlit("KeyA");
    reveal_strlit("KeyS");
    reveal_strlit("KeyD");
    reveal_strlit("KeyF");
    reveal_strlit("KeyG");
    reveal_strlit("KeyH");
    reveal_strlit("KeyJ");
    reveal_strlit("KeyK");
    reveal_strlit("KeyL");
    reveal_strlit("Semicolon");
    reveal_strlit("Quote");
    reveal_strlit("Backquote");
    reveal_strlit("ShiftLeft");
    reveal_strlit("Backslash");
    reveal_strlit("KeyZ");
    reveal_strlit("KeyX");
    reveal_strlit("KeyC");
    reveal_strlit("KeyV");
    reveal_strlit("KeyB");
    reveal_strlit("KeyN");
    reveal_strlit("KeyM");
    reveal_strlit("Comma");
    reveal_strlit("Period");
    reveal_strlit("Slash");
    reveal_strlit("ShiftRight");
    reveal_strlit("AltLeft");
    reveal_strlit("AltRight");
    reveal_strlit("Space");
    reveal_strlit("CapsLock");
    reveal_strlit("F1");
    reveal_strlit("F2");
    reveal_strlit("F3");
    reveal_strlit("F4");
    reveal_strlit("F5");
    reveal_strlit("F6");
    reveal_strlit("F7");
    reveal_strlit("F8");
    reveal_strlit("F9");
    reveal_strlit("F10");
    reveal_strlit("F11");
    reveal_strlit("F12");
    reveal_strlit("Home");
    reveal_strlit("ArrowUp");
    reveal_strlit("PageUp");
    reveal_strlit("ArrowLeft");
    reveal_strlit("ArrowRight");
    reveal_strlit("End");
    reveal_strlit("ArrowDown");
    reveal_strlit("PageDown");
    reveal_strlit("Insert");
    reveal_strlit("Delete");
    reveal_strlit("MetaLeft");
    reveal_strlit("MetaRight");
    reveal_with_fuel(crate::text::decimal, 2);
    let k = seq!['F'] + crate::text::decimal(n);
    if n == 1 {
        assert(crate::text::decimal(1) == seq![crate::text::digit_char(1)]);
        assert(k.len() == 2 && k[0] == 'F' && k[1] == '1');
        assert(k =~= "F1"@);
    } else if n == 2 {
        assert(crate::text::decimal(2) == seq![crate::text::digit_char(2)]);
        assert(k.len() == 2 && k[0] == 'F' && k[1] == '2');
        assert(k =~= "F2"@);
    } else if n == 3 {
        assert(crate::text::decimal(3) == seq![crate::text::digit_char(3)]);
        assert(k.len() == 2 && k[0] == 'F' && k[1] == '3');
        assert(k =~= "F3"@);
    } else if n == 4 {
        assert(crate::text::decimal(4) == seq![crate::text::digit_char(4)]);
        assert(k.len() == 2 && k[0] == 'F' && k[1] == '4');
        assert(k =~= "F4"@);
    } else if n == 5 {
        assert(crate::text::decimal(5) == seq![crate::text::digit_char(5)]);
        assert(k.len() == 2 && k[0] == 'F' && k[1] == '5');
        assert(k =~= "F5"@);
    } else if n == 6 {
        assert(crate::text::decimal(6) == seq![crate::text::digit_char(6)]);
        assert(k.len() == 2 && k[0] == 'F' && k[1] == '6');
        assert(k =~= "F6"@);
    } else if n == 7 {
        assert(crate::text::decimal(7) == seq![crate::text::digit_char(7)]);
        assert(k.len() == 2 && k[0] == 'F' && k[1] == '7');
        assert(k =~= "F7"@);
    } else if n == 8 {
        assert(crate::text::decimal(8) == seq![crate::text::digit_char(8)]);
        assert(k.len() == 2 && k[0] == 'F' && k[1] == '8');
        assert(k =~= "F8"@);
    } else if n == 9 {
        assert(crate::text::decimal(9) == seq![crate::text::digit_char(9)]);
        assert(k.len() == 2 && k[0] == 'F' && k[1] == '9');
        assert(k =~= "F9"@);
    } else if n == 10 {
        assert(crate::text::decimal(10) == crate::text::decimal(1).push(crate::text::digit_char(0)));
        assert(k.len() == 3 && k[0] == 'F' && k[1] == '1' && k[2] == '0');
        assert(k =~= "F10"@);
    } else if n == 11 {
        assert(crate::text::decimal(11) == crate::text::decimal(1).push(crate::text::digit_char(1)));
        assert(k.len() == 3 && k[0] == 'F' && k[1] == '1' && k[2] == '1');
        assert(k =~= "F11"@);
    } else if n == 12 {
        assert(crate::text::decimal(12) == crate::text::decimal(1).push(crate::text::digit_char(2)));
        assert(k.len() == 3 && k[0] == 'F' && k[1] == '1' && k[2] == '2');
        assert(k =~= "F12"@);
    }
}

/// An accelerator token that names a primary key yields the input code of
/// that same key, and the Linux host knows that key: the token is the key's
/// name in any case, the letter or digit it types, an arrow's direction,
/// `Return`, `Esc`, or a numbered function key.
pub proof fn primary_tokens_name_their_key(t: Seq<char>)
    ensures
        primary_of(t) matches Some(k) ==> token_names_key(t, k) && key_code_spec(k) is Some,
{
    let u = upper_text(t);
    if primary_of(t) is Some {
        let k = primary_of(t)->0;
        if u.len() > 0 && u[0] == 'F' && crate::codex::parse_u8_text(u.drop_first()) is Some
            && 1 <= crate::codex::parse_u8_text(u.drop_first())->0 <= 12 {
            function_keys_are_known(crate::codex::parse_u8_text(u.drop_first())->0);
            assert(t.len() >= 2) by {
                if t.len() < 2 {
                    assert(u.drop_first().len() == 0);
                }
            }
            assert(ascii_upper(t[0]) == u[0]);
        } else if u.len() == 1 && 'A' <= u[0] && u[0] <= 'Z' {
            assert(ascii_upper(t[0]) == u[0]);
            crate::probe_laws::letter_key_code(u[0]);
            assert(('a' <= t[0] && t[0] <= 'z') || ('A' <= t[0] && t[0] <= 'Z'));
            assert(us_key_name(t[0]) == "Key"@.push(u[0]));
        } else if u.len() == 1 && '0' <= u[0] && u[0] <= '9' {
            assert(ascii_upper(t[0]) == u[0]);
            assert(t[0] == u[0]);
            crate::probe_laws::digit_key_code(u[0]);
        } else {
            named_primary_keys_are_known(k);
            if u == "ENTER"@ {
                reveal_strlit("ENTER");
                reveal_strlit("Enter");
                assert(upper_text(k) =~= u);
                same_upper_ignoring_case(k, t);
            } else if u == "RETURN"@ {
                reveal_strlit("RETURN");
                reveal_strlit("Enter");
                reveal_strlit("return");
                assert(upper_text("return"@) =~= u);
                same_upper_ignoring_case(t, "return"@);
            } else if u == "ESC"@ {
                reveal_strlit("ESC");
                reveal_strlit("Escape");
                reveal_strlit("esc");
                assert(upper_text("esc"@) =~= u);
                same_upper_ignoring_case(t, "esc"@);
            } else if u == "ESCAPE"@ {
                reveal_strlit("ESCAPE");
                reveal_strlit("Escape");
                assert(upper_text(k) =~= u);
                same_upper_ignoring_case(k, t);
            } else if u == "TAB"@ {
                reveal_strlit("TAB");
                reveal_strlit("Tab");
                assert(upper_text(k) =~= u);
                same_upper_ignoring_case(k, t);
            } else if u == "SPACE"@ {
                reveal_strlit("SPACE");
                reveal_strlit("Space");
                assert(upper_text(k) =~= u);
                same_upper_ignoring_case(k, t);
            } else if u == "BACKSPACE"@ {
                reveal_strlit("BACKSPACE");
                reveal_strlit("Backspace");
                assert(upper_text(k) =~= u);
                same_upper_ignoring_case(k, t);
            } else if u == "DELETE"@ {
                reveal_strlit("DELETE");
                reveal_strlit("Delete");
                assert(upper_text(k) =~= u);
                same_upper_ignoring_case(k, t);
            } else if u == "HOME"@ {
                reveal_strlit("HOME");
                reveal_strlit("Home");
                assert(upper_text(k) =~= u);
                same_upper_ignoring_case(k, t);
            } else if u == "END"@ {
                reveal_strlit("END");
                reveal_strlit("End");
                assert(upper_text(k) =~= u);
                same_upper_ignoring_case(k, t);
            } else if u == "PAGEUP"@ {
                reveal_strlit("PAGEUP");
                reveal_strlit("PageUp");
                assert(upper_text(k) =~= u);
                same_upper_ignoring_case(k, t);
            } else if u == "PAGEDOWN"@ {
                reveal_strlit("PAGEDOWN");
                reveal_strlit("PageDown");
                assert(upper_text(k) =~= u);
                same_upper_ignoring_case(k, t);
            } else if u == "UP"@ {
                reveal_strlit("UP");
                reveal_strlit("ArrowUp");
                reveal_strlit("Arrow");
                assert(upper_text("Arrow"@ + t) =~= upper_text("Arrow"@) + u);
                assert(upper_text(k) =~= upper_text("Arrow"@) + u);
                same_upper_ignoring_case(k, "Arrow"@ + t);
            } else if u == "ARROWUP"@ {
                reveal_strlit("ARROWUP");
                reveal_strlit("ArrowUp");
                assert(upper_text(k) =~= u);
                same_upper_ignoring_case(k, t);
            } else if u == "DOWN"@ {
                reveal_strlit("DOWN");
                reveal_strlit("ArrowDown");
                reveal_strlit("Arrow");
                assert(upper_text("Arrow"@ + t) =~= upper_text("Arrow"@) + u);
                assert(upper_text(k) =~= upper_text("Arrow"@) + u);
                same_upper_ignoring_case(k, "Arrow"@ + t);
            } else if u == "ARROWDOWN"@ {
                reveal_strlit("ARROWDOWN");
                reveal_strlit("ArrowDown");
                assert(upper_text(k) =~= u);
                same_upper_ignoring_case(k, t);
            } else if u == "LEFT"@ {
                reveal_strlit("LEFT");
                reveal_strlit("ArrowLeft");
                reveal_strlit("Arrow");
                assert(upper_text("Arrow"@ + t) =~= upper_text("Arrow"@) + u);
                assert(upper_text(k) =~= upper_text("Arrow"@) + u);
                same_upper_ignoring_case(k, "Arrow"@ + t);
            } else if u == "ARROWLEFT"@ {
                reveal_strlit("ARROWLEFT");
                reveal_strlit("ArrowLeft");
                assert(upper_text(k) =~= u);
                same_upper_ignoring_case(k, t);
            } else if u == "RIGHT"@ {
                reveal_strlit("RIGHT");
                reveal_strlit("ArrowRight");
                reveal_strlit("Arrow");
                assert(upper_text("Arrow"@ + t) =~= upper_text("Arrow"@) + u);
                assert(upper_text(k) =~= upper_text("Arrow"@) + u);
                same_upper_ignoring_case(k, "Arrow"@ + t);
            } else if u == "ARROWRIGHT"@ {
                reveal_strlit("ARROWRIGHT");
                reveal_strlit("ArrowRight");
                assert(upper_text(k) =~= u);
                same_upper_ignoring_case(k, t);
            }
        }
    }
}

/// The capture, recording, recordings-folder, lock and playback actions,
/// which both Linux hosts implement with the same command.
pub open spec fn shared_linux_action(a: Seq<char>) -> bool {
    a == "screenshot"@
        || a == "screenrecord.screen"@
        || a == "screenrecord.window"@
        || a == "screenrecord.screen.audio"@
        || a == "screenrecord.screen.webcam"@
        || a == "screenrecord.stop"@
        || a == "open_recordings_folder"@
        || a == "lock_screen"@
        || a == "media.play_pause"@
        || a == "media.next"@
        || a == "media.prev"@
}

/// Both Linux hosts run the same command for each capture, recording,
/// recordings-folder, lock and playback action: every such entry of the
/// standalone host's command registry is the command that the desktop host
/// runs for its action, so Next runs `playerctl next` and Previous
/// `playerctl previous` on either host.
pub proof fn linux_hosts_share_their_commands()
    ensures
        forall|i: int| 0 <= i < command_table().len() && #[trigger] shared_linux_action(command_table()[i].0)
            ==> linux_command_spec(command_table()[i].0) == Some(command_table()[i].1),
{
    reveal_strlit("app_launcher");
    reveal_strlit("close_window");
    reveal_strlit("lock_screen");
    reveal_strlit("media.mute");
    reveal_strlit("media.next");
    reveal_strlit("media.play_pause");
    reveal_strlit("media.prev");
    reveal_strlit("media.volume_down");
    reveal_strlit("media.volume_up");
    reveal_strlit("nightlight.toggle");
    reveal_strlit("open_recordings_folder");
    reveal_strlit("screenrecord.screen");
    reveal_strlit("screenrecord.screen.audio");
    reveal_strlit("screenrecord.screen.webcam");
    reveal_strlit("screenrecord.stop");
    reveal_strlit("screenrecord.window");
    reveal_strlit("screenshot");
    reveal_strlit("workspace.1");
    reveal_strlit("workspace.2");
    reveal_strlit("workspace.3");
    reveal_strlit("workspace.4");
    reveal_strlit("workspace.5");
    reveal_strlit("workspace.former");
    reveal_strlit("workspace.next");
    reveal_strlit("workspace.previous");
    assert forall|i: int| 0 <= i < command_table().len() && #[trigger] shared_linux_action(command_table()[i].0)
        implies linux_command_spec(command_table()[i].0) == Some(command_table()[i].1) by {
        let a = command_table()[i].0;
        if 11 <= i < 21 {
            reveal_strlit("workspace.");
            assert(a == "workspace."@ + crate::text::decimal((i - 10) as nat));
            assert(a[0] == 'w' && a.len() >= 11);
        }
        if i == 0 {
            assert(a == "screenshot"@);
            assert(a.len() == 10 && a[0] == 's' && a[1] == 'c' && a[2] == 'r' && a[3] == 'e' && a[4] == 'e' && a[5] == 'n' && a[6] == 's' && a[7] == 'h' && a[8] == 'o' && a[9] == 't');
        } else if i == 1 {
            assert(a == "screenrecord.screen"@);
            assert(a.len() == 19 && a[0] == 's' && a[1] == 'c' && a[2] == 'r' && a[3] == 'e' && a[4] == 'e' && a[5] == 'n' && a[6] == 'r' && a[7] == 'e' && a[8] == 'c' && a[9] == 'o' && a[10] == 'r' && a[11] == 'd' && a[12] == '.' && a[13] == 's' && a[14] == 'c' && a[15] == 'r' && a[16] == 'e' && a[17] == 'e' && a[18] == 'n');
        } else if i == 2 {
            assert(a == "screenrecord.window"@);
            assert(a.len() == 19 && a[0] == 's' && a[1] == 'c' && a[2] == 'r' && a[3] == 'e' && a[4] == 'e' && a[5] == 'n' && a[6] == 'r' && a[7] == 'e' && a[8] == 'c' && a[9] == 'o' && a[10] == 'r' && a[11] == 'd' && a[12] == '.' && a[13] == 'w' && a[14] == 'i' && a[15] == 'n' && a[16] == 'd' && a[17] == 'o' && a[18] == 'w');
        } else if i == 3 {
            assert(a == "screenrecord.screen.audio"@);
            assert(a.len() == 25 && a[0] == 's' && a[1] == 'c' && a[2] == 'r' && a[3] == 'e' && a[4] == 'e' && a[5] == 'n' && a[6] == 'r' && a[7] == 'e' && a[8] == 'c' && a[9] == 'o' && a[10] == 'r' && a[11] == 'd' && a[12] == '.' && a[13] == 's' && a[14] == 'c' && a[15] == 'r' && a[16] == 'e' && a[17] == 'e' && a[18] == 'n' && a[19] == '.' && a[20] == 'a' && a[21] == 'u' && a[22] == 'd' && a[23] == 'i' && a[24] == 'o');
        } else if i == 4 {
            assert(a == "screenrecord.screen.webcam"@);
            assert(a.len() == 26 && a[0] == 's' && a[1] == 'c' && a[2] == 'r' && a[3] == 'e' && a[4] == 'e' && a[5] == 'n' && a[6] == 'r' && a[7] == 'e' && a[8] == 'c' && a[9] == 'o' && a[10] == 'r' && a[11] == 'd' && a[12] == '.' && a[13] == 's' && a[14] == 'c' && a[15] == 'r' && a[16] == 'e' && a[17] == 'e' && a[18] == 'n' && a[19] == '.' && a[20] == 'w' && a[21] == 'e' && a[22] == 'b' && a[23] == 'c' && a[24] == 'a' && a[25] == 'm');
        } else if i == 5 {
            assert(a == "screenrecord.stop"@);
            assert(a.len() == 17 && a[0] == 's' && a[1] == 'c' && a[2] == 'r' && a[3] == 'e' && a[4] == 'e' && a[5] == 'n' && a[6] == 'r' && a[7] == 'e' && a[8] == 'c' && a[9] == 'o' && a[10] == 'r' && a[11] == 'd' && a[12] == '.' && a[13] == 's' && a[14] == 't' && a[15] == 'o' && a[16] == 'p');
        } else if i == 6 {
            assert(a == "open_recordings_folder"@);
            assert(a.len() == 22 && a[0] == 'o' && a[1] == 'p' && a[2] == 'e' && a[3] == 'n' && a[4] == '_' && a[5] == 'r' && a[6] == 'e' && a[7] == 'c' && a[8] == 'o' && a[9] == 'r' && a[10] == 'd' && a[11] == 'i' && a[12] == 'n' && a[13] == 'g' && a[14] == 's' && a[15] == '_' && a[16] == 'f' && a[17] == 'o' && a[18] == 'l' && a[19] == 'd' && a[20] == 'e' && a[21] == 'r');
        } else if i == 7 {
            assert(a == "close_window"@);
            assert(a.len() == 12 && a[0] == 'c' && a[1] == 'l' && a[2] == 'o' && a[3] == 's' && a[4] == 'e' && a[5] == '_' && a[6] == 'w' && a[7] == 'i' && a[8] == 'n' && a[9] == 'd' && a[10] == 'o' && a[11] == 'w');
        } else if i == 8 {
            assert(a == "app_launcher"@);
            assert(a.len() == 12 && a[0] == 'a' && a[1] == 'p' && a[2] == 'p' && a[3] == '_' && a[4] == 'l' && a[5] == 'a' && a[6] == 'u' && a[7] == 'n' && a[8] == 'c' && a[9] == 'h' && a[10] == 'e' && a[11] == 'r');
        } else if i == 9 {
            assert(a == "nightlight.toggle"@);
            assert(a.len() == 17 && a[0] == 'n' && a[1] == 'i' && a[2] == 'g' && a[3] == 'h' && a[4] == 't' && a[5] == 'l' && a[6] == 'i' && a[7] == 'g' && a[8] == 'h' && a[9] == 't' && a[10] == '.' && a[11] == 't' && a[12] == 'o' && a[13] == 'g' && a[14] == 'g' && a[15] == 'l' && a[16] == 'e');
        } else if i == 10 {
            assert(a == "lock_screen"@);
            assert(a.len() == 11 && a[0] == 'l' && a[1] == 'o' && a[2] == 'c' && a[3] == 'k' && a[4] == '_' && a[5] == 's' && a[6] == 'c' && a[7] == 'r' && a[8] == 'e' && a[9] == 'e' && a[10] == 'n');
        } else if i == 21 {
            assert(a == "media.play_pause"@);
            assert(a.len() == 16 && a[0] == 'm' && a[1] == 'e' && a[2] == 'd' && a[3] == 'i' && a[4] == 'a' && a[5] == '.' && a[6] == 'p' && a[7] == 'l' && a[8] == 'a' && a[9] == 'y' && a[10] == '_' && a[11] == 'p' && a[12] == 'a' && a[13] == 'u' && a[14] == 's' && a[15] == 'e');
        } else if i == 22 {
            assert(a == "media.next"@);
            assert(a.len() == 10 && a[0] == 'm' && a[1] == 'e' && a[2] == 'd' && a[3] == 'i' && a[4] == 'a' && a[5] == '.' && a[6] == 'n' && a[7] == 'e' && a[8] == 'x' && a[9] == 't');
        } else if i == 23 {
            assert(a == "media.prev"@);
            assert(a.len() == 10 && a[0] == 'm' && a[1] == 'e' && a[2] == 'd' && a[3] == 'i' && a[4] == 'a' && a[5] == '.' && a[6] == 'p' && a[7] == 'r' && a[8] == 'e' && a[9] == 'v');
        } else if i == 24 {
            assert(a == "media.volume_up"@);
            assert(a.len() == 15 && a[0] == 'm' && a[1] == 'e' && a[2] == 'd' && a[3] == 'i' && a[4] == 'a' && a[5] == '.' && a[6] == 'v' && a[7] == 'o' && a[8] == 'l' && a[9] == 'u' && a[10] == 'm' && a[11] == 'e' && a[12] == '_' && a[13] == 'u' && a[14] == 'p');
        } else if i == 25 {
            assert(a == "media.volume_down"@);
            assert(a.len() == 17 && a[0] == 'm' && a[1] == 'e' && a[2] == 'd' && a[3] == 'i' && a[4] == 'a' && a[5] == '.' && a[6] == 'v' && a[7] == 'o' && a[8] == 'l' && a[9] == 'u' && a[10] == 'm' && a[11] == 'e' && a[12] == '_' && a[13] == 'd' && a[14] == 'o' && a[15] == 'w' && a[16] == 'n');
        } else if i == 26 {
            assert(a == "media.mute"@);
            assert(a.len() == 10 && a[0] == 'm' && a[1] == 'e' && a[2] == 'd' && a[3] == 'i' && a[4] == 'a' && a[5] == '.' && a[6] == 'm' && a[7] == 'u' && a[8] == 't' && a[9] == 'e');
        }
    }
}

/// The action whose Linux command a command is, told apart by the
/// command's length and, among commands of one length, by one character.
spec fn action_of_linux_command(c: Seq<char>) -> Seq<char> {
    if c.len() == 14 {
        "media.next"@
    } else if c.len() == 18 {
        "media.prev"@
    } else if c.len() == 19 {
        "lock_screen"@
    } else if c.len() == 20 {
        "media.play_pause"@
    } else if c.len() == 24 {
        "app_launcher"@
    } else if c.len() == 26 {
        "screenshot"@
    } else if c.len() == 33 {
        if c[28] == 'r' {
            "media.volume_up"@
        } else {
            "media.volume_down"@
        }
    } else if c.len() == 39 {
        "media.mute"@
    } else if c.len() == 48 {
        "screenrecord.stop"@
    } else if c.len() == 49 {
        "close_window"@
    } else if c.len() == 61 {
        if c[54] == '1' {
            "workspace.1"@
        } else if c[54] == '2' {
            "workspace.2"@
        } else if c[54] == '3' {
            "workspace.3"@
        } else if c[54] == '4' {
            "workspace.4"@
        } else {
            "workspace.5"@
        }
    } else if c.len() == 63 {
        if c[55] == '-' {
            "workspace.previous"@
        } else {
            "workspace.next"@
        }
    } else if c.len() == 64 {
        "open_recordings_folder"@
    } else if c.len() == 68 {
        "workspace.former"@
    } else if c.len() == 352 {
        "screenrecord.screen"@
    } else if c.len() == 379 {
        "screenrecord.window"@
    } else if c.len() == 394 {
        "screenrecord.screen.audio"@
    } else if c.len() == 1031 {
        "screenrecord.screen.webcam"@
    } else {
        Seq::empty()
    }
}

/// An action with a Linux command is the action of that command.
proof fn linux_command_names_its_action(a: Seq<char>)
    ensures
        linux_command_spec(a) matches Some(c) ==> a == action_of_linux_command(c),
{
    reveal_strlit(r#"omarchy capture screenshot"#);
    reveal_strlit(r#"mkdir -p "$HOME/Videos/TapPad"; filename="$HOME/Videos/TapPad/screenrecording-$(date +'%Y-%m-%d_%H-%M-%S').mp4"; echo "$filename" > /tmp/omarchy-screenrecord-filename; gpu-screen-recorder -w "$(hyprctl monitors -j | jq -r '.[] | select(.focused == true) | .name')" -k auto -f 60 -fm cfr -fallback-cpu-encoding yes -o "$filename" & pkill -RTMIN+8 waybar"#);
    reveal_strlit(r#"mkdir -p "$HOME/Videos/TapPad"; filename="$HOME/Videos/TapPad/screenrecording-$(date +'%Y-%m-%d_%H-%M-%S').mp4"; echo "$filename" > /tmp/omarchy-screenrecord-filename; region=$(hyprctl activewindow -j | jq -r '"\(.at[0]),\(.at[1]) \(.size[0])x\(.size[1])"'); gpu-screen-recorder -w "$region" -k auto -f 60 -fm cfr -fallback-cpu-encoding yes -o "$filename" & pkill -RTMIN+8 waybar"#);
    reveal_strlit(r#"mkdir -p "$HOME/Videos/TapPad"; filename="$HOME/Videos/TapPad/screenrecording-$(date +'%Y-%m-%d_%H-%M-%S').mp4"; echo "$filename" > /tmp/omarchy-screenrecord-filename; gpu-screen-recorder -w "$(hyprctl monitors -j | jq -r '.[] | select(.focused == true) | .name')" -k auto -f 60 -fm cfr -fallback-cpu-encoding yes -a "default_output|default_input" -ac aac -o "$filename" & pkill -RTMIN+8 waybar"#);
    reveal_strlit(r#"mkdir -p "$HOME/Videos/TapPad"; filename="$HOME/Videos/TapPad/screenrecording-$(date +'%Y-%m-%d_%H-%M-%S').mp4"; echo "$filename" > /tmp/omarchy-screenrecord-filename; device=$(v4l2-ctl --list-devices 2>/dev/null | grep -m1 "^\s*/dev/video" | tr -d '\t'); [[ -z $device ]] && notify-send "No webcam found" -u critical -t 3000 && exit 1; busy=$(lsof "$device" 2>/dev/null | tail -n +2 | awk '{print $1}' | head -1); [[ -n $busy ]] && notify-send "Webcam in use by $busy" -u critical -t 5000 && exit 1; scale=$(hyprctl monitors -j | jq -r '.[] | select(.focused == true) | .scale'); target=$(awk "BEGIN {printf \"%.0f\", 360 * $scale}"); ffplay -f v4l2 -framerate 30 "$device" -vf "crop=iw/2:ih,scale=${target}:-1" -window_title "WebcamOverlay" -noborder -fflags nobuffer -flags low_delay -probesize 32 -analyzeduration 0 -loglevel quiet & sleep 2; gpu-screen-recorder -w "$(hyprctl monitors -j | jq -r '.[] | select(.focused == true) | .name')" -k auto -f 60 -fm cfr -fallback-cpu-encoding yes -o "$filename" & pkill -RTMIN+8 waybar"#);
    reveal_strlit(r#"omarchy capture screenrecording --stop-recording"#);
    reveal_strlit(r#"mkdir -p "$HOME/Videos/TapPad" && xdg-open "$HOME/Videos/TapPad""#);
    reveal_strlit(r#"hyprctl eval 'hl.dispatch(hl.dsp.window.close())'"#);
    reveal_strlit(r#"omarchy-menu toggle apps"#);
    reveal_strlit(r#"omarchy system lock"#);
    reveal_strlit(r#"playerctl play-pause"#);
    reveal_strlit(r#"playerctl next"#);
    reveal_strlit(r#"playerctl previous"#);
    reveal_strlit(r#"omarchy audio output volume raise"#);
    reveal_strlit(r#"omarchy audio output volume lower"#);
    reveal_strlit(r#"omarchy audio output volume mute-toggle"#);
    reveal_strlit(r#"hyprctl eval 'hl.dispatch(hl.dsp.focus({ workspace = "e-1" }))'"#);
    reveal_strlit(r#"hyprctl eval 'hl.dispatch(hl.dsp.focus({ workspace = "previous" }))'"#);
    reveal_strlit(r#"hyprctl eval 'hl.dispatch(hl.dsp.focus({ workspace = "e+1" }))'"#);
    reveal_strlit(r#"hyprctl eval 'hl.dispatch(hl.dsp.focus({ workspace = "1" }))'"#);
    reveal_strlit(r#"hyprctl eval 'hl.dispatch(hl.dsp.focus({ workspace = "2" }))'"#);
    reveal_strlit(r#"hyprctl eval 'hl.dispatch(hl.dsp.focus({ workspace = "3" }))'"#);
    reveal_strlit(r#"hyprctl eval 'hl.dispatch(hl.dsp.focus({ workspace = "4" }))'"#);
    reveal_strlit(r#"hyprctl eval 'hl.dispatch(hl.dsp.focus({ workspace = "5" }))'"#);
}

/// Distinct Linux actions run distinct commands: a command belongs to one
/// action only.
pub proof fn linux_actions_run_distinct_commands(a: Seq<char>, b: Seq<char>)
    ensures
        linux_command_spec(a) is Some && linux_command_spec(a) == linux_command_spec(b) ==> a == b,
{
    linux_command_names_its_action(a);
    linux_command_names_its_action(b);
}

/// The key of the Omarchy host's input library that has the name of a
/// Windows library key: a letter or digit key types its lower-case letter
/// or its digit, and every other key is the key of the same name.
pub open spec fn host_key_of_windows(w: WindowsKey) -> HostKey {
    match w {
        WindowsKey::A => HostKey::Unicode('a'),
        WindowsKey::B => HostKey::Unicode('b'),
        WindowsKey::C => HostKey::Unicode('c'),
        WindowsKey::D => HostKey::Unicode('d'),
        WindowsKey::E => HostKey::Unicode('e'),
        WindowsKey::F => HostKey::Unicode('f'),
        WindowsKey::G => HostKey::Unicode('g'),
        WindowsKey::H => HostKey::Unicode('h'),
        WindowsKey::I => HostKey::Unicode('i'),
        WindowsKey::J => HostKey::Unicode('j'),
        WindowsKey::K => HostKey::Unicode('k'),
        WindowsKey::L => HostKey::Unicode('l'),
        WindowsKey::M => HostKey::Unicode('m'),
        WindowsKey::N => HostKey::Unicode('n'),
        WindowsKey::O => HostKey::Unicode('o'),
        WindowsKey::P => HostKey::Unicode('p'),
        WindowsKey::Q => HostKey::Unicode('q'),
        WindowsKey::R => HostKey::Unicode('r'),
        WindowsKey::S => HostKey::Unicode('s'),
        WindowsKey::T => HostKey::Unicode('t'),
        WindowsKey::U => HostKey::Unicode('u'),
        WindowsKey::V => HostKey::Unicode('v'),
        WindowsKey::W => HostKey::Unicode('w'),
        WindowsKey::X => HostKey::Unicode('x'),
        WindowsKey::Y => HostKey::Unicode('y'),
        WindowsKey::Z => HostKey::Unicode('z'),
        WindowsKey::Num0 => HostKey::Unicode('0'),
        WindowsKey::Num1 => HostKey::Unicode('1'),
        WindowsKey::Num2 => HostKey::Unicode('2'),
        WindowsKey::Num3 => HostKey::Unicode('3'),
        WindowsKey::Num4 => HostKey::Unicode('4'),
        WindowsKey::Num5 => HostKey::Unicode('5'),
        WindowsKey::Num6 => HostKey::Unicode('6'),
        WindowsKey::Num7 => HostKey::Unicode('7'),
        WindowsKey::Num8 => HostKey::Unicode('8'),
        WindowsKey::Num9 => HostKey::Unicode('9'),
        WindowsKey::Return => HostKey::Return,
        WindowsKey::Escape => HostKey::Escape,
        WindowsKey::Backspace => HostKey::Backspace,
        WindowsKey::Tab => HostKey::Tab,
        WindowsKey::Space => HostKey::Space,
        WindowsKey::Delete => HostKey::Delete,
        WindowsKey::Insert => HostKey::Insert,
        WindowsKey::Home => HostKey::Home,
        WindowsKey::End => HostKey::End,
        WindowsKey::PageUp => HostKey::PageUp,
        WindowsKey::PageDown => HostKey::PageDown,
        WindowsKey::UpArrow => HostKey::UpArrow,
        WindowsKey::DownArrow => HostKey::DownArrow,
        WindowsKey::LeftArrow => HostKey::LeftArrow,
        WindowsKey::RightArrow => HostKey::RightArrow,
        WindowsKey::LShift => HostKey::LShift,
        WindowsKey::RShift => HostKey::RShift,
        WindowsKey::LControl => HostKey::LControl,
        WindowsKey::RControl => HostKey::RControl,
        WindowsKey::Alt => HostKey::Alt,
        WindowsKey::Meta => HostKey::Meta,
        WindowsKey::CapsLock => HostKey::CapsLock,
        WindowsKey::F1 => HostKey::F1,
        WindowsKey::F2 => HostKey::F2,
        WindowsKey::F3 => HostKey::F3,
        WindowsKey::F4 => HostKey::F4,
        WindowsKey::F5 => HostKey::F5,
        WindowsKey::F6 => HostKey::F6,
        WindowsKey::F7 => HostKey::F7,
        WindowsKey::F8 => HostKey::F8,
        WindowsKey::F9 => HostKey::F9,
        WindowsKey::F10 => HostKey::F10,
        WindowsKey::F11 => HostKey::F11,
        WindowsKey::F12 => HostKey::F12,
    }
}

/// The Windows keys from `KeyA` to `KeyL` are keys of the Omarchy host's
/// library and of the Linux key table.
proof fn windows_keys_agree_0(code: Seq<char>)
    requires
        code == "KeyA"@ || code == "KeyB"@ || code == "KeyC"@ || code == "KeyD"@ || code == "KeyE"@ || code == "KeyF"@ || code == "KeyG"@ || code == "KeyH"@ || code == "KeyI"@ || code == "KeyJ"@ || code == "KeyK"@ || code == "KeyL"@,
    ensures
        windows_key_spec(code) matches Some(w) ==> key_for_code_spec(code) == Some(host_key_of_windows(w))
            && key_code_spec(code) is Some,
{
    reveal_strlit("AltLeft");
    reveal_strlit("AltRight");
    reveal_strlit("ArrowDown");
    reveal_strlit("ArrowLeft");
    reveal_strlit("ArrowRight");
    reveal_strlit("ArrowUp");
    reveal_strlit("Backquote");
    reveal_strlit("Backslash");
    reveal_strlit("Backspace");
    reveal_strlit("BracketLeft");
    reveal_strlit("BracketRight");
    reveal_strlit("CapsLock");
    reveal_strlit("Comma");
    reveal_strlit("ControlLeft");
    reveal_strlit("ControlRight");
    reveal_strlit("Delete");
    reveal_strlit("Digit");
    reveal_strlit("Digit0");
    reveal_strlit("Digit1");
    reveal_strlit("Digit2");
    reveal_strlit("Digit3");
    reveal_strlit("Digit4");
    reveal_strlit("Digit5");
    reveal_strlit("Digit6");
    reveal_strlit("Digit7");
    reveal_strlit("Digit8");
    reveal_strlit("Digit9");
    reveal_strlit("End");
    reveal_strlit("Enter");
    reveal_strlit("Equal");
    reveal_strlit("Escape");
    reveal_strlit("F1");
    reveal_strlit("F10");
    reveal_strlit("F11");
    reveal_strlit("F12");
    reveal_strlit("F2");
    reveal_strlit("F3");
    reveal_strlit("F4");
    reveal_strlit("F5");
    reveal_strlit("F6");
    reveal_strlit("F7");
    reveal_strlit("F8");
    reveal_strlit("F9");
    reveal_strlit("Home");
    reveal_strlit("Insert");
    reveal_strlit("Key");
    reveal_strlit("KeyA");
    reveal_strlit("KeyB");
    reveal_strlit("KeyC");
    reveal_strlit("KeyD");
    reveal_strlit("KeyE");
    reveal_strlit("KeyF");
    reveal_strlit("KeyG");
    reveal_strlit("KeyH");
    reveal_strlit("KeyI");
    reveal_strlit("KeyJ");
    reveal_strlit("KeyK");
    reveal_strlit("KeyL");
    reveal_strlit("KeyM");
    reveal_strlit("KeyN");
    reveal_strlit("KeyO");
    reveal_strlit("KeyP");
    reveal_strlit("KeyQ");
    reveal_strlit("KeyR");
    reveal_strlit("KeyS");
    reveal_strlit("KeyT");
    reveal_strlit("KeyU");
    reveal_strlit("KeyV");
    reveal_strlit("KeyW");
    reveal_strlit("KeyX");
    reveal_strlit("KeyY");
    reveal_strlit("KeyZ");
    reveal_strlit("MediaNextTrack");
    reveal_strlit("MediaPlayPause");
    reveal_strlit("MediaPrevTrack");
    reveal_strlit("MetaLeft");
    reveal_strlit("MetaRight");
    reveal_strlit("Minus");
    reveal_strlit("PageDown");
    reveal_strlit("PageUp");
    reveal_strlit("Period");
    reveal_strlit("PrintScreen");
    reveal_strlit("Quote");
    reveal_strlit("Semicolon");
    reveal_strlit("ShiftLeft");
    reveal_strlit("ShiftRight");
    reveal_strlit("Slash");
    reveal_strlit("Space");
    reveal_strlit("Tab");
    reveal_strlit("VolumeDown");
    reveal_strlit("VolumeMute");
    reveal_strlit("VolumeUp");
    if code == "KeyA"@ {
        assert(code.len() == 4 && code[0] == 'K' && code[1] == 'e' && code[2] == 'y' && code[3] == 'A');
        assert(code.subrange(0, 3) =~= "Key"@);
        assert(code.subrange(3, code.len() as int) =~= seq![code[3]]);
    } else if code == "KeyB"@ {
        assert(code.len() == 4 && code[0] == 'K' && code[1] == 'e' && code[2] == 'y' && code[3] == 'B');
        assert(code.subrange(0, 3) =~= "Key"@);
        assert(code.subrange(3, code.len() as int) =~= seq![code[3]]);
    } else if code == "KeyC"@ {
        assert(code.len() == 4 && code[0] == 'K' && code[1] == 'e' && code[2] == 'y' && code[3] == 'C');
        assert(code.subrange(0, 3) =~= "Key"@);
        assert(code.subrange(3, code.len() as int) =~= seq![code[3]]);
    } else if code == "KeyD"@ {
        assert(code.len() == 4 && code[0] == 'K' && code[1] == 'e' && code[2] == 'y' && code[3] == 'D');
        assert(code.subrange(0, 3) =~= "Key"@);
        assert(code.subrange(3, code.len() as int) =~= seq![code[3]]);
    } else if code == "KeyE"@ {
        assert(code.len() == 4 && code[0] == 'K' && code[1] == 'e' && code[2] == 'y' && code[3] == 'E');
        assert(code.subrange(0, 3) =~= "Key"@);
        assert(code.subrange(3, code.len() as int) =~= seq![code[3]]);
    } else if code == "KeyF"@ {
        assert(code.len() == 4 && code[0] == 'K' && code[1] == 'e' && code[2] == 'y' && code[3] == 'F');
        assert(code.subrange(0, 3) =~= "Key"@);
        assert(code.subrange(3, code.len() as int) =~= seq![code[3]]);
    } else if code == "KeyG"@ {
        assert(code.len() == 4 && code[0] == 'K' && code[1] == 'e' && code[2] == 'y' && code[3] == 'G');
        assert(code.subrange(0, 3) =~= "Key"@);
        assert(code.subrange(3, code.len() as int) =~= seq![code[3]]);
    } else if code == "KeyH"@ {
        assert(code.len() == 4 && code[0] == 'K' && code[1] == 'e' && code[2] == 'y' && code[3] == 'H');
        assert(code.subrange(0, 3) =~= "Key"@);
        assert(code.subrange(3, code.len() as int) =~= seq![code[3]]);
    } else if code == "KeyI"@ {
        assert(code.len() == 4 && code[0] == 'K' && code[1] == 'e' && code[2] == 'y' && code[3] == 'I');
        assert(code.subrange(0, 3) =~= "Key"@);
        assert(code.subrange(3, code.len() as int) =~= seq![code[3]]);
    } else if code == "KeyJ"@ {
        assert(code.len() == 4 && code[0] == 'K' && code[1] == 'e' && code[2] == 'y' && code[3] == 'J');
        assert(code.subrange(0, 3) =~= "Key"@);
        assert(code.subrange(3, code.len() as int) =~= seq![code[3]]);
    } else if code == "KeyK"@ {
        assert(code.len() == 4 && code[0] == 'K' && code[1] == 'e' && code[2] == 'y' && code[3] == 'K');
        assert(code.subrange(0, 3) =~= "Key"@);
        assert(code.subrange(3, code.len() as int) =~= seq![code[3]]);
    } else if code == "KeyL"@ {
        assert(code.len() == 4 && code[0] == 'K' && code[1] == 'e' && code[2] == 'y' && code[3] == 'L');
        assert(code.subrange(0, 3) =~= "Key"@);
        assert(code.subrange(3, code.len() as int) =~= seq![code[3]]);
    }
}

/// The Windows keys from `KeyM` to `KeyX` are keys of the Omarchy host's
/// library and of the Linux key table.
proof fn windows_keys_agree_1(code: Seq<char>)
    requires
        code == "KeyM"@ || code == "KeyN"@ || code == "KeyO"@ || code == "KeyP"@ || code == "KeyQ"@ || code == "KeyR"@ || code == "KeyS"@ || code == "KeyT"@ || code == "KeyU"@ || code == "KeyV"@ || code == "KeyW"@ || code == "KeyX"@,
    ensures
        windows_key_spec(code) matches Some(w) ==> key_for_code_spec(code) == Some(host_key_of_windows(w))
            && key_code_spec(code) is Some,
{
    reveal_strlit("AltLeft");
    reveal_strlit("AltRight");
    reveal_strlit("ArrowDown");
    reveal_strlit("ArrowLeft");
    reveal_strlit("ArrowRight");
    reveal_strlit("ArrowUp");
    reveal_strlit("Backquote");
    reveal_strlit("Backslash");
    reveal_strlit("Backspace");
    reveal_strlit("BracketLeft");
    reveal_strlit("BracketRight");
    reveal_strlit("CapsLock");
    reveal_strlit("Comma");
    reveal_strlit("ControlLeft");
    reveal_strlit("ControlRight");
    reveal_strlit("Delete");
    reveal_strlit("Digit");
    reveal_strlit("Digit0");
    reveal_strlit("Digit1");
    reveal_strlit("Digit2");
    reveal_strlit("Digit3");
    reveal_strlit("Digit4");
    reveal_strlit("Digit5");
    reveal_strlit("Digit6");
    reveal_strlit("Digit7");
    reveal_strlit("Digit8");
    reveal_strlit("Digit9");
    reveal_strlit("End");
    reveal_strlit("Enter");
    reveal_strlit("Equal");
    reveal_strlit("Escape");
    reveal_strlit("F1");
    reveal_strlit("F10");
    reveal_strlit("F11");
    reveal_strlit("F12");
    reveal_strlit("F2");
    reveal_strlit("F3");
    reveal_strlit("F4");
    reveal_strlit("F5");
    reveal_strlit("F6");
    reveal_strlit("F7");
    reveal_strlit("F8");
    reveal_strlit("F9");
    reveal_strlit("Home");
    reveal_strlit("Insert");
    reveal_strlit("Key");
    reveal_strlit("KeyA");
    reveal_strlit("KeyB");
    reveal_strlit("KeyC");
    reveal_strlit("KeyD");
    reveal_strlit("KeyE");
    reveal_strlit("KeyF");
    reveal_strlit("KeyG");
    reveal_strlit("KeyH");
    reveal_strlit("KeyI");
    reveal_strlit("KeyJ");
    reveal_strlit("KeyK");
    reveal_strlit("KeyL");
    reveal_strlit("KeyM");
    reveal_strlit("KeyN");
    reveal_strlit("KeyO");
    reveal_strlit("KeyP");
    reveal_strlit("KeyQ");
    reveal_strlit("KeyR");
    reveal_strlit("KeyS");
    reveal_strlit("KeyT");
    reveal_strlit("KeyU");
    reveal_strlit("KeyV");
    reveal_strlit("KeyW");
    reveal_strlit("KeyX");
    reveal_strlit("KeyY");
    reveal_strlit("KeyZ");
    reveal_strlit("MediaNextTrack");
    reveal_strlit("MediaPlayPause");
    reveal_strlit("MediaPrevTrack");
    reveal_strlit("MetaLeft");
    reveal_strlit("MetaRight");
    reveal_strlit("Minus");
    reveal_strlit("PageDown");
    reveal_strlit("PageUp");
    reveal_strlit("Period");
    reveal_strlit("PrintScreen");
    reveal_strlit("Quote");
    reveal_strlit("Semicolon");
    reveal_strlit("ShiftLeft");
    reveal_strlit("ShiftRight");
    reveal_strlit("Slash");
    reveal_strlit("Space");
    reveal_strlit("Tab");
    reveal_strlit("VolumeDown");
    reveal_strlit("VolumeMute");
    reveal_strlit("VolumeUp");
    if code == "KeyM"@ {
        assert(code.len() == 4 && code[0] == 'K' && code[1] == 'e' && code[2] == 'y' && code[3] == 'M');
        assert(code.subrange(0, 3) =~= "Key"@);
        assert(code.subrange(3, code.len() as int) =~= seq![code[3]]);
    } else if code == "KeyN"@ {
        assert(code.len() == 4 && code[0] == 'K' && code[1] == 'e' && code[2] == 'y' && code[3] == 'N');
        assert(code.subrange(0, 3) =~= "Key"@);
        assert(code.subrange(3, code.len() as int) =~= seq![code[3]]);
    } else if code == "KeyO"@ {
        assert(code.len() == 4 && code[0] == 'K' && code[1] == 'e' && code[2] == 'y' && code[3] == 'O');
        assert(code.subrange(0, 3) =~= "Key"@);
        assert(code.subrange(3, code.len() as int) =~= seq![code[3]]);
    } else if code == "KeyP"@ {
        assert(code.len() == 4 && code[0] == 'K' && code[1] == 'e' && code[2] == 'y' && code[3] == 'P');
        assert(code.subrange(0, 3) =~= "Key"@);
        assert(code.subrange(3, code.len() as int) =~= seq![code[3]]);
    } else if code == "KeyQ"@ {
        assert(code.len() == 4 && code[0] == 'K' && code[1] == 'e' && code[2] == 'y' && code[3] == 'Q');
        assert(code.subrange(0, 3) =~= "Key"@);
        assert(code.subrange(3, code.len() as int) =~= seq![code[3]]);
    } else if code == "KeyR"@ {
        assert(code.len() == 4 && code[0] == 'K' && code[1] == 'e' && code[2] == 'y' && code[3] == 'R');
        assert(code.subrange(0, 3) =~= "Key"@);
        assert(code.subrange(3, code.len() as int) =~= seq![code[3]]);
    } else if code == "KeyS"@ {
        assert(code.len() == 4 && code[0] == 'K' && code[1] == 'e' && code[2] == 'y' && code[3] == 'S');
        assert(code.subrange(0, 3) =~= "Key"@);
        assert(code.subrange(3, code.len() as int) =~= seq![code[3]]);
    } else if code == "KeyT"@ {
        assert(code.len() == 4 && code[0] == 'K' && code[1] == 'e' && code[2] == 'y' && code[3] == 'T');
        assert(code.subrange(0, 3) =~= "Key"@);
        assert(code.subrange(3, code.len() as int) =~= seq![code[3]]);
    } else if code == "KeyU"@ {
        assert(code.len() == 4 && code[0] == 'K' && code[1] == 'e' && code[2] == 'y' && code[3] == 'U');
        assert(code.subrange(0, 3) =~= "Key"@);
        assert(code.subrange(3, code.len() as int) =~= seq![code[3]]);
    } else if code == "KeyV"@ {
        assert(code.len() == 4 && code[0] == 'K' && code[1] == 'e' && code[2] == 'y' && code[3] == 'V');
        assert(code.subrange(0, 3) =~= "Key"@);
        assert(code.subrange(3, code.len() as int) =~= seq![code[3]]);
    } else if code == "KeyW"@ {
        assert(code.len() == 4 && code[0] == 'K' && code[1] == 'e' && code[2] == 'y' && code[3] == 'W');
        assert(code.subrange(0, 3) =~= "Key"@);
        assert(code.subrange(3, code.len() as int) =~= seq![code[3]]);
    } else if code == "KeyX"@ {
        assert(code.len() == 4 && code[0] == 'K' && code[1] == 'e' && code[2] == 'y' && code[3] == 'X');
        assert(code.subrange(0, 3) =~= "Key"@);
        assert(code.subrange(3, code.len() as int) =~= seq![code[3]]);
    }
}

/// The Windows keys from `KeyY` to `Digit9` are keys of the Omarchy host's
/// library and of the Linux key table.
proof fn windows_keys_agree_2(code: Seq<char>)
    requires
        code == "KeyY"@ || code == "KeyZ"@ || code == "Digit0"@ || code == "Digit1"@ || code == "Digit2"@ || code == "Digit3"@ || code == "Digit4"@ || code == "Digit5"@ || code == "Digit6"@ || code == "Digit7"@ || code == "Digit8"@ || code == "Digit9"@,
    ensures
        windows_key_spec(code) matches Some(w) ==> key_for_code_spec(code) == Some(host_key_of_windows(w))
            && key_code_spec(code) is Some,
{
    reveal_strlit("AltLeft");
    reveal_strlit("AltRight");
    reveal_strlit("ArrowDown");
    reveal_strlit("ArrowLeft");
    reveal_strlit("ArrowRight");
    reveal_strlit("ArrowUp");
    reveal_strlit("Backquote");
    reveal_strlit("Backslash");
    reveal_strlit("Backspace");
    reveal_strlit("BracketLeft");
    reveal_strlit("BracketRight");
    reveal_strlit("CapsLock");
    reveal_strlit("Comma");
    reveal_strlit("ControlLeft");
    reveal_strlit("ControlRight");
    reveal_strlit("Delete");
    reveal_strlit("Digit");
    reveal_strlit("Digit0");
    reveal_strlit("Digit1");
    reveal_strlit("Digit2");
    reveal_strlit("Digit3");
    reveal_strlit("Digit4");
    reveal_strlit("Digit5");
    reveal_strlit("Digit6");
    reveal_strlit("Digit7");
    reveal_strlit("Digit8");
    reveal_strlit("Digit9");
    reveal_strlit("End");
    reveal_strlit("Enter");
    reveal_strlit("Equal");
    reveal_strlit("Escape");
    reveal_strlit("F1");
    reveal_strlit("F10");
    reveal_strlit("F11");
    reveal_strlit("F12");
    reveal_strlit("F2");
    reveal_strlit("F3");
    reveal_strlit("F4");
    reveal_strlit("F5");
    reveal_strlit("F6");
    reveal_strlit("F7");
    reveal_strlit("F8");
    reveal_strlit("F9");
    reveal_strlit("Home");
    reveal_strlit("Insert");
    reveal_strlit("Key");
    reveal_strlit("KeyA");
    reveal_strlit("KeyB");
    reveal_strlit("KeyC");
    reveal_strlit("KeyD");
    reveal_strlit("KeyE");
    reveal_strlit("KeyF");
    reveal_strlit("KeyG");
    reveal_strlit("KeyH");
    reveal_strlit("KeyI");
    reveal_strlit("KeyJ");
    reveal_strlit("KeyK");
    reveal_strlit("KeyL");
    reveal_strlit("KeyM");
    reveal_strlit("KeyN");
    reveal_strlit("KeyO");
    reveal_strlit("KeyP");
    reveal_strlit("KeyQ");
    reveal_strlit("KeyR");
    reveal_strlit("KeyS");
    reveal_strlit("KeyT");
    reveal_strlit("KeyU");
    reveal_strlit("KeyV");
    reveal_strlit("KeyW");
    reveal_strlit("KeyX");
    reveal_strlit("KeyY");
    reveal_strlit("KeyZ");
    reveal_strlit("MediaNextTrack");
    reveal_strlit("MediaPlayPause");
    reveal_strlit("MediaPrevTrack");
    reveal_strlit("MetaLeft");
    reveal_strlit("MetaRight");
    reveal_strlit("Minus");
    reveal_strlit("PageDown");
    reveal_strlit("PageUp");
    reveal_strlit("Period");
    reveal_strlit("PrintScreen");
    reveal_strlit("Quote");
    reveal_strlit("Semicolon");
    reveal_strlit("ShiftLeft");
    reveal_strlit("ShiftRight");
    reveal_strlit("Slash");
    reveal_strlit("Space");
    reveal_strlit("Tab");
    reveal_strlit("VolumeDown");
    reveal_strlit("VolumeMute");
    reveal_strlit("VolumeUp");
    if code == "KeyY"@ {
        assert(code.len() == 4 && code[0] == 'K' && code[1] == 'e' && code[2] == 'y' && code[3] == 'Y');
        assert(code.subrange(0, 3) =~= "Key"@);
        assert(code.subrange(3, code.len() as int) =~= seq![code[3]]);
    } else if code == "KeyZ"@ {
        assert(code.len() == 4 && code[0] == 'K' && code[1] == 'e' && code[2] == 'y' && code[3] == 'Z');
        assert(code.subrange(0, 3) =~= "Key"@);
        assert(code.subrange(3, code.len() as int) =~= seq![code[3]]);
    } else if code == "Digit0"@ {
        assert(code.len() == 6 && code[0] == 'D' && code[1] == 'i' && code[2] == 'g' && code[3] == 'i' && code[4] == 't' && code[5] == '0');
        assert(code.subrange(0, 3)[0] != "Key"@[0]);
        assert(code.subrange(0, 5) =~= "Digit"@);
        assert(code.subrange(5, code.len() as int) =~= seq![code[5]]);
    } else if code == "Digit1"@ {
        assert(code.len() == 6 && code[0] == 'D' && code[1] == 'i' && code[2] == 'g' && code[3] == 'i' && code[4] == 't' && code[5] == '1');
        assert(code.subrange(0, 3)[0] != "Key"@[0]);
        assert(code.subrange(0, 5) =~= "Digit"@);
        assert(code.subrange(5, code.len() as int) =~= seq![code[5]]);
    } else if code == "Digit2"@ {
        assert(code.len() == 6 && code[0] == 'D' && code[1] == 'i' && code[2] == 'g' && code[3] == 'i' && code[4] == 't' && code[5] == '2');
        assert(code.subrange(0, 3)[0] != "Key"@[0]);
        assert(code.subrange(0, 5) =~= "Digit"@);
        assert(code.subrange(5, code.len() as int) =~= seq![code[5]]);
    } else if code == "Digit3"@ {
        assert(code.len() == 6 && code[0] == 'D' && code[1] == 'i' && code[2] == 'g' && code[3] == 'i' && code[4] == 't' && code[5] == '3');
        assert(code.subrange(0, 3)[0] != "Key"@[0]);
        assert(code.subrange(0, 5) =~= "Digit"@);
        assert(code.subrange(5, code.len() as int) =~= seq![code[5]]);
    } else if code == "Digit4"@ {
        assert(code.len() == 6 && code[0] == 'D' && code[1] == 'i' && code[2] == 'g' && code[3] == 'i' && code[4] == 't' && code[5] == '4');
        assert(code.subrange(0, 3)[0] != "Key"@[0]);
        assert(code.subrange(0, 5) =~= "Digit"@);
        assert(code.subrange(5, code.len() as int) =~= seq![code[5]]);
    } else if code == "Digit5"@ {
        assert(code.len() == 6 && code[0] == 'D' && code[1] == 'i' && code[2] == 'g' && code[3] == 'i' && code[4] == 't' && code[5] == '5');
        assert(code.subrange(0, 3)[0] != "Key"@[0]);
        assert(code.subrange(0, 5) =~= "Digit"@);
        assert(code.subrange(5, code.len() as int) =~= seq![code[5]]);
    } else if code == "Digit6"@ {
        assert(code.len() == 6 && code[0] == 'D' && code[1] == 'i' && code[2] == 'g' && code[3] == 'i' && code[4] == 't' && code[5] == '6');
        assert(code.subrange(0, 3)[0] != "Key"@[0]);
        assert(code.subrange(0, 5) =~= "Digit"@);
        assert(code.subrange(5, code.len() as int) =~= seq![code[5]]);
    } else if code == "Digit7"@ {
        assert(code.len() == 6 && code[0] == 'D' && code[1] == 'i' && code[2] == 'g' && code[3] == 'i' && code[4] == 't' && code[5] == '7');
        assert(code.subrange(0, 3)[0] != "Key"@[0]);
        assert(code.subrange(0, 5) =~= "Digit"@);
        assert(code.subrange(5, code.len() as int) =~= seq![code[5]]);
    } else if code == "Digit8"@ {
        assert(code.len() == 6 && code[0] == 'D' && code[1] == 'i' && code[2] == 'g' && code[3] == 'i' && code[4] == 't' && code[5] == '8');
        assert(code.subrange(0, 3)[0] != "Key"@[0]);
        assert(code.subrange(0, 5) =~= "Digit"@);
        assert(code.subrange(5, code.len() as int) =~= seq![code[5]]);
    } else if code == "Digit9"@ {
        assert(code.len() == 6 && code[0] == 'D' && code[1] == 'i' && code[2] == 'g' && code[3] == 'i' && code[4] == 't' && code[5] == '9');
        assert(code.subrange(0, 3)[0] != "Key"@[0]);
        assert(code.subrange(0, 5) =~= "Digit"@);
        assert(code.subrange(5, code.len() as int) =~= seq![code[5]]);
    }
}

/// The Windows keys from `Enter` to `ArrowUp` are keys of the Omarchy host's
/// library and of the Linux key table.
proof fn windows_keys_agree_3(code: Seq<char>)
    requires
        code == "Enter"@ || code == "Escape"@ || code == "Backspace"@ || code == "Tab"@ || code == "Space"@ || code == "Delete"@ || code == "Insert"@ || code == "Home"@ || code == "End"@ || code == "PageUp"@ || code == "PageDown"@ || code == "ArrowUp"@,
    ensures
        windows_key_spec(code) matches Some(w) ==> key_for_code_spec(code) == Some(host_key_of_windows(w))
            && key_code_spec(code) is Some,
{
    reveal_strlit("AltLeft");
    reveal_strlit("AltRight");
    reveal_strlit("ArrowDown");
    reveal_strlit("ArrowLeft");
    reveal_strlit("ArrowRight");
    reveal_strlit("ArrowUp");
    reveal_strlit("Backquote");
    reveal_strlit("Backslash");
    reveal_strlit("Backspace");
    reveal_strlit("BracketLeft");
    reveal_strlit("BracketRight");
    reveal_strlit("CapsLock");
    reveal_strlit("Comma");
    reveal_strlit("ControlLeft");
    reveal_strlit("ControlRight");
    reveal_strlit("Delete");
    reveal_strlit("Digit");
    reveal_strlit("Digit0");
    reveal_strlit("Digit1");
    reveal_strlit("Digit2");
    reveal_strlit("Digit3");
    reveal_strlit("Digit4");
    reveal_strlit("Digit5");
    reveal_strlit("Digit6");
    reveal_strlit("Digit7");
    reveal_strlit("Digit8");
    reveal_strlit("Digit9");
    reveal_strlit("End");
    reveal_strlit("Enter");
    reveal_strlit("Equal");
    reveal_strlit("Escape");
    reveal_strlit("F1");
    reveal_strlit("F10");
    reveal_strlit("F11");
    reveal_strlit("F12");
    reveal_strlit("F2");
    reveal_strlit("F3");
    reveal_strlit("F4");
    reveal_strlit("F5");
    reveal_strlit("F6");
    reveal_strlit("F7");
    reveal_strlit("F8");
    reveal_strlit("F9");
    reveal_strlit("Home");
    reveal_strlit("Insert");
    reveal_strlit("Key");
    reveal_strlit("KeyA");
    reveal_strlit("KeyB");
    reveal_strlit("KeyC");
    reveal_strlit("KeyD");
    reveal_strlit("KeyE");
    reveal_strlit("KeyF");
    reveal_strlit("KeyG");
    reveal_strlit("KeyH");
    reveal_strlit("KeyI");
    reveal_strlit("KeyJ");
    reveal_strlit("KeyK");
    reveal_strlit("KeyL");
    reveal_strlit("KeyM");
    reveal_strlit("KeyN");
    reveal_strlit("KeyO");
    reveal_strlit("KeyP");
    reveal_strlit("KeyQ");
    reveal_strlit("KeyR");
    reveal_strlit("KeyS");
    reveal_strlit("KeyT");
    reveal_strlit("KeyU");
    reveal_strlit("KeyV");
    reveal_strlit("KeyW");
    reveal_strlit("KeyX");
    reveal_strlit("KeyY");
    reveal_strlit("KeyZ");
    reveal_strlit("MediaNextTrack");
    reveal_strlit("MediaPlayPause");
    reveal_strlit("MediaPrevTrack");
    reveal_strlit("MetaLeft");
    reveal_strlit("MetaRight");
    reveal_strlit("Minus");
    reveal_strlit("PageDown");
    reveal_strlit("PageUp");
    reveal_strlit("Period");
    reveal_strlit("PrintScreen");
    reveal_strlit("Quote");
    reveal_strlit("Semicolon");
    reveal_strlit("ShiftLeft");
    reveal_strlit("ShiftRight");
    reveal_strlit("Slash");
    reveal_strlit("Space");
    reveal_strlit("Tab");
    reveal_strlit("VolumeDown");
    reveal_strlit("VolumeMute");
    reveal_strlit("VolumeUp");
    if code == "Enter"@ {
        assert(code.len() == 5 && code[0] == 'E' && code[1] == 'n' && code[2] == 't' && code[3] == 'e' && code[4] == 'r');
        assert(code.subrange(0, 3)[0] != "Key"@[0]);
        assert(code.subrange(0, 5)[0] != "Digit"@[0]);
    } else if code == "Escape"@ {
        assert(code.len() == 6 && code[0] == 'E' && code[1] == 's' && code[2] == 'c' && code[3] == 'a' && code[4] == 'p' && code[5] == 'e');
        assert(code.subrange(0, 3)[0] != "Key"@[0]);
        assert(code.subrange(0, 5)[0] != "Digit"@[0]);
    } else if code == "Backspace"@ {
        assert(code.len() == 9 && code[0] == 'B' && code[1] == 'a' && code[2] == 'c' && code[3] == 'k' && code[4] == 's' && code[5] == 'p' && code[6] == 'a' && code[7] == 'c' && code[8] == 'e');
        assert(code.subrange(0, 3)[0] != "Key"@[0]);
        assert(code.subrange(0, 5)[0] != "Digit"@[0]);
    } else if code == "Tab"@ {
        assert(code.len() == 3 && code[0] == 'T' && code[1] == 'a' && code[2] == 'b');
        assert(code.subrange(0, 3)[0] != "Key"@[0]);
    } else if code == "Space"@ {
        assert(code.len() == 5 && code[0] == 'S' && code[1] == 'p' && code[2] == 'a' && code[3] == 'c' && code[4] == 'e');
        assert(code.subrange(0, 3)[0] != "Key"@[0]);
        assert(code.subrange(0, 5)[0] != "Digit"@[0]);
    } else if code == "Delete"@ {
        assert(code.len() == 6 && code[0] == 'D' && code[1] == 'e' && code[2] == 'l' && code[3] == 'e' && code[4] == 't' && code[5] == 'e');
        assert(code.subrange(0, 3)[0] != "Key"@[0]);
        assert(code.subrange(0, 5)[1] != "Digit"@[1]);
    } else if code == "Insert"@ {
        assert(code.len() == 6 && code[0] == 'I' && code[1] == 'n' && code[2] == 's' && code[3] == 'e' && code[4] == 'r' && code[5] == 't');
        assert(code.subrange(0, 3)[0] != "Key"@[0]);
        assert(code.subrange(0, 5)[0] != "Digit"@[0]);
    } else if code == "Home"@ {
        assert(code.len() == 4 && code[0] == 'H' && code[1] == 'o' && code[2] == 'm' && code[3] == 'e');
        assert(code.subrange(0, 3)[0] != "Key"@[0]);
    } else if code == "End"@ {
        assert(code.len() == 3 && code[0] == 'E' && code[1] == 'n' && code[2] == 'd');
        assert(code.subrange(0, 3)[0] != "Key"@[0]);
    } else if code == "PageUp"@ {
        assert(code.len() == 6 && code[0] == 'P' && code[1] == 'a' && code[2] == 'g' && code[3] == 'e' && code[4] == 'U' && code[5] == 'p');
        assert(code.subrange(0, 3)[0] != "Key"@[0]);
        assert(code.subrange(0, 5)[0] != "Digit"@[0]);
    } else if code == "PageDown"@ {
        assert(code.len() == 8 && code[0] == 'P' && code[1] == 'a' && code[2] == 'g' && code[3] == 'e' && code[4] == 'D' && code[5] == 'o' && code[6] == 'w' && code[7] == 'n');
        assert(code.subrange(0, 3)[0] != "Key"@[0]);
        assert(code.subrange(0, 5)[0] != "Digit"@[0]);
    } else if code == "ArrowUp"@ {
        assert(code.len() == 7 && code[0] == 'A' && code[1] == 'r' && code[2] == 'r' && code[3] == 'o' && code[4] == 'w' && code[5] == 'U' && code[6] == 'p');
        assert(code.subrange(0, 3)[0] != "Key"@[0]);
        assert(code.subrange(0, 5)[0] != "Digit"@[0]);
    }
}

/// The Windows keys from `ArrowDown` to `CapsLock` are keys of the Omarchy host's
/// library and of the Linux key table.
proof fn windows_keys_agree_4(code: Seq<char>)
    requires
        code == "ArrowDown"@ || code == "ArrowLeft"@ || code == "ArrowRight"@ || code == "ShiftLeft"@ || code == "ShiftRight"@ || code == "ControlLeft"@ || code == "ControlRight"@ || code == "AltLeft"@ || code == "AltRight"@ || code == "MetaLeft"@ || code == "MetaRight"@ || code == "CapsLock"@,
    ensures
        windows_key_spec(code) matches Some(w) ==> key_for_code_spec(code) == Some(host_key_of_windows(w))
            && key_code_spec(code) is Some,
{
    reveal_strlit("AltLeft");
    reveal_strlit("AltRight");
    reveal_strlit("ArrowDown");
    reveal_strlit("ArrowLeft");
    reveal_strlit("ArrowRight");
    reveal_strlit("ArrowUp");
    reveal_strlit("Backquote");
    reveal_strlit("Backslash");
    reveal_strlit("Backspace");
    reveal_strlit("BracketLeft");
    reveal_strlit("BracketRight");
    reveal_strlit("CapsLock");
    reveal_strlit("Comma");
    reveal_strlit("ControlLeft");
    reveal_strlit("ControlRight");
    reveal_strlit("Delete");
    reveal_strlit("Digit");
    reveal_strlit("Digit0");
    reveal_strlit("Digit1");
    reveal_strlit("Digit2");
    reveal_strlit("Digit3");
    reveal_strlit("Digit4");
    reveal_strlit("Digit5");
    reveal_strlit("Digit6");
    reveal_strlit("Digit7");
    reveal_strlit("Digit8");
    reveal_strlit("Digit9");
    reveal_strlit("End");
    reveal_strlit("Enter");
    reveal_strlit("Equal");
    reveal_strlit("Escape");
    reveal_strlit("F1");
    reveal_strlit("F10");
    reveal_strlit("F11");
    reveal_strlit("F12");
    reveal_strlit("F2");
    reveal_strlit("F3");
    reveal_strlit("F4");
    reveal_strlit("F5");
    reveal_strlit("F6");
    reveal_strlit("F7");
    reveal_strlit("F8");
    reveal_strlit("F9");
    reveal_strlit("Home");
    reveal_strlit("Insert");
    reveal_strlit("Key");
    reveal_strlit("KeyA");
    reveal_strlit("KeyB");
    reveal_strlit("KeyC");
    reveal_strlit("KeyD");
    reveal_strlit("KeyE");
    reveal_strlit("KeyF");
    reveal_strlit("KeyG");
    reveal_strlit("KeyH");
    reveal_strlit("KeyI");
    reveal_strlit("KeyJ");
    reveal_strlit("KeyK");
    reveal_strlit("KeyL");
    reveal_strlit("KeyM");
    reveal_strlit("KeyN");
    reveal_strlit("KeyO");
    reveal_strlit("KeyP");
    reveal_strlit("KeyQ");
    reveal_strlit("KeyR");
    reveal_strlit("KeyS");
    reveal_strlit("KeyT");
    reveal_strlit("KeyU");
    reveal_strlit("KeyV");
    reveal_strlit("KeyW");
    reveal_strlit("KeyX");
    reveal_strlit("KeyY");
    reveal_strlit("KeyZ");
    reveal_strlit("MediaNextTrack");
    reveal_strlit("MediaPlayPause");
    reveal_strlit("MediaPrevTrack");
    reveal_strlit("MetaLeft");
    reveal_strlit("MetaRight");
    reveal_strlit("Minus");
    reveal_strlit("PageDown");
    reveal_strlit("PageUp");
    reveal_strlit("Period");
    reveal_strlit("PrintScreen");
    reveal_strlit("Quote");
    reveal_strlit("Semicolon");
    reveal_strlit("ShiftLeft");
    reveal_strlit("ShiftRight");
    reveal_strlit("Slash");
    reveal_strlit("Space");
    reveal_strlit("Tab");
    reveal_strlit("VolumeDown");
    reveal_strlit("VolumeMute");
    reveal_strlit("VolumeUp");
    if code == "ArrowDown"@ {
        assert(code.len() == 9 && code[0] == 'A' && code[1] == 'r' && code[2] == 'r' && code[3] == 'o' && code[4] == 'w' && code[5] == 'D' && code[6] == 'o' && code[7] == 'w' && code[8] == 'n');
        assert(code.subrange(0, 3)[0] != "Key"@[0]);
        assert(code.subrange(0, 5)[0] != "Digit"@[0]);
    } else if code == "ArrowLeft"@ {
        assert(code.len() == 9 && code[0] == 'A' && code[1] == 'r' && code[2] == 'r' && code[3] == 'o' && code[4] == 'w' && code[5] == 'L' && code[6] == 'e' && code[7] == 'f' && code[8] == 't');
        assert(code.subrange(0, 3)[0] != "Key"@[0]);
        assert(code.subrange(0, 5)[0] != "Digit"@[0]);
    } else if code == "ArrowRight"@ {
        assert(code.len() == 10 && code[0] == 'A' && code[1] == 'r' && code[2] == 'r' && code[3] == 'o' && code[4] == 'w' && code[5] == 'R' && code[6] == 'i' && code[7] == 'g' && code[8] == 'h' && code[9] == 't');
        assert(code.subrange(0, 3)[0] != "Key"@[0]);
        assert(code.subrange(0, 5)[0] != "Digit"@[0]);
    } else if code == "ShiftLeft"@ {
        assert(code.len() == 9 && code[0] == 'S' && code[1] == 'h' && code[2] == 'i' && code[3] == 'f' && code[4] == 't' && code[5] == 'L' && code[6] == 'e' && code[7] == 'f' && code[8] == 't');
        assert(code.subrange(0, 3)[0] != "Key"@[0]);
        assert(code.subrange(0, 5)[0] != "Digit"@[0]);
    } else if code == "ShiftRight"@ {
        assert(code.len() == 10 && code[0] == 'S' && code[1] == 'h' && code[2] == 'i' && code[3] == 'f' && code[4] == 't' && code[5] == 'R' && code[6] == 'i' && code[7] == 'g' && code[8] == 'h' && code[9] == 't');
        assert(code.subrange(0, 3)[0] != "Key"@[0]);
        assert(code.subrange(0, 5)[0] != "Digit"@[0]);
    } else if code == "ControlLeft"@ {
        assert(code.len() == 11 && code[0] == 'C' && code[1] == 'o' && code[2] == 'n' && code[3] == 't' && code[4] == 'r' && code[5] == 'o' && code[6] == 'l' && code[7] == 'L' && code[8] == 'e' && code[9] == 'f' && code[10] == 't');
        assert(code.subrange(0, 3)[0] != "Key"@[0]);
        assert(code.subrange(0, 5)[0] != "Digit"@[0]);
    } else if code == "ControlRight"@ {
        assert(code.len() == 12 && code[0] == 'C' && code[1] == 'o' && code[2] == 'n' && code[3] == 't' && code[4] == 'r' && code[5] == 'o' && code[6] == 'l' && code[7] == 'R' && code[8] == 'i' && code[9] == 'g' && code[10] == 'h' && code[11] == 't');
        assert(code.subrange(0, 3)[0] != "Key"@[0]);
        assert(code.subrange(0, 5)[0] != "Digit"@[0]);
    } else if code == "AltLeft"@ {
        assert(code.len() == 7 && code[0] == 'A' && code[1] == 'l' && code[2] == 't' && code[3] == 'L' && code[4] == 'e' && code[5] == 'f' && code[6] == 't');
        assert(code.subrange(0, 3)[0] != "Key"@[0]);
        assert(code.subrange(0, 5)[0] != "Digit"@[0]);
    } else if code == "AltRight"@ {
        assert(code.len() == 8 && code[0] == 'A' && code[1] == 'l' && code[2] == 't' && code[3] == 'R' && code[4] == 'i' && code[5] == 'g' && code[6] == 'h' && code[7] == 't');
        assert(code.subrange(0, 3)[0] != "Key"@[0]);
        assert(code.subrange(0, 5)[0] != "Digit"@[0]);
    } else if code == "MetaLeft"@ {
        assert(code.len() == 8 && code[0] == 'M' && code[1] == 'e' && code[2] == 't' && code[3] == 'a' && code[4] == 'L' && code[5] == 'e' && code[6] == 'f' && code[7] == 't');
        assert(code.subrange(0, 3)[0] != "Key"@[0]);
        assert(code.subrange(0, 5)[0] != "Digit"@[0]);
    } else if code == "MetaRight"@ {
        assert(code.len() == 9 && code[0] == 'M' && code[1] == 'e' && code[2] == 't' && code[3] == 'a' && code[4] == 'R' && code[5] == 'i' && code[6] == 'g' && code[7] == 'h' && code[8] == 't');
        assert(code.subrange(0, 3)[0] != "Key"@[0]);
        assert(code.subrange(0, 5)[0] != "Digit"@[0]);
    } else if code == "CapsLock"@ {
        assert(code.len() == 8 && code[0] == 'C' && code[1] == 'a' && code[2] == 'p' && code[3] == 's' && code[4] == 'L' && code[5] == 'o' && code[6] == 'c' && code[7] == 'k');
        assert(code.subrange(0, 3)[0] != "Key"@[0]);
        assert(code.subrange(0, 5)[0] != "Digit"@[0]);
    }
}

/// The Windows keys from `F1` to `F12` are keys of the Omarchy host's
/// library and of the Linux key table.
proof fn windows_keys_agree_5(code: Seq<char>)
    requires
        code == "F1"@ || code == "F2"@ || code == "F3"@ || code == "F4"@ || code == "F5"@ || code == "F6"@ || code == "F7"@ || code == "F8"@ || code == "F9"@ || code == "F10"@ || code == "F11"@ || code == "F12"@,
    ensures
        windows_key_spec(code) matches Some(w) ==> key_for_code_spec(code) == Some(host_key_of_windows(w))
            && key_code_spec(code) is Some,
{
    reveal_strlit("AltLeft");
    reveal_strlit("AltRight");
    reveal_strlit("ArrowDown");
    reveal_strlit("ArrowLeft");
    reveal_strlit("ArrowRight");
    reveal_strlit("ArrowUp");
    reveal_strlit("Backquote");
    reveal_strlit("Backslash");
    reveal_strlit("Backspace");
    reveal_strlit("BracketLeft");
    reveal_strlit("BracketRight");
    reveal_strlit("CapsLock");
    reveal_strlit("Comma");
    reveal_strlit("ControlLeft");
    reveal_strlit("ControlRight");
    reveal_strlit("Delete");
    reveal_strlit("Digit");
    reveal_strlit("Digit0");
    reveal_strlit("Digit1");
    reveal_strlit("Digit2");
    reveal_strlit("Digit3");
    reveal_strlit("Digit4");
    reveal_strlit("Digit5");
    reveal_strlit("Digit6");
    reveal_strlit("Digit7");
    reveal_strlit("Digit8");
    reveal_strlit("Digit9");
    reveal_strlit("End");
    reveal_strlit("Enter");
    reveal_strlit("Equal");
    reveal_strlit("Escape");
    reveal_strlit("F1");
    reveal_strlit("F10");
    reveal_strlit("F11");
    reveal_strlit("F12");
    reveal_strlit("F2");
    reveal_strlit("F3");
    reveal_strlit("F4");
    reveal_strlit("F5");
    reveal_strlit("F6");
    reveal_strlit("F7");
    reveal_strlit("F8");
    reveal_strlit("F9");
    reveal_strlit("Home");
    reveal_strlit("Insert");
    reveal_strlit("Key");
    reveal_strlit("KeyA");
    reveal_strlit("KeyB");
    reveal_strlit("KeyC");
    reveal_strlit("KeyD");
    reveal_strlit("KeyE");
    reveal_strlit("KeyF");
    reveal_strlit("KeyG");
    reveal_strlit("KeyH");
    reveal_strlit("KeyI");
    reveal_strlit("KeyJ");
    reveal_strlit("KeyK");
    reveal_strlit("KeyL");
    reveal_strlit("KeyM");
    reveal_strlit("KeyN");
    reveal_strlit("KeyO");
    reveal_strlit("KeyP");
    reveal_strlit("KeyQ");
    reveal_strlit("KeyR");
    reveal_strlit("KeyS");
    reveal_strlit("KeyT");
    reveal_strlit("KeyU");
    reveal_strlit("KeyV");
    reveal_strlit("KeyW");
    reveal_strlit("KeyX");
    reveal_strlit("KeyY");
    reveal_strlit("KeyZ");
    reveal_strlit("MediaNextTrack");
    reveal_strlit("MediaPlayPause");
    reveal_strlit("MediaPrevTrack");
    reveal_strlit("MetaLeft");
    reveal_strlit("MetaRight");
    reveal_strlit("Minus");
    reveal_strlit("PageDown");
    reveal_strlit("PageUp");
    reveal_strlit("Period");
    reveal_strlit("PrintScreen");
    reveal_strlit("Quote");
    reveal_strlit("Semicolon");
    reveal_strlit("ShiftLeft");
    reveal_strlit("ShiftRight");
    reveal_strlit("Slash");
    reveal_strlit("Space");
    reveal_strlit("Tab");
    reveal_strlit("VolumeDown");
    reveal_strlit("VolumeMute");
    reveal_strlit("VolumeUp");
    if code == "F1"@ {
        assert(code.len() == 2 && code[0] == 'F' && code[1] == '1');
    } else if code == "F2"@ {
        assert(code.len() == 2 && code[0] == 'F' && code[1] == '2');
    } else if code == "F3"@ {
        assert(code.len() == 2 && code[0] == 'F' && code[1] == '3');
    } else if code == "F4"@ {
        assert(code.len() == 2 && code[0] == 'F' && code[1] == '4');
    } else if code == "F5"@ {
        assert(code.len() == 2 && code[0] == 'F' && code[1] == '5');
    } else if code == "F6"@ {
        assert(code.len() == 2 && code[0] == 'F' && code[1] == '6');
    } else if code == "F7"@ {
        assert(code.len() == 2 && code[0] == 'F' && code[1] == '7');
    } else if code == "F8"@ {
        assert(code.len() == 2 && code[0] == 'F' && code[1] == '8');
    } else if code == "F9"@ {
        assert(code.len() == 2 && code[0] == 'F' && code[1] == '9');
    } else if code == "F10"@ {
        assert(code.len() == 3 && code[0] == 'F' && code[1] == '1' && code[2] == '0');
        assert(code.subrange(0, 3)[0] != "Key"@[0]);
    } else if code == "F11"@ {
        assert(code.len() == 3 && code[0] == 'F' && code[1] == '1' && code[2] == '1');
        assert(code.subrange(0, 3)[0] != "Key"@[0]);
    } else if code == "F12"@ {
        assert(code.len() == 3 && code[0] == 'F' && code[1] == '1' && code[2] == '2');
        assert(code.subrange(0, 3)[0] != "Key"@[0]);
    }
}

/// Every key that the Windows host presses for a key code, the Omarchy host
/// presses too, as its library's key of the same name (a letter key its
/// lower-case letter, a digit key its digit), and the Linux host knows that
/// key code.
pub proof fn windows_keys_are_omarchy_keys(code: Seq<char>)
    ensures
        windows_key_spec(code) matches Some(w) ==> key_for_code_spec(code) == Some(host_key_of_windows(w))
            && key_code_spec(code) is Some,
{
    if code == "KeyA"@ || code == "KeyB"@ || code == "KeyC"@ || code == "KeyD"@ || code == "KeyE"@ || code == "KeyF"@ || code == "KeyG"@ || code == "KeyH"@ || code == "KeyI"@ || code == "KeyJ"@ || code == "KeyK"@ || code == "KeyL"@ {
        windows_keys_agree_0(code);
    } else if code == "KeyM"@ || code == "KeyN"@ || code == "KeyO"@ || code == "KeyP"@ || code == "KeyQ"@ || code == "KeyR"@ || code == "KeyS"@ || code == "KeyT"@ || code == "KeyU"@ || code == "KeyV"@ || code == "KeyW"@ || code == "KeyX"@ {
        windows_keys_agree_1(code);
    } else if code == "KeyY"@ || code == "KeyZ"@ || code == "Digit0"@ || code == "Digit1"@ || code == "Digit2"@ || code == "Digit3"@ || code == "Digit4"@ || code == "Digit5"@ || code == "Digit6"@ || code == "Digit7"@ || code == "Digit8"@ || code == "Digit9"@ {
        windows_keys_agree_2(code);
    } else if code == "Enter"@ || code == "Escape"@ || code == "Backspace"@ || code == "Tab"@ || code == "Space"@ || code == "Delete"@ || code == "Insert"@ || code == "Home"@ || code == "End"@ || code == "PageUp"@ || code == "PageDown"@ || code == "ArrowUp"@ {
        windows_keys_agree_3(code);
    } else if code == "ArrowDown"@ || code == "ArrowLeft"@ || code == "ArrowRight"@ || code == "ShiftLeft"@ || code == "ShiftRight"@ || code == "ControlLeft"@ || code == "ControlRight"@ || code == "AltLeft"@ || code == "AltRight"@ || code == "MetaLeft"@ || code == "MetaRight"@ || code == "CapsLock"@ {
        windows_keys_agree_4(code);
    } else if code == "F1"@ || code == "F2"@ || code == "F3"@ || code == "F4"@ || code == "F5"@ || code == "F6"@ || code == "F7"@ || code == "F8"@ || code == "F9"@ || code == "F10"@ || code == "F11"@ || code == "F12"@ {
        windows_keys_agree_5(code);
    }
}

} // verus!
