//! The keys and pointer buttons of the Omarchy host's input library that
//! the client's key codes and button names select.

use vstd::prelude::*;
use crate::text::{ascii_lower, chars_of, lower_char, str_eq};

verus! {

/// A key that the host presses through its input library.
#[derive(Debug, Clone, Copy, PartialEq, Eq, Structural)]
pub enum HostKey {
    /// The key that types a character.
    Unicode(char),
    Return,
    Escape,
    Backspace,
    Tab,
    Space,
    Delete,
    Insert,
    Home,
    End,
    PageUp,
    PageDown,
    UpArrow,
    DownArrow,
    LeftArrow,
    RightArrow,
    LShift,
    RShift,
    LControl,
    RControl,
    Alt,
    Meta,
    CapsLock,
    PrintScr,
    F1,
    F2,
    F3,
    F4,
    F5,
    F6,
    F7,
    F8,
    F9,
    F10,
    F11,
    F12,
    MediaPrevTrack,
    MediaPlayPause,
    MediaNextTrack,
    VolumeDown,
    VolumeMute,
    VolumeUp,
}

/// A pointer button of the host's input library.
#[derive(Debug, Clone, Copy, PartialEq, Eq, Structural)]
pub enum HostButton {
    Left,
    Right,
    Middle,
}

/// The key of each named key code.
pub open spec fn named_key_spec(code: Seq<char>) -> Option<HostKey> {
    if code == "Enter"@ {
        Some(HostKey::Return)
    }     else if code == "Escape"@ {
        Some(HostKey::Escape)
    }     else if code == "Backspace"@ {
        Some(HostKey::Backspace)
    }     else if code == "Tab"@ {
        Some(HostKey::Tab)
    }     else if code == "Space"@ {
        Some(HostKey::Space)
    }     else if code == "Delete"@ {
        Some(HostKey::Delete)
    }     else if code == "Insert"@ {
        Some(HostKey::Insert)
    }     else if code == "Home"@ {
        Some(HostKey::Home)
    }     else if code == "End"@ {
        Some(HostKey::End)
    }     else if code == "PageUp"@ {
        Some(HostKey::PageUp)
    }     else if code == "PageDown"@ {
        Some(HostKey::PageDown)
    }     else if code == "ArrowUp"@ {
        Some(HostKey::UpArrow)
    }     else if code == "ArrowDown"@ {
        Some(HostKey::DownArrow)
    }     else if code == "ArrowLeft"@ {
        Some(HostKey::LeftArrow)
    }     else if code == "ArrowRight"@ {
        Some(HostKey::RightArrow)
    }     else if code == "ShiftLeft"@ {
        Some(HostKey::LShift)
    }     else if code == "ShiftRight"@ {
        Some(HostKey::RShift)
    }     else if code == "ControlLeft"@ {
        Some(HostKey::LControl)
    }     else if code == "ControlRight"@ {
        Some(HostKey::RControl)
    }     else if code == "AltLeft"@ {
        Some(HostKey::Alt)
    }     else if code == "AltRight"@ {
        Some(HostKey::Alt)
    }     else if code == "MetaLeft"@ {
        Some(HostKey::Meta)
    }     else if code == "MetaRight"@ {
        Some(HostKey::Meta)
    }     else if code == "CapsLock"@ {
        Some(HostKey::CapsLock)
    }     else if code == "PrintScreen"@ {
        Some(HostKey::PrintScr)
    }     else if code == "F1"@ {
        Some(HostKey::F1)
    }     else if code == "F2"@ {
        Some(HostKey::F2)
    }     else if code == "F3"@ {
        Some(HostKey::F3)
    }     else if code == "F4"@ {
        Some(HostKey::F4)
    }     else if code == "F5"@ {
        Some(HostKey::F5)
    }     else if code == "F6"@ {
        Some(HostKey::F6)
    }     else if code == "F7"@ {
        Some(HostKey::F7)
    }     else if code == "F8"@ {
        Some(HostKey::F8)
    }     else if code == "F9"@ {
        Some(HostKey::F9)
    }     else if code == "F10"@ {
        Some(HostKey::F10)
    }     else if code == "F11"@ {
        Some(HostKey::F11)
    }     else if code == "F12"@ {
        Some(HostKey::F12)
    }     else if code == "MediaPrevTrack"@ {
        Some(HostKey::MediaPrevTrack)
    }     else if code == "MediaPlayPause"@ {
        Some(HostKey::MediaPlayPause)
    }     else if code == "MediaNextTrack"@ {
        Some(HostKey::MediaNextTrack)
    }     else if code == "VolumeDown"@ {
        Some(HostKey::VolumeDown)
    }     else if code == "VolumeMute"@ {
        Some(HostKey::VolumeMute)
    }     else if code == "VolumeUp"@ {
        Some(HostKey::VolumeUp)
    } else {
        None
    }
}

/// The one ASCII character of a text, if it has exactly one and it is ASCII.
pub open spec fn single_ascii(s: Seq<char>) -> Option<char> {
    if s.len() == 1 && (s[0] as u32) < 128 {
        Some(s[0])
    } else {
        None
    }
}

/// The text after a prefix, if the text starts with it.
pub open spec fn after_prefix(s: Seq<char>, prefix: Seq<char>) -> Option<Seq<char>> {
    if prefix.len() <= s.len() && s.subrange(0, prefix.len() as int) == prefix {
        Some(s.subrange(prefix.len() as int, s.len() as int))
    } else {
        None
    }
}

/// The letter of a code `Key` followed by one upper-case ASCII letter.
pub open spec fn code_letter(code: Seq<char>) -> Option<char> {
    match after_prefix(code, "Key"@) {
        Some(rest) => match single_ascii(rest) {
            Some(c) => if 'A' <= c && c <= 'Z' {
                Some(c)
            } else {
                None
            },
            None => None,
        },
        None => None,
    }
}

/// The digit of a code `Digit` followed by one ASCII digit.
pub open spec fn code_digit(code: Seq<char>) -> Option<char> {
    match after_prefix(code, "Digit"@) {
        Some(rest) => match single_ascii(rest) {
            Some(c) => if '0' <= c && c <= '9' {
                Some(c)
            } else {
                None
            },
            None => None,
        },
        None => None,
    }
}

/// The key of a client key code: a letter key types its lower-case letter, a
/// digit key its digit, and the named keys map one to one.
pub open spec fn key_for_code_spec(code: Seq<char>) -> Option<HostKey> {
    match code_letter(code) {
        Some(c) => Some(HostKey::Unicode(ascii_lower(c))),
        None => match code_digit(code) {
            Some(d) => Some(HostKey::Unicode(d)),
            None => named_key_spec(code),
        },
    }
}

/// The one ASCII character of a text, if it has exactly one and it is ASCII.
pub fn single_ascii_char(value: &str) -> (r: Option<char>)
    ensures
        r == single_ascii(value@),
{
    let chars = chars_of(value);
    single_ascii_after(&chars, 0)
}

/// The one ASCII character of `chars` from `start` on, if there is exactly one.
fn single_ascii_after(chars: &Vec<char>, start: usize) -> (r: Option<char>)
    requires
        start <= chars@.len(),
    ensures
        r == single_ascii(chars@.subrange(start as int, chars@.len() as int)),
{
    if chars.len() - start == 1 && (chars[start] as u32) < 128 {
        Some(chars[start])
    } else {
        None
    }
}

/// Whether `chars` starts with the characters of `prefix`.
fn starts_with(chars: &Vec<char>, prefix: &str) -> (r: bool)
    ensures
        r == (after_prefix(chars@, prefix@) is Some),
{
    let p = chars_of(prefix);
    if p.len() > chars.len() {
        return false;
    }
    let mut i: usize = 0;
    while i < p.len()
        invariant
            p@ == prefix@,
            p@.len() <= chars@.len(),
            i <= p.len(),
            forall|j: int| 0 <= j < i ==> chars@[j] == p@[j],
        decreases p.len() - i,
    {
        if chars[i] != p[i] {
            assert(chars@.subrange(0, p@.len() as int)[i as int] != p@[i as int]);
            return false;
        }
        i = i + 1;
    }
    assert(chars@.subrange(0, p@.len() as int) =~= p@);
    true
}

/// The key of a named key code, if the host knows it.
fn named_key(code: &str) -> (r: Option<HostKey>)
    ensures
        r == named_key_spec(code@),
{
    if str_eq(code, "Enter") {
        Some(HostKey::Return)
    }     else if str_eq(code, "Escape") {
        Some(HostKey::Escape)
    }     else if str_eq(code, "Backspace") {
        Some(HostKey::Backspace)
    }     else if str_eq(code, "Tab") {
        Some(HostKey::Tab)
    }     else if str_eq(code, "Space") {
        Some(HostKey::Space)
    }     else if str_eq(code, "Delete") {
        Some(HostKey::Delete)
    }     else if str_eq(code, "Insert") {
        Some(HostKey::Insert)
    }     else if str_eq(code, "Home") {
        Some(HostKey::Home)
    }     else if str_eq(code, "End") {
        Some(HostKey::End)
    }     else if str_eq(code, "PageUp") {
        Some(HostKey::PageUp)
    }     else if str_eq(code, "PageDown") {
        Some(HostKey::PageDown)
    }     else if str_eq(code, "ArrowUp") {
        Some(HostKey::UpArrow)
    }     else if str_eq(code, "ArrowDown") {
        Some(HostKey::DownArrow)
    }     else if str_eq(code, "ArrowLeft") {
        Some(HostKey::LeftArrow)
    }     else if str_eq(code, "ArrowRight") {
        Some(HostKey::RightArrow)
    }     else if str_eq(code, "ShiftLeft") {
        Some(HostKey::LShift)
    }     else if str_eq(code, "ShiftRight") {
        Some(HostKey::RShift)
    }     else if str_eq(code, "ControlLeft") {
        Some(HostKey::LControl)
    }     else if str_eq(code, "ControlRight") {
        Some(HostKey::RControl)
    }     else if str_eq(code, "AltLeft") {
        Some(HostKey::Alt)
    }     else if str_eq(code, "AltRight") {
        Some(HostKey::Alt)
    }     else if str_eq(code, "MetaLeft") {
        Some(HostKey::Meta)
    }     else if str_eq(code, "MetaRight") {
        Some(HostKey::Meta)
    }     else if str_eq(code, "CapsLock") {
        Some(HostKey::CapsLock)
    }     else if str_eq(code, "PrintScreen") {
        Some(HostKey::PrintScr)
    }     else if str_eq(code, "F1") {
        Some(HostKey::F1)
    }     else if str_eq(code, "F2") {
        Some(HostKey::F2)
    }     else if str_eq(code, "F3") {
        Some(HostKey::F3)
    }     else if str_eq(code, "F4") {
        Some(HostKey::F4)
    }     else if str_eq(code, "F5") {
        Some(HostKey::F5)
    }     else if str_eq(code, "F6") {
        Some(HostKey::F6)
    }     else if str_eq(code, "F7") {
        Some(HostKey::F7)
    }     else if str_eq(code, "F8") {
        Some(HostKey::F8)
    }     else if str_eq(code, "F9") {
        Some(HostKey::F9)
    }     else if str_eq(code, "F10") {
        Some(HostKey::F10)
    }     else if str_eq(code, "F11") {
        Some(HostKey::F11)
    }     else if str_eq(code, "F12") {
        Some(HostKey::F12)
    }     else if str_eq(code, "MediaPrevTrack") {
        Some(HostKey::MediaPrevTrack)
    }     else if str_eq(code, "MediaPlayPause") {
        Some(HostKey::MediaPlayPause)
    }     else if str_eq(code, "MediaNextTrack") {
        Some(HostKey::MediaNextTrack)
    }     else if str_eq(code, "VolumeDown") {
        Some(HostKey::VolumeDown)
    }     else if str_eq(code, "VolumeMute") {
        Some(HostKey::VolumeMute)
    }     else if str_eq(code, "VolumeUp") {
        Some(HostKey::VolumeUp)
    } else {
        None
    }
}

/// The key that a client key code selects, if the host knows it.
pub fn key_for_code(code: &str) -> (r: Option<HostKey>)
    ensures
        r == key_for_code_spec(code@),
{
    let chars = chars_of(code);
    proof {
        reveal_strlit("Key");
        reveal_strlit("Digit");
    }
    if starts_with(&chars, "Key") {
        if let Some(letter) = single_ascii_after(&chars, 3) {
            if 'A' <= letter && letter <= 'Z' {
                return Some(HostKey::Unicode(lower_char(letter)));
            }
        }
    }
    if starts_with(&chars, "Digit") {
        if let Some(digit) = single_ascii_after(&chars, 5) {
            if '0' <= digit && digit <= '9' {
                return Some(HostKey::Unicode(digit));
            }
        }
    }
    named_key(code)
}

/// Why a pointer button name was refused.
#[derive(Debug, Clone, PartialEq, Eq)]
pub struct UnknownPointerButton {
    pub button: String,
}

impl UnknownPointerButton {
    /// The text of the error.
    pub fn message(&self) -> (s: String)
        ensures
            s@ == "unknown pointer button: "@ + self.button@,
    {
        let mut s = String::from_str("unknown pointer button: ");
        s.append(self.button.as_str());
        s
    }
}

/// The button that a pointer button name selects.
pub open spec fn pointer_button_spec(button: Seq<char>) -> Option<HostButton> {
    if button == "left"@ {
        Some(HostButton::Left)
    } else if button == "right"@ {
        Some(HostButton::Right)
    } else if button == "middle"@ {
        Some(HostButton::Middle)
    } else {
        None
    }
}

/// The pointer button of a name: left, right or middle; any other name is refused.
pub fn pointer_button(button: &str) -> (r: Result<HostButton, UnknownPointerButton>)
    ensures
        pointer_button_spec(button@) matches Some(b) ==> r == Ok::<HostButton, UnknownPointerButton>(b),
        pointer_button_spec(button@) is None ==> (r matches Err(e) && e.button@ == button@),
{
    if str_eq(button, "left") {
        Ok(HostButton::Left)
    } else if str_eq(button, "right") {
        Ok(HostButton::Right)
    } else if str_eq(button, "middle") {
        Ok(HostButton::Middle)
    } else {
        Err(UnknownPointerButton { button: String::from_str(button) })
    }
}

} // verus!
