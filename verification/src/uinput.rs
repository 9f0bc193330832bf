//! The uinput keyboard and pointer of the Linux host: key codes and the
//! events that each input becomes.

use vstd::prelude::*;
use crate::text::{chars_of, str_eq};

verus! {

/// Event type of a key press or release.
pub const EV_KEY: u16 = 0x01;
/// Event type of a relative motion.
pub const EV_REL: u16 = 0x02;
/// Event type of a synchronization report.
pub const EV_SYN: u16 = 0x00;
/// Relative horizontal axis.
pub const REL_X: u16 = 0x00;
/// Relative vertical axis.
pub const REL_Y: u16 = 0x01;
/// Relative wheel axis.
pub const REL_WHEEL: u16 = 0x08;
/// Left mouse button.
pub const BTN_LEFT: u16 = 0x110;
/// Right mouse button.
pub const BTN_RIGHT: u16 = 0x111;
/// Middle mouse button.
pub const BTN_MIDDLE: u16 = 0x112;
/// Key code of the left Shift key.
pub const KEY_LEFTSHIFT: u16 = 42;

/// The Linux key code of each browser key code name that the host knows.
pub open spec fn key_code_spec(name: Seq<char>) -> Option<u16> {
    if name == "Escape"@ {
        Some(1u16)
    } else if name == "Digit1"@ {
        Some(2u16)
    } else if name == "Digit2"@ {
        Some(3u16)
    } else if name == "Digit3"@ {
        Some(4u16)
    } else if name == "Digit4"@ {
        Some(5u16)
    } else if name == "Digit5"@ {
        Some(6u16)
    } else if name == "Digit6"@ {
        Some(7u16)
    } else if name == "Digit7"@ {
        Some(8u16)
    } else if name == "Digit8"@ {
        Some(9u16)
    } else if name == "Digit9"@ {
        Some(10u16)
    } else if name == "Digit0"@ {
        Some(11u16)
    } else if name == "Minus"@ {
        Some(12u16)
    } else if name == "Equal"@ {
        Some(13u16)
    } else if name == "Backspace"@ {
        Some(14u16)
    } else if name == "Tab"@ {
        Some(15u16)
    } else if name == "KeyQ"@ {
        Some(16u16)
    } else if name == "KeyW"@ {
        Some(17u16)
    } else if name == "KeyE"@ {
        Some(18u16)
    } else if name == "KeyR"@ {
        Some(19u16)
    } else if name == "KeyT"@ {
        Some(20u16)
    } else if name == "KeyY"@ {
        Some(21u16)
    } else if name == "KeyU"@ {
        Some(22u16)
    } else if name == "KeyI"@ {
        Some(23u16)
    } else if name == "KeyO"@ {
        Some(24u16)
    } else if name == "KeyP"@ {
        Some(25u16)
    } else if name == "BracketLeft"@ {
        Some(26u16)
    } else if name == "BracketRight"@ {
        Some(27u16)
    } else if name == "Enter"@ {
        Some(28u16)
    } else if name == "ControlLeft"@ {
        Some(29u16)
    } else if name == "ControlRight"@ {
        Some(97u16)
    } else if name == "KeyA"@ {
        Some(30u16)
    } else if name == "KeyS"@ {
        Some(31u16)
    } else if name == "KeyD"@ {
        Some(32u16)
    } else if name == "KeyF"@ {
        Some(33u16)
    } else if name == "KeyG"@ {
        Some(34u16)
    } else if name == "KeyH"@ {
        Some(35u16)
    } else if name == "KeyJ"@ {
        Some(36u16)
    } else if name == "KeyK"@ {
        Some(37u16)
    } else if name == "KeyL"@ {
        Some(38u16)
    } else if name == "Semicolon"@ {
        Some(39u16)
    } else if name == "Quote"@ {
        Some(40u16)
    } else if name == "Backquote"@ {
        Some(41u16)
    } else if name == "ShiftLeft"@ {
        Some(42u16)
    } else if name == "Backslash"@ {
        Some(43u16)
    } else if name == "KeyZ"@ {
        Some(44u16)
    } else if name == "KeyX"@ {
        Some(45u16)
    } else if name == "KeyC"@ {
        Some(46u16)
    } else if name == "KeyV"@ {
        Some(47u16)
    } else if name == "KeyB"@ {
        Some(48u16)
    } else if name == "KeyN"@ {
        Some(49u16)
    } else if name == "KeyM"@ {
        Some(50u16)
    } else if name == "Comma"@ {
        Some(51u16)
    } else if name == "Period"@ {
        Some(52u16)
    } else if name == "Slash"@ {
        Some(53u16)
    } else if name == "ShiftRight"@ {
        Some(54u16)
    } else if name == "AltLeft"@ {
        Some(56u16)
    } else if name == "AltRight"@ {
        Some(100u16)
    } else if name == "Space"@ {
        Some(57u16)
    } else if name == "CapsLock"@ {
        Some(58u16)
    } else if name == "F1"@ {
        Some(59u16)
    } else if name == "F2"@ {
        Some(60u16)
    } else if name == "F3"@ {
        Some(61u16)
    } else if name == "F4"@ {
        Some(62u16)
    } else if name == "F5"@ {
        Some(63u16)
    } else if name == "F6"@ {
        Some(64u16)
    } else if name == "F7"@ {
        Some(65u16)
    } else if name == "F8"@ {
        Some(66u16)
    } else if name == "F9"@ {
        Some(67u16)
    } else if name == "F10"@ {
        Some(68u16)
    } else if name == "F11"@ {
        Some(87u16)
    } else if name == "F12"@ {
        Some(88u16)
    } else if name == "Home"@ {
        Some(102u16)
    } else if name == "ArrowUp"@ {
        Some(103u16)
    } else if name == "PageUp"@ {
        Some(104u16)
    } else if name == "ArrowLeft"@ {
        Some(105u16)
    } else if name == "ArrowRight"@ {
        Some(106u16)
    } else if name == "End"@ {
        Some(107u16)
    } else if name == "ArrowDown"@ {
        Some(108u16)
    } else if name == "PageDown"@ {
        Some(109u16)
    } else if name == "Insert"@ {
        Some(110u16)
    } else if name == "Delete"@ {
        Some(111u16)
    } else if name == "MetaLeft"@ {
        Some(125u16)
    } else if name == "MetaRight"@ {
        Some(126u16)
    } else {
        None
    }
}

/// The Linux key code of a browser key code name, if the host knows it.
pub fn key_code(name: &str) -> (r: Option<u16>)
    ensures
        r == key_code_spec(name@),
{
    if str_eq(name, "Escape") {
        Some(1)
    } else if str_eq(name, "Digit1") {
        Some(2)
    } else if str_eq(name, "Digit2") {
        Some(3)
    } else if str_eq(name, "Digit3") {
        Some(4)
    } else if str_eq(name, "Digit4") {
        Some(5)
    } else if str_eq(name, "Digit5") {
        Some(6)
    } else if str_eq(name, "Digit6") {
        Some(7)
    } else if str_eq(name, "Digit7") {
        Some(8)
    } else if str_eq(name, "Digit8") {
        Some(9)
    } else if str_eq(name, "Digit9") {
        Some(10)
    } else if str_eq(name, "Digit0") {
        Some(11)
    } else if str_eq(name, "Minus") {
        Some(12)
    } else if str_eq(name, "Equal") {
        Some(13)
    } else if str_eq(name, "Backspace") {
        Some(14)
    } else if str_eq(name, "Tab") {
        Some(15)
    } else if str_eq(name, "KeyQ") {
        Some(16)
    } else if str_eq(name, "KeyW") {
        Some(17)
    } else if str_eq(name, "KeyE") {
        Some(18)
    } else if str_eq(name, "KeyR") {
        Some(19)
    } else if str_eq(name, "KeyT") {
        Some(20)
    } else if str_eq(name, "KeyY") {
        Some(21)
    } else if str_eq(name, "KeyU") {
        Some(22)
    } else if str_eq(name, "KeyI") {
        Some(23)
    } else if str_eq(name, "KeyO") {
        Some(24)
    } else if str_eq(name, "KeyP") {
        Some(25)
    } else if str_eq(name, "BracketLeft") {
        Some(26)
    } else if str_eq(name, "BracketRight") {
        Some(27)
    } else if str_eq(name, "Enter") {
        Some(28)
    } else if str_eq(name, "ControlLeft") {
        Some(29)
    } else if str_eq(name, "ControlRight") {
        Some(97)
    } else if str_eq(name, "KeyA") {
        Some(30)
    } else if str_eq(name, "KeyS") {
        Some(31)
    } else if str_eq(name, "KeyD") {
        Some(32)
    } else if str_eq(name, "KeyF") {
        Some(33)
    } else if str_eq(name, "KeyG") {
        Some(34)
    } else if str_eq(name, "KeyH") {
        Some(35)
    } else if str_eq(name, "KeyJ") {
        Some(36)
    } else if str_eq(name, "KeyK") {
        Some(37)
    } else if str_eq(name, "KeyL") {
        Some(38)
    } else if str_eq(name, "Semicolon") {
        Some(39)
    } else if str_eq(name, "Quote") {
        Some(40)
    } else if str_eq(name, "Backquote") {
        Some(41)
    } else if str_eq(name, "ShiftLeft") {
        Some(42)
    } else if str_eq(name, "Backslash") {
        Some(43)
    } else if str_eq(name, "KeyZ") {
        Some(44)
    } else if str_eq(name, "KeyX") {
        Some(45)
    } else if str_eq(name, "KeyC") {
        Some(46)
    } else if str_eq(name, "KeyV") {
        Some(47)
    } else if str_eq(name, "KeyB") {
        Some(48)
    } else if str_eq(name, "KeyN") {
        Some(49)
    } else if str_eq(name, "KeyM") {
        Some(50)
    } else if str_eq(name, "Comma") {
        Some(51)
    } else if str_eq(name, "Period") {
        Some(52)
    } else if str_eq(name, "Slash") {
        Some(53)
    } else if str_eq(name, "ShiftRight") {
        Some(54)
    } else if str_eq(name, "AltLeft") {
        Some(56)
    } else if str_eq(name, "AltRight") {
        Some(100)
    } else if str_eq(name, "Space") {
        Some(57)
    } else if str_eq(name, "CapsLock") {
        Some(58)
    } else if str_eq(name, "F1") {
        Some(59)
    } else if str_eq(name, "F2") {
        Some(60)
    } else if str_eq(name, "F3") {
        Some(61)
    } else if str_eq(name, "F4") {
        Some(62)
    } else if str_eq(name, "F5") {
        Some(63)
    } else if str_eq(name, "F6") {
        Some(64)
    } else if str_eq(name, "F7") {
        Some(65)
    } else if str_eq(name, "F8") {
        Some(66)
    } else if str_eq(name, "F9") {
        Some(67)
    } else if str_eq(name, "F10") {
        Some(68)
    } else if str_eq(name, "F11") {
        Some(87)
    } else if str_eq(name, "F12") {
        Some(88)
    } else if str_eq(name, "Home") {
        Some(102)
    } else if str_eq(name, "ArrowUp") {
        Some(103)
    } else if str_eq(name, "PageUp") {
        Some(104)
    } else if str_eq(name, "ArrowLeft") {
        Some(105)
    } else if str_eq(name, "ArrowRight") {
        Some(106)
    } else if str_eq(name, "End") {
        Some(107)
    } else if str_eq(name, "ArrowDown") {
        Some(108)
    } else if str_eq(name, "PageDown") {
        Some(109)
    } else if str_eq(name, "Insert") {
        Some(110)
    } else if str_eq(name, "Delete") {
        Some(111)
    } else if str_eq(name, "MetaLeft") {
        Some(125)
    } else if str_eq(name, "MetaRight") {
        Some(126)
    } else {
        None
    }
}

/// The key that types an ASCII character, shifted or not.
pub open spec fn ascii_key_code_spec(c: char) -> Option<u16> {
    if c == '\n' {
        Some(28u16)
    } else if c == '\t' {
        Some(15u16)
    } else if c == ' ' {
        Some(57u16)
    } else if c == '0' {
        Some(11u16)
    } else if c == '1' {
        Some(2u16)
    } else if c == '2' {
        Some(3u16)
    } else if c == '3' {
        Some(4u16)
    } else if c == '4' {
        Some(5u16)
    } else if c == '5' {
        Some(6u16)
    } else if c == '6' {
        Some(7u16)
    } else if c == '7' {
        Some(8u16)
    } else if c == '8' {
        Some(9u16)
    } else if c == '9' {
        Some(10u16)
    } else if c == 'a' || c == 'A' {
        Some(30u16)
    } else if c == 'b' || c == 'B' {
        Some(48u16)
    } else if c == 'c' || c == 'C' {
        Some(46u16)
    } else if c == 'd' || c == 'D' {
        Some(32u16)
    } else if c == 'e' || c == 'E' {
        Some(18u16)
    } else if c == 'f' || c == 'F' {
        Some(33u16)
    } else if c == 'g' || c == 'G' {
        Some(34u16)
    } else if c == 'h' || c == 'H' {
        Some(35u16)
    } else if c == 'i' || c == 'I' {
        Some(23u16)
    } else if c == 'j' || c == 'J' {
        Some(36u16)
    } else if c == 'k' || c == 'K' {
        Some(37u16)
    } else if c == 'l' || c == 'L' {
        Some(38u16)
    } else if c == 'm' || c == 'M' {
        Some(50u16)
    } else if c == 'n' || c == 'N' {
        Some(49u16)
    } else if c == 'o' || c == 'O' {
        Some(24u16)
    } else if c == 'p' || c == 'P' {
        Some(25u16)
    } else if c == 'q' || c == 'Q' {
        Some(16u16)
    } else if c == 'r' || c == 'R' {
        Some(19u16)
    } else if c == 's' || c == 'S' {
        Some(31u16)
    } else if c == 't' || c == 'T' {
        Some(20u16)
    } else if c == 'u' || c == 'U' {
        Some(22u16)
    } else if c == 'v' || c == 'V' {
        Some(47u16)
    } else if c == 'w' || c == 'W' {
        Some(17u16)
    } else if c == 'x' || c == 'X' {
        Some(45u16)
    } else if c == 'y' || c == 'Y' {
        Some(21u16)
    } else if c == 'z' || c == 'Z' {
        Some(44u16)
    } else if c == '-' || c == '_' {
        Some(12u16)
    } else if c == '=' || c == '+' {
        Some(13u16)
    } else if c == '[' || c == '{' {
        Some(26u16)
    } else if c == ']' || c == '}' {
        Some(27u16)
    } else if c == '\\' || c == '|' {
        Some(43u16)
    } else if c == ';' || c == ':' {
        Some(39u16)
    } else if c == '\'' || c == '"' {
        Some(40u16)
    } else if c == '`' || c == '~' {
        Some(41u16)
    } else if c == ',' || c == '<' {
        Some(51u16)
    } else if c == '.' || c == '>' {
        Some(52u16)
    } else if c == '/' || c == '?' {
        Some(53u16)
    } else if c == '!' {
        Some(2u16)
    } else if c == '@' {
        Some(3u16)
    } else if c == '#' {
        Some(4u16)
    } else if c == '$' {
        Some(5u16)
    } else if c == '%' {
        Some(6u16)
    } else if c == '^' {
        Some(7u16)
    } else if c == '&' {
        Some(8u16)
    } else if c == '*' {
        Some(9u16)
    } else if c == '(' {
        Some(10u16)
    } else if c == ')' {
        Some(11u16)
    } else {
        None
    }
}

/// The key that types an ASCII character, if the host can type it.
pub fn ascii_key_code(c: char) -> (r: Option<u16>)
    ensures
        r == ascii_key_code_spec(c),
{
    if c == '\n' {
        Some(28)
    } else if c == '\t' {
        Some(15)
    } else if c == ' ' {
        Some(57)
    } else if c == '0' {
        Some(11)
    } else if c == '1' {
        Some(2)
    } else if c == '2' {
        Some(3)
    } else if c == '3' {
        Some(4)
    } else if c == '4' {
        Some(5)
    } else if c == '5' {
        Some(6)
    } else if c == '6' {
        Some(7)
    } else if c == '7' {
        Some(8)
    } else if c == '8' {
        Some(9)
    } else if c == '9' {
        Some(10)
    } else if c == 'a' || c == 'A' {
        Some(30)
    } else if c == 'b' || c == 'B' {
        Some(48)
    } else if c == 'c' || c == 'C' {
        Some(46)
    } else if c == 'd' || c == 'D' {
        Some(32)
    } else if c == 'e' || c == 'E' {
        Some(18)
    } else if c == 'f' || c == 'F' {
        Some(33)
    } else if c == 'g' || c == 'G' {
        Some(34)
    } else if c == 'h' || c == 'H' {
        Some(35)
    } else if c == 'i' || c == 'I' {
        Some(23)
    } else if c == 'j' || c == 'J' {
        Some(36)
    } else if c == 'k' || c == 'K' {
        Some(37)
    } else if c == 'l' || c == 'L' {
        Some(38)
    } else if c == 'm' || c == 'M' {
        Some(50)
    } else if c == 'n' || c == 'N' {
        Some(49)
    } else if c == 'o' || c == 'O' {
        Some(24)
    } else if c == 'p' || c == 'P' {
        Some(25)
    } else if c == 'q' || c == 'Q' {
        Some(16)
    } else if c == 'r' || c == 'R' {
        Some(19)
    } else if c == 's' || c == 'S' {
        Some(31)
    } else if c == 't' || c == 'T' {
        Some(20)
    } else if c == 'u' || c == 'U' {
        Some(22)
    } else if c == 'v' || c == 'V' {
        Some(47)
    } else if c == 'w' || c == 'W' {
        Some(17)
    } else if c == 'x' || c == 'X' {
        Some(45)
    } else if c == 'y' || c == 'Y' {
        Some(21)
    } else if c == 'z' || c == 'Z' {
        Some(44)
    } else if c == '-' || c == '_' {
        Some(12)
    } else if c == '=' || c == '+' {
        Some(13)
    } else if c == '[' || c == '{' {
        Some(26)
    } else if c == ']' || c == '}' {
        Some(27)
    } else if c == '\\' || c == '|' {
        Some(43)
    } else if c == ';' || c == ':' {
        Some(39)
    } else if c == '\'' || c == '"' {
        Some(40)
    } else if c == '`' || c == '~' {
        Some(41)
    } else if c == ',' || c == '<' {
        Some(51)
    } else if c == '.' || c == '>' {
        Some(52)
    } else if c == '/' || c == '?' {
        Some(53)
    } else if c == '!' {
        Some(2)
    } else if c == '@' {
        Some(3)
    } else if c == '#' {
        Some(4)
    } else if c == '$' {
        Some(5)
    } else if c == '%' {
        Some(6)
    } else if c == '^' {
        Some(7)
    } else if c == '&' {
        Some(8)
    } else if c == '*' {
        Some(9)
    } else if c == '(' {
        Some(10)
    } else if c == ')' {
        Some(11)
    } else {
        None
    }
}

/// Whether typing a character needs the Shift key.
pub open spec fn needs_shift_spec(c: char) -> bool {
    c == '!' || c == '@' || c == '#' || c == '$' || c == '%' || c == '^' || c == '&' || c == '*' || c == '(' || c == ')' || c == '_' || c == '+' || c == '{' || c == '}' || c == '|' || c == ':' || c == '"' || c == '<' || c == '>' || c == '?' || ('A' <= c && c <= 'Z')
}

/// Whether typing a character needs the Shift key.
pub fn needs_shift(c: char) -> (r: bool)
    ensures
        r == needs_shift_spec(c),
{
    c == '!' || c == '@' || c == '#' || c == '$' || c == '%' || c == '^' || c == '&' || c == '*' || c == '(' || c == ')' || c == '_' || c == '+' || c == '{' || c == '}' || c == '|' || c == ':' || c == '"' || c == '<' || c == '>' || c == '?' || ('A' <= c && c <= 'Z')
}

/// One input event written to the uinput device.
#[derive(Debug, Clone, Copy, PartialEq, Eq)]
pub struct InputEvent {
    pub kind: u16,
    pub code: u16,
    pub value: i32,
}

/// An event as a triple.
pub open spec fn ev(kind: u16, code: u16, value: i32) -> InputEvent {
    InputEvent { kind, code, value }
}

/// The synchronization report that ends a group of events.
pub open spec fn syn() -> InputEvent {
    ev(EV_SYN, 0, 0)
}

/// The events of a relative pointer motion.
pub fn move_events(dx: i32, dy: i32) -> (r: Vec<InputEvent>)
    ensures
        r@ == seq![ev(EV_REL, REL_X, dx), ev(EV_REL, REL_Y, dy), syn()],
{
    let mut r: Vec<InputEvent> = Vec::new();
    r.push(InputEvent { kind: EV_REL, code: REL_X, value: dx });
    r.push(InputEvent { kind: EV_REL, code: REL_Y, value: dy });
    r.push(InputEvent { kind: EV_SYN, code: 0, value: 0 });
    assert(r@ =~= seq![ev(EV_REL, REL_X, dx), ev(EV_REL, REL_Y, dy), syn()]);
    r
}

/// The events of a wheel motion.
pub fn scroll_events(dy: i32) -> (r: Vec<InputEvent>)
    ensures
        r@ == seq![ev(EV_REL, REL_WHEEL, dy), syn()],
{
    let mut r: Vec<InputEvent> = Vec::new();
    r.push(InputEvent { kind: EV_REL, code: REL_WHEEL, value: dy });
    r.push(InputEvent { kind: EV_SYN, code: 0, value: 0 });
    assert(r@ =~= seq![ev(EV_REL, REL_WHEEL, dy), syn()]);
    r
}

/// The button that a click names: right, middle, or otherwise left.
pub open spec fn button_code_spec(button: Seq<char>) -> u16 {
    if button == "right"@ {
        BTN_RIGHT
    } else if button == "middle"@ {
        BTN_MIDDLE
    } else {
        BTN_LEFT
    }
}

/// The events of a click: press, report, release, report.
pub fn click_events(button: &str) -> (r: Vec<InputEvent>)
    ensures
        r@ == seq![
            ev(EV_KEY, button_code_spec(button@), 1),
            syn(),
            ev(EV_KEY, button_code_spec(button@), 0),
            syn(),
        ],
{
    let code = if str_eq(button, "right") {
        BTN_RIGHT
    } else if str_eq(button, "middle") {
        BTN_MIDDLE
    } else {
        BTN_LEFT
    };
    let mut r: Vec<InputEvent> = Vec::new();
    r.push(InputEvent { kind: EV_KEY, code, value: 1 });
    r.push(InputEvent { kind: EV_SYN, code: 0, value: 0 });
    r.push(InputEvent { kind: EV_KEY, code, value: 0 });
    r.push(InputEvent { kind: EV_SYN, code: 0, value: 0 });
    assert(r@ =~= seq![ev(EV_KEY, code, 1), syn(), ev(EV_KEY, code, 0), syn()]);
    r
}

/// The events of a key press or release; an unknown key sends nothing.
pub fn key_events(code_name: &str, down: bool) -> (r: Vec<InputEvent>)
    ensures
        r@ == match key_code_spec(code_name@) {
            Some(code) => seq![ev(EV_KEY, code, if down { 1 } else { 0 }), syn()],
            None => seq![],
        },
{
    let mut r: Vec<InputEvent> = Vec::new();
    match key_code(code_name) {
        Some(code) => {
            r.push(InputEvent { kind: EV_KEY, code, value: if down { 1 } else { 0 } });
            r.push(InputEvent { kind: EV_SYN, code: 0, value: 0 });
            assert(r@ =~= seq![ev(EV_KEY, code, if down { 1 } else { 0 }), syn()]);
        },
        None => {
            assert(r@ =~= seq![]);
        },
    }
    r
}

/// Whether the host can type a character directly.
pub fn is_typeable(c: char) -> (r: bool)
    ensures
        r == ascii_key_code_spec(c) is Some,
{
    ascii_key_code(c).is_some()
}

/// The events that type one character: its key pressed and released, inside
/// a held Shift when the character needs it; nothing for a character the
/// host cannot type.
pub open spec fn char_events(c: char) -> Seq<InputEvent> {
    match ascii_key_code_spec(c) {
        None => seq![],
        Some(code) => {
            let tap = seq![ev(EV_KEY, code, 1), syn(), ev(EV_KEY, code, 0), syn()];
            if needs_shift_spec(c) {
                seq![ev(EV_KEY, KEY_LEFTSHIFT, 1), syn()] + tap + seq![ev(EV_KEY, KEY_LEFTSHIFT, 0), syn()]
            } else {
                tap
            }
        },
    }
}

/// The events that type a text, character by character.
pub open spec fn text_events(s: Seq<char>) -> Seq<InputEvent>
    decreases s.len(),
{
    if s.len() == 0 {
        seq![]
    } else {
        text_events(s.drop_last()) + char_events(s.last())
    }
}

/// The events that type a text.
pub fn type_text_events(text: &str) -> (r: Vec<InputEvent>)
    ensures
        r@ == text_events(text@),
{
    let chars = chars_of(text);
    let mut r: Vec<InputEvent> = Vec::new();
    let mut i: usize = 0;
    while i < chars.len()
        invariant
            i <= chars.len(),
            chars@ == text@,
            r@ == text_events(chars@.subrange(0, i as int)),
        decreases chars.len() - i,
    {
        let c = chars[i];
        let ghost p = chars@.subrange(0, i + 1);
        assert(p.drop_last() =~= chars@.subrange(0, i as int));
        let ghost before = r@;
        match ascii_key_code(c) {
            Some(code) => {
                let shift = needs_shift(c);
                if shift {
                    r.push(InputEvent { kind: EV_KEY, code: KEY_LEFTSHIFT, value: 1 });
                    r.push(InputEvent { kind: EV_SYN, code: 0, value: 0 });
                }
                r.push(InputEvent { kind: EV_KEY, code, value: 1 });
                r.push(InputEvent { kind: EV_SYN, code: 0, value: 0 });
                r.push(InputEvent { kind: EV_KEY, code, value: 0 });
                r.push(InputEvent { kind: EV_SYN, code: 0, value: 0 });
                if shift {
                    r.push(InputEvent { kind: EV_KEY, code: KEY_LEFTSHIFT, value: 0 });
                    r.push(InputEvent { kind: EV_SYN, code: 0, value: 0 });
                }
                assert(r@ =~= before + char_events(c));
            },
            None => {
                assert(r@ =~= before + char_events(c));
            },
        }
        i = i + 1;
    }
    assert(chars@.subrange(0, chars@.len() as int) =~= chars@);
    r
}

/// The request number of an ioctl, from its direction, type, number and size.
pub open spec fn ioc_spec(dir: u8, kind: u8, nr: u8, size: u32) -> u64 {
    ((dir as u64) << 30u64) | ((kind as u64) << 8u64) | (nr as u64) | ((size as u64) << 16u64)
}

/// The request number of an ioctl.
pub fn _ioc(dir: u8, kind: u8, nr: u8, size: u32) -> (r: u64)
    ensures
        r == ioc_spec(dir, kind, nr, size),
{
    ((dir as u64) << 30u64) | ((kind as u64) << 8u64) | (nr as u64) | ((size as u64) << 16u64)
}

/// The request number of an ioctl that writes to the device.
pub fn _ioc_write(kind: u8, nr: u8, size: u32) -> (r: u64)
    ensures
        r == ioc_spec(1, kind, nr, size),
{
    _ioc(1, kind, nr, size)
}

} // verus!
