//! The keys of the Windows host's input library that the client's key
//! codes select.

use vstd::prelude::*;
use crate::text::str_eq;

verus! {

/// A key that the Windows host presses through its input library.
#[derive(Debug, Clone, Copy, PartialEq, Eq, Structural)]
pub enum WindowsKey {
    A,
    B,
    C,
    D,
    E,
    F,
    G,
    H,
    I,
    J,
    K,
    L,
    M,
    N,
    O,
    P,
    Q,
    R,
    S,
    T,
    U,
    V,
    W,
    X,
    Y,
    Z,
    Num0,
    Num1,
    Num2,
    Num3,
    Num4,
    Num5,
    Num6,
    Num7,
    Num8,
    Num9,
    Return,
    Escape,
    Backspace,
    Tab,
    Space,
    Delete,
    Insert,
    Home,
    End,
    PageUp,
    PageDown,
    UpArrow,
    DownArrow,
    LeftArrow,
    RightArrow,
    LShift,
    RShift,
    LControl,
    RControl,
    Alt,
    Meta,
    CapsLock,
    F1,
    F2,
    F3,
    F4,
    F5,
    F6,
    F7,
    F8,
    F9,
    F10,
    F11,
    F12,
}

/// The key of each browser key code that the Windows host knows.
pub open spec fn windows_key_spec(code: Seq<char>) -> Option<WindowsKey> {
    if code == "KeyA"@ {
        Some(WindowsKey::A)
    } else if code == "KeyB"@ {
        Some(WindowsKey::B)
    } else if code == "KeyC"@ {
        Some(WindowsKey::C)
    } else if code == "KeyD"@ {
        Some(WindowsKey::D)
    } else if code == "KeyE"@ {
        Some(WindowsKey::E)
    } else if code == "KeyF"@ {
        Some(WindowsKey::F)
    } else if code == "KeyG"@ {
        Some(WindowsKey::G)
    } else if code == "KeyH"@ {
        Some(WindowsKey::H)
    } else if code == "KeyI"@ {
        Some(WindowsKey::I)
    } else if code == "KeyJ"@ {
        Some(WindowsKey::J)
    } else if code == "KeyK"@ {
        Some(WindowsKey::K)
    } else if code == "KeyL"@ {
        Some(WindowsKey::L)
    } else if code == "KeyM"@ {
        Some(WindowsKey::M)
    } else if code == "KeyN"@ {
        Some(WindowsKey::N)
    } else if code == "KeyO"@ {
        Some(WindowsKey::O)
    } else if code == "KeyP"@ {
        Some(WindowsKey::P)
    } else if code == "KeyQ"@ {
        Some(WindowsKey::Q)
    } else if code == "KeyR"@ {
        Some(WindowsKey::R)
    } else if code == "KeyS"@ {
        Some(WindowsKey::S)
    } else if code == "KeyT"@ {
        Some(WindowsKey::T)
    } else if code == "KeyU"@ {
        Some(WindowsKey::U)
    } else if code == "KeyV"@ {
        Some(WindowsKey::V)
    } else if code == "KeyW"@ {
        Some(WindowsKey::W)
    } else if code == "KeyX"@ {
        Some(WindowsKey::X)
    } else if code == "KeyY"@ {
        Some(WindowsKey::Y)
    } else if code == "KeyZ"@ {
        Some(WindowsKey::Z)
    } else if code == "Digit0"@ {
        Some(WindowsKey::Num0)
    } else if code == "Digit1"@ {
        Some(WindowsKey::Num1)
    } else if code == "Digit2"@ {
        Some(WindowsKey::Num2)
    } else if code == "Digit3"@ {
        Some(WindowsKey::Num3)
    } else if code == "Digit4"@ {
        Some(WindowsKey::Num4)
    } else if code == "Digit5"@ {
        Some(WindowsKey::Num5)
    } else if code == "Digit6"@ {
        Some(WindowsKey::Num6)
    } else if code == "Digit7"@ {
        Some(WindowsKey::Num7)
    } else if code == "Digit8"@ {
        Some(WindowsKey::Num8)
    } else if code == "Digit9"@ {
        Some(WindowsKey::Num9)
    } else if code == "Enter"@ {
        Some(WindowsKey::Return)
    } else if code == "Escape"@ {
        Some(WindowsKey::Escape)
    } else if code == "Backspace"@ {
        Some(WindowsKey::Backspace)
    } else if code == "Tab"@ {
        Some(WindowsKey::Tab)
    } else if code == "Space"@ {
        Some(WindowsKey::Space)
    } else if code == "Delete"@ {
        Some(WindowsKey::Delete)
    } else if code == "Insert"@ {
        Some(WindowsKey::Insert)
    } else if code == "Home"@ {
        Some(WindowsKey::Home)
    } else if code == "End"@ {
        Some(WindowsKey::End)
    } else if code == "PageUp"@ {
        Some(WindowsKey::PageUp)
    } else if code == "PageDown"@ {
        Some(WindowsKey::PageDown)
    } else if code == "ArrowUp"@ {
        Some(WindowsKey::UpArrow)
    } else if code == "ArrowDown"@ {
        Some(WindowsKey::DownArrow)
    } else if code == "ArrowLeft"@ {
        Some(WindowsKey::LeftArrow)
    } else if code == "ArrowRight"@ {
        Some(WindowsKey::RightArrow)
    } else if code == "ShiftLeft"@ {
        Some(WindowsKey::LShift)
    } else if code == "ShiftRight"@ {
        Some(WindowsKey::RShift)
    } else if code == "ControlLeft"@ {
        Some(WindowsKey::LControl)
    } else if code == "ControlRight"@ {
        Some(WindowsKey::RControl)
    } else if code == "AltLeft"@ {
        Some(WindowsKey::Alt)
    } else if code == "AltRight"@ {
        Some(WindowsKey::Alt)
    } else if code == "MetaLeft"@ {
        Some(WindowsKey::Meta)
    } else if code == "MetaRight"@ {
        Some(WindowsKey::Meta)
    } else if code == "CapsLock"@ {
        Some(WindowsKey::CapsLock)
    } else if code == "F1"@ {
        Some(WindowsKey::F1)
    } else if code == "F2"@ {
        Some(WindowsKey::F2)
    } else if code == "F3"@ {
        Some(WindowsKey::F3)
    } else if code == "F4"@ {
        Some(WindowsKey::F4)
    } else if code == "F5"@ {
        Some(WindowsKey::F5)
    } else if code == "F6"@ {
        Some(WindowsKey::F6)
    } else if code == "F7"@ {
        Some(WindowsKey::F7)
    } else if code == "F8"@ {
        Some(WindowsKey::F8)
    } else if code == "F9"@ {
        Some(WindowsKey::F9)
    } else if code == "F10"@ {
        Some(WindowsKey::F10)
    } else if code == "F11"@ {
        Some(WindowsKey::F11)
    } else if code == "F12"@ {
        Some(WindowsKey::F12)
    } else {
        None
    }
}

/// The key of a browser key code, if the Windows host knows it; the host
/// ignores the others.
pub fn windows_key_for_code(code: &str) -> (r: Option<WindowsKey>)
    ensures
        r == windows_key_spec(code@),
{
    if str_eq(code, "KeyA") {
        Some(WindowsKey::A)
    } else if str_eq(code, "KeyB") {
        Some(WindowsKey::B)
    } else if str_eq(code, "KeyC") {
        Some(WindowsKey::C)
    } else if str_eq(code, "KeyD") {
        Some(WindowsKey::D)
    } else if str_eq(code, "KeyE") {
        Some(WindowsKey::E)
    } else if str_eq(code, "KeyF") {
        Some(WindowsKey::F)
    } else if str_eq(code, "KeyG") {
        Some(WindowsKey::G)
    } else if str_eq(code, "KeyH") {
        Some(WindowsKey::H)
    } else if str_eq(code, "KeyI") {
        Some(WindowsKey::I)
    } else if str_eq(code, "KeyJ") {
        Some(WindowsKey::J)
    } else if str_eq(code, "KeyK") {
        Some(WindowsKey::K)
    } else if str_eq(code, "KeyL") {
        Some(WindowsKey::L)
    } else if str_eq(code, "KeyM") {
        Some(WindowsKey::M)
    } else if str_eq(code, "KeyN") {
        Some(WindowsKey::N)
    } else if str_eq(code, "KeyO") {
        Some(WindowsKey::O)
    } else if str_eq(code, "KeyP") {
        Some(WindowsKey::P)
    } else if str_eq(code, "KeyQ") {
        Some(WindowsKey::Q)
    } else if str_eq(code, "KeyR") {
        Some(WindowsKey::R)
    } else if str_eq(code, "KeyS") {
        Some(WindowsKey::S)
    } else if str_eq(code, "KeyT") {
        Some(WindowsKey::T)
    } else if str_eq(code, "KeyU") {
        Some(WindowsKey::U)
    } else if str_eq(code, "KeyV") {
        Some(WindowsKey::V)
    } else if str_eq(code, "KeyW") {
        Some(WindowsKey::W)
    } else if str_eq(code, "KeyX") {
        Some(WindowsKey::X)
    } else if str_eq(code, "KeyY") {
        Some(WindowsKey::Y)
    } else if str_eq(code, "KeyZ") {
        Some(WindowsKey::Z)
    } else if str_eq(code, "Digit0") {
        Some(WindowsKey::Num0)
    } else if str_eq(code, "Digit1") {
        Some(WindowsKey::Num1)
    } else if str_eq(code, "Digit2") {
        Some(WindowsKey::Num2)
    } else if str_eq(code, "Digit3") {
        Some(WindowsKey::Num3)
    } else if str_eq(code, "Digit4") {
        Some(WindowsKey::Num4)
    } else if str_eq(code, "Digit5") {
        Some(WindowsKey::Num5)
    } else if str_eq(code, "Digit6") {
        Some(WindowsKey::Num6)
    } else if str_eq(code, "Digit7") {
        Some(WindowsKey::Num7)
    } else if str_eq(code, "Digit8") {
        Some(WindowsKey::Num8)
    } else if str_eq(code, "Digit9") {
        Some(WindowsKey::Num9)
    } else if str_eq(code, "Enter") {
        Some(WindowsKey::Return)
    } else if str_eq(code, "Escape") {
        Some(WindowsKey::Escape)
    } else if str_eq(code, "Backspace") {
        Some(WindowsKey::Backspace)
    } else if str_eq(code, "Tab") {
        Some(WindowsKey::Tab)
    } else if str_eq(code, "Space") {
        Some(WindowsKey::Space)
    } else if str_eq(code, "Delete") {
        Some(WindowsKey::Delete)
    } else if str_eq(code, "Insert") {
        Some(WindowsKey::Insert)
    } else if str_eq(code, "Home") {
        Some(WindowsKey::Home)
    } else if str_eq(code, "End") {
        Some(WindowsKey::End)
    } else if str_eq(code, "PageUp") {
        Some(WindowsKey::PageUp)
    } else if str_eq(code, "PageDown") {
        Some(WindowsKey::PageDown)
    } else if str_eq(code, "ArrowUp") {
        Some(WindowsKey::UpArrow)
    } else if str_eq(code, "ArrowDown") {
        Some(WindowsKey::DownArrow)
    } else if str_eq(code, "ArrowLeft") {
        Some(WindowsKey::LeftArrow)
    } else if str_eq(code, "ArrowRight") {
        Some(WindowsKey::RightArrow)
    } else if str_eq(code, "ShiftLeft") {
        Some(WindowsKey::LShift)
    } else if str_eq(code, "ShiftRight") {
        Some(WindowsKey::RShift)
    } else if str_eq(code, "ControlLeft") {
        Some(WindowsKey::LControl)
    } else if str_eq(code, "ControlRight") {
        Some(WindowsKey::RControl)
    } else if str_eq(code, "AltLeft") {
        Some(WindowsKey::Alt)
    } else if str_eq(code, "AltRight") {
        Some(WindowsKey::Alt)
    } else if str_eq(code, "MetaLeft") {
        Some(WindowsKey::Meta)
    } else if str_eq(code, "MetaRight") {
        Some(WindowsKey::Meta)
    } else if str_eq(code, "CapsLock") {
        Some(WindowsKey::CapsLock)
    } else if str_eq(code, "F1") {
        Some(WindowsKey::F1)
    } else if str_eq(code, "F2") {
        Some(WindowsKey::F2)
    } else if str_eq(code, "F3") {
        Some(WindowsKey::F3)
    } else if str_eq(code, "F4") {
        Some(WindowsKey::F4)
    } else if str_eq(code, "F5") {
        Some(WindowsKey::F5)
    } else if str_eq(code, "F6") {
        Some(WindowsKey::F6)
    } else if str_eq(code, "F7") {
        Some(WindowsKey::F7)
    } else if str_eq(code, "F8") {
        Some(WindowsKey::F8)
    } else if str_eq(code, "F9") {
        Some(WindowsKey::F9)
    } else if str_eq(code, "F10") {
        Some(WindowsKey::F10)
    } else if str_eq(code, "F11") {
        Some(WindowsKey::F11)
    } else if str_eq(code, "F12") {
        Some(WindowsKey::F12)
    } else {
        None
    }
}

/// A pointer button of the Windows host's input library.
#[derive(Debug, Clone, Copy, PartialEq, Eq, Structural)]
pub enum WindowsButton {
    Left,
    Right,
    Middle,
}

/// The button that a click names: `right` and `middle` select theirs, any
/// other name the left button.
pub open spec fn windows_button_spec(button: Seq<char>) -> WindowsButton {
    if button == "right"@ {
        WindowsButton::Right
    } else if button == "middle"@ {
        WindowsButton::Middle
    } else {
        WindowsButton::Left
    }
}

/// The button that a click presses and how many times: at least once, however
/// small the count asked for.
pub fn windows_click_plan(button: &str, click_count: u8) -> (r: (WindowsButton, u8))
    ensures
        r.0 == windows_button_spec(button@),
        r.1 == (if click_count == 0 { 1 } else { click_count }),
{
    let pressed = if str_eq(button, "right") {
        WindowsButton::Right
    } else if str_eq(button, "middle") {
        WindowsButton::Middle
    } else {
        WindowsButton::Left
    };
    let times: u8 = if click_count == 0 { 1 } else { click_count };
    (pressed, times)
}

} // verus!
