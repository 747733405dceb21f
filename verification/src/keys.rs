//! Keyboard keys, their virtual-key codes and their names.
use vstd::prelude::*;
use vstd::string::*;
use crate::state::SharedState;
use crate::text::{decimal, lemma_decimal_injective, lemma_decimal_value, with_number};

verus! {

/// A key as the system-wide keyboard hook reports it.
#[derive(Debug, Clone, Copy)]
pub enum GlobalKey {
    Num0,
    Num1,
    Num2,
    Num3,
    Num4,
    Num5,
    Num6,
    Num7,
    Num8,
    Num9,
    F1,
    F2,
    F3,
    F4,
    F5,
    F6,
    F7,
    F8,
    F9,
    F10,
    F11,
    F12,
    Space,
    Return,
    Tab,
    Escape,
    ControlLeft,
    ControlRight,
    Alt,
    ShiftLeft,
    ShiftRight,
    CapsLock,
    LeftArrow,
    RightArrow,
    UpArrow,
    DownArrow,
    Backspace,
    Delete,
    Insert,
    Home,
    End,
    PageUp,
    PageDown,
    KeyA,
    KeyB,
    KeyC,
    KeyD,
    KeyE,
    KeyF,
    KeyG,
    KeyH,
    KeyI,
    KeyJ,
    KeyK,
    KeyL,
    KeyM,
    KeyN,
    KeyO,
    KeyP,
    KeyQ,
    KeyR,
    KeyS,
    KeyT,
    KeyU,
    KeyV,
    KeyW,
    KeyX,
    KeyY,
    KeyZ,
    /// A key that has no virtual-key code here.
    Other,
}

/// A key as the application's own window reports it.
#[derive(Debug, Clone, Copy)]
pub enum WindowKey {
    Num0,
    Num1,
    Num2,
    Num3,
    Num4,
    Num5,
    Num6,
    Num7,
    Num8,
    Num9,
    F1,
    F2,
    F3,
    F4,
    F5,
    F6,
    F7,
    F8,
    F9,
    F10,
    F11,
    F12,
    Space,
    Enter,
    Tab,
    Escape,
    ArrowLeft,
    ArrowRight,
    ArrowUp,
    ArrowDown,
    Backspace,
    Delete,
    Insert,
    Home,
    End,
    PageUp,
    PageDown,
    A,
    B,
    C,
    D,
    E,
    F,
    G,
    H,
    I,
    J,
    K,
    L,
    M,
    N,
    O,
    P,
    Q,
    R,
    S,
    T,
    U,
    V,
    W,
    X,
    Y,
    Z,
    /// A key that has no virtual-key code here.
    Other,
}

/// The virtual-key code of a key of the system-wide hook; zero where it has none.
///
/// Left and right modifiers share one code, and the code of a letter is its capital.
pub open spec fn global_code(key: GlobalKey) -> u32 {
    match key {
        GlobalKey::Num0 => 0x30,
        GlobalKey::Num1 => 0x31,
        GlobalKey::Num2 => 0x32,
        GlobalKey::Num3 => 0x33,
        GlobalKey::Num4 => 0x34,
        GlobalKey::Num5 => 0x35,
        GlobalKey::Num6 => 0x36,
        GlobalKey::Num7 => 0x37,
        GlobalKey::Num8 => 0x38,
        GlobalKey::Num9 => 0x39,
        GlobalKey::F1 => 0x70,
        GlobalKey::F2 => 0x71,
        GlobalKey::F3 => 0x72,
        GlobalKey::F4 => 0x73,
        GlobalKey::F5 => 0x74,
        GlobalKey::F6 => 0x75,
        GlobalKey::F7 => 0x76,
        GlobalKey::F8 => 0x77,
        GlobalKey::F9 => 0x78,
        GlobalKey::F10 => 0x79,
        GlobalKey::F11 => 0x7A,
        GlobalKey::F12 => 0x7B,
        GlobalKey::Space => 0x20,
        GlobalKey::Return => 0x0D,
        GlobalKey::Tab => 0x09,
        GlobalKey::Escape => 0x1B,
        GlobalKey::ControlLeft => 0x11,
        GlobalKey::ControlRight => 0x11,
        GlobalKey::Alt => 0x12,
        GlobalKey::ShiftLeft => 0x10,
        GlobalKey::ShiftRight => 0x10,
        GlobalKey::CapsLock => 0x14,
        GlobalKey::LeftArrow => 0x25,
        GlobalKey::RightArrow => 0x27,
        GlobalKey::UpArrow => 0x26,
        GlobalKey::DownArrow => 0x28,
        GlobalKey::Backspace => 0x08,
        GlobalKey::Delete => 0x2E,
        GlobalKey::Insert => 0x2D,
        GlobalKey::Home => 0x24,
        GlobalKey::End => 0x23,
        GlobalKey::PageUp => 0x21,
        GlobalKey::PageDown => 0x22,
        GlobalKey::KeyA => 'A' as u32,
        GlobalKey::KeyB => 'B' as u32,
        GlobalKey::KeyC => 'C' as u32,
        GlobalKey::KeyD => 'D' as u32,
        GlobalKey::KeyE => 'E' as u32,
        GlobalKey::KeyF => 'F' as u32,
        GlobalKey::KeyG => 'G' as u32,
        GlobalKey::KeyH => 'H' as u32,
        GlobalKey::KeyI => 'I' as u32,
        GlobalKey::KeyJ => 'J' as u32,
        GlobalKey::KeyK => 'K' as u32,
        GlobalKey::KeyL => 'L' as u32,
        GlobalKey::KeyM => 'M' as u32,
        GlobalKey::KeyN => 'N' as u32,
        GlobalKey::KeyO => 'O' as u32,
        GlobalKey::KeyP => 'P' as u32,
        GlobalKey::KeyQ => 'Q' as u32,
        GlobalKey::KeyR => 'R' as u32,
        GlobalKey::KeyS => 'S' as u32,
        GlobalKey::KeyT => 'T' as u32,
        GlobalKey::KeyU => 'U' as u32,
        GlobalKey::KeyV => 'V' as u32,
        GlobalKey::KeyW => 'W' as u32,
        GlobalKey::KeyX => 'X' as u32,
        GlobalKey::KeyY => 'Y' as u32,
        GlobalKey::KeyZ => 'Z' as u32,
        GlobalKey::Other => 0,
    }
}

/// The virtual-key code of a key of the window; zero where it has none. The code of a letter is
/// its capital.
pub open spec fn window_code(key: WindowKey) -> u32 {
    match key {
        WindowKey::Num0 => 0x30,
        WindowKey::Num1 => 0x31,
        WindowKey::Num2 => 0x32,
        WindowKey::Num3 => 0x33,
        WindowKey::Num4 => 0x34,
        WindowKey::Num5 => 0x35,
        WindowKey::Num6 => 0x36,
        WindowKey::Num7 => 0x37,
        WindowKey::Num8 => 0x38,
        WindowKey::Num9 => 0x39,
        WindowKey::F1 => 0x70,
        WindowKey::F2 => 0x71,
        WindowKey::F3 => 0x72,
        WindowKey::F4 => 0x73,
        WindowKey::F5 => 0x74,
        WindowKey::F6 => 0x75,
        WindowKey::F7 => 0x76,
        WindowKey::F8 => 0x77,
        WindowKey::F9 => 0x78,
        WindowKey::F10 => 0x79,
        WindowKey::F11 => 0x7A,
        WindowKey::F12 => 0x7B,
        WindowKey::Space => 0x20,
        WindowKey::Enter => 0x0D,
        WindowKey::Tab => 0x09,
        WindowKey::Escape => 0x1B,
        WindowKey::ArrowLeft => 0x25,
        WindowKey::ArrowRight => 0x27,
        WindowKey::ArrowUp => 0x26,
        WindowKey::ArrowDown => 0x28,
        WindowKey::Backspace => 0x08,
        WindowKey::Delete => 0x2E,
        WindowKey::Insert => 0x2D,
        WindowKey::Home => 0x24,
        WindowKey::End => 0x23,
        WindowKey::PageUp => 0x21,
        WindowKey::PageDown => 0x22,
        WindowKey::A => 'A' as u32,
        WindowKey::B => 'B' as u32,
        WindowKey::C => 'C' as u32,
        WindowKey::D => 'D' as u32,
        WindowKey::E => 'E' as u32,
        WindowKey::F => 'F' as u32,
        WindowKey::G => 'G' as u32,
        WindowKey::H => 'H' as u32,
        WindowKey::I => 'I' as u32,
        WindowKey::J => 'J' as u32,
        WindowKey::K => 'K' as u32,
        WindowKey::L => 'L' as u32,
        WindowKey::M => 'M' as u32,
        WindowKey::N => 'N' as u32,
        WindowKey::O => 'O' as u32,
        WindowKey::P => 'P' as u32,
        WindowKey::Q => 'Q' as u32,
        WindowKey::R => 'R' as u32,
        WindowKey::S => 'S' as u32,
        WindowKey::T => 'T' as u32,
        WindowKey::U => 'U' as u32,
        WindowKey::V => 'V' as u32,
        WindowKey::W => 'W' as u32,
        WindowKey::X => 'X' as u32,
        WindowKey::Y => 'Y' as u32,
        WindowKey::Z => 'Z' as u32,
        WindowKey::Other => 0,
    }
}

/// The name under which a virtual-key code is shown.
pub open spec fn key_name(vk: u32) -> Seq<char> {
    if 0x70 <= vk <= 0x7B {
        "F"@ + decimal((vk - 0x6F) as nat)
    } else if vk == 0x20 {
        "Space"@
    } else if vk == 0x0D {
        "Enter"@
    } else if vk == 0x09 {
        "Tab"@
    } else if vk == 0x1B {
        "Esc"@
    } else if vk == 0x11 {
        "Ctrl"@
    } else if vk == 0x12 {
        "Alt"@
    } else if vk == 0x10 {
        "Shift"@
    } else if vk == 0x14 {
        "CapsLock"@
    } else if vk == 0x25 {
        "Left"@
    } else if vk == 0x27 {
        "Right"@
    } else if vk == 0x26 {
        "Up"@
    } else if vk == 0x28 {
        "Down"@
    } else if vk == 0x08 {
        "Backspace"@
    } else if vk == 0x2E {
        "Delete"@
    } else if 0x30 <= vk <= 0x39 {
        "Num"@ + decimal((vk - 0x30) as nat)
    } else {
        "VK="@ + decimal(vk as nat)
    }
}

impl SharedState {
    /// The virtual-key code of a key of the system-wide hook; zero where it has none.
    pub fn key_to_vk_code(key: &GlobalKey) -> (vk: u32)
        ensures
            vk == global_code(*key),
    {
        match key {
            GlobalKey::Num0 => 0x30,
            GlobalKey::Num1 => 0x31,
            GlobalKey::Num2 => 0x32,
            GlobalKey::Num3 => 0x33,
            GlobalKey::Num4 => 0x34,
            GlobalKey::Num5 => 0x35,
            GlobalKey::Num6 => 0x36,
            GlobalKey::Num7 => 0x37,
            GlobalKey::Num8 => 0x38,
            GlobalKey::Num9 => 0x39,
            GlobalKey::F1 => 0x70,
            GlobalKey::F2 => 0x71,
            GlobalKey::F3 => 0x72,
            GlobalKey::F4 => 0x73,
            GlobalKey::F5 => 0x74,
            GlobalKey::F6 => 0x75,
            GlobalKey::F7 => 0x76,
            GlobalKey::F8 => 0x77,
            GlobalKey::F9 => 0x78,
            GlobalKey::F10 => 0x79,
            GlobalKey::F11 => 0x7A,
            GlobalKey::F12 => 0x7B,
            GlobalKey::Space => 0x20,
            GlobalKey::Return => 0x0D,
            GlobalKey::Tab => 0x09,
            GlobalKey::Escape => 0x1B,
            GlobalKey::ControlLeft | GlobalKey::ControlRight => 0x11,
            GlobalKey::Alt => 0x12,
            GlobalKey::ShiftLeft | GlobalKey::ShiftRight => 0x10,
            GlobalKey::CapsLock => 0x14,
            GlobalKey::LeftArrow => 0x25,
            GlobalKey::RightArrow => 0x27,
            GlobalKey::UpArrow => 0x26,
            GlobalKey::DownArrow => 0x28,
            GlobalKey::Backspace => 0x08,
            GlobalKey::Delete => 0x2E,
            GlobalKey::Insert => 0x2D,
            GlobalKey::Home => 0x24,
            GlobalKey::End => 0x23,
            GlobalKey::PageUp => 0x21,
            GlobalKey::PageDown => 0x22,
            GlobalKey::KeyA => 0x41,
            GlobalKey::KeyB => 0x42,
            GlobalKey::KeyC => 0x43,
            GlobalKey::KeyD => 0x44,
            GlobalKey::KeyE => 0x45,
            GlobalKey::KeyF => 0x46,
            GlobalKey::KeyG => 0x47,
            GlobalKey::KeyH => 0x48,
            GlobalKey::KeyI => 0x49,
            GlobalKey::KeyJ => 0x4A,
            GlobalKey::KeyK => 0x4B,
            GlobalKey::KeyL => 0x4C,
            GlobalKey::KeyM => 0x4D,
            GlobalKey::KeyN => 0x4E,
            GlobalKey::KeyO => 0x4F,
            GlobalKey::KeyP => 0x50,
            GlobalKey::KeyQ => 0x51,
            GlobalKey::KeyR => 0x52,
            GlobalKey::KeyS => 0x53,
            GlobalKey::KeyT => 0x54,
            GlobalKey::KeyU => 0x55,
            GlobalKey::KeyV => 0x56,
            GlobalKey::KeyW => 0x57,
            GlobalKey::KeyX => 0x58,
            GlobalKey::KeyY => 0x59,
            GlobalKey::KeyZ => 0x5A,
            GlobalKey::Other => 0,
        }
    }

    /// The name under which a virtual-key code is shown.
    pub fn vk_to_key_name(vk: u32) -> (name: String)
        ensures
            name@ == key_name(vk),
    {
        match vk {
            0x70..=0x7B => with_number("F", (vk - 0x6F) as u64),
            0x20 => "Space".to_string(),
            0x0D => "Enter".to_string(),
            0x09 => "Tab".to_string(),
            0x1B => "Esc".to_string(),
            0x11 => "Ctrl".to_string(),
            0x12 => "Alt".to_string(),
            0x10 => "Shift".to_string(),
            0x14 => "CapsLock".to_string(),
            0x25 => "Left".to_string(),
            0x27 => "Right".to_string(),
            0x26 => "Up".to_string(),
            0x28 => "Down".to_string(),
            0x08 => "Backspace".to_string(),
            0x2E => "Delete".to_string(),
            0x30..=0x39 => with_number("Num", (vk - 0x30) as u64),
            _ => with_number("VK=", vk as u64),
        }
    }
}

/// The virtual-key code of a key of the window; zero where it has none.
pub fn egui_key_to_vk(key: WindowKey) -> (vk: u32)
    ensures
        vk == window_code(key),
{
    match key {
        WindowKey::Num0 => 0x30,
        WindowKey::Num1 => 0x31,
        WindowKey::Num2 => 0x32,
        WindowKey::Num3 => 0x33,
        WindowKey::Num4 => 0x34,
        WindowKey::Num5 => 0x35,
        WindowKey::Num6 => 0x36,
        WindowKey::Num7 => 0x37,
        WindowKey::Num8 => 0x38,
        WindowKey::Num9 => 0x39,
        WindowKey::F1 => 0x70,
        WindowKey::F2 => 0x71,
        WindowKey::F3 => 0x72,
        WindowKey::F4 => 0x73,
        WindowKey::F5 => 0x74,
        WindowKey::F6 => 0x75,
        WindowKey::F7 => 0x76,
        WindowKey::F8 => 0x77,
        WindowKey::F9 => 0x78,
        WindowKey::F10 => 0x79,
        WindowKey::F11 => 0x7A,
        WindowKey::F12 => 0x7B,
        WindowKey::Space => 0x20,
        WindowKey::Enter => 0x0D,
        WindowKey::Tab => 0x09,
        WindowKey::Escape => 0x1B,
        WindowKey::ArrowLeft => 0x25,
        WindowKey::ArrowRight => 0x27,
        WindowKey::ArrowUp => 0x26,
        WindowKey::ArrowDown => 0x28,
        WindowKey::Backspace => 0x08,
        WindowKey::Delete => 0x2E,
        WindowKey::Insert => 0x2D,
        WindowKey::Home => 0x24,
        WindowKey::End => 0x23,
        WindowKey::PageUp => 0x21,
        WindowKey::PageDown => 0x22,
        WindowKey::A => 0x41,
        WindowKey::B => 0x42,
        WindowKey::C => 0x43,
        WindowKey::D => 0x44,
        WindowKey::E => 0x45,
        WindowKey::F => 0x46,
        WindowKey::G => 0x47,
        WindowKey::H => 0x48,
        WindowKey::I => 0x49,
        WindowKey::J => 0x4A,
        WindowKey::K => 0x4B,
        WindowKey::L => 0x4C,
        WindowKey::M => 0x4D,
        WindowKey::N => 0x4E,
        WindowKey::O => 0x4F,
        WindowKey::P => 0x50,
        WindowKey::Q => 0x51,
        WindowKey::R => 0x52,
        WindowKey::S => 0x53,
        WindowKey::T => 0x54,
        WindowKey::U => 0x55,
        WindowKey::V => 0x56,
        WindowKey::W => 0x57,
        WindowKey::X => 0x58,
        WindowKey::Y => 0x59,
        WindowKey::Z => 0x5A,
        WindowKey::Other => 0,
    }
}

/// The key of the window that a key of the system-wide hook is, where the window reports it.
pub open spec fn counterpart(key: GlobalKey) -> Option<WindowKey> {
    match key {
        GlobalKey::Num0 => Some(WindowKey::Num0),
        GlobalKey::Num1 => Some(WindowKey::Num1),
        GlobalKey::Num2 => Some(WindowKey::Num2),
        GlobalKey::Num3 => Some(WindowKey::Num3),
        GlobalKey::Num4 => Some(WindowKey::Num4),
        GlobalKey::Num5 => Some(WindowKey::Num5),
        GlobalKey::Num6 => Some(WindowKey::Num6),
        GlobalKey::Num7 => Some(WindowKey::Num7),
        GlobalKey::Num8 => Some(WindowKey::Num8),
        GlobalKey::Num9 => Some(WindowKey::Num9),
        GlobalKey::F1 => Some(WindowKey::F1),
        GlobalKey::F2 => Some(WindowKey::F2),
        GlobalKey::F3 => Some(WindowKey::F3),
        GlobalKey::F4 => Some(WindowKey::F4),
        GlobalKey::F5 => Some(WindowKey::F5),
        GlobalKey::F6 => Some(WindowKey::F6),
        GlobalKey::F7 => Some(WindowKey::F7),
        GlobalKey::F8 => Some(WindowKey::F8),
        GlobalKey::F9 => Some(WindowKey::F9),
        GlobalKey::F10 => Some(WindowKey::F10),
        GlobalKey::F11 => Some(WindowKey::F11),
        GlobalKey::F12 => Some(WindowKey::F12),
        GlobalKey::Space => Some(WindowKey::Space),
        GlobalKey::Return => Some(WindowKey::Enter),
        GlobalKey::Tab => Some(WindowKey::Tab),
        GlobalKey::Escape => Some(WindowKey::Escape),
        GlobalKey::LeftArrow => Some(WindowKey::ArrowLeft),
        GlobalKey::RightArrow => Some(WindowKey::ArrowRight),
        GlobalKey::UpArrow => Some(WindowKey::ArrowUp),
        GlobalKey::DownArrow => Some(WindowKey::ArrowDown),
        GlobalKey::Backspace => Some(WindowKey::Backspace),
        GlobalKey::Delete => Some(WindowKey::Delete),
        GlobalKey::Insert => Some(WindowKey::Insert),
        GlobalKey::Home => Some(WindowKey::Home),
        GlobalKey::End => Some(WindowKey::End),
        GlobalKey::PageUp => Some(WindowKey::PageUp),
        GlobalKey::PageDown => Some(WindowKey::PageDown),
        GlobalKey::KeyA => Some(WindowKey::A),
        GlobalKey::KeyB => Some(WindowKey::B),
        GlobalKey::KeyC => Some(WindowKey::C),
        GlobalKey::KeyD => Some(WindowKey::D),
        GlobalKey::KeyE => Some(WindowKey::E),
        GlobalKey::KeyF => Some(WindowKey::F),
        GlobalKey::KeyG => Some(WindowKey::G),
        GlobalKey::KeyH => Some(WindowKey::H),
        GlobalKey::KeyI => Some(WindowKey::I),
        GlobalKey::KeyJ => Some(WindowKey::J),
        GlobalKey::KeyK => Some(WindowKey::K),
        GlobalKey::KeyL => Some(WindowKey::L),
        GlobalKey::KeyM => Some(WindowKey::M),
        GlobalKey::KeyN => Some(WindowKey::N),
        GlobalKey::KeyO => Some(WindowKey::O),
        GlobalKey::KeyP => Some(WindowKey::P),
        GlobalKey::KeyQ => Some(WindowKey::Q),
        GlobalKey::KeyR => Some(WindowKey::R),
        GlobalKey::KeyS => Some(WindowKey::S),
        GlobalKey::KeyT => Some(WindowKey::T),
        GlobalKey::KeyU => Some(WindowKey::U),
        GlobalKey::KeyV => Some(WindowKey::V),
        GlobalKey::KeyW => Some(WindowKey::W),
        GlobalKey::KeyX => Some(WindowKey::X),
        GlobalKey::KeyY => Some(WindowKey::Y),
        GlobalKey::KeyZ => Some(WindowKey::Z),
        _ => None,
    }
}

/// The hook and the window give a key the same virtual-key code.
pub proof fn law_both_key_tables_agree(key: GlobalKey)
    requires
        counterpart(key) is Some,
    ensures
        global_code(key) == window_code(counterpart(key)->0),
        global_code(key) != 0,
{
}

/// Each key that can be bound in the window is found again by the hook: it is a key of the hook,
/// which has the same virtual-key code there.
pub proof fn law_bindable_keys_are_found_by_the_hook(key: WindowKey)
    requires
        window_code(key) != 0,
    ensures
        exists|hooked: GlobalKey|
            #[trigger] counterpart(hooked) == Some(key) && global_code(hooked) == window_code(key),
{
    match key {
        WindowKey::Num0 => assert(counterpart(GlobalKey::Num0) == Some(key)),
        WindowKey::Num1 => assert(counterpart(GlobalKey::Num1) == Some(key)),
        WindowKey::Num2 => assert(counterpart(GlobalKey::Num2) == Some(key)),
        WindowKey::Num3 => assert(counterpart(GlobalKey::Num3) == Some(key)),
        WindowKey::Num4 => assert(counterpart(GlobalKey::Num4) == Some(key)),
        WindowKey::Num5 => assert(counterpart(GlobalKey::Num5) == Some(key)),
        WindowKey::Num6 => assert(counterpart(GlobalKey::Num6) == Some(key)),
        WindowKey::Num7 => assert(counterpart(GlobalKey::Num7) == Some(key)),
        WindowKey::Num8 => assert(counterpart(GlobalKey::Num8) == Some(key)),
        WindowKey::Num9 => assert(counterpart(GlobalKey::Num9) == Some(key)),
        WindowKey::F1 => assert(counterpart(GlobalKey::F1) == Some(key)),
        WindowKey::F2 => assert(counterpart(GlobalKey::F2) == Some(key)),
        WindowKey::F3 => assert(counterpart(GlobalKey::F3) == Some(key)),
        WindowKey::F4 => assert(counterpart(GlobalKey::F4) == Some(key)),
        WindowKey::F5 => assert(counterpart(GlobalKey::F5) == Some(key)),
        WindowKey::F6 => assert(counterpart(GlobalKey::F6) == Some(key)),
        WindowKey::F7 => assert(counterpart(GlobalKey::F7) == Some(key)),
        WindowKey::F8 => assert(counterpart(GlobalKey::F8) == Some(key)),
        WindowKey::F9 => assert(counterpart(GlobalKey::F9) == Some(key)),
        WindowKey::F10 => assert(counterpart(GlobalKey::F10) == Some(key)),
        WindowKey::F11 => assert(counterpart(GlobalKey::F11) == Some(key)),
        WindowKey::F12 => assert(counterpart(GlobalKey::F12) == Some(key)),
        WindowKey::Space => assert(counterpart(GlobalKey::Space) == Some(key)),
        WindowKey::Enter => assert(counterpart(GlobalKey::Return) == Some(key)),
        WindowKey::Tab => assert(counterpart(GlobalKey::Tab) == Some(key)),
        WindowKey::Escape => assert(counterpart(GlobalKey::Escape) == Some(key)),
        WindowKey::ArrowLeft => assert(counterpart(GlobalKey::LeftArrow) == Some(key)),
        WindowKey::ArrowRight => assert(counterpart(GlobalKey::RightArrow) == Some(key)),
        WindowKey::ArrowUp => assert(counterpart(GlobalKey::UpArrow) == Some(key)),
        WindowKey::ArrowDown => assert(counterpart(GlobalKey::DownArrow) == Some(key)),
        WindowKey::Backspace => assert(counterpart(GlobalKey::Backspace) == Some(key)),
        WindowKey::Delete => assert(counterpart(GlobalKey::Delete) == Some(key)),
        WindowKey::Insert => assert(counterpart(GlobalKey::Insert) == Some(key)),
        WindowKey::Home => assert(counterpart(GlobalKey::Home) == Some(key)),
        WindowKey::End => assert(counterpart(GlobalKey::End) == Some(key)),
        WindowKey::PageUp => assert(counterpart(GlobalKey::PageUp) == Some(key)),
        WindowKey::PageDown => assert(counterpart(GlobalKey::PageDown) == Some(key)),
        WindowKey::A => assert(counterpart(GlobalKey::KeyA) == Some(key)),
        WindowKey::B => assert(counterpart(GlobalKey::KeyB) == Some(key)),
        WindowKey::C => assert(counterpart(GlobalKey::KeyC) == Some(key)),
        WindowKey::D => assert(counterpart(GlobalKey::KeyD) == Some(key)),
        WindowKey::E => assert(counterpart(GlobalKey::KeyE) == Some(key)),
        WindowKey::F => assert(counterpart(GlobalKey::KeyF) == Some(key)),
        WindowKey::G => assert(counterpart(GlobalKey::KeyG) == Some(key)),
        WindowKey::H => assert(counterpart(GlobalKey::KeyH) == Some(key)),
        WindowKey::I => assert(counterpart(GlobalKey::KeyI) == Some(key)),
        WindowKey::J => assert(counterpart(GlobalKey::KeyJ) == Some(key)),
        WindowKey::K => assert(counterpart(GlobalKey::KeyK) == Some(key)),
        WindowKey::L => assert(counterpart(GlobalKey::KeyL) == Some(key)),
        WindowKey::M => assert(counterpart(GlobalKey::KeyM) == Some(key)),
        WindowKey::N => assert(counterpart(GlobalKey::KeyN) == Some(key)),
        WindowKey::O => assert(counterpart(GlobalKey::KeyO) == Some(key)),
        WindowKey::P => assert(counterpart(GlobalKey::KeyP) == Some(key)),
        WindowKey::Q => assert(counterpart(GlobalKey::KeyQ) == Some(key)),
        WindowKey::R => assert(counterpart(GlobalKey::KeyR) == Some(key)),
        WindowKey::S => assert(counterpart(GlobalKey::KeyS) == Some(key)),
        WindowKey::T => assert(counterpart(GlobalKey::KeyT) == Some(key)),
        WindowKey::U => assert(counterpart(GlobalKey::KeyU) == Some(key)),
        WindowKey::V => assert(counterpart(GlobalKey::KeyV) == Some(key)),
        WindowKey::W => assert(counterpart(GlobalKey::KeyW) == Some(key)),
        WindowKey::X => assert(counterpart(GlobalKey::KeyX) == Some(key)),
        WindowKey::Y => assert(counterpart(GlobalKey::KeyY) == Some(key)),
        WindowKey::Z => assert(counterpart(GlobalKey::KeyZ) == Some(key)),
        WindowKey::Other => {},
    }
}

/// No two keys of the hook that have a code share it, but for the left and the right Ctrl and the
/// left and the right Shift.
pub proof fn law_hook_codes_distinct(a: GlobalKey, b: GlobalKey)
    requires
        global_code(a) == global_code(b),
        global_code(a) != 0,
    ensures
        ({
            ||| a == b
            ||| {
                &&& a is ControlLeft || a is ControlRight
                &&& b is ControlLeft || b is ControlRight
                &&& global_code(a) == 0x11
            }
            ||| {
                &&& a is ShiftLeft || a is ShiftRight
                &&& b is ShiftLeft || b is ShiftRight
                &&& global_code(a) == 0x10
            }
        }),
{
}

/// Two keys of the window that both have a code have different codes.
pub proof fn law_window_codes_distinct(a: WindowKey, b: WindowKey)
    requires
        window_code(a) == window_code(b),
        window_code(a) != 0,
    ensures
        a == b,
{
}

/// Whether a virtual-key code is shown under a word of its own.
spec fn has_word(vk: u32) -> bool {
    ||| vk == 0x20
    ||| vk == 0x0D
    ||| vk == 0x09
    ||| vk == 0x1B
    ||| 0x10 <= vk <= 0x12
    ||| vk == 0x14
    ||| 0x25 <= vk <= 0x28
    ||| vk == 0x08
    ||| vk == 0x2E
}

/// What the first characters of a key's name tell about its code.
proof fn lemma_key_name_head(vk: u32)
    ensures
        key_name(vk).len() >= 2,
        key_name(vk)[0] == 'F' <==> 0x70 <= vk <= 0x7B,
        key_name(vk)[0] == 'N' <==> 0x30 <= vk <= 0x39,
        key_name(vk)[0] == 'V' <==> !(0x70 <= vk <= 0x7B) && !(0x30 <= vk <= 0x39) && !has_word(vk),
        vk == 0x20 <==> key_name(vk)[0] == 'S' && key_name(vk)[1] == 'p',
        vk == 0x10 <==> key_name(vk)[0] == 'S' && key_name(vk)[1] == 'h',
        vk == 0x0D <==> key_name(vk)[0] == 'E' && key_name(vk)[1] == 'n',
        vk == 0x1B <==> key_name(vk)[0] == 'E' && key_name(vk)[1] == 's',
        vk == 0x09 <==> key_name(vk)[0] == 'T',
        vk == 0x11 <==> key_name(vk)[0] == 'C' && key_name(vk)[1] == 't',
        vk == 0x14 <==> key_name(vk)[0] == 'C' && key_name(vk)[1] == 'a',
        vk == 0x12 <==> key_name(vk)[0] == 'A',
        vk == 0x25 <==> key_name(vk)[0] == 'L',
        vk == 0x27 <==> key_name(vk)[0] == 'R',
        vk == 0x26 <==> key_name(vk)[0] == 'U',
        vk == 0x28 <==> key_name(vk)[0] == 'D' && key_name(vk)[1] == 'o',
        vk == 0x2E <==> key_name(vk)[0] == 'D' && key_name(vk)[1] == 'e',
        vk == 0x08 <==> key_name(vk)[0] == 'B',
{
    reveal_strlit("F");
    reveal_strlit("Num");
    reveal_strlit("VK=");
    reveal_strlit("Space");
    reveal_strlit("Enter");
    reveal_strlit("Tab");
    reveal_strlit("Esc");
    reveal_strlit("Ctrl");
    reveal_strlit("Alt");
    reveal_strlit("Shift");
    reveal_strlit("CapsLock");
    reveal_strlit("Left");
    reveal_strlit("Right");
    reveal_strlit("Up");
    reveal_strlit("Down");
    reveal_strlit("Backspace");
    reveal_strlit("Delete");
    if 0x70 <= vk <= 0x7B {
        lemma_decimal_value((vk - 0x6F) as nat);
    }
}

/// No two virtual-key codes are shown under the same name.
pub proof fn law_key_names_distinct(a: u32, b: u32)
    requires
        key_name(a) == key_name(b),
    ensures
        a == b,
{
    lemma_key_name_head(a);
    lemma_key_name_head(b);
    reveal_strlit("F");
    reveal_strlit("Num");
    reveal_strlit("VK=");
    if 0x70 <= a <= 0x7B {
        assert(key_name(a).skip(1) =~= decimal((a - 0x6F) as nat));
        assert(key_name(b).skip(1) =~= decimal((b - 0x6F) as nat));
        lemma_decimal_injective((a - 0x6F) as nat, (b - 0x6F) as nat);
    } else if 0x30 <= a <= 0x39 {
        assert(key_name(a).skip(3) =~= decimal((a - 0x30) as nat));
        assert(key_name(b).skip(3) =~= decimal((b - 0x30) as nat));
        lemma_decimal_injective((a - 0x30) as nat, (b - 0x30) as nat);
    } else if !has_word(a) {
        assert(key_name(a).skip(3) =~= decimal(a as nat));
        assert(key_name(b).skip(3) =~= decimal(b as nat));
        lemma_decimal_injective(a as nat, b as nat);
    }
}

} // verus!
