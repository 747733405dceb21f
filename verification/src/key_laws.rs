//! Which virtual-key code each key has, and under which name each code is shown.
use vstd::prelude::*;
use vstd::string::*;
use crate::keys::{egui_key_to_vk, GlobalKey, WindowKey};
use crate::state::SharedState;
use crate::text::{
    around_number, decimal, decimal_string, join, lemma_decimal_value, numeral_value, with_number,
};

verus! {

/// The key with the digit `n`, as the hook and as the window report it.
pub open spec fn digit_key(n: nat) -> (GlobalKey, WindowKey) {
    if n == 0 {
        (GlobalKey::Num0, WindowKey::Num0)
    } else if n == 1 {
        (GlobalKey::Num1, WindowKey::Num1)
    } else if n == 2 {
        (GlobalKey::Num2, WindowKey::Num2)
    } else if n == 3 {
        (GlobalKey::Num3, WindowKey::Num3)
    } else if n == 4 {
        (GlobalKey::Num4, WindowKey::Num4)
    } else if n == 5 {
        (GlobalKey::Num5, WindowKey::Num5)
    } else if n == 6 {
        (GlobalKey::Num6, WindowKey::Num6)
    } else if n == 7 {
        (GlobalKey::Num7, WindowKey::Num7)
    } else if n == 8 {
        (GlobalKey::Num8, WindowKey::Num8)
    } else {
        (GlobalKey::Num9, WindowKey::Num9)
    }
}

/// The function key `n`, as the hook and as the window report it.
pub open spec fn function_key(n: nat) -> (GlobalKey, WindowKey) {
    if n == 1 {
        (GlobalKey::F1, WindowKey::F1)
    } else if n == 2 {
        (GlobalKey::F2, WindowKey::F2)
    } else if n == 3 {
        (GlobalKey::F3, WindowKey::F3)
    } else if n == 4 {
        (GlobalKey::F4, WindowKey::F4)
    } else if n == 5 {
        (GlobalKey::F5, WindowKey::F5)
    } else if n == 6 {
        (GlobalKey::F6, WindowKey::F6)
    } else if n == 7 {
        (GlobalKey::F7, WindowKey::F7)
    } else if n == 8 {
        (GlobalKey::F8, WindowKey::F8)
    } else if n == 9 {
        (GlobalKey::F9, WindowKey::F9)
    } else if n == 10 {
        (GlobalKey::F10, WindowKey::F10)
    } else if n == 11 {
        (GlobalKey::F11, WindowKey::F11)
    } else {
        (GlobalKey::F12, WindowKey::F12)
    }
}

/// The key with the letter `n` of the alphabet, as the hook and as the window report it.
pub open spec fn letter_key(n: nat) -> (GlobalKey, WindowKey) {
    if n == 0 {
        (GlobalKey::KeyA, WindowKey::A)
    } else if n == 1 {
        (GlobalKey::KeyB, WindowKey::B)
    } else if n == 2 {
        (GlobalKey::KeyC, WindowKey::C)
    } else if n == 3 {
        (GlobalKey::KeyD, WindowKey::D)
    } else if n == 4 {
        (GlobalKey::KeyE, WindowKey::E)
    } else if n == 5 {
        (GlobalKey::KeyF, WindowKey::F)
    } else if n == 6 {
        (GlobalKey::KeyG, WindowKey::G)
    } else if n == 7 {
        (GlobalKey::KeyH, WindowKey::H)
    } else if n == 8 {
        (GlobalKey::KeyI, WindowKey::I)
    } else if n == 9 {
        (GlobalKey::KeyJ, WindowKey::J)
    } else if n == 10 {
        (GlobalKey::KeyK, WindowKey::K)
    } else if n == 11 {
        (GlobalKey::KeyL, WindowKey::L)
    } else if n == 12 {
        (GlobalKey::KeyM, WindowKey::M)
    } else if n == 13 {
        (GlobalKey::KeyN, WindowKey::N)
    } else if n == 14 {
        (GlobalKey::KeyO, WindowKey::O)
    } else if n == 15 {
        (GlobalKey::KeyP, WindowKey::P)
    } else if n == 16 {
        (GlobalKey::KeyQ, WindowKey::Q)
    } else if n == 17 {
        (GlobalKey::KeyR, WindowKey::R)
    } else if n == 18 {
        (GlobalKey::KeyS, WindowKey::S)
    } else if n == 19 {
        (GlobalKey::KeyT, WindowKey::T)
    } else if n == 20 {
        (GlobalKey::KeyU, WindowKey::U)
    } else if n == 21 {
        (GlobalKey::KeyV, WindowKey::V)
    } else if n == 22 {
        (GlobalKey::KeyW, WindowKey::W)
    } else if n == 23 {
        (GlobalKey::KeyX, WindowKey::X)
    } else if n == 24 {
        (GlobalKey::KeyY, WindowKey::Y)
    } else {
        (GlobalKey::KeyZ, WindowKey::Z)
    }
}

/// The code of a digit is its character, for the hook as for the window, and it is shown as `Num`
/// and the digit.
pub proof fn law_digit_keys_are_their_characters(n: nat, hooked: u32, vk: u32, name: String)
    requires
        n < 10,
        call_ensures(SharedState::key_to_vk_code, (&digit_key(n).0,), hooked),
        call_ensures(egui_key_to_vk, (digit_key(n).1,), vk),
        call_ensures(SharedState::vk_to_key_name, (vk,), name),
    ensures
        hooked == '0' as nat + n,
        vk == '0' as nat + n,
        name@ == "Num"@ + decimal(n),
{
}

/// The codes of the function keys count up from that of F1, for the hook as for the window, and they
/// are shown as `F` and the number.
pub proof fn law_function_keys_count_up(n: nat, hooked: u32, vk: u32, name: String)
    requires
        1 <= n <= 12,
        call_ensures(SharedState::key_to_vk_code, (&function_key(n).0,), hooked),
        call_ensures(egui_key_to_vk, (function_key(n).1,), vk),
        call_ensures(SharedState::vk_to_key_name, (vk,), name),
    ensures
        hooked == 0x70 + (n - 1),
        vk == 0x70 + (n - 1),
        name@ == "F"@ + decimal(n),
{
}

/// The code of a letter is its capital, for the hook as for the window, and it is shown as a number.
pub proof fn law_letter_keys_are_their_capitals(n: nat, hooked: u32, vk: u32, name: String)
    requires
        n < 26,
        call_ensures(SharedState::key_to_vk_code, (&letter_key(n).0,), hooked),
        call_ensures(egui_key_to_vk, (letter_key(n).1,), vk),
        call_ensures(SharedState::vk_to_key_name, (vk,), name),
    ensures
        hooked == 'A' as nat + n,
        vk == 'A' as nat + n,
        name@ == "VK="@ + decimal('A' as nat + n),
{
}

/// Each other key of the window has the code of Windows and is shown under its own name, or as a
/// number where it has none; a key without a code has the code zero.
pub proof fn law_window_keys_have_their_own_codes(key: WindowKey, vk: u32, name: String)
    requires
        call_ensures(egui_key_to_vk, (key,), vk),
        call_ensures(SharedState::vk_to_key_name, (vk,), name),
    ensures
        vk == 0 <==> key is Other,
        match key {
            WindowKey::ArrowLeft => vk == 0x25 && name@ == "Left"@,
            WindowKey::ArrowUp => vk == 0x26 && name@ == "Up"@,
            WindowKey::ArrowRight => vk == 0x27 && name@ == "Right"@,
            WindowKey::ArrowDown => vk == 0x28 && name@ == "Down"@,
            WindowKey::Space => vk == ' ' as u32 && name@ == "Space"@,
            WindowKey::Enter => vk == '\r' as u32 && name@ == "Enter"@,
            WindowKey::Tab => vk == '\t' as u32 && name@ == "Tab"@,
            WindowKey::Escape => vk == 0x1B && name@ == "Esc"@,
            WindowKey::Backspace => vk == 0x08 && name@ == "Backspace"@,
            WindowKey::Delete => vk == 0x2E && name@ == "Delete"@,
            WindowKey::Insert => vk == 0x2D && name@ == "VK="@ + decimal(0x2D),
            WindowKey::Home => vk == 0x24 && name@ == "VK="@ + decimal(0x24),
            WindowKey::End => vk == 0x23 && name@ == "VK="@ + decimal(0x23),
            WindowKey::PageUp => vk == 0x21 && name@ == "VK="@ + decimal(0x21),
            WindowKey::PageDown => vk == 0x22 && name@ == "VK="@ + decimal(0x22),
            _ => true,
        },
{
}

/// Each other key of the hook has the code of Windows and is shown under its own name, or as a number
/// where it has none. The left and the right of a modifier are one key.
pub proof fn law_hook_keys_have_their_own_codes(key: &GlobalKey, vk: u32, name: String)
    requires
        call_ensures(SharedState::key_to_vk_code, (key,), vk),
        call_ensures(SharedState::vk_to_key_name, (vk,), name),
    ensures
        vk == 0 <==> *key is Other,
        match *key {
            GlobalKey::LeftArrow => vk == 0x25 && name@ == "Left"@,
            GlobalKey::UpArrow => vk == 0x26 && name@ == "Up"@,
            GlobalKey::RightArrow => vk == 0x27 && name@ == "Right"@,
            GlobalKey::DownArrow => vk == 0x28 && name@ == "Down"@,
            GlobalKey::Space => vk == ' ' as u32 && name@ == "Space"@,
            GlobalKey::Return => vk == '\r' as u32 && name@ == "Enter"@,
            GlobalKey::Tab => vk == '\t' as u32 && name@ == "Tab"@,
            GlobalKey::Escape => vk == 0x1B && name@ == "Esc"@,
            GlobalKey::Backspace => vk == 0x08 && name@ == "Backspace"@,
            GlobalKey::Delete => vk == 0x2E && name@ == "Delete"@,
            GlobalKey::Insert => vk == 0x2D && name@ == "VK="@ + decimal(0x2D),
            GlobalKey::Home => vk == 0x24 && name@ == "VK="@ + decimal(0x24),
            GlobalKey::End => vk == 0x23 && name@ == "VK="@ + decimal(0x23),
            GlobalKey::PageUp => vk == 0x21 && name@ == "VK="@ + decimal(0x21),
            GlobalKey::PageDown => vk == 0x22 && name@ == "VK="@ + decimal(0x22),
            GlobalKey::ShiftLeft | GlobalKey::ShiftRight => vk == 0x10 && name@ == "Shift"@,
            GlobalKey::ControlLeft | GlobalKey::ControlRight => vk == 0x11 && name@ == "Ctrl"@,
            GlobalKey::Alt => vk == 0x12 && name@ == "Alt"@,
            GlobalKey::CapsLock => vk == 0x14 && name@ == "CapsLock"@,
            _ => true,
        },
{
}

/// A code that belongs to no key with a name of its own is shown as `VK=` and the code.
pub proof fn law_other_codes_are_shown_as_numbers(vk: u32, name: String)
    requires
        call_ensures(SharedState::vk_to_key_name, (vk,), name),
        vk < 0x08 || 0x0A <= vk <= 0x0C || 0x0E <= vk <= 0x0F || vk == 0x13 || 0x15 <= vk <= 0x1A
            || 0x1C <= vk <= 0x1F || 0x21 <= vk <= 0x24 || 0x29 <= vk <= 0x2D || vk == 0x2F || 0x3A
            <= vk <= 0x6F || vk > 0x7B,
    ensures
        name@ == "VK="@ + decimal(vk as nat),
{
}

/// Whether `s` is a number written with the digits 0 to 9 and without needless zeros in front.
pub open spec fn is_plain_numeral(s: Seq<char>) -> bool {
    &&& s.len() > 0
    &&& forall|i: int| 0 <= i < s.len() ==> '0' <= #[trigger] s[i] <= '9'
    &&& s.len() > 1 ==> s[0] != '0'
}

/// A number is written in plain decimal digits that, read from the left, give the number back; so
/// are the numbers within longer texts.
pub proof fn law_numbers_are_written_in_decimal(
    n: u64,
    prefix: &str,
    suffix: &str,
    digits: String,
    with: String,
    around: String,
    joined: String,
)
    requires
        call_ensures(decimal_string, (n,), digits),
        call_ensures(with_number, (prefix, n), with),
        call_ensures(around_number, (prefix, n, suffix), around),
        call_ensures(join, (prefix, suffix), joined),
    ensures
        is_plain_numeral(digits@),
        numeral_value(digits@) == n,
        with@ == prefix@ + digits@,
        around@ == prefix@ + digits@ + suffix@,
        joined@ == prefix@ + suffix@,
{
    lemma_decimal_value(n as nat);
    lemma_decimal_is_plain(n as nat);
}

proof fn lemma_decimal_is_plain(n: nat)
    ensures
        is_plain_numeral(decimal(n)),
        n > 0 ==> decimal(n)[0] != '0',
    decreases n,
{
    if n >= 10 {
        lemma_decimal_is_plain(n / 10);
        let shorter = decimal(n / 10);
        assert(decimal(n).drop_last() =~= shorter);
        assert forall|i: int| 0 <= i < decimal(n).len() implies '0' <= #[trigger] decimal(n)[i]
            <= '9' by {
            if i < shorter.len() {
                assert(decimal(n)[i] == shorter[i]);
            }
        }
        assert(decimal(n)[0] == shorter[0]);
    }
}

} // verus!
