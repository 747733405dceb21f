use autoclicker::keys::{egui_key_to_vk, GlobalKey, WindowKey};
use autoclicker::state::SharedState;

const LETTERS: [(GlobalKey, WindowKey); 26] = [
    (GlobalKey::KeyA, WindowKey::A),
    (GlobalKey::KeyB, WindowKey::B),
    (GlobalKey::KeyC, WindowKey::C),
    (GlobalKey::KeyD, WindowKey::D),
    (GlobalKey::KeyE, WindowKey::E),
    (GlobalKey::KeyF, WindowKey::F),
    (GlobalKey::KeyG, WindowKey::G),
    (GlobalKey::KeyH, WindowKey::H),
    (GlobalKey::KeyI, WindowKey::I),
    (GlobalKey::KeyJ, WindowKey::J),
    (GlobalKey::KeyK, WindowKey::K),
    (GlobalKey::KeyL, WindowKey::L),
    (GlobalKey::KeyM, WindowKey::M),
    (GlobalKey::KeyN, WindowKey::N),
    (GlobalKey::KeyO, WindowKey::O),
    (GlobalKey::KeyP, WindowKey::P),
    (GlobalKey::KeyQ, WindowKey::Q),
    (GlobalKey::KeyR, WindowKey::R),
    (GlobalKey::KeyS, WindowKey::S),
    (GlobalKey::KeyT, WindowKey::T),
    (GlobalKey::KeyU, WindowKey::U),
    (GlobalKey::KeyV, WindowKey::V),
    (GlobalKey::KeyW, WindowKey::W),
    (GlobalKey::KeyX, WindowKey::X),
    (GlobalKey::KeyY, WindowKey::Y),
    (GlobalKey::KeyZ, WindowKey::Z),
];

#[test]
fn function_keys_have_their_names() {
    assert_eq!(SharedState::vk_to_key_name(0x70), "F1");
    assert_eq!(SharedState::vk_to_key_name(0x75), "F6");
    assert_eq!(SharedState::vk_to_key_name(0x79), "F10");
    assert_eq!(SharedState::vk_to_key_name(0x7A), "F11");
    assert_eq!(SharedState::vk_to_key_name(0x7B), "F12");
    assert_eq!(SharedState::vk_to_key_name(0x7C), "VK=124");
}

#[test]
fn digits_and_words_have_their_names() {
    assert_eq!(SharedState::vk_to_key_name(0x30), "Num0");
    assert_eq!(SharedState::vk_to_key_name(0x39), "Num9");
    assert_eq!(SharedState::vk_to_key_name(0x2F), "VK=47");
    assert_eq!(SharedState::vk_to_key_name(0x20), "Space");
    assert_eq!(SharedState::vk_to_key_name(0x0D), "Enter");
    assert_eq!(SharedState::vk_to_key_name(0x09), "Tab");
    assert_eq!(SharedState::vk_to_key_name(0x1B), "Esc");
    assert_eq!(SharedState::vk_to_key_name(0x11), "Ctrl");
    assert_eq!(SharedState::vk_to_key_name(0x12), "Alt");
    assert_eq!(SharedState::vk_to_key_name(0x10), "Shift");
    assert_eq!(SharedState::vk_to_key_name(0x14), "CapsLock");
    assert_eq!(SharedState::vk_to_key_name(0x25), "Left");
    assert_eq!(SharedState::vk_to_key_name(0x26), "Up");
    assert_eq!(SharedState::vk_to_key_name(0x27), "Right");
    assert_eq!(SharedState::vk_to_key_name(0x28), "Down");
    assert_eq!(SharedState::vk_to_key_name(0x08), "Backspace");
    assert_eq!(SharedState::vk_to_key_name(0x2E), "Delete");
}

#[test]
fn any_other_code_is_shown_as_a_number() {
    assert_eq!(SharedState::vk_to_key_name(0), "VK=0");
    assert_eq!(SharedState::vk_to_key_name(0x41), "VK=65");
    assert_eq!(SharedState::vk_to_key_name(u32::MAX), "VK=4294967295");
}

#[test]
fn hook_keys_have_their_codes() {
    assert_eq!(SharedState::key_to_vk_code(&GlobalKey::Num0), 0x30);
    assert_eq!(SharedState::key_to_vk_code(&GlobalKey::Num9), 0x39);
    assert_eq!(SharedState::key_to_vk_code(&GlobalKey::F1), 0x70);
    assert_eq!(SharedState::key_to_vk_code(&GlobalKey::F12), 0x7B);
    assert_eq!(SharedState::key_to_vk_code(&GlobalKey::Return), 0x0D);
    assert_eq!(SharedState::key_to_vk_code(&GlobalKey::CapsLock), 0x14);
    assert_eq!(SharedState::key_to_vk_code(&GlobalKey::Delete), 0x2E);
}

#[test]
fn left_and_right_modifiers_share_a_code() {
    assert_eq!(SharedState::key_to_vk_code(&GlobalKey::ControlLeft), 0x11);
    assert_eq!(SharedState::key_to_vk_code(&GlobalKey::ControlRight), 0x11);
    assert_eq!(SharedState::key_to_vk_code(&GlobalKey::ShiftLeft), 0x10);
    assert_eq!(SharedState::key_to_vk_code(&GlobalKey::ShiftRight), 0x10);
    assert_eq!(SharedState::key_to_vk_code(&GlobalKey::Alt), 0x12);
}

#[test]
fn letters_have_the_codes_of_their_capitals() {
    for (i, (global, window)) in LETTERS.into_iter().enumerate() {
        assert_eq!(SharedState::key_to_vk_code(&global), 0x41 + i as u32);
        assert_eq!(egui_key_to_vk(window), 0x41 + i as u32);
    }
}

#[test]
fn keys_for_moving_about_have_their_codes() {
    assert_eq!(SharedState::key_to_vk_code(&GlobalKey::Insert), 0x2D);
    assert_eq!(SharedState::key_to_vk_code(&GlobalKey::Home), 0x24);
    assert_eq!(SharedState::key_to_vk_code(&GlobalKey::End), 0x23);
    assert_eq!(SharedState::key_to_vk_code(&GlobalKey::PageUp), 0x21);
    assert_eq!(SharedState::key_to_vk_code(&GlobalKey::PageDown), 0x22);
}

#[test]
fn any_other_key_has_no_code() {
    assert_eq!(SharedState::key_to_vk_code(&GlobalKey::Other), 0);
    assert_eq!(egui_key_to_vk(WindowKey::Other), 0);
}

#[test]
fn window_keys_have_their_codes() {
    assert_eq!(egui_key_to_vk(WindowKey::A), 0x41);
    assert_eq!(egui_key_to_vk(WindowKey::K), 0x4B);
    assert_eq!(egui_key_to_vk(WindowKey::Z), 0x5A);
    assert_eq!(egui_key_to_vk(WindowKey::Insert), 0x2D);
    assert_eq!(egui_key_to_vk(WindowKey::Home), 0x24);
    assert_eq!(egui_key_to_vk(WindowKey::End), 0x23);
    assert_eq!(egui_key_to_vk(WindowKey::PageUp), 0x21);
    assert_eq!(egui_key_to_vk(WindowKey::PageDown), 0x22);
    assert_eq!(egui_key_to_vk(WindowKey::Other), 0);
}

#[test]
fn hook_and_window_agree() {
    let pairs = [
        (GlobalKey::Num5, WindowKey::Num5),
        (GlobalKey::F6, WindowKey::F6),
        (GlobalKey::F7, WindowKey::F7),
        (GlobalKey::Return, WindowKey::Enter),
        (GlobalKey::LeftArrow, WindowKey::ArrowLeft),
        (GlobalKey::UpArrow, WindowKey::ArrowUp),
        (GlobalKey::Backspace, WindowKey::Backspace),
    ];
    for (global, window) in pairs {
        assert_eq!(SharedState::key_to_vk_code(&global), egui_key_to_vk(window));
    }
}

#[test]
fn no_two_codes_share_a_name() {
    let names: std::collections::HashSet<String> =
        (0..1000).map(SharedState::vk_to_key_name).collect();
    assert_eq!(names.len(), 1000);
}
