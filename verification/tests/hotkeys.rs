use autoclicker::keys::{GlobalKey, WindowKey};
use autoclicker::macros::{MacroButtonState, MacroKeyPress};
use autoclicker::model::{KeyOutcome, REBIND_AUTOCLICKER, REBIND_MASTER_SWITCH};
use autoclicker::state::{global_key_handler, hook_key_pressed, SharedState};

const OURS: isize = 77;
const GAME: isize = 99;
const F6: u32 = 0x75;
const F7: u32 = 0x76;
const C: u32 = 0x43;

fn unfocused() -> SharedState {
    let mut state = SharedState::new();
    state.set_target_hwnd(OURS);
    state.update_failsafe_from_gui(GAME);
    assert!(!state.window_focused());
    state
}

#[test]
fn losing_the_focus_stops_everything() {
    let mut state = SharedState::new();
    state.set_target_hwnd(OURS);
    state.toggle_running();
    state.toggle_macros();
    state.update_failsafe_from_gui(OURS);
    assert!(state.is_running() && state.macros_enabled());
    state.update_failsafe_from_gui(GAME);
    assert!(!state.is_running());
    assert!(!state.macros_enabled());
}

#[test]
fn staying_unfocused_stops_nothing() {
    let mut state = unfocused();
    global_key_handler(&mut state, &GlobalKey::F6);
    global_key_handler(&mut state, &GlobalKey::F7);
    state.update_failsafe_from_gui(GAME);
    state.update_failsafe_from_gui(GAME + 1);
    assert!(state.is_running());
    assert!(state.macros_enabled());
}

#[test]
fn the_failsafe_can_be_switched_off() {
    let mut state = SharedState::new();
    state.set_target_hwnd(OURS);
    state.set_failsafe_enabled(false);
    state.toggle_running();
    state.update_failsafe_from_gui(GAME);
    assert!(state.is_running());
    assert!(!state.window_focused());
}

#[test]
fn nothing_happens_before_the_window_is_known() {
    let mut state = SharedState::new();
    state.toggle_running();
    state.update_failsafe_from_gui(GAME);
    assert!(state.is_running());
    assert!(state.window_focused());
}

#[test]
fn the_hook_is_not_listened_to_while_the_window_has_the_focus() {
    let mut state = SharedState::new();
    global_key_handler(&mut state, &GlobalKey::F6);
    global_key_handler(&mut state, &GlobalKey::F7);
    assert!(!state.is_running());
    assert!(!state.macros_enabled());
}

#[test]
fn the_hook_toggles_while_the_window_is_unfocused() {
    let mut state = unfocused();
    global_key_handler(&mut state, &GlobalKey::F6);
    assert!(state.is_running());
    assert!(!state.macros_enabled());
    global_key_handler(&mut state, &GlobalKey::F6);
    assert!(!state.is_running());
    global_key_handler(&mut state, &GlobalKey::F7);
    assert!(state.macros_enabled());
    global_key_handler(&mut state, &GlobalKey::F8);
    global_key_handler(&mut state, &GlobalKey::KeyA);
    global_key_handler(&mut state, &GlobalKey::Other);
    assert!(!state.is_running());
    assert!(state.macros_enabled());
}

#[test]
fn a_letter_bound_in_the_window_works_while_it_is_unfocused() {
    let mut state = SharedState::new();
    state.set_target_hwnd(OURS);
    state.set_rebinding_target(REBIND_AUTOCLICKER);
    state.window_key_press(0x41, false);
    state.update_failsafe_from_gui(GAME);
    global_key_handler(&mut state, &GlobalKey::KeyA);
    assert!(state.is_running());
    assert!(!state.macros_enabled());
    global_key_handler(&mut state, &GlobalKey::KeyB);
    assert!(state.is_running());
    global_key_handler(&mut state, &GlobalKey::KeyA);
    assert!(!state.is_running());
}

#[test]
fn every_bindable_key_works_through_the_hook() {
    let pairs = [
        (WindowKey::Z, GlobalKey::KeyZ),
        (WindowKey::Insert, GlobalKey::Insert),
        (WindowKey::Home, GlobalKey::Home),
        (WindowKey::End, GlobalKey::End),
        (WindowKey::PageUp, GlobalKey::PageUp),
        (WindowKey::PageDown, GlobalKey::PageDown),
        (WindowKey::Enter, GlobalKey::Return),
        (WindowKey::Num0, GlobalKey::Num0),
    ];
    for (window, hooked) in pairs {
        let mut state = SharedState::new();
        state.set_target_hwnd(OURS);
        state.set_rebinding_target(REBIND_MASTER_SWITCH);
        state.window_key_press(autoclicker::keys::egui_key_to_vk(window), false);
        state.update_failsafe_from_gui(GAME);
        hook_key_pressed(&mut state, &hooked);
        assert!(state.macros_enabled());
        assert!(!state.is_running());
    }
}

#[test]
fn the_hook_is_not_listened_to_once_the_application_ends() {
    let mut state = unfocused();
    hook_key_pressed(&mut state, &GlobalKey::F7);
    assert!(state.macros_enabled());
    state.begin_shutdown();
    hook_key_pressed(&mut state, &GlobalKey::F6);
    hook_key_pressed(&mut state, &GlobalKey::F7);
    assert!(!state.is_running());
    assert!(state.macros_enabled());
}

#[test]
fn hotkeys_toggle_in_the_window() {
    let mut state = SharedState::new();
    assert_eq!(state.window_key_press(F6, false), KeyOutcome::AutoclickerToggled);
    assert!(state.is_running());
    assert_eq!(state.window_key_press(F7, false), KeyOutcome::MasterSwitchToggled);
    assert!(state.macros_enabled());
    assert_eq!(state.window_key_press(C, false), KeyOutcome::Unbound);
    assert_eq!(state.window_key_press(0, false), KeyOutcome::Unknown);
}

#[test]
fn an_edited_widget_keeps_the_keys() {
    let mut state = SharedState::new();
    assert_eq!(state.window_key_press(F6, true), KeyOutcome::LeftToWidget);
    assert!(!state.is_running());
}

#[test]
fn a_press_seen_twice_counts_once() {
    let mut state = SharedState::new();
    state.window_key_press(F6, false);
    global_key_handler(&mut state, &GlobalKey::F6);
    assert!(state.is_running());
}

#[test]
fn the_autoclicker_key_can_be_bound() {
    let mut state = SharedState::new();
    state.set_rebinding_target(REBIND_AUTOCLICKER);
    assert_eq!(state.window_key_press(C, true), KeyOutcome::AutoclickerKeySet);
    assert_eq!(state.autoclicker_key(), C);
    assert_eq!(state.rebinding_target(), 0);
    assert!(!state.is_running());
    assert_eq!(state.window_key_press(C, false), KeyOutcome::AutoclickerToggled);
    assert_eq!(state.window_key_press(F6, false), KeyOutcome::Unbound);
}

#[test]
fn the_master_switch_key_can_be_bound() {
    let mut state = SharedState::new();
    state.set_rebinding_target(REBIND_MASTER_SWITCH);
    assert_eq!(state.window_key_press(F6, false), KeyOutcome::MasterSwitchKeySet);
    assert_eq!(state.master_switch_key(), F6);
    assert!(!state.is_running());
    // The autoclicker is looked at first where both have the same key.
    assert_eq!(state.window_key_press(F6, false), KeyOutcome::AutoclickerToggled);
}

#[test]
fn a_binding_for_neither_hotkey_just_ends() {
    let mut state = SharedState::new();
    state.set_rebinding_target(5);
    assert_eq!(state.window_key_press(F6, false), KeyOutcome::BindingDropped);
    assert_eq!(state.rebinding_target(), 0);
    assert_eq!(state.autoclicker_key(), F6);
    assert!(!state.is_running());
}

#[test]
fn an_unknown_key_does_not_end_a_binding() {
    let mut state = SharedState::new();
    state.set_rebinding_target(REBIND_AUTOCLICKER);
    assert_eq!(state.window_key_press(0, false), KeyOutcome::Unknown);
    assert_eq!(state.rebinding_target(), REBIND_AUTOCLICKER);
}

#[test]
fn the_current_macro_records_before_the_hotkeys_work() {
    let mut state = SharedState::new();
    state.add_macro();
    state.set_current_macro_id(1);
    state.start_stop_macro(1);
    assert_eq!(state.window_key_press(F6, true), KeyOutcome::Recorded { macro_id: 1 });
    let m = state.get_macro(1).unwrap();
    assert_eq!(m.state, MacroButtonState::Running);
    assert_eq!(m.recorded_key, Some(MacroKeyPress { vk_code: F6 }));
    assert!(!state.is_running());
    assert!(!state.macros_enabled());
    assert_eq!(state.window_key_press(F6, false), KeyOutcome::AutoclickerToggled);
}

#[test]
fn only_the_current_macro_records() {
    let mut state = SharedState::new();
    state.add_macro();
    state.start_stop_macro(1);
    assert_eq!(state.window_key_press(C, false), KeyOutcome::Unbound);
    state.set_current_macro_id(2);
    assert_eq!(state.window_key_press(C, false), KeyOutcome::Unbound);
    state.set_current_macro_id(1);
    assert_eq!(state.window_key_press(C, false), KeyOutcome::Recorded { macro_id: 1 });
}

#[test]
fn binding_comes_before_recording() {
    let mut state = SharedState::new();
    state.add_macro();
    state.set_current_macro_id(1);
    state.start_stop_macro(1);
    state.set_rebinding_target(REBIND_AUTOCLICKER);
    assert_eq!(state.window_key_press(C, false), KeyOutcome::AutoclickerKeySet);
    assert_eq!(state.get_macro(1).unwrap().state, MacroButtonState::WaitingKey);
    assert_eq!(state.window_key_press(C, false), KeyOutcome::Recorded { macro_id: 1 });
}
