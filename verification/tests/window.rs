use autoclicker::gui::{
    key_presses_in, AutoclickerApp, FrameInput, KeyReport, Tab, WindowEvent, FEEDBACK_DURATION,
};
use autoclicker::keys::WindowKey;
use autoclicker::macros::{MacroButtonState, StartStop};
use autoclicker::model::{KeyOutcome, REBIND_AUTOCLICKER, REBIND_MASTER_SWITCH};
use autoclicker::state::SharedState;

const OURS: isize = 77;
const GAME: isize = 99;

fn press(key: WindowKey) -> WindowEvent {
    WindowEvent::Key { key, pressed: true, repeat: false }
}

fn new_app() -> AutoclickerApp<&'static str> {
    AutoclickerApp::new()
}

fn frame(active: isize, foreground: isize, events: Vec<WindowEvent>) -> FrameInput {
    FrameInput { active_window: active, foreground_window: foreground, events, editing: false }
}

#[test]
fn the_window_starts_on_the_autoclicker_tab() {
    let mut app = new_app();
    assert_eq!(app.selected_tab(), Tab::Autoclicker);
    assert!(!app.hwnd_initialized());
    assert_eq!(app.feedback(0), None);
    app.select_tab(Tab::Macros);
    assert_eq!(app.selected_tab(), Tab::Macros);
}

#[test]
fn held_and_released_keys_are_no_presses() {
    let events = vec![
        press(WindowKey::A),
        WindowEvent::Key { key: WindowKey::B, pressed: true, repeat: true },
        WindowEvent::Other,
        WindowEvent::Key { key: WindowKey::C, pressed: false, repeat: false },
        press(WindowKey::D),
    ];
    let keys = key_presses_in(&events);
    assert_eq!(keys.len(), 2);
    assert!(matches!(keys[0], WindowKey::A));
    assert!(matches!(keys[1], WindowKey::D));
}

#[test]
fn feedback_is_shown_for_two_seconds() {
    let mut app = new_app();
    assert_eq!(FEEDBACK_DURATION, 2_000_000_000);
    app.set_feedback("hello".to_string(), 100);
    assert_eq!(app.feedback(100), Some("hello".to_string()));
    assert_eq!(app.feedback(50), Some("hello".to_string()));
    assert_eq!(app.feedback(2_000_000_099), Some("hello".to_string()));
    assert_eq!(app.feedback(2_000_000_100), None);
    assert_eq!(app.feedback(100), None);
}

#[test]
fn threads_are_kept_by_number() {
    let mut app = new_app();
    assert_eq!(app.start_macro_executor(1, "one"), None);
    assert_eq!(app.start_macro_executor(2, "two"), None);
    assert_eq!(app.start_macro_executor(1, "uno"), Some("one"));
    assert_eq!(app.stop_macro_executor(1), Some("uno"));
    assert_eq!(app.stop_macro_executor(1), None);
    assert_eq!(app.stop_macro_executor(2), Some("two"));
}

#[test]
fn all_threads_are_given_up_at_once() {
    let mut app = new_app();
    app.start_macro_executor(1, "one");
    app.start_macro_executor(3, "three");
    app.start_macro_executor(7, "seven");
    let mut handles = app.stop_all_macros();
    handles.sort();
    assert_eq!(handles, vec!["one", "seven", "three"]);
    assert!(app.stop_all_macros().is_empty());
}

#[test]
fn closing_ends_everything() {
    let mut app = new_app();
    let mut state = SharedState::new();
    state.toggle_running();
    app.start_macro_executor(4, "four");
    assert_eq!(app.close(&mut state), vec!["four"]);
    assert!(state.is_shut_down());
    assert!(!state.is_running());
}

#[test]
fn the_handle_of_the_window_is_taken_once() {
    let mut app = new_app();
    let mut state = SharedState::new();
    app.note_active_window(&mut state, 0);
    assert!(!app.hwnd_initialized());
    app.note_active_window(&mut state, OURS);
    assert!(app.hwnd_initialized());
    app.note_active_window(&mut state, GAME);
    app.check_focus(&mut state, GAME);
    assert!(!state.window_focused());
    app.check_focus(&mut state, OURS);
    assert!(state.window_focused());
}

#[test]
fn the_focus_is_not_looked_at_before_the_window_is_known() {
    let app = new_app();
    let mut state = SharedState::new();
    state.set_target_hwnd(OURS);
    app.check_focus(&mut state, GAME);
    assert!(state.window_focused());
}

#[test]
fn a_frame_handles_its_keys_in_order() {
    let mut app = new_app();
    let mut state = SharedState::new();
    let events = vec![press(WindowKey::F6), press(WindowKey::Other), press(WindowKey::F7)];
    let reports = app.begin_frame(&mut state, &frame(OURS, OURS, events), 0);
    assert_eq!(
        reports,
        vec![
            KeyReport { vk: 0x75, outcome: KeyOutcome::AutoclickerToggled },
            KeyReport { vk: 0, outcome: KeyOutcome::Unknown },
            KeyReport { vk: 0x76, outcome: KeyOutcome::MasterSwitchToggled },
        ]
    );
    assert!(state.is_running());
    assert!(state.macros_enabled());
    assert_eq!(app.feedback(0), None);
}

#[test]
fn a_frame_that_lost_the_focus_handles_no_keys() {
    let mut app = new_app();
    let mut state = SharedState::new();
    app.begin_frame(&mut state, &frame(OURS, OURS, vec![press(WindowKey::F6)]), 0);
    assert!(state.is_running());
    let reports = app.begin_frame(&mut state, &frame(0, GAME, vec![press(WindowKey::F7)]), 1);
    assert!(reports.is_empty());
    assert!(!state.is_running());
    assert!(!state.macros_enabled());
}

#[test]
fn two_frames_are_as_good_as_one() {
    let keys = [WindowKey::F6, WindowKey::F7, WindowKey::C, WindowKey::F6];
    let mut one_app = new_app();
    let mut one = SharedState::new();
    let all: Vec<WindowKey> = keys.to_vec();
    let together = one_app.handle_key_presses(&mut one, &all, false, 0);
    let mut two_app = new_app();
    let mut two = SharedState::new();
    let mut apart = two_app.handle_key_presses(&mut two, &keys[..2].to_vec(), false, 0);
    apart.extend(two_app.handle_key_presses(&mut two, &keys[2..].to_vec(), false, 0));
    assert_eq!(together, apart);
    assert_eq!(one.is_running(), two.is_running());
    assert_eq!(one.macros_enabled(), two.macros_enabled());
}

#[test]
fn recording_a_key_is_answered() {
    let mut app = new_app();
    let mut state = SharedState::new();
    assert_eq!(app.add_macro_clicked(&mut state, 0), 1);
    assert_eq!(app.feedback(0), Some("Added macro #1".to_string()));
    app.set_current_clicked(&mut state, 1, 0);
    assert_eq!(app.feedback(0), Some("Macro #1 is now current".to_string()));
    let started = (Some(StartStop::Started), None);
    assert_eq!(app.start_stop_clicked(&mut state, 1, 0), started);
    assert_eq!(app.feedback(0), Some("Macro #1: press a key to record".to_string()));
    let keys = vec![WindowKey::Space, WindowKey::F7];
    let reports = app.handle_key_presses(&mut state, &keys, false, 5);
    assert_eq!(reports[0].outcome, KeyOutcome::Recorded { macro_id: 1 });
    assert_eq!(reports[1].outcome, KeyOutcome::MasterSwitchToggled);
    assert_eq!(app.feedback(5), Some("Key Space recorded for macro #1".to_string()));
    app.start_macro_executor(1, "one");
    app.start_macro_executor(2, "two");
    let stopped = (Some(StartStop::Stopped), Some("one"));
    assert_eq!(app.start_stop_clicked(&mut state, 1, 6), stopped);
    assert_eq!(app.stop_macro_executor(1), None);
    assert_eq!(app.stop_macro_executor(2), Some("two"));
    assert_eq!(app.feedback(6), Some("Macro #1 stopped".to_string()));
    assert_eq!(state.get_macro(1).unwrap().state, MacroButtonState::Idle);
    assert_eq!(app.start_stop_clicked(&mut state, 9, 7), (None, None));
}

#[test]
fn removing_the_current_macro_unselects_it() {
    let mut app = new_app();
    let mut state = SharedState::new();
    app.add_macro_clicked(&mut state, 0);
    app.add_macro_clicked(&mut state, 0);
    app.set_current_clicked(&mut state, 2, 0);
    app.start_macro_executor(2, "two");
    assert_eq!(app.remove_macro_clicked(&mut state, 1, 0), None);
    assert_eq!(state.get_current_macro_id(), 2);
    assert_eq!(app.remove_macro_clicked(&mut state, 2, 0), Some("two"));
    assert_eq!(app.stop_macro_executor(2), None);
    assert_eq!(state.get_current_macro_id(), 0);
    assert_eq!(app.feedback(0), Some("Removed macro #2".to_string()));
    assert_eq!(state.macro_count(), 0);
}

#[test]
fn a_refused_macro_is_not_answered() {
    let mut app = new_app();
    let mut state = SharedState::new();
    for _ in 0..50 {
        state.add_macro();
    }
    assert_eq!(app.add_macro_clicked(&mut state, 0), 0);
    assert_eq!(app.feedback(0), None);
}

#[test]
fn hotkeys_are_bound_from_the_settings() {
    let mut app = new_app();
    let mut state = SharedState::new();
    app.change_autoclicker_key_clicked(&mut state, 0);
    assert_eq!(state.rebinding_target(), REBIND_AUTOCLICKER);
    assert_eq!(app.feedback(0), Some("Press new key for Autoclicker...".to_string()));
    app.handle_key_presses(&mut state, &vec![WindowKey::F10], true, 0);
    assert_eq!(app.feedback(0), Some("Autoclicker key set to F10".to_string()));
    app.change_master_switch_key_clicked(&mut state, 0);
    assert_eq!(state.rebinding_target(), REBIND_MASTER_SWITCH);
    assert_eq!(app.feedback(0), Some("Press new key for Macro Switch...".to_string()));
    app.handle_key_presses(&mut state, &vec![WindowKey::A], true, 0);
    assert_eq!(app.feedback(0), Some("Macro master switch key set to VK=65".to_string()));
    assert_eq!(state.autoclicker_key(), 0x79);
    assert_eq!(state.master_switch_key(), 0x41);
}

#[test]
fn frames_come_faster_while_something_changes() {
    let mut app = new_app();
    let mut state = SharedState::new();
    assert_eq!(app.repaint_delay(&state), 200);
    state.toggle_running();
    assert_eq!(app.repaint_delay(&state), 16);
    state.toggle_running();
    state.toggle_macros();
    assert_eq!(app.repaint_delay(&state), 16);
    state.toggle_macros();
    state.set_rebinding_target(REBIND_MASTER_SWITCH);
    assert_eq!(app.repaint_delay(&state), 16);
    state.set_rebinding_target(0);
    app.set_feedback("hello".to_string(), 0);
    assert_eq!(app.repaint_delay(&state), 16);
    app.feedback(FEEDBACK_DURATION);
    assert_eq!(app.repaint_delay(&state), 200);
}
