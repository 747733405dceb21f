use autoclicker::labels::{
    add_button_label, autoclicker_key_label, can_add_macro, click_button_label, count_label,
    failsafe_label, key_feedback, macro_row, macro_rows, macro_state_label, master_key_label,
    master_label, mode_label, on_off_label, status_label, value_label, waiting_label,
};
use autoclicker::macros::{Macro, MacroButtonState, MacroKeyPress};
use autoclicker::model::{KeyOutcome, REBIND_AUTOCLICKER, SLOW_MODE};
use autoclicker::state::SharedState;

#[test]
fn the_autoclicker_tab_tells_mode_and_status() {
    let mut state = SharedState::new();
    assert_eq!(mode_label(&state), "Mode: CPS ");
    assert_eq!(value_label(&state), "CPS (Clicks per Second):");
    state.set_mode(SLOW_MODE);
    assert_eq!(mode_label(&state), "Mode: SLOW ");
    assert_eq!(value_label(&state), "Click Interval (seconds):");
    assert_eq!(status_label(true), "Status: RUNNING");
    assert_eq!(status_label(false), "Status: STOPPED");
    assert_eq!(click_button_label(true), "Stop Clicking");
    assert_eq!(click_button_label(false), "Start Clicking");
}

#[test]
fn the_macros_tab_counts() {
    let mut state = SharedState::new();
    assert_eq!(count_label(&state), "Active Macros: 0/50");
    assert!(can_add_macro(&state));
    for _ in 0..50 {
        state.add_macro();
    }
    assert_eq!(count_label(&state), "Active Macros: 50/50");
    assert!(!can_add_macro(&state));
    assert_eq!(add_button_label(true), "Add Macro (+)");
    assert_eq!(add_button_label(false), "Add Macro (+) [disabled]");
}

#[test]
fn the_master_switch_names_its_key() {
    let mut state = SharedState::new();
    let off = master_label(&state);
    assert!(!off.on);
    assert_eq!(
        off.text,
        "Master Switch: OFF — armed macros will NOT fire until you press F7"
    );
    state.toggle_macros();
    let on = master_label(&state);
    assert!(on.on);
    assert_eq!(on.text, "Master Switch: ON  (press F7 to disable)");
}

#[test]
fn a_macro_tells_where_it_stands() {
    let mut m = Macro::default();
    assert_eq!(macro_state_label(&m), "State: Idle");
    m.state = MacroButtonState::WaitingKey;
    assert_eq!(macro_state_label(&m), "State: Waiting for key...");
    m.state = MacroButtonState::Running;
    m.repetition_count = 12;
    assert_eq!(macro_state_label(&m), "State: Running (12/∞)");
    m.repeat_count = 1000;
    assert_eq!(macro_state_label(&m), "State: Running (12/1000)");
}

#[test]
fn a_row_shows_its_macro() {
    let mut m = Macro::default();
    m.id = 31;
    m.repeat_count = 4;
    let row = macro_row(&m);
    assert_eq!(row.id, 31);
    assert_eq!(row.title, "Macro #31");
    assert_eq!(row.recorded, None);
    assert_eq!(row.repeat_count, 4);
    assert_eq!(f32::from_bits(row.repeat_interval), 0.1);
    m.recorded_key = Some(MacroKeyPress { vk_code: 65 });
    assert_eq!(macro_row(&m).recorded, Some("Recorded key: VK=65".to_string()));
}

#[test]
fn rows_stand_in_the_order_of_their_numbers() {
    let mut state = SharedState::new();
    for _ in 0..12 {
        state.add_macro();
    }
    state.remove_macro(5);
    state.remove_macro(9);
    state.add_macro();
    let titles: Vec<String> = macro_rows(&state).into_iter().map(|row| row.title).collect();
    let expected: Vec<String> =
        [1, 2, 3, 4, 6, 7, 8, 9, 10, 11, 12].iter().map(|n| format!("Macro #{}", n)).collect();
    assert_eq!(titles, expected);
}

#[test]
fn the_settings_tab_names_the_hotkeys() {
    let mut state = SharedState::new();
    assert_eq!(autoclicker_key_label(&state), "Autoclicker Toggle: F6");
    assert_eq!(master_key_label(&state), "Macro Master Switch: F7");
    assert_eq!(waiting_label(&state), None);
    state.set_rebinding_target(REBIND_AUTOCLICKER);
    assert_eq!(waiting_label(&state), Some("WAITING FOR KEY PRESS..."));
    assert_eq!(on_off_label(true), "(ON)");
    assert_eq!(on_off_label(false), "(OFF)");
}

#[test]
fn the_failsafe_tells_what_it_does() {
    assert_eq!(
        failsafe_label(true),
        "✅ Failsafe is ON — Autoclicker and macros will auto-stop when window loses focus."
    );
    assert_eq!(
        failsafe_label(false),
        "❌ Failsafe is OFF — Autoclicker and macros will continue even when window is unfocused."
    );
}

#[test]
fn only_bindings_and_recordings_are_answered() {
    assert_eq!(
        key_feedback(0x26, KeyOutcome::Recorded { macro_id: 50 }),
        Some("Key Up recorded for macro #50".to_string())
    );
    assert_eq!(
        key_feedback(0x20, KeyOutcome::AutoclickerKeySet),
        Some("Autoclicker key set to Space".to_string())
    );
    assert_eq!(
        key_feedback(0x31, KeyOutcome::MasterSwitchKeySet),
        Some("Macro master switch key set to Num1".to_string())
    );
    let silent = [
        KeyOutcome::Unknown,
        KeyOutcome::BindingDropped,
        KeyOutcome::LeftToWidget,
        KeyOutcome::AutoclickerToggled,
        KeyOutcome::MasterSwitchToggled,
        KeyOutcome::Unbound,
    ];
    for outcome in silent {
        assert_eq!(key_feedback(0x20, outcome), None);
    }
}
