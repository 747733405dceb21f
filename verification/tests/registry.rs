use autoclicker::macros::{Macro, MacroButtonState, MacroKeyPress, StartStop};
use autoclicker::model::MAX_MACROS;
use autoclicker::state::SharedState;

fn ids(state: &SharedState) -> Vec<u32> {
    state.snapshot_sorted().iter().map(|m| m.id).collect()
}

#[test]
fn a_new_macro_is_idle_and_presses_ten_times_a_second() {
    let m = Macro::default();
    assert_eq!(m.id, 0);
    assert_eq!(f32::from_bits(m.repeat_interval), 0.1);
    assert_eq!(m.repeat_count, 0);
    assert_eq!(m.repetition_count, 0);
    assert_eq!(m.state, MacroButtonState::Idle);
    assert_eq!(m.recorded_key, None);
}

#[test]
fn the_state_starts_with_its_defaults() {
    let state = SharedState::new();
    assert!(!state.is_running());
    assert!(!state.is_shut_down());
    assert!(!state.macros_enabled());
    assert!(!state.is_slow_mode());
    assert!(state.failsafe_enabled());
    assert!(state.window_focused());
    assert_eq!(f32::from_bits(state.get_cps()), 1.0);
    assert_eq!(f32::from_bits(state.get_slow()), 10.0);
    assert_eq!(state.autoclicker_key(), 0x75);
    assert_eq!(state.master_switch_key(), 0x76);
    assert_eq!(state.rebinding_target(), 0);
    assert_eq!(state.get_current_macro_id(), 0);
    assert_eq!(state.macro_count(), 0);
}

#[test]
fn numbers_count_up_from_one() {
    let mut state = SharedState::new();
    for expected in 1..=10 {
        assert_eq!(state.add_macro(), expected);
    }
    assert_eq!(ids(&state), (1..=10).collect::<Vec<u32>>());
}

#[test]
fn there_is_room_for_fifty_macros() {
    let mut state = SharedState::new();
    for expected in 1..=50 {
        assert_eq!(state.add_macro(), expected);
    }
    assert_eq!(state.macro_count(), MAX_MACROS);
    assert_eq!(state.add_macro(), 0);
    assert_eq!(state.macro_count(), 50);
    assert!(state.remove_macro(17));
    assert_eq!(state.add_macro(), 17);
    assert_eq!(state.add_macro(), 0);
}

#[test]
fn the_number_freed_last_is_used_first() {
    let mut state = SharedState::new();
    for _ in 0..4 {
        state.add_macro();
    }
    assert!(state.remove_macro(2));
    assert!(state.remove_macro(4));
    assert_eq!(ids(&state), vec![1, 3]);
    assert_eq!(state.add_macro(), 4);
    assert_eq!(state.add_macro(), 2);
    assert_eq!(state.add_macro(), 5);
}

#[test]
fn only_macros_that_are_there_can_be_removed() {
    let mut state = SharedState::new();
    assert!(!state.remove_macro(0));
    assert!(!state.remove_macro(1));
    state.add_macro();
    assert!(state.remove_macro(1));
    assert!(!state.remove_macro(1));
    assert_eq!(state.add_macro(), 1);
}

#[test]
fn a_number_that_is_used_again_names_a_new_macro() {
    let mut state = SharedState::new();
    state.add_macro();
    state.set_repeat_count(1, 9);
    state.start_stop_macro(1);
    state.remove_macro(1);
    assert_eq!(state.add_macro(), 1);
    let m = state.get_macro(1).unwrap();
    assert_eq!(m.repeat_count, 0);
    assert_eq!(m.state, MacroButtonState::Idle);
}

#[test]
fn macros_are_found_by_number() {
    let mut state = SharedState::new();
    state.add_macro();
    assert_eq!(state.get_macro(1).map(|m| m.id), Some(1));
    assert!(state.get_macro(0).is_none());
    assert!(state.get_macro(2).is_none());
}

#[test]
fn a_macro_is_modified_in_place() {
    let mut state = SharedState::new();
    state.add_macro();
    state.add_macro();
    state.modify_macro(2, |m| m.repeat_count = 7);
    assert_eq!(state.get_macro(1).unwrap().repeat_count, 0);
    assert_eq!(state.get_macro(2).unwrap().repeat_count, 7);
    state.modify_macro(3, |m| m.repeat_count = 8);
    assert_eq!(state.macro_count(), 2);
}

#[test]
fn a_snapshot_lists_each_macro_once() {
    let mut state = SharedState::new();
    for _ in 0..20 {
        state.add_macro();
    }
    state.remove_macro(3);
    let mut found: Vec<u32> = state.snapshot().iter().map(|m| m.id).collect();
    found.sort();
    assert_eq!(found, ids(&state));
    assert_eq!(found.len(), 19);
    assert!(!found.contains(&3));
}

#[test]
fn start_stop_goes_to_waiting_and_back() {
    let mut state = SharedState::new();
    state.add_macro();
    assert_eq!(state.start_stop_macro(1), Some(StartStop::Started));
    assert_eq!(state.get_macro(1).unwrap().state, MacroButtonState::WaitingKey);
    assert_eq!(state.start_stop_macro(1), Some(StartStop::Stopped));
    assert_eq!(state.get_macro(1).unwrap().state, MacroButtonState::Idle);
    assert_eq!(state.start_stop_macro(2), None);
}

#[test]
fn stopping_a_running_macro_forgets_its_key_and_count() {
    let mut m = Macro::default();
    assert_eq!(m.click_start_stop(), StartStop::Started);
    assert!(m.record_key(0x43));
    assert_eq!(m.state, MacroButtonState::Running);
    assert_eq!(m.recorded_key, Some(MacroKeyPress { vk_code: 0x43 }));
    m.count_press();
    assert_eq!(m.repetition_count, 1);
    assert_eq!(m.click_start_stop(), StartStop::Stopped);
    assert_eq!(m.recorded_key, None);
    assert_eq!(m.repetition_count, 0);
}

#[test]
fn a_key_is_recorded_only_while_the_macro_waits() {
    let mut m = Macro::default();
    assert!(!m.record_key(0x43));
    assert_eq!(m.recorded_key, None);
    m.click_start_stop();
    assert!(m.record_key(0x43));
    assert!(!m.record_key(0x44));
    assert_eq!(m.recorded_key, Some(MacroKeyPress { vk_code: 0x43 }));
}

#[test]
fn the_press_count_stays_at_its_maximum() {
    let mut m = Macro::default();
    m.repetition_count = u32::MAX - 1;
    m.count_press();
    assert_eq!(m.repetition_count, u32::MAX);
    m.count_press();
    assert_eq!(m.repetition_count, u32::MAX);
}

#[test]
fn a_limit_is_reached_at_its_count() {
    let mut m = Macro::default();
    m.repeat_count = 2;
    assert!(!m.is_limited());
    m.count_press();
    assert!(!m.is_limited());
    m.count_press();
    assert!(m.is_limited());
    m.repeat_count = 0;
    assert!(!m.is_limited());
}
