use std::collections::BTreeMap;

use autoclicker::gui::{key_presses_in, AutoclickerApp, FrameInput, WindowEvent};
use autoclicker::keys::{GlobalKey, WindowKey};
use autoclicker::macros::{MacroButtonState, MacroKeyPress, StartStop};
use autoclicker::model::{KeyOutcome, REBIND_AUTOCLICKER, REBIND_MASTER_SWITCH};
use autoclicker::pacing::{
    ClickInterval, Clicker, ClickerAction, ClickerPlan, ExecutorAction, ExecutorPlan,
    MacroExecutor, Pace, Pacer,
};
use autoclicker::state::{global_key_handler, SharedState};

fn press(key: WindowKey) -> WindowEvent {
    WindowEvent::Key { key, pressed: true, repeat: false }
}

fn codes(events: &Vec<WindowEvent>) -> Vec<u32> {
    key_presses_in(events).into_iter().map(autoclicker::keys::egui_key_to_vk).collect()
}

#[test]
fn the_usage_steps_lead_to_key_presses() {
    let mut state = SharedState::new();
    let mut app: AutoclickerApp<u32> = AutoclickerApp::new();
    let id = app.add_macro_clicked(&mut state, 0);
    app.set_current_clicked(&mut state, id, 1);
    app.start_stop_clicked(&mut state, id, 2);
    let events = vec![press(WindowKey::C)];
    let input = FrameInput { active_window: 1, foreground_window: 1, events, editing: false };
    let reports = app.begin_frame(&mut state, &input, 3);
    assert_eq!(reports[0].outcome, KeyOutcome::Recorded { macro_id: id });
    state.set_repeat_interval(id, 0.2f32.to_bits());
    state.set_repeat_count(id, 5);
    assert_eq!(state.executor_plan(id, false), ExecutorPlan::Rest);
    let events = vec![press(WindowKey::F7)];
    let input = FrameInput { active_window: 0, foreground_window: 1, events, editing: false };
    app.begin_frame(&mut state, &input, 4);
    let press = ExecutorPlan::Press {
        interval: 0.2f32.to_bits(),
        key: Some(MacroKeyPress { vk_code: 0x43 }),
    };
    assert_eq!(state.executor_plan(id, false), press);
}

#[test]
fn everything_starts_off() {
    let state = SharedState::new();
    assert_eq!(state.clicker_plan(), ClickerPlan::Rest);
    assert_eq!(state.executor_plan(1, false), ExecutorPlan::Rest);
}

#[test]
fn removing_undoes_adding() {
    let mut state = SharedState::new();
    state.add_macro();
    state.set_repeat_count(1, 3);
    let id = state.add_macro();
    state.remove_macro(id);
    let left = state.snapshot_sorted();
    assert_eq!(left.len(), 1);
    assert_eq!(left[0].id, 1);
    assert_eq!(left[0].repeat_count, 3);
}

#[test]
fn numbers_stay_within_fifty_whatever_happens() {
    let mut state = SharedState::new();
    for round in 0..500u32 {
        let id = state.add_macro();
        assert!(id <= 50);
        if round % 3 == 0 {
            state.remove_macro(round % 53);
        }
        assert!(state.macro_count() <= 50);
        let all = state.snapshot_sorted();
        assert!(all.windows(2).all(|pair| pair[0].id < pair[1].id));
        assert!(all.iter().all(|m| 1 <= m.id && m.id <= 50));
    }
}

#[test]
fn sorted_snapshots_are_the_same() {
    let mut state = SharedState::new();
    for _ in 0..30 {
        state.add_macro();
    }
    let a: Vec<u32> = state.snapshot_sorted().iter().map(|m| m.id).collect();
    let b: Vec<u32> = state.snapshot_sorted().iter().map(|m| m.id).collect();
    assert_eq!(a, b);
}

#[test]
fn the_failsafe_acts_once() {
    let mut state = SharedState::new();
    state.set_target_hwnd(1);
    state.toggle_running();
    state.update_failsafe_from_gui(2);
    assert!(!state.is_running());
    state.toggle_running();
    state.update_failsafe_from_gui(2);
    assert!(state.is_running());
    state.update_failsafe_from_gui(1);
    assert!(state.is_running());
    state.update_failsafe_from_gui(2);
    assert!(!state.is_running());
}

#[test]
fn a_key_bound_in_the_window_works_through_the_hook() {
    let mut state = SharedState::new();
    state.set_target_hwnd(1);
    state.set_rebinding_target(REBIND_AUTOCLICKER);
    state.window_key_press(0x25, false);
    state.set_rebinding_target(REBIND_MASTER_SWITCH);
    state.window_key_press(0x27, false);
    state.update_failsafe_from_gui(2);
    global_key_handler(&mut state, &GlobalKey::LeftArrow);
    global_key_handler(&mut state, &GlobalKey::RightArrow);
    assert!(state.is_running());
    assert!(state.macros_enabled());
    global_key_handler(&mut state, &GlobalKey::F6);
    assert!(state.is_running());
}

#[test]
fn a_key_of_both_hotkeys_is_that_of_the_autoclicker() {
    let mut state = SharedState::new();
    state.set_rebinding_target(REBIND_MASTER_SWITCH);
    state.window_key_press(0x75, false);
    assert_eq!(state.window_key_press(0x75, false), KeyOutcome::AutoclickerToggled);
    assert!(!state.macros_enabled());
}

#[test]
fn shutting_down_is_final() {
    let mut state = SharedState::new();
    state.add_macro();
    state.begin_shutdown();
    state.window_key_press(0x75, false);
    state.start_stop_macro(1);
    state.add_macro();
    state.remove_macro(1);
    state.update_failsafe_from_gui(3);
    assert_eq!(state.clicker_plan(), ClickerPlan::Exit);
    assert_eq!(state.executor_plan(2, false), ExecutorPlan::Exit);
}

#[test]
fn joined_events_join_their_key_presses() {
    let a = vec![press(WindowKey::A), WindowEvent::Other];
    let b = vec![press(WindowKey::B), press(WindowKey::A)];
    let mut joined = a.clone();
    joined.extend(b.clone());
    let mut expected = codes(&a);
    expected.extend(codes(&b));
    assert_eq!(codes(&joined), expected);
    assert_eq!(expected, vec![0x41, 0x42, 0x41]);
}

#[test]
fn actions_are_an_interval_apart() {
    let mut pacer = Pacer::new(0);
    let mut now: u128 = 0;
    let mut last: u128 = 0;
    let mut acted = 0;
    while acted < 20 {
        match pacer.poll(now, 23_000_000) {
            Pace::Due => {
                assert!(now - last >= 23_000_000);
                last = now;
                acted += 1;
            }
            Pace::Wait(nanos) => {
                assert!(0 < nanos && nanos <= 10_000_000);
                now += nanos;
            }
        }
    }
    assert_eq!(now, 20 * 23_000_000);
}

#[test]
fn there_is_a_thread_for_each_running_macro() {
    let mut state = SharedState::new();
    let mut app: AutoclickerApp<u32> = AutoclickerApp::new();
    let mut running: BTreeMap<u32, bool> = BTreeMap::new();
    for step in 0..300u32 {
        let id = step % 7 + 1;
        match step % 5 {
            0 => {
                app.add_macro_clicked(&mut state, 0);
            }
            1 => {
                let (did, stopped) = app.start_stop_clicked(&mut state, id, 0);
                assert_eq!(stopped.is_some(), running.remove(&id).is_some());
                assert!(stopped.is_none() || did == Some(StartStop::Stopped));
            }
            2 => {
                app.set_current_clicked(&mut state, id, 0);
            }
            3 => {
                let reports =
                    app.handle_key_presses(&mut state, &vec![WindowKey::Space], false, 0);
                if let KeyOutcome::Recorded { macro_id } = reports[0].outcome {
                    assert_eq!(app.start_macro_executor(macro_id, macro_id), None);
                    running.insert(macro_id, true);
                }
            }
            _ => {
                if step % 11 == 0 {
                    let removed = app.remove_macro_clicked(&mut state, id, 0);
                    assert_eq!(removed.is_some(), running.remove(&id).is_some());
                }
            }
        }
        let live: Vec<u32> = state
            .snapshot_sorted()
            .iter()
            .filter(|m| m.state == MacroButtonState::Running)
            .map(|m| m.id)
            .collect();
        assert_eq!(live, running.keys().copied().collect::<Vec<u32>>());
    }
    assert!(!running.is_empty());
}

#[test]
fn a_limited_macro_makes_its_presses_whatever_the_switch_does() {
    let mut state = SharedState::new();
    state.add_macro();
    state.set_current_macro_id(1);
    state.start_stop_macro(1);
    state.window_key_press(0x43, false);
    state.set_repeat_count(1, 4);
    state.count_macro_press(1);
    let mut executor = MacroExecutor::new(1, 0);
    let mut presses = 0;
    for look in 1..40u128 {
        if look % 3 == 0 {
            state.toggle_macros();
        }
        let plan = executor.plan(&state, false);
        if let ExecutorAction::Press(_) = executor.turn(&mut state, plan, look, 1) {
            assert!(state.macros_enabled());
            presses += 1;
        }
    }
    assert_eq!(presses, 3);
    assert_eq!(state.get_macro(1).unwrap().repetition_count, 4);
}

#[test]
fn clicks_are_an_interval_apart_and_after_a_rest() {
    let click = ClickerPlan::Click(ClickInterval::Seconds(0));
    let mut clicker = Clicker::new(0);
    let mut since: u128 = 0;
    let mut clicks = 0;
    for now in 1..200u128 {
        let plan = if now % 31 == 0 { ClickerPlan::Rest } else { click };
        let action = clicker.turn(plan, now, 7);
        if plan == ClickerPlan::Rest {
            since = now;
        } else if action == ClickerAction::Click {
            assert!(now - since >= 7);
            since = now;
            clicks += 1;
        }
    }
    // Four before the first rest, four after each of five rests, one after the last.
    assert_eq!(clicks, 25);
}

#[test]
fn rates_stay_in_range() {
    let mut state = SharedState::new();
    let edits = [0.1f32, 1000.0, 3.25, 0.1, 999.5];
    for (step, value) in edits.into_iter().enumerate() {
        state.set_mode(step as u32 % 2);
        state.value_edited(value.to_bits());
        state.window_key_press(0x75, false);
        state.update_failsafe_from_gui(5);
        let cps = f32::from_bits(state.get_cps());
        let slow = f32::from_bits(state.get_slow());
        assert!(0.1 <= cps && cps <= 1000.0);
        assert!(0.1 <= slow && slow <= 3600.0);
    }
}

#[test]
fn a_macro_can_be_added_whatever_was_modified() {
    let mut state = SharedState::new();
    state.add_macro();
    state.modify_macro(1, |m| m.state = MacroButtonState::Running);
    assert_eq!(state.add_macro(), 2);
    state.modify_macro(2, |m| m.id = 1);
    assert_eq!(state.add_macro(), 3);
    let ids: Vec<u32> = state.snapshot_sorted().iter().map(|m| m.id).collect();
    assert_eq!(ids, vec![1, 1, 3]);
    assert_eq!(state.snapshot().len(), 3);
}
