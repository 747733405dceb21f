use autoclicker::macros::{Macro, MacroKeyPress, MIN_REPEAT_INTERVAL};
use autoclicker::model::{CPS_MODE, MAX_CPS, MAX_SLOW, MIN_VALUE, SLOW_MODE};
use autoclicker::pacing::{
    ClickInterval, Clicker, ClickerAction, ClickerPlan, ExecutorAction, ExecutorPlan,
    MacroExecutor, Pace, Pacer, ACTIVE_WAIT, IDLE_WAIT,
};
use autoclicker::state::SharedState;

const MS: u128 = 1_000_000;

#[test]
fn waits_are_ten_and_a_hundred_milliseconds() {
    assert_eq!(ACTIVE_WAIT, 10 * MS);
    assert_eq!(IDLE_WAIT, 100 * MS);
}

#[test]
fn an_action_is_due_when_the_interval_is_over() {
    let mut pacer = Pacer::new(1000);
    assert_eq!(pacer.poll(1000 + 5 * MS - 1, 5 * MS), Pace::Wait(1));
    assert_eq!(pacer.poll(1000 + 5 * MS, 5 * MS), Pace::Due);
    assert_eq!(pacer.poll(1000 + 5 * MS, 5 * MS), Pace::Wait(5 * MS));
    assert_eq!(pacer.poll(1000 + 12 * MS, 5 * MS), Pace::Due);
    assert_eq!(pacer.poll(1000 + 16 * MS, 5 * MS), Pace::Wait(MS));
}

#[test]
fn a_long_wait_is_cut_short() {
    let mut pacer = Pacer::new(0);
    assert_eq!(pacer.poll(0, 1000 * MS), Pace::Wait(10 * MS));
    assert_eq!(pacer.poll(990 * MS, 1000 * MS), Pace::Wait(10 * MS));
    assert_eq!(pacer.poll(993 * MS, 1000 * MS), Pace::Wait(7 * MS));
}

#[test]
fn no_interval_is_always_due() {
    let mut pacer = Pacer::new(5);
    assert_eq!(pacer.poll(5, 0), Pace::Due);
}

#[test]
fn a_clock_that_went_back_stands_still() {
    let mut pacer = Pacer::new(100 * MS);
    assert_eq!(pacer.poll(50 * MS, 4 * MS), Pace::Wait(4 * MS));
    assert_eq!(pacer.poll(u128::MAX, u128::MAX), Pace::Wait(10 * MS));
    assert_eq!(pacer.poll(104 * MS, 4 * MS), Pace::Due);
}

#[test]
fn resting_counts_the_interval_anew() {
    let mut pacer = Pacer::new(0);
    pacer.restart(100 * MS);
    assert_eq!(pacer.poll(104 * MS, 5 * MS), Pace::Wait(MS));
}

#[test]
fn the_clicker_rests_until_it_is_started() {
    let mut state = SharedState::new();
    assert_eq!(state.clicker_plan(), ClickerPlan::Rest);
    state.toggle_running();
    let one = 1.0f32.to_bits();
    assert_eq!(state.clicker_plan(), ClickerPlan::Click(ClickInterval::PerSecond(one)));
    state.set_mode(SLOW_MODE);
    let ten = 10.0f32.to_bits();
    assert_eq!(state.clicker_plan(), ClickerPlan::Click(ClickInterval::Seconds(ten)));
    state.value_edited(2.5f32.to_bits());
    let plan = ClickerPlan::Click(ClickInterval::Seconds(2.5f32.to_bits()));
    assert_eq!(state.clicker_plan(), plan);
}

#[test]
fn a_mode_that_is_not_slow_is_a_rate() {
    let mut state = SharedState::new();
    state.set_mode(7);
    state.value_edited(20.0f32.to_bits());
    state.toggle_running();
    let plan = ClickerPlan::Click(ClickInterval::PerSecond(20.0f32.to_bits()));
    assert_eq!(state.clicker_plan(), plan);
}

#[test]
fn shutting_down_ends_every_thread() {
    let mut state = SharedState::new();
    state.toggle_running();
    state.begin_shutdown();
    assert!(!state.is_running());
    assert_eq!(state.clicker_plan(), ClickerPlan::Exit);
    assert_eq!(state.executor_plan(1, false), ExecutorPlan::Exit);
}

fn armed(vk: u32) -> SharedState {
    let mut state = SharedState::new();
    state.add_macro();
    state.set_current_macro_id(1);
    state.start_stop_macro(1);
    state.window_key_press(vk, false);
    state
}

#[test]
fn an_armed_macro_is_silent_until_the_master_switch_is_on() {
    let mut state = armed(0x43);
    assert_eq!(state.executor_plan(1, false), ExecutorPlan::Rest);
    state.toggle_macros();
    let press = ExecutorPlan::Press {
        interval: 0.1f32.to_bits(),
        key: Some(MacroKeyPress { vk_code: 0x43 }),
    };
    assert_eq!(state.executor_plan(1, false), press);
    assert_eq!(state.executor_plan(1, true), ExecutorPlan::Exit);
    assert_eq!(state.executor_plan(2, false), ExecutorPlan::Rest);
    state.toggle_macros();
    assert_eq!(state.executor_plan(1, false), ExecutorPlan::Rest);
}

#[test]
fn a_limited_macro_stops_at_its_limit() {
    let mut state = armed(0x43);
    state.toggle_macros();
    state.set_repeat_count(1, 3);
    state.set_repeat_interval(1, 0.5f32.to_bits());
    let mut pressed = 0;
    for _ in 0..10 {
        if let ExecutorPlan::Press { interval, .. } = state.executor_plan(1, false) {
            assert_eq!(f32::from_bits(interval), 0.5);
            pressed += 1;
            state.count_macro_press(1);
        }
    }
    assert_eq!(pressed, 3);
    assert_eq!(state.get_macro(1).unwrap().repetition_count, 3);
}

#[test]
fn a_macro_without_a_limit_goes_on() {
    let mut state = armed(0x43);
    state.toggle_macros();
    for _ in 0..100 {
        assert!(matches!(state.executor_plan(1, false), ExecutorPlan::Press { .. }));
        state.count_macro_press(1);
    }
    assert_eq!(state.get_macro(1).unwrap().repetition_count, 100);
}

#[test]
fn a_stopped_or_removed_macro_rests() {
    let mut state = armed(0x43);
    state.toggle_macros();
    state.start_stop_macro(1);
    assert_eq!(state.executor_plan(1, false), ExecutorPlan::Rest);
    let mut state = armed(0x43);
    state.toggle_macros();
    state.remove_macro(1);
    assert_eq!(state.executor_plan(1, false), ExecutorPlan::Rest);
    state.count_macro_press(1);
    assert_eq!(state.macro_count(), 0);
}

const CLICK: ClickerPlan = ClickerPlan::Click(ClickInterval::PerSecond(0x3F80_0000));

#[test]
fn the_clicker_clicks_when_its_interval_is_over() {
    let mut clicker = Clicker::new(0);
    assert_eq!(clicker.turn(CLICK, 0, 5 * MS), ClickerAction::Wait(5 * MS));
    assert_eq!(clicker.turn(CLICK, 5 * MS, 5 * MS), ClickerAction::Click);
    assert_eq!(clicker.turn(CLICK, 6 * MS, 5 * MS), ClickerAction::Wait(4 * MS));
    assert_eq!(clicker.turn(CLICK, 12 * MS, 5 * MS), ClickerAction::Click);
    assert_eq!(clicker.turn(CLICK, 12 * MS, 900 * MS), ClickerAction::Wait(10 * MS));
    assert_eq!(clicker.turn(ClickerPlan::Exit, 13 * MS, 0), ClickerAction::Exit);
}

#[test]
fn switching_the_clicker_on_never_clicks_at_once() {
    let mut clicker = Clicker::new(0);
    assert_eq!(clicker.turn(ClickerPlan::Rest, 0, 0), ClickerAction::Wait(100 * MS));
    assert_eq!(clicker.turn(ClickerPlan::Rest, 100 * MS, 0), ClickerAction::Wait(100 * MS));
    assert_eq!(clicker.turn(CLICK, 200 * MS, 5 * MS), ClickerAction::Wait(5 * MS));
    assert_eq!(clicker.turn(CLICK, 204 * MS, 5 * MS), ClickerAction::Wait(MS));
    assert_eq!(clicker.turn(CLICK, 205 * MS, 5 * MS), ClickerAction::Click);
}

#[test]
fn a_macro_presses_and_counts_when_its_interval_is_over() {
    let mut state = armed(0x43);
    let mut executor = MacroExecutor::new(1, 0);
    let rest = executor.plan(&state, false);
    assert_eq!(executor.turn(&mut state, rest, 50 * MS, 0), ExecutorAction::Wait(100 * MS));
    state.toggle_macros();
    let key = Some(MacroKeyPress { vk_code: 0x43 });
    let plan = executor.plan(&state, false);
    assert_eq!(executor.turn(&mut state, plan, 99 * MS, 100 * MS), ExecutorAction::Wait(MS));
    assert_eq!(state.get_macro(1).unwrap().repetition_count, 0);
    // A rest does not make the interval count anew.
    assert_eq!(executor.turn(&mut state, plan, 100 * MS, 100 * MS), ExecutorAction::Press(key));
    assert_eq!(state.get_macro(1).unwrap().repetition_count, 1);
    assert_eq!(
        executor.turn(&mut state, plan, 150 * MS, 100 * MS),
        ExecutorAction::Wait(10 * MS)
    );
    assert_eq!(state.get_macro(1).unwrap().repetition_count, 1);
    let exit = executor.plan(&state, true);
    assert_eq!(executor.turn(&mut state, exit, 300 * MS, 0), ExecutorAction::Exit);
}

#[test]
fn a_macro_presses_no_faster_than_once_a_millisecond() {
    assert_eq!(MIN_REPEAT_INTERVAL, 0.001f32.to_bits());
    let interval = |seconds: f32| {
        let mut m = Macro::default();
        m.repeat_interval = seconds.to_bits();
        f32::from_bits(m.press_interval())
    };
    assert_eq!(interval(0.5), 0.5);
    assert_eq!(interval(0.0011), 0.0011);
    assert_eq!(interval(10.0), 10.0);
    for seconds in [0.001, 0.0009, 0.0, -0.0, -1.0, f32::NEG_INFINITY, f32::NAN, -f32::NAN] {
        assert_eq!(interval(seconds), seconds.max(0.001));
    }
    let mut state = armed(0x43);
    state.toggle_macros();
    state.set_repeat_interval(1, 0);
    assert!(matches!(
        state.executor_plan(1, false),
        ExecutorPlan::Press { interval: MIN_REPEAT_INTERVAL, .. }
    ));
}

#[test]
fn an_edit_sets_the_value_of_the_chosen_mode() {
    let mut state = SharedState::new();
    assert_eq!(state.shown_value(), 1.0f32.to_bits());
    state.value_edited(7.0f32.to_bits());
    assert_eq!(state.get_cps(), 7.0f32.to_bits());
    assert_eq!(state.get_slow(), 10.0f32.to_bits());
    state.set_mode(SLOW_MODE);
    assert_eq!(state.shown_value(), 10.0f32.to_bits());
    state.value_edited(0.5f32.to_bits());
    assert_eq!(state.get_cps(), 7.0f32.to_bits());
    assert_eq!(state.get_slow(), 0.5f32.to_bits());
    state.set_mode(CPS_MODE);
    assert_eq!(state.shown_value(), 7.0f32.to_bits());
}

#[test]
fn values_have_the_ranges_of_their_fields() {
    assert_eq!(f32::from_bits(MIN_VALUE), 0.1);
    assert_eq!(f32::from_bits(MAX_CPS), 1000.0);
    assert_eq!(f32::from_bits(MAX_SLOW), 3600.0);
    let mut state = SharedState::new();
    assert_eq!(state.value_limit(), MAX_CPS);
    state.set_mode(SLOW_MODE);
    assert_eq!(state.value_limit(), MAX_SLOW);
}
