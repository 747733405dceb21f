//! When the clicker clicks and when a macro presses its key.
use vstd::prelude::*;
use crate::macros::{Macro, MacroKeyPress};
use crate::model::KeyOutcome;
use crate::pacing::{
    ClickInterval, Clicker, ClickerAction, ClickerPlan, ExecutorAction, ExecutorPlan,
    MacroExecutor, Pace, Pacer,
};
use crate::state::SharedState;

verus! {

/// While the autoclicker is on and the application is not ending, the clicker clicks, at the interval
/// in slow mode and at the rate otherwise, whatever else the state holds: which window is in front,
/// the failsafe, the master switch, the macros. While it is off the clicker rests, and it ends with
/// the application.
pub proof fn law_clicker_clicks_while_on(state: &SharedState, plan: ClickerPlan)
    requires
        call_ensures(SharedState::clicker_plan, (state,), plan),
    ensures
        plan == ClickerPlan::Exit <==> state@.shutdown,
        plan == ClickerPlan::Rest <==> !state@.shutdown && !state@.is_running,
        plan is Click <==> !state@.shutdown && state@.is_running,
        plan matches ClickerPlan::Click(ClickInterval::Seconds(bits)) ==> state@.mode == 1 && bits
            == state@.slow_value,
        plan matches ClickerPlan::Click(ClickInterval::PerSecond(bits)) ==> state@.mode != 1 && bits
            == state@.cps_value,
{
}

/// Two states in which the autoclicker is on, or off, alike, and clicks are set alike, have the same
/// plan for the clicker.
pub proof fn law_clicker_looks_at_nothing_else(
    a: &SharedState,
    b: &SharedState,
    plan_a: ClickerPlan,
    plan_b: ClickerPlan,
)
    requires
        call_ensures(SharedState::clicker_plan, (a,), plan_a),
        call_ensures(SharedState::clicker_plan, (b,), plan_b),
        a@.shutdown == b@.shutdown,
        a@.is_running == b@.is_running,
        a@.mode == b@.mode,
        a@.cps_value == b@.cps_value,
        a@.slow_value == b@.slow_value,
    ensures
        plan_a == plan_b,
{
}

/// The clicker that a hotkey, or the button, starts does click, and the one that it stops rests.
pub proof fn law_toggling_starts_and_stops_clicking(
    state: &mut SharedState,
    before: ClickerPlan,
    after: ClickerPlan,
)
    requires
        call_ensures(SharedState::clicker_plan, (&*old(state),), before),
        call_ensures(SharedState::toggle_running, (state,), ()),
        call_ensures(SharedState::clicker_plan, (&*final(state),), after),
        !old(state)@.shutdown,
    ensures
        before == ClickerPlan::Rest <==> after is Click,
        before is Click <==> after == ClickerPlan::Rest,
{
}

/// The thread of a macro ends exactly where the application does or it was told to. Otherwise it
/// presses exactly where the macro is there and runs, the master switch is on, and the macro has no
/// limit or presses left to it, whatever else the state holds; it presses the recorded key, at the
/// interval of the macro. Else it rests.
pub proof fn law_macro_presses_while_it_may(
    state: &SharedState,
    id: u32,
    stopped: bool,
    plan: ExecutorPlan,
    interval: u32,
)
    requires
        call_ensures(SharedState::executor_plan, (state, id, stopped), plan),
        state@.macros.contains_key(id) ==> call_ensures(
            Macro::press_interval,
            (&state@.macros[id],),
            interval,
        ),
    ensures
        plan == ExecutorPlan::Exit <==> state@.shutdown || stopped,
        plan is Press <==> {
            let m = state@.macros[id];
            &&& !state@.shutdown && !stopped
            &&& state@.macros.contains_key(id)
            &&& m.state is Running
            &&& state@.macros_enabled
            &&& m.repeat_count == 0 || m.repetition_count < m.repeat_count
        },
        plan is Press ==> plan == (ExecutorPlan::Press {
            interval,
            key: state@.macros[id].recorded_key,
        }),
{
}

/// The thread of a macro plans for its own macro what the state does.
pub proof fn law_executor_plans_for_its_macro(
    executor: &MacroExecutor,
    state: &SharedState,
    stopped: bool,
    plan: ExecutorPlan,
    of_state: ExecutorPlan,
)
    requires
        call_ensures(MacroExecutor::plan, (executor, state, stopped), plan),
        call_ensures(SharedState::executor_plan, (state, executor.macro_id(), stopped), of_state),
    ensures
        plan == of_state,
{
}

/// A look at the clock says to act exactly where the interval is over, which then counts anew from that
/// moment. Otherwise it says to wait for what is left, but for no more than ten milliseconds; a clock
/// that went back counts as one that stood still.
pub proof fn law_pacer_waits_out_the_interval(pacer: &mut Pacer, now: u128, interval: u128, pace: Pace)
    requires
        call_ensures(Pacer::poll, (pacer, now, interval), pace),
    ensures
        pace == Pace::Due <==> now >= old(pacer).last() + interval,
        pace == Pace::Due ==> final(pacer).last() == now,
        pace matches Pace::Wait(wait) ==> {
            &&& final(pacer).last() == old(pacer).last()
            &&& wait <= 10_000_000
            &&& now >= old(pacer).last() || interval > 0 ==> wait > 0
            &&& now >= old(pacer).last() ==> now + wait <= old(pacer).last() + interval
            &&& now >= old(pacer).last() && wait < 10_000_000 ==> now + wait == old(pacer).last()
                + interval
            &&& now < old(pacer).last() && wait < 10_000_000 ==> wait == interval
        },
{
}

/// A pacer counts from when it was made, and from when it was started again.
pub proof fn law_pacer_counts_from_its_start(
    pacer: Pacer,
    again: &mut Pacer,
    start: u128,
    restart: u128,
)
    requires
        call_ensures(Pacer::new, (start,), pacer),
        call_ensures(Pacer::restart, (again, restart), ()),
    ensures
        pacer.last() == start,
        final(again).last() == restart,
{
}

/// While the autoclicker stays on, the clicker clicks in a turn exactly where the interval is over since
/// the last click, and since the start where there was none; it waits otherwise, as a pacer does.
pub proof fn law_clicker_clicks_on_time(
    clicker: &mut Clicker,
    interval: ClickInterval,
    now: u128,
    nanos: u128,
    action: ClickerAction,
    pacer: &mut Pacer,
    pace: Pace,
)
    requires
        call_ensures(Clicker::turn, (clicker, ClickerPlan::Click(interval), now, nanos), action),
        !old(clicker)@.rested,
        old(pacer).last() == old(clicker)@.last,
        call_ensures(Pacer::poll, (pacer, now, nanos), pace),
    ensures
        action == ClickerAction::Click <==> now >= old(clicker)@.last + nanos,
        action == ClickerAction::Click ==> final(clicker)@.last == now,
        pace matches Pace::Wait(wait) ==> action == ClickerAction::Wait(wait) && final(clicker)@.last
            == old(clicker)@.last,
        !final(clicker)@.rested,
{
}

/// A clicker counts from when it was made. A turn in which it is off has it wait a tenth of a second
/// and count anew from the next turn in which it is on: that one clicks only where there is no interval,
/// and the interval then counts from it.
pub proof fn law_clicker_counts_anew_after_a_rest(
    made: Clicker,
    start: u128,
    clicker: &mut Clicker,
    then: &mut Clicker,
    interval: ClickInterval,
    now: u128,
    rest_nanos: u128,
    later: u128,
    nanos: u128,
    rest: ClickerAction,
    action: ClickerAction,
)
    requires
        call_ensures(Clicker::new, (start,), made),
        call_ensures(Clicker::turn, (clicker, ClickerPlan::Rest, now, rest_nanos), rest),
        *old(then) == *final(clicker),
        call_ensures(Clicker::turn, (then, ClickerPlan::Click(interval), later, nanos), action),
    ensures
        made@.last == start && !made@.rested,
        rest == ClickerAction::Wait(100_000_000),
        action == ClickerAction::Click <==> nanos == 0,
        nanos > 0 ==> (action matches ClickerAction::Wait(wait) && 0 < wait <= 10_000_000 && wait
            <= nanos && (wait < 10_000_000 ==> wait == nanos)),
        final(then)@.last == later && !final(then)@.rested,
{
}

/// The clicker ends exactly where that is the plan.
pub proof fn law_clicker_ends_as_planned(
    clicker: &mut Clicker,
    plan: ClickerPlan,
    now: u128,
    nanos: u128,
    action: ClickerAction,
)
    requires
        call_ensures(Clicker::turn, (clicker, plan, now, nanos), action),
    ensures
        action == ClickerAction::Exit <==> plan == ClickerPlan::Exit,
        action == ClickerAction::Click ==> plan is Click,
{
}

/// The thread of a macro presses the key of its plan exactly where the interval is over since its last
/// press, and since its start where there was none; it waits otherwise, as a pacer does. A press is
/// counted for its macro as the state counts it, and nothing else changes in the state.
pub proof fn law_executor_presses_on_time(
    executor: &mut MacroExecutor,
    state: &mut SharedState,
    interval: u32,
    key: Option<MacroKeyPress>,
    now: u128,
    nanos: u128,
    action: ExecutorAction,
    counting: &mut SharedState,
    pacer: &mut Pacer,
    pace: Pace,
)
    requires
        call_ensures(
            MacroExecutor::turn,
            (executor, state, ExecutorPlan::Press { interval, key }, now, nanos),
            action,
        ),
        old(counting)@ == old(state)@,
        call_ensures(SharedState::count_macro_press, (counting, old(executor).macro_id()), ()),
        old(pacer).last() == old(executor).last(),
        call_ensures(Pacer::poll, (pacer, now, nanos), pace),
    ensures
        action is Press <==> now >= old(executor).last() + nanos,
        action is Press ==> {
            &&& action == ExecutorAction::Press(key)
            &&& final(executor).last() == now
            &&& final(state)@ == final(counting)@
        },
        pace matches Pace::Wait(wait) ==> {
            &&& action == ExecutorAction::Wait(wait)
            &&& final(executor).last() == old(executor).last()
            &&& final(state)@ == old(state)@
        },
        final(executor).macro_id() == old(executor).macro_id(),
{
}

/// The thread of a macro counts from when it was made, for its own macro. Where there is nothing to press
/// it waits a tenth of a second, which leaves its interval as it is, and it ends as planned; neither
/// changes the state.
pub proof fn law_executor_rests_and_ends_as_planned(
    made: MacroExecutor,
    id: u32,
    start: u128,
    executor: &mut MacroExecutor,
    state: &mut SharedState,
    plan: ExecutorPlan,
    now: u128,
    nanos: u128,
    action: ExecutorAction,
)
    requires
        call_ensures(MacroExecutor::new, (id, start), made),
        call_ensures(MacroExecutor::turn, (executor, state, plan, now, nanos), action),
        !(plan is Press),
    ensures
        made.macro_id() == id && made.last() == start,
        plan == ExecutorPlan::Exit ==> action == ExecutorAction::Exit,
        plan == ExecutorPlan::Rest ==> action == ExecutorAction::Wait(100_000_000),
        final(executor).last() == old(executor).last(),
        final(executor).macro_id() == old(executor).macro_id(),
        final(state)@ == old(state)@,
{
}

/// A macro that was recorded, of which the master switch is on and presses are left, is pressed: the plan
/// right after recording its key is to press that key, and with the switch off it is to rest.
pub proof fn law_recorded_macro_is_played(
    state: &mut SharedState,
    vk: u32,
    editing: bool,
    outcome: KeyOutcome,
    plan: ExecutorPlan,
)
    requires
        vk != 0,
        call_ensures(SharedState::window_key_press, (state, vk, editing), outcome),
        outcome is Recorded,
        call_ensures(
            SharedState::executor_plan,
            (&*final(state), old(state)@.current_macro_id, false),
            plan,
        ),
        !old(state)@.shutdown,
    ensures
        ({
            let m = old(state)@.macros[old(state)@.current_macro_id];
            let left = m.repeat_count == 0 || m.repetition_count < m.repeat_count;
            &&& old(state)@.macros_enabled && left ==> (plan matches ExecutorPlan::Press {
                key,
                ..
            } && key == Some(MacroKeyPress { vk_code: vk }))
            &&& !(old(state)@.macros_enabled && left) ==> plan == ExecutorPlan::Rest
        }),
{
}

} // verus!
