//! When to click and when to press a key.
//!
//! Times are nanoseconds since some fixed moment. The seconds that the user chose are
//! single-precision numbers; they pass through here as bit patterns, and the caller turns them
//! into nanoseconds. The clicker and each macro run in turns: ask for the plan, take the turn at
//! the present time with the interval of the plan, and do what the turn says.
use vstd::prelude::*;
use crate::macros::{press_interval, MacroButtonState, MacroKeyPress};
use crate::model::{SharedStateView, SLOW_MODE};
use crate::state::SharedState;

verus! {

/// The longest wait, in nanoseconds, between two looks at the clock while there is work.
pub const ACTIVE_WAIT: u128 = 10_000_000;

/// The wait, in nanoseconds, between two looks at the state while there is nothing to do.
pub const IDLE_WAIT: u128 = 100_000_000;

/// What to do at one look at the clock.
#[derive(Debug, Clone, Copy, PartialEq, Eq, Structural)]
pub enum Pace {
    /// The interval is over: act now.
    Due,
    /// Wait this many nanoseconds, then look again.
    Wait(u128),
}

/// How the user set the time between two clicks.
#[derive(Debug, Clone, Copy, PartialEq, Eq, Structural)]
pub enum ClickInterval {
    /// As seconds between two clicks.
    Seconds(u32),
    /// As clicks per second.
    PerSecond(u32),
}

/// What the clicker does next.
#[derive(Debug, Clone, Copy, PartialEq, Eq, Structural)]
pub enum ClickerPlan {
    /// End.
    Exit,
    /// Wait for as long as there is nothing to do.
    Rest,
    /// Click at this interval.
    Click(ClickInterval),
}

/// What the clicker is to do now.
#[derive(Debug, Clone, Copy, PartialEq, Eq, Structural)]
pub enum ClickerAction {
    /// End.
    Exit,
    /// Click once, then take the next turn.
    Click,
    /// Wait this many nanoseconds, then take the next turn.
    Wait(u128),
}

/// What the thread of a macro does next.
#[derive(Debug, Clone, Copy, PartialEq, Eq, Structural)]
pub enum ExecutorPlan {
    /// End.
    Exit,
    /// Wait for as long as there is nothing to do.
    Rest,
    /// Press this key, where there is one, at this interval, in seconds.
    Press { interval: u32, key: Option<MacroKeyPress> },
}

/// What the thread of a macro is to do now.
#[derive(Debug, Clone, Copy, PartialEq, Eq, Structural)]
pub enum ExecutorAction {
    /// End.
    Exit,
    /// Press this key once, where there is one, then take the next turn.
    Press(Option<MacroKeyPress>),
    /// Wait this many nanoseconds, then take the next turn.
    Wait(u128),
}

/// Whether the interval since `last` is over at `now`.
pub open spec fn is_due(last: nat, now: nat, interval: nat) -> bool {
    now >= last + interval
}

/// What is left at `now` of the interval since `last`. A clock that went back counts as one
/// that stood still.
pub open spec fn time_left(last: nat, now: nat, interval: nat) -> nat {
    if now <= last {
        interval
    } else if now - last >= interval {
        0
    } else {
        (interval - (now - last)) as nat
    }
}

/// From when on the next interval counts after a look at the clock at `now`.
pub open spec fn counted_from(last: nat, now: nat, interval: nat) -> nat {
    if is_due(last, now, interval) {
        now
    } else {
        last
    }
}

/// What a look at the clock at `now` says: act where the interval is over, otherwise wait for what
/// is left of it, but never longer than the longest wait.
pub open spec fn pace_at(last: nat, now: nat, interval: nat) -> Pace {
    if is_due(last, now, interval) {
        Pace::Due
    } else if time_left(last, now, interval) < ACTIVE_WAIT {
        Pace::Wait(time_left(last, now, interval) as u128)
    } else {
        Pace::Wait(ACTIVE_WAIT)
    }
}

/// The time between two actions of one kind.
#[derive(Debug, Clone, Copy)]
pub struct Pacer {
    last: u128,
}

impl Pacer {
    /// When the last action was, or from when on the interval counts.
    pub closed spec fn last(self) -> nat {
        self.last as nat
    }

    /// Counts the first interval from `now` on.
    pub fn new(now: u128) -> (pacer: Self)
        ensures
            pacer.last() == now,
    {
        Pacer { last: now }
    }

    /// Looks at the clock. Where the interval is over, the next one counts from `now` on;
    /// otherwise the wait is what is left of it, but never longer than the longest wait.
    pub fn poll(&mut self, now: u128, interval: u128) -> (pace: Pace)
        ensures
            pace == pace_at(old(self).last(), now as nat, interval as nat),
            final(self).last() == counted_from(old(self).last(), now as nat, interval as nat),
    {
        let elapsed: u128 = now.saturating_sub(self.last);
        if now >= self.last && elapsed >= interval {
            self.last = now;
            Pace::Due
        } else {
            let remaining: u128 = interval.saturating_sub(elapsed);
            if remaining < ACTIVE_WAIT {
                Pace::Wait(remaining)
            } else {
                Pace::Wait(ACTIVE_WAIT)
            }
        }
    }

    /// Counts the next interval from `now` on.
    pub fn restart(&mut self, now: u128)
        ensures
            final(self).last() == now,
    {
        self.last = now;
    }
}

/// What the clicker does next in a state.
pub open spec fn clicker_plan(s: SharedStateView) -> ClickerPlan {
    if s.shutdown {
        ClickerPlan::Exit
    } else if !s.is_running {
        ClickerPlan::Rest
    } else if s.mode == SLOW_MODE {
        ClickerPlan::Click(ClickInterval::Seconds(s.slow_value))
    } else {
        ClickerPlan::Click(ClickInterval::PerSecond(s.cps_value))
    }
}

/// Whether a macro presses its key in a state: it runs, the master switch is on, and it has
/// not yet made all the presses it was asked for.
pub open spec fn presses(s: SharedStateView, id: u32) -> bool {
    &&& s.is_live(id)
    &&& s.macros[id].state == MacroButtonState::Running
    &&& s.macros_enabled
    &&& !s.macros[id].exhausted()
}

/// What the thread of a macro does next in a state, where `stopped` says whether the thread
/// itself was told to end.
pub open spec fn executor_plan(s: SharedStateView, id: u32, stopped: bool) -> ExecutorPlan {
    if s.shutdown || stopped {
        ExecutorPlan::Exit
    } else if presses(s, id) {
        ExecutorPlan::Press {
            interval: press_interval(s.macros[id].repeat_interval),
            key: s.macros[id].recorded_key,
        }
    } else {
        ExecutorPlan::Rest
    }
}

/// Where the clicker stands between two turns.
pub struct ClickerView {
    /// When the last click was, or from when on the interval counts.
    pub last: nat,
    /// Whether the turn before was a rest, so that the interval counts from the next turn on.
    pub rested: bool,
}

impl ClickerView {
    /// From when on the interval counts in a turn at `now`.
    pub open spec fn counts_from(self, now: nat) -> nat {
        if self.rested {
            now
        } else {
            self.last
        }
    }

    /// A turn of the clicker: where it stands after it, and what it is to do.
    pub open spec fn turn(self, plan: ClickerPlan, now: nat, nanos: nat) -> (
        ClickerView,
        ClickerAction,
    ) {
        match plan {
            ClickerPlan::Exit => (self, ClickerAction::Exit),
            ClickerPlan::Rest => (
                ClickerView { rested: true, ..self },
                ClickerAction::Wait(IDLE_WAIT),
            ),
            ClickerPlan::Click(_) => (
                ClickerView {
                    last: counted_from(self.counts_from(now), now, nanos),
                    rested: false,
                },
                match pace_at(self.counts_from(now), now, nanos) {
                    Pace::Due => ClickerAction::Click,
                    Pace::Wait(wait) => ClickerAction::Wait(wait),
                },
            ),
        }
    }
}

/// The clicker.
#[derive(Debug, Clone, Copy)]
pub struct Clicker {
    pacer: Pacer,
    rested: bool,
}

impl View for Clicker {
    type V = ClickerView;

    closed spec fn view(&self) -> ClickerView {
        ClickerView { last: self.pacer.last(), rested: self.rested }
    }
}

impl Clicker {
    /// A clicker that starts at `now`.
    pub fn new(now: u128) -> (clicker: Self)
        ensures
            clicker@ == (ClickerView { last: now as nat, rested: false }),
    {
        Clicker { pacer: Pacer::new(now), rested: false }
    }

    /// Takes a turn at `now`, where `nanos` is the interval of the plan in nanoseconds. It says to
    /// click where the interval is over since the last click; after a rest the interval counts from
    /// this turn on.
    pub fn turn(&mut self, plan: ClickerPlan, now: u128, nanos: u128) -> (action: ClickerAction)
        ensures
            (final(self)@, action) == old(self)@.turn(plan, now as nat, nanos as nat),
            action == ClickerAction::Click <==> {
                &&& plan is Click
                &&& is_due(old(self)@.counts_from(now as nat), now as nat, nanos as nat)
            },
    {
        match plan {
            ClickerPlan::Exit => ClickerAction::Exit,
            ClickerPlan::Rest => {
                self.rested = true;
                ClickerAction::Wait(IDLE_WAIT)
            },
            ClickerPlan::Click(_) => {
                if self.rested {
                    self.pacer.restart(now);
                    self.rested = false;
                }
                match self.pacer.poll(now, nanos) {
                    Pace::Due => ClickerAction::Click,
                    Pace::Wait(wait) => ClickerAction::Wait(wait),
                }
            },
        }
    }
}

/// A turn of the thread of a macro that pressed last at `last`: from when on the next interval
/// counts, and what the thread is to do. A rest leaves the interval as it is.
pub open spec fn executor_turn(last: nat, plan: ExecutorPlan, now: nat, nanos: nat) -> (
    nat,
    ExecutorAction,
) {
    match plan {
        ExecutorPlan::Exit => (last, ExecutorAction::Exit),
        ExecutorPlan::Rest => (last, ExecutorAction::Wait(IDLE_WAIT)),
        ExecutorPlan::Press { interval, key } => (
            counted_from(last, now, nanos),
            match pace_at(last, now, nanos) {
                Pace::Due => ExecutorAction::Press(key),
                Pace::Wait(wait) => ExecutorAction::Wait(wait),
            },
        ),
    }
}

/// The state after a macro was told to do `action`: a press is counted.
pub open spec fn executor_applied(
    s: SharedStateView,
    id: u32,
    action: ExecutorAction,
) -> SharedStateView {
    if action is Press {
        s.press_counted(id)
    } else {
        s
    }
}

/// What the thread of a macro keeps for itself.
#[derive(Debug, Clone, Copy)]
pub struct MacroExecutor {
    macro_id: u32,
    pacer: Pacer,
}

impl MacroExecutor {
    /// The number of the macro.
    pub closed spec fn macro_id(self) -> u32 {
        self.macro_id
    }

    /// When the last press was, or when the thread started.
    pub closed spec fn last(self) -> nat {
        self.pacer.last()
    }

    /// The thread of a macro that starts at `now`.
    pub fn new(macro_id: u32, now: u128) -> (executor: Self)
        ensures
            executor.macro_id() == macro_id,
            executor.last() == now,
    {
        MacroExecutor { macro_id, pacer: Pacer::new(now) }
    }

    /// What the thread does next, where `stopped` says whether it was told to end.
    pub fn plan(&self, state: &SharedState, stopped: bool) -> (plan: ExecutorPlan)
        ensures
            plan == executor_plan(state@, self.macro_id(), stopped),
    {
        state.executor_plan(self.macro_id, stopped)
    }

    /// Takes a turn at `now`, where `nanos` is the interval of the plan in nanoseconds. It says to
    /// press the key of the plan where the interval is over since the last press, and counts that
    /// press.
    pub fn turn(
        &mut self,
        state: &mut SharedState,
        plan: ExecutorPlan,
        now: u128,
        nanos: u128,
    ) -> (action: ExecutorAction)
        ensures
            (final(self).last(), action) == executor_turn(
                old(self).last(),
                plan,
                now as nat,
                nanos as nat,
            ),
            final(self).macro_id() == old(self).macro_id(),
            final(state)@ == executor_applied(old(state)@, old(self).macro_id(), action),
            action is Press <==> {
                &&& plan is Press
                &&& is_due(old(self).last(), now as nat, nanos as nat)
            },
            old(state)@.wf() ==> final(state)@.wf(),
            old(state)@.macros_consistent() ==> final(state)@.macros_consistent(),
    {
        match plan {
            ExecutorPlan::Exit => ExecutorAction::Exit,
            ExecutorPlan::Rest => ExecutorAction::Wait(IDLE_WAIT),
            ExecutorPlan::Press { interval: _, key } => {
                match self.pacer.poll(now, nanos) {
                    Pace::Due => {
                        state.count_macro_press(self.macro_id);
                        ExecutorAction::Press(key)
                    },
                    Pace::Wait(wait) => ExecutorAction::Wait(wait),
                }
            },
        }
    }
}

impl SharedState {
    /// What the clicker does next.
    pub fn clicker_plan(&self) -> (plan: ClickerPlan)
        ensures
            plan == clicker_plan(self@),
    {
        if self.is_shut_down() {
            return ClickerPlan::Exit;
        }
        if self.is_running() {
            if self.is_slow_mode() {
                ClickerPlan::Click(ClickInterval::Seconds(self.get_slow()))
            } else {
                ClickerPlan::Click(ClickInterval::PerSecond(self.get_cps()))
            }
        } else {
            ClickerPlan::Rest
        }
    }

    /// What the thread of a macro does next, where `stopped` says whether the thread itself was
    /// told to end.
    pub fn executor_plan(&self, id: u32, stopped: bool) -> (plan: ExecutorPlan)
        ensures
            plan == executor_plan(self@, id, stopped),
    {
        if self.is_shut_down() || stopped {
            return ExecutorPlan::Exit;
        }
        match self.get_macro(id) {
            Some(m) => {
                if m.state == MacroButtonState::Running && self.macros_enabled() && !m.is_limited() {
                    ExecutorPlan::Press { interval: m.press_interval(), key: m.recorded_key }
                } else {
                    ExecutorPlan::Rest
                }
            },
            None => ExecutorPlan::Rest,
        }
    }
}

} // verus!
