//! What the operations on macros do.
use std::collections::HashMap;
use vstd::prelude::*;
use crate::laws::{law_snapshot_lists_each_macro_once, lists_each_once};
use crate::macros::{Macro, MacroKeyPress, StartStop};
use crate::model::{is_snapshot, lists_in_order, SharedStateView};
use crate::state::SharedState;
use crate::tables::keys_of;

verus! {

/// Recording a key takes effect exactly where the macro waits for one. It then holds that key and
/// runs; its number, its interval, its limit and its count stay as they were. Otherwise nothing
/// changes.
pub proof fn law_recording_takes_the_key(m: &mut Macro, vk: u32, recorded: bool)
    requires
        call_ensures(Macro::record_key, (m, vk), recorded),
    ensures
        recorded <==> old(m).state is WaitingKey,
        recorded ==> {
            &&& final(m).state is Running
            &&& final(m).recorded_key == Some(MacroKeyPress { vk_code: vk })
        },
        !recorded ==> {
            &&& final(m).state == old(m).state
            &&& final(m).recorded_key == old(m).recorded_key
        },
        final(m).id == old(m).id,
        final(m).repeat_interval == old(m).repeat_interval,
        final(m).repeat_count == old(m).repeat_count,
        final(m).repetition_count == old(m).repetition_count,
{
}

/// Start/Stop of an idle macro has it wait for a key; that of any other makes it idle and forget its
/// key. Either way its presses are counted anew, and its number, its interval and its limit stay as
/// they were.
pub proof fn law_start_stop_starts_or_stops(m: &mut Macro, did: StartStop)
    requires
        call_ensures(Macro::click_start_stop, (m,), did),
    ensures
        did == StartStop::Started <==> old(m).state is Idle,
        old(m).state is Idle ==> final(m).state is WaitingKey && final(m).recorded_key == old(
            m,
        ).recorded_key,
        !(old(m).state is Idle) ==> final(m).state is Idle && final(m).recorded_key is None,
        final(m).repetition_count == 0,
        final(m).id == old(m).id,
        final(m).repeat_interval == old(m).repeat_interval,
        final(m).repeat_count == old(m).repeat_count,
{
}

/// A press that is counted raises the count by one, unless that is at its largest; nothing else
/// changes.
pub proof fn law_counting_adds_one(m: &mut Macro)
    requires
        call_ensures(Macro::count_press, (m,), ()),
    ensures
        old(m).repetition_count < 0xFFFF_FFFF ==> final(m).repetition_count == old(
            m,
        ).repetition_count + 1,
        old(m).repetition_count == 0xFFFF_FFFF ==> final(m).repetition_count == 0xFFFF_FFFF,
        final(m).id == old(m).id,
        final(m).repeat_interval == old(m).repeat_interval,
        final(m).repeat_count == old(m).repeat_count,
        final(m).state == old(m).state,
        final(m).recorded_key == old(m).recorded_key,
{
}

/// A macro is at its limit exactly where it has one and has made that many presses.
pub proof fn law_limit_is_the_repeat_count(m: &Macro, limited: bool)
    requires
        call_ensures(Macro::is_limited, (m,), limited),
    ensures
        m.repeat_count == 0 ==> !limited,
        m.repeat_count > 0 ==> (limited <==> m.repetition_count >= m.repeat_count),
{
}

/// Counting a press takes a macro to its limit exactly where one press was left, and never back from
/// it.
pub proof fn law_limit_is_reached_by_counting(m: &mut Macro, before: bool, after: bool)
    requires
        call_ensures(Macro::is_limited, (&*old(m),), before),
        call_ensures(Macro::count_press, (m,), ()),
        call_ensures(Macro::is_limited, (&*final(m),), after),
    ensures
        before ==> after,
        after && !before ==> old(m).repetition_count + 1 == old(m).repeat_count,
        !before && old(m).repeat_count > 0 && old(m).repetition_count + 1 == old(m).repeat_count
            ==> after,
{
}

/// The interval at which a macro presses its key is the one that was set, where that is a positive
/// number of more than a millisecond, and a millisecond otherwise.
pub proof fn law_press_interval_is_the_one_set(m: &Macro, bits: u32)
    requires
        call_ensures(Macro::press_interval, (m,), bits),
    ensures
        0x3A83_126F <= m.repeat_interval <= 0x7F80_0000 ==> bits == m.repeat_interval,
        m.repeat_interval < 0x3A83_126F || m.repeat_interval > 0x7F80_0000 ==> bits == 0x3A83_126F,
{
}

/// A new macro is idle, has no key, no limit and no presses, and is to press ten times a second.
pub proof fn law_new_macro_is_idle(m: Macro)
    requires
        call_ensures(<Macro as Default>::default, (), m),
    ensures
        m.id == 0,
        m.state is Idle,
        m.recorded_key is None,
        m.repeat_count == 0,
        m.repetition_count == 0,
        m.repeat_interval == 0x3DCC_CCCD,
{
}

/// The application starts with no macros, nothing running, nothing selected or being bound, the failsafe
/// on, one click per second, and F6 and F7 as its hotkeys.
pub proof fn law_application_starts_with_nothing(state: SharedState)
    requires
        call_ensures(SharedState::new, (), state),
    ensures
        ({
            let s = state@;
            &&& !s.is_running && !s.shutdown && !s.macros_enabled
            &&& s.macros.dom() == Set::<u32>::empty() && s.free_ids.len() == 0
            &&& s.next_macro_id == 1 && s.current_macro_id == 0 && s.rebinding_target == 0
            &&& s.mode == 0 && s.cps_value == 0x3F80_0000 && s.slow_value == 0x4120_0000
            &&& s.autoclicker_key == 0x75 && s.master_switch_key == 0x76
            &&& s.failsafe_enabled && s.window_focused && s.target_hwnd == 0
        }),
{
    assert(state@.macros.dom() =~= Set::<u32>::empty());
}

/// A macro is added exactly where there are fewer than fifty: it is new and gets the number that was
/// freed last, which is then taken, or else the lowest that no macro ever had. The other macros stay as
/// they are, and nothing else changes. Otherwise nothing changes, and the number is zero.
pub proof fn law_adding_adds_one_new_macro(state: &mut SharedState, id: u32)
    requires
        call_ensures(SharedState::add_macro, (state,), id),
    ensures
        ({
            let s = old(state)@;
            let t = final(state)@;
            let added = t.macros[id];
            &&& s.macros.dom().len() >= 50 ==> id == 0 && t == s
            &&& s.macros.dom().len() < 50 ==> {
                &&& t.macros.contains_key(id)
                &&& forall|k: u32|
                    k != id ==> (#[trigger] t.macros.contains_key(k) <==> s.macros.contains_key(k))
                        && t.macros[k] == s.macros[k]
                &&& added.id == id && added.state is Idle && added.recorded_key is None
                &&& added.repeat_count == 0 && added.repetition_count == 0
                &&& added.repeat_interval == 0x3DCC_CCCD
                &&& s.free_ids.len() > 0 ==> {
                    &&& id == s.free_ids[s.free_ids.len() - 1]
                    &&& t.free_ids.push(id) == s.free_ids
                    &&& t.next_macro_id == s.next_macro_id
                }
                &&& s.free_ids.len() == 0 ==> {
                    &&& id == s.next_macro_id
                    &&& t.free_ids == s.free_ids
                    &&& s.next_macro_id < 0xFFFF_FFFF ==> t.next_macro_id == s.next_macro_id + 1
                }
                &&& t == (SharedStateView {
                    macros: t.macros,
                    free_ids: t.free_ids,
                    next_macro_id: t.next_macro_id,
                    ..s
                })
            }
        }),
{
    let s = old(state)@;
    if s.free_ids.len() > 0 {
        assert(s.free_ids.drop_last().push(s.free_ids.last()) =~= s.free_ids);
    }
}

/// In a valid state an added macro gets a number that no other has and that is not zero, and there is
/// one macro more.
pub proof fn law_added_number_is_new(state: &mut SharedState, id: u32)
    requires
        old(state)@.wf(),
        call_ensures(SharedState::add_macro, (state,), id),
    ensures
        id == 0 <==> old(state)@.macros.dom().len() == 50,
        id != 0 ==> {
            &&& 1 <= id <= 50
            &&& !old(state)@.macros.contains_key(id)
            &&& final(state)@.macros.dom().len() == old(state)@.macros.dom().len() + 1
        },
{
    let s = old(state)@;
    if s.free_ids.len() > 0 {
        let last = s.free_ids.last();
        assert(s.free_ids.contains(last));
        assert(!s.is_live(last));
    } else {
        assert(!s.is_live(s.next_macro_id));
    }
}

/// Removing takes effect exactly where there is a macro with that number, which is not zero. The macro
/// is then gone and its number is the one freed last; the other macros stay as they are, and nothing
/// else changes, the selection included.
pub proof fn law_removing_removes_one_macro(state: &mut SharedState, id: u32, removed: bool)
    requires
        call_ensures(SharedState::remove_macro, (state, id), removed),
    ensures
        ({
            let s = old(state)@;
            let t = final(state)@;
            &&& removed <==> id != 0 && s.macros.contains_key(id)
            &&& !removed ==> t == s
            &&& removed ==> {
                &&& !t.macros.contains_key(id)
                &&& forall|k: u32|
                    k != id ==> (#[trigger] t.macros.contains_key(k) <==> s.macros.contains_key(k))
                        && t.macros[k] == s.macros[k]
                &&& t.free_ids == s.free_ids.push(id)
                &&& t == (SharedStateView { macros: t.macros, free_ids: t.free_ids, ..s })
            }
        }),
{
}

/// The macro that is looked up under a number is the one with that number, where there is one, and the
/// macros are counted as they are.
pub proof fn law_macros_are_found_by_number(
    state: &SharedState,
    id: u32,
    found: Option<Macro>,
    count: usize,
)
    requires
        call_ensures(SharedState::get_macro, (state, id), found),
        call_ensures(SharedState::macro_count, (state,), count),
    ensures
        found is Some <==> state@.macros.contains_key(id),
        found matches Some(m) ==> state@.macros.contains_pair(id, m),
        count == state@.macros.dom().len(),
{
}

/// What was modified of a macro is what is looked up under its number from then on: the modification is
/// made on the macro as it was, and on it alone. Where there is no such macro nothing changes.
pub proof fn law_modifying_changes_one_macro<F: FnOnce(&mut Macro)>(
    state: &mut SharedState,
    id: u32,
    f: F,
    after: Macro,
)
    requires
        call_ensures(SharedState::modify_macro::<F>, (state, id, f), ()),
        old(state)@.macros.contains_key(id) ==> forall|m: &mut Macro|
            *m == old(state)@.macros[id] && #[trigger] call_ensures(f, (m,), ()) ==> *final(m) == after,
    ensures
        ({
            let s = old(state)@;
            let t = final(state)@;
            &&& s.macros.contains_key(id) ==> t.macros[id] == after
            &&& forall|k: u32| #[trigger] t.macros.contains_key(k) <==> s.macros.contains_key(k)
            &&& forall|k: u32| k != id ==> #[trigger] t.macros[k] == s.macros[k]
            &&& t == (SharedStateView { macros: t.macros, ..s })
            &&& !s.macros.contains_key(id) ==> t == s
        }),
{
}

/// Setting the interval of a macro sets that of this macro and nothing else, and so does setting its
/// limit; where there is no such macro nothing changes.
pub proof fn law_settings_change_one_field(
    timed: &mut SharedState,
    limited: &mut SharedState,
    id: u32,
    interval: u32,
    count: u32,
)
    requires
        call_ensures(SharedState::set_repeat_interval, (timed, id, interval), ()),
        call_ensures(SharedState::set_repeat_count, (limited, id, count), ()),
    ensures
        ({
            let s = old(timed)@;
            let t = final(timed)@;
            &&& t == (SharedStateView { macros: t.macros, ..s })
            &&& forall|k: u32| #[trigger] t.macros.contains_key(k) <==> s.macros.contains_key(k)
            &&& forall|k: u32|
                s.macros.contains_key(k) ==> #[trigger] t.macros[k] == (Macro {
                    repeat_interval: if k == id {
                        interval
                    } else {
                        s.macros[k].repeat_interval
                    },
                    ..s.macros[k]
                })
        }),
        ({
            let s = old(limited)@;
            let t = final(limited)@;
            &&& t == (SharedStateView { macros: t.macros, ..s })
            &&& forall|k: u32| #[trigger] t.macros.contains_key(k) <==> s.macros.contains_key(k)
            &&& forall|k: u32|
                s.macros.contains_key(k) ==> #[trigger] t.macros[k] == (Macro {
                    repeat_count: if k == id {
                        count
                    } else {
                        s.macros[k].repeat_count
                    },
                    ..s.macros[k]
                })
        }),
{
}

/// Start/Stop on the macro with a number does to this macro what clicking its own button does, says the
/// same, and changes nothing else; where there is no such macro nothing happens.
pub proof fn law_start_stop_is_that_of_the_macro(
    state: &mut SharedState,
    id: u32,
    did: Option<StartStop>,
    m: &mut Macro,
    of_macro: StartStop,
)
    requires
        call_ensures(SharedState::start_stop_macro, (state, id), did),
        call_ensures(Macro::click_start_stop, (m,), of_macro),
        old(state)@.macros.contains_key(id) ==> *old(m) == old(state)@.macros[id],
    ensures
        ({
            let s = old(state)@;
            let t = final(state)@;
            &&& did is None <==> !s.macros.contains_key(id)
            &&& did is None ==> t == s
            &&& did is Some ==> did == Some(of_macro) && t.macros[id] == *final(m)
            &&& forall|k: u32| #[trigger] t.macros.contains_key(k) <==> s.macros.contains_key(k)
            &&& forall|k: u32| k != id ==> #[trigger] t.macros[k] == s.macros[k]
            &&& t == (SharedStateView { macros: t.macros, ..s })
        }),
{
}

/// A press of the macro with a number is counted for this macro as it counts its own, and changes
/// nothing else; where there is no such macro nothing happens.
pub proof fn law_press_is_counted_for_the_macro(state: &mut SharedState, id: u32, m: &mut Macro)
    requires
        call_ensures(SharedState::count_macro_press, (state, id), ()),
        call_ensures(Macro::count_press, (m,), ()),
        old(state)@.macros.contains_key(id) ==> *old(m) == old(state)@.macros[id],
    ensures
        ({
            let s = old(state)@;
            let t = final(state)@;
            &&& s.macros.contains_key(id) ==> t.macros[id] == *final(m)
            &&& !s.macros.contains_key(id) ==> t == s
            &&& forall|k: u32| #[trigger] t.macros.contains_key(k) <==> s.macros.contains_key(k)
            &&& forall|k: u32| k != id ==> #[trigger] t.macros[k] == s.macros[k]
            &&& t == (SharedStateView { macros: t.macros, ..s })
        }),
{
}

/// Both snapshots hold the macro of each number, as many as there are, and the sorted one has them in the
/// order of the numbers that they carry, whatever these were modified to.
pub proof fn law_snapshots_hold_all_macros(
    state: &SharedState,
    all: Vec<Macro>,
    sorted: Vec<Macro>,
)
    requires
        call_ensures(SharedState::snapshot, (state,), all),
        call_ensures(SharedState::snapshot_sorted, (state,), sorted),
    ensures
        all@.len() == state@.macros.dom().len(),
        sorted@.len() == state@.macros.dom().len(),
        forall|k: u32| #[trigger]
            state@.macros.contains_key(k) ==> all@.contains(state@.macros[k]) && sorted@.contains(
                state@.macros[k],
            ),
        forall|i: int, j: int|
            0 <= i < j < sorted@.len() ==> #[trigger] sorted@[i].id <= #[trigger] sorted@[j].id,
{
    lemma_snapshot_holds_all(all@, state@.macros);
    lemma_snapshot_holds_all(sorted@, state@.macros);
}

proof fn lemma_snapshot_holds_all(s: Seq<Macro>, macros: Map<u32, Macro>)
    requires
        is_snapshot(s, macros),
    ensures
        s.len() == macros.dom().len(),
        forall|k: u32| #[trigger] macros.contains_key(k) ==> s.contains(macros[k]),
{
    let ids = choose|ids: Seq<u32>| #[trigger] lists_in_order(s, ids, macros);
    ids.unique_seq_to_set();
    assert forall|k: u32| #[trigger] macros.contains_key(k) implies s.contains(macros[k]) by {
        assert(ids.to_set().contains(k));
        let i = choose|i: int| 0 <= i < ids.len() && ids[i] == k;
        assert(s[i] == macros[k]);
    }
}

/// In a valid state both snapshots hold each macro exactly once and nothing else; in the sorted one the
/// numbers go up.
pub proof fn law_snapshots_hold_each_macro_once(
    state: &SharedState,
    all: Vec<Macro>,
    sorted: Vec<Macro>,
)
    requires
        state@.wf(),
        call_ensures(SharedState::snapshot, (state,), all),
        call_ensures(SharedState::snapshot_sorted, (state,), sorted),
    ensures
        lists_each_once(all@, state@.macros),
        lists_each_once(sorted@, state@.macros),
        forall|i: int, j: int|
            0 <= i < j < sorted@.len() ==> #[trigger] sorted@[i].id < #[trigger] sorted@[j].id,
{
    law_snapshot_lists_each_macro_once(all@, state@);
    law_snapshot_lists_each_macro_once(sorted@, state@);
}

/// The keys of a table are those under which it holds something, each once.
pub proof fn law_keys_of_a_table<V>(table: &HashMap<u32, V>, ids: Vec<u32>)
    requires
        call_ensures(keys_of::<V>, (table,), ids),
    ensures
        forall|id: u32| #[trigger] ids@.contains(id) <==> table@.contains_key(id),
        forall|i: int, j: int|
            0 <= i < j < ids@.len() ==> #[trigger] ids@[i] != #[trigger] ids@[j],
{
    assert forall|id: u32| #[trigger] ids@.contains(id) <==> table@.contains_key(id) by {
        assert(ids@.to_set().contains(id) <==> table@.dom().contains(id));
    }
}

/// Each setting is what it was last set to, and setting it changes nothing else.
pub proof fn law_settings_are_kept(
    selected: &mut SharedState,
    moded: &mut SharedState,
    binding: &mut SharedState,
    failsafe: &mut SharedState,
    windowed: &mut SharedState,
    id: u32,
    mode: u32,
    target: u32,
    on: bool,
    hwnd: isize,
)
    requires
        call_ensures(SharedState::set_current_macro_id, (selected, id), ()),
        call_ensures(SharedState::set_mode, (moded, mode), ()),
        call_ensures(SharedState::set_rebinding_target, (binding, target), ()),
        call_ensures(SharedState::set_failsafe_enabled, (failsafe, on), ()),
        call_ensures(SharedState::set_target_hwnd, (windowed, hwnd), ()),
    ensures
        final(selected)@ == (SharedStateView { current_macro_id: id, ..old(selected)@ }),
        final(moded)@ == (SharedStateView { mode, ..old(moded)@ }),
        final(binding)@ == (SharedStateView { rebinding_target: target, ..old(binding)@ }),
        final(failsafe)@ == (SharedStateView { failsafe_enabled: on, ..old(failsafe)@ }),
        final(windowed)@ == (SharedStateView { target_hwnd: hwnd, ..old(windowed)@ }),
{
}

/// Switching the autoclicker and turning the master switch change these alone; ending the application
/// stops the autoclicker and leaves everything else, the macros and their switch included.
pub proof fn law_switches_change_themselves(
    running: &mut SharedState,
    enabled: &mut SharedState,
    ending: &mut SharedState,
)
    requires
        call_ensures(SharedState::toggle_running, (running,), ()),
        call_ensures(SharedState::toggle_macros, (enabled,), ()),
        call_ensures(SharedState::begin_shutdown, (ending,), ()),
    ensures
        final(running)@.is_running != old(running)@.is_running,
        final(running)@ == (SharedStateView {
            is_running: final(running)@.is_running,
            ..old(running)@
        }),
        final(enabled)@.macros_enabled != old(enabled)@.macros_enabled,
        final(enabled)@ == (SharedStateView {
            macros_enabled: final(enabled)@.macros_enabled,
            ..old(enabled)@
        }),
        final(ending)@.shutdown && !final(ending)@.is_running,
        final(ending)@ == (SharedStateView { shutdown: true, is_running: false, ..old(ending)@ }),
{
}

/// What is asked of the state is what it holds.
pub proof fn law_state_tells_what_it_holds(
    state: &SharedState,
    current: u32,
    mode: u32,
    slow_mode: bool,
    running: bool,
    enabled: bool,
    ending: bool,
    autoclicker_key: u32,
    master_key: u32,
    target: u32,
    failsafe: bool,
    focused: bool,
)
    requires
        call_ensures(SharedState::get_current_macro_id, (state,), current),
        call_ensures(SharedState::get_mode, (state,), mode),
        call_ensures(SharedState::is_slow_mode, (state,), slow_mode),
        call_ensures(SharedState::is_running, (state,), running),
        call_ensures(SharedState::macros_enabled, (state,), enabled),
        call_ensures(SharedState::is_shut_down, (state,), ending),
        call_ensures(SharedState::autoclicker_key, (state,), autoclicker_key),
        call_ensures(SharedState::master_switch_key, (state,), master_key),
        call_ensures(SharedState::rebinding_target, (state,), target),
        call_ensures(SharedState::failsafe_enabled, (state,), failsafe),
        call_ensures(SharedState::window_focused, (state,), focused),
    ensures
        current == state@.current_macro_id,
        mode == state@.mode,
        slow_mode <==> mode == 1,
        running == state@.is_running,
        enabled == state@.macros_enabled,
        ending == state@.shutdown,
        autoclicker_key == state@.autoclicker_key,
        master_key == state@.master_switch_key,
        target == state@.rebinding_target,
        failsafe == state@.failsafe_enabled,
        focused == state@.window_focused,
{
}

/// In slow mode the interval is what is shown, limited to an hour, and edited; otherwise the rate is,
/// limited to a thousand. An edit changes that one alone, to the value given.
pub proof fn law_the_chosen_value_is_shown_and_edited(
    state: &mut SharedState,
    bits: u32,
    slow_mode: bool,
    shown: u32,
    limit: u32,
    cps: u32,
    slow: u32,
    edited_cps: u32,
    edited_slow: u32,
)
    requires
        call_ensures(SharedState::is_slow_mode, (&*old(state),), slow_mode),
        call_ensures(SharedState::shown_value, (&*old(state),), shown),
        call_ensures(SharedState::value_limit, (&*old(state),), limit),
        call_ensures(SharedState::get_cps, (&*old(state),), cps),
        call_ensures(SharedState::get_slow, (&*old(state),), slow),
        call_ensures(SharedState::value_edited, (state, bits), ()),
        call_ensures(SharedState::get_cps, (&*final(state),), edited_cps),
        call_ensures(SharedState::get_slow, (&*final(state),), edited_slow),
    ensures
        cps == old(state)@.cps_value && slow == old(state)@.slow_value,
        slow_mode ==> shown == slow && limit == 0x4561_0000,
        slow_mode ==> edited_slow == bits && edited_cps == cps,
        !slow_mode ==> shown == cps && limit == 0x447A_0000,
        !slow_mode ==> edited_cps == bits && edited_slow == slow,
        final(state)@ == (SharedStateView {
            cps_value: edited_cps,
            slow_value: edited_slow,
            ..old(state)@
        }),
{
}

} // verus!
