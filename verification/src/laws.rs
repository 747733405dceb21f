//! What holds of the application as a whole.
use vstd::prelude::*;
use crate::gui::{
    focus_noted, fresh_presses, key_reports, state_after_keys, AppView, KeyReport, WindowEvent,
};
use crate::keys::{
    counterpart, global_code, law_both_key_tables_agree, window_code, GlobalKey, WindowKey,
};
use crate::macros::{
    fresh_macro, press_interval, Macro, MacroButtonState, MacroKeyPress, StartStop,
    INFINITE_INTERVAL, MIN_REPEAT_INTERVAL,
};
use crate::model::{
    is_snapshot, is_sorted_by_id, lemma_add_keeps_wf, lemma_remove_keeps_wf,
    lemma_same_registry_keeps_wf, lemma_with_macro_keeps_wf, lists_in_order, Change, KeyOutcome,
    SharedStateView, CPS_MODE, MAX_CPS, MAX_MACROS, MAX_SLOW, MIN_VALUE, REBIND_AUTOCLICKER,
    REBIND_MASTER_SWITCH, REBIND_NOTHING, SLOW_MODE,
};
use crate::pacing::{
    clicker_plan, counted_from, executor_applied, executor_plan, executor_turn, is_due, presses,
    time_left, ClickInterval, ClickerAction, ClickerPlan, ClickerView, ExecutorAction,
    ExecutorPlan,
};

verus! {

/// The application starts in a valid state in which nothing clicks and no macro presses.
pub proof fn law_everything_starts_off(id: u32)
    ensures
        SharedStateView::initial().wf(),
        clicker_plan(SharedStateView::initial()) == ClickerPlan::Rest,
        executor_plan(SharedStateView::initial(), id, false) == ExecutorPlan::Rest,
{
}

/// There are never more macros than allowed, and their numbers are 1 up to that many.
pub proof fn law_numbers_are_bounded(s: SharedStateView, id: u32)
    requires
        s.wf(),
    ensures
        s.macros.len() <= MAX_MACROS,
        s.is_live(id) ==> 1 <= id <= MAX_MACROS,
{
}

/// A macro is refused exactly where there are already as many as allowed; otherwise it gets a
/// number that no other macro has, and the other macros stay as they are.
pub proof fn law_added_macro_gets_an_unused_number(s: SharedStateView)
    requires
        s.wf(),
    ensures
        s.add_macro().1 == 0 <==> s.macros.len() == MAX_MACROS,
        s.add_macro().1 == 0 ==> s.add_macro().0 == s,
        s.add_macro().1 != 0 ==> {
            &&& !s.is_live(s.add_macro().1)
            &&& s.add_macro().0.macros == s.macros.insert(
                s.add_macro().1,
                fresh_macro(s.add_macro().1),
            )
        },
{
    if s.free_ids.len() > 0 {
        assert(s.free_ids.contains(s.free_ids.last()));
    }
}

/// The number of a macro that was just removed is the one that the next macro gets, so removing
/// a macro and adding one is the same as making it anew.
pub proof fn law_freed_number_is_used_next(s: SharedStateView, id: u32)
    requires
        s.wf(),
        s.is_live(id),
    ensures
        s.remove_macro(id).add_macro() == (s.with_macro(id, fresh_macro(id)), id),
{
    let removed = s.remove_macro(id);
    assert(removed.free_ids.last() == id);
    assert(removed.free_ids.drop_last() =~= s.free_ids);
    assert(removed.macros.insert(id, fresh_macro(id)) =~= s.macros.insert(id, fresh_macro(id)));
    assert(removed.add_macro().0 =~= s.with_macro(id, fresh_macro(id)));
}

/// Removing the macro that was just added leaves the macros as they were before.
pub proof fn law_removing_undoes_adding(s: SharedStateView)
    requires
        s.wf(),
        s.macros.len() < MAX_MACROS,
    ensures
        s.add_macro().0.remove_macro(s.add_macro().1).macros == s.macros,
{
    law_added_macro_gets_an_unused_number(s);
    let id = s.add_macro().1;
    assert(s.add_macro().0.remove_macro(id).macros =~= s.macros);
}

/// The state after `n` macros were added to the state at the start.
pub open spec fn after_adding(n: nat) -> SharedStateView
    decreases n,
{
    if n == 0 {
        SharedStateView::initial()
    } else {
        after_adding((n - 1) as nat).add_macro().0
    }
}

/// The macros that are added first get the numbers 1, 2, 3 and so on.
pub proof fn law_first_numbers_count_up(n: nat)
    requires
        n < MAX_MACROS,
    ensures
        after_adding(n).add_macro().1 == n + 1,
        after_adding(n).macros.len() == n,
        after_adding(n).wf(),
{
    lemma_adding_to_unfreed(n);
}

proof fn lemma_adding_to_unfreed(n: nat)
    requires
        n <= MAX_MACROS,
    ensures
        after_adding(n).free_ids.len() == 0,
        after_adding(n).next_macro_id == n + 1,
        after_adding(n).macros.len() == n,
        after_adding(n).wf(),
    decreases n,
{
    if n > 0 {
        let before = after_adding((n - 1) as nat);
        lemma_adding_to_unfreed((n - 1) as nat);
        law_added_macro_gets_an_unused_number(before);
        lemma_add_keeps_wf(before);
    }
}

/// Numbers are handed out upwards: no change lowers the lowest number that no macro ever had.
pub proof fn law_next_number_never_decreases(s: SharedStateView, change: Change)
    requires
        s.wf(),
    ensures
        s.changed(change).next_macro_id >= s.next_macro_id,
{
}

/// Whether a modified macro still carries its own number.
pub open spec fn keeps_its_number(change: Change) -> bool {
    change matches Change::MacroReplaced { id, with } ==> with.id == id
}

/// Every change keeps the numbers of the macros in order, as long as a modified macro keeps its
/// own.
pub proof fn law_changes_keep_the_registry(s: SharedStateView, change: Change)
    requires
        s.wf(),
        keeps_its_number(change),
    ensures
        s.changed(change).wf(),
{
    broadcast use lemma_same_registry_keeps_wf;

    match change {
        Change::MacroAdded => lemma_add_keeps_wf(s),
        Change::MacroRemoved { id } => lemma_remove_keeps_wf(s, id),
        Change::MacroDropped { id } => {
            lemma_remove_keeps_wf(s, id);
            assert(s.remove_macro(id).wf());
        },
        Change::MacroReplaced { id, with } => if s.is_live(id) {
            lemma_with_macro_keeps_wf(s, id, with);
        },
        Change::StartStopClicked { id } => if s.is_live(id) {
            lemma_with_macro_keeps_wf(s, id, s.macros[id].toggled());
        },
        Change::PressCounted { id } => if s.is_live(id) {
            lemma_with_macro_keeps_wf(s, id, s.macros[id].pressed());
        },
        Change::IntervalSet { id, interval } => if s.is_live(id) {
            lemma_with_macro_keeps_wf(
                s,
                id,
                Macro { repeat_interval: interval, ..s.macros[id] },
            );
        },
        Change::CountSet { id, count } => if s.is_live(id) {
            lemma_with_macro_keeps_wf(s, id, Macro { repeat_count: count, ..s.macros[id] });
        },
        Change::WindowKeyPressed { vk, editing } => if s.key_outcome(vk, editing) is Recorded {
            let id = s.current_macro_id;
            lemma_with_macro_keeps_wf(s, id, s.macros[id].armed(vk));
        },
        _ => {},
    }
}

/// Whether a modified macro holds a key exactly while it runs.
pub open spec fn keeps_consistent(change: Change) -> bool {
    change matches Change::MacroReplaced { with, .. } ==> with.consistent()
}

/// Every change keeps it so that each macro holds a key exactly while it runs, as long as that
/// holds of a modified macro.
pub proof fn law_changes_keep_macros_consistent(s: SharedStateView, change: Change)
    requires
        s.macros_consistent(),
        keeps_consistent(change),
    ensures
        s.changed(change).macros_consistent(),
{
}

/// In every state that the application gets to, the numbers of the macros are in order.
pub proof fn law_reached_states_are_valid(changes: Seq<Change>)
    requires
        forall|i: int| 0 <= i < changes.len() ==> keeps_its_number(#[trigger] changes[i]),
    ensures
        SharedStateView::initial().after(changes).wf(),
    decreases changes.len(),
{
    if changes.len() > 0 {
        let before = changes.drop_last();
        assert forall|i: int| 0 <= i < before.len() implies keeps_its_number(
            #[trigger] before[i],
        ) by {
            assert(before[i] == changes[i]);
        }
        law_reached_states_are_valid(before);
        assert(changes.last() == changes[changes.len() - 1]);
        law_changes_keep_the_registry(SharedStateView::initial().after(before), changes.last());
    }
}

/// In every state that the application gets to, each macro holds a key exactly while it runs.
pub proof fn law_reached_macros_are_consistent(changes: Seq<Change>)
    requires
        forall|i: int| 0 <= i < changes.len() ==> keeps_consistent(#[trigger] changes[i]),
    ensures
        SharedStateView::initial().after(changes).macros_consistent(),
    decreases changes.len(),
{
    if changes.len() > 0 {
        let before = changes.drop_last();
        assert forall|i: int| 0 <= i < before.len() implies keeps_consistent(
            #[trigger] before[i],
        ) by {
            assert(before[i] == changes[i]);
        }
        law_reached_macros_are_consistent(before);
        assert(changes.last() == changes[changes.len() - 1]);
        law_changes_keep_macros_consistent(
            SharedStateView::initial().after(before),
            changes.last(),
        );
    }
}

/// Whether each value that is edited lies in the range of its field, and each mode that is chosen
/// is one of the two.
pub open spec fn edits_in_range(s: SharedStateView, change: Change) -> bool {
    match change {
        Change::ValueEdited { bits } => MIN_VALUE <= bits <= s.value_limit(),
        Change::ModeChosen { mode } => mode == CPS_MODE || mode == SLOW_MODE,
        _ => true,
    }
}

/// The rate and the interval of the clicker start in their ranges, and no change takes them out of
/// them as long as the values that are edited lie in the ranges of their fields.
pub proof fn law_rates_stay_in_range(s: SharedStateView, change: Change)
    requires
        s.rates_in_range(),
        edits_in_range(s, change),
    ensures
        SharedStateView::initial().rates_in_range(),
        s.changed(change).rates_in_range(),
{
    let t = s.changed(change);
    match change {
        Change::ValueEdited { bits } => {},
        Change::ModeChosen { mode } => {},
        _ => {
            assert(t.mode == s.mode);
            assert(t.cps_value == s.cps_value);
            assert(t.slow_value == s.slow_value);
        },
    }
}

/// In every state that the application gets to by edits within the ranges of the fields, the rate
/// lies in 0.1 to 1000 and the interval in 0.1 to 3600, so that neither is zero, and clicks are set
/// by one of the two.
pub proof fn law_reached_rates_are_in_range(changes: Seq<Change>)
    requires
        forall|i: int|
            0 <= i < changes.len() ==> edits_in_range(
                SharedStateView::initial().after(changes.take(i)),
                #[trigger] changes[i],
            ),
    ensures
        ({
            let s = SharedStateView::initial().after(changes);
            &&& s.rates_in_range()
            &&& 0 < MIN_VALUE <= s.shown_value() <= s.value_limit()
            &&& match clicker_plan(s) {
                ClickerPlan::Click(ClickInterval::PerSecond(bits)) => MIN_VALUE <= bits <= MAX_CPS,
                ClickerPlan::Click(ClickInterval::Seconds(bits)) => MIN_VALUE <= bits <= MAX_SLOW,
                _ => true,
            }
        }),
    decreases changes.len(),
{
    if changes.len() > 0 {
        let before = changes.drop_last();
        assert forall|i: int| 0 <= i < before.len() implies edits_in_range(
            SharedStateView::initial().after(before.take(i)),
            #[trigger] before[i],
        ) by {
            assert(before[i] == changes[i]);
            assert(before.take(i) =~= changes.take(i));
        }
        law_reached_rates_are_in_range(before);
        assert(changes.take(changes.len() - 1) =~= before);
        assert(changes.last() == changes[changes.len() - 1]);
        law_rates_stay_in_range(SharedStateView::initial().after(before), changes.last());
    }
}

/// Editing a value changes the one of the chosen mode and nothing else: it is then the one that is
/// shown, and editing it back undoes the edit.
pub proof fn law_edits_change_the_chosen_value(s: SharedStateView, bits: u32)
    ensures
        s.value_edited(bits).shown_value() == bits,
        s.mode == SLOW_MODE ==> s.value_edited(bits) == (SharedStateView { slow_value: bits, ..s }),
        s.mode != SLOW_MODE ==> s.value_edited(bits) == (SharedStateView { cps_value: bits, ..s }),
        s.value_edited(bits).value_edited(s.shown_value()) == s,
{
}

/// Whether `s` lists each macro exactly once, by the number that it carries.
pub open spec fn lists_each_once(s: Seq<Macro>, macros: Map<u32, Macro>) -> bool {
    &&& s.len() == macros.len()
    &&& forall|i: int|
        0 <= i < s.len() ==> macros.contains_key(#[trigger] s[i].id) && macros[s[i].id] == s[i]
    &&& forall|i: int, j: int|
        0 <= i < j < s.len() ==> #[trigger] s[i].id != #[trigger] s[j].id
    &&& forall|id: u32| #[trigger]
        macros.contains_key(id) ==> exists|i: int| 0 <= i < s.len() && #[trigger] s[i] == macros[id]
}

/// A snapshot lists each macro exactly once, by the number that it carries.
pub proof fn law_snapshot_lists_each_macro_once(a: Seq<Macro>, s: SharedStateView)
    requires
        s.wf(),
        is_snapshot(a, s.macros),
    ensures
        lists_each_once(a, s.macros),
{
    let macros = s.macros;
    let ids = choose|ids: Seq<u32>| #[trigger] lists_in_order(a, ids, macros);
    ids.unique_seq_to_set();
    assert forall|i: int| 0 <= i < a.len() implies #[trigger] a[i].id == ids[i] && s.is_live(
        ids[i],
    ) && a[i] == macros[ids[i]] by {
        assert(ids.to_set().contains(ids[i]));
        assert(s.is_live(ids[i]));
    }
    assert forall|id: u32| #[trigger] macros.contains_key(id) implies exists|i: int|
        0 <= i < a.len() && #[trigger] a[i] == macros[id] by {
        assert(ids.to_set().contains(id));
        let i = choose|i: int| 0 <= i < ids.len() && ids[i] == id;
        assert(a[i] == macros[id]);
    }
}

/// There is only one way to list the macros in the order of their numbers.
pub proof fn law_sorted_snapshot_is_unique(a: Seq<Macro>, b: Seq<Macro>, s: SharedStateView)
    requires
        s.wf(),
        is_snapshot(a, s.macros),
        is_snapshot(b, s.macros),
        is_sorted_by_id(a),
        is_sorted_by_id(b),
    ensures
        a == b,
{
    law_snapshot_lists_each_macro_once(a, s);
    law_snapshot_lists_each_macro_once(b, s);
    assert forall|i: int| 0 <= i < a.len() implies a[i] == b[i] by {
        lemma_sorted_snapshots_agree(a, b, s.macros, i);
    }
    assert(a =~= b);
}

proof fn lemma_sorted_snapshots_agree(
    a: Seq<Macro>,
    b: Seq<Macro>,
    macros: Map<u32, Macro>,
    i: int,
)
    requires
        lists_each_once(a, macros),
        lists_each_once(b, macros),
        is_sorted_by_id(a),
        is_sorted_by_id(b),
        0 <= i < a.len(),
    ensures
        a[i] == b[i],
    decreases i,
{
    assert forall|j: int| 0 <= j < i implies a[j] == b[j] by {
        lemma_sorted_snapshots_agree(a, b, macros, j);
    }
    assert(macros.contains_key(a[i].id));
    let k = choose|k: int| 0 <= k < b.len() && #[trigger] b[k] == macros[a[i].id];
    assert(b[k] == a[i]);
    if k < i {
        assert(a[k] == b[k]);
        assert(a[k].id != a[i].id);
    }
    assert(macros.contains_key(b[i].id));
    let l = choose|l: int| 0 <= l < a.len() && #[trigger] a[l] == macros[b[i].id];
    assert(a[l] == b[i]);
    if l < i {
        assert(a[l] == b[l]);
        assert(b[l].id != b[i].id);
    }
    if k > i {
        assert(b[i].id <= b[k].id && b[i].id != b[k].id);
        if l > i {
            assert(a[i].id <= a[l].id);
        }
    }
}

/// When the window loses the focus while the failsafe is on, the clicker and the macros stop.
pub proof fn law_failsafe_stops_everything(s: SharedStateView, foreground: isize, id: u32)
    requires
        s.target_hwnd != 0,
        s.failsafe_enabled,
        s.window_focused,
        foreground != s.target_hwnd,
    ensures
        !s.focus_checked(foreground).is_running,
        !s.focus_checked(foreground).macros_enabled,
        !presses(s.focus_checked(foreground), id),
{
}

/// The failsafe acts on the loss of the focus alone: with the window unfocused before, or
/// focused after, or with the failsafe off, nothing is switched on or off.
pub proof fn law_failsafe_acts_on_the_loss_only(s: SharedStateView, foreground: isize)
    requires
        !s.window_focused || foreground == s.target_hwnd || !s.failsafe_enabled,
    ensures
        s.focus_checked(foreground).is_running == s.is_running,
        s.focus_checked(foreground).macros_enabled == s.macros_enabled,
{
}

/// Looking twice at the same window in front is the same as looking once.
pub proof fn law_failsafe_does_not_act_twice(s: SharedStateView, foreground: isize)
    ensures
        s.focus_checked(foreground).focus_checked(foreground) == s.focus_checked(foreground),
{
}

/// What a hotkey starts while another window is in front stays started in the next frames.
pub proof fn law_hotkeys_work_while_unfocused(s: SharedStateView, foreground: isize)
    requires
        !s.window_focused,
        foreground != s.target_hwnd,
    ensures
        s.autoclicker_key != 0 ==> s.global_key(s.autoclicker_key).focus_checked(
            foreground,
        ).is_running == !s.is_running,
        s.master_switch_key != 0 && s.master_switch_key != s.autoclicker_key ==> s.global_key(
            s.master_switch_key,
        ).focus_checked(foreground).macros_enabled == !s.macros_enabled,
{
}

/// A key press that both the window and the system-wide hook report counts once: through the
/// window while it has the focus, through the hook otherwise.
pub proof fn law_no_key_press_counts_twice(s: SharedStateView, vk: u32, editing: bool)
    ensures
        s.window_focused ==> s.window_key(vk, editing).global_key(vk) == s.window_key(vk, editing),
        s.window_focused ==> s.global_key(vk) == s,
        s.window_key(vk, editing).window_focused == s.window_focused,
{
}

/// Pressing a hotkey twice changes nothing, neither through the hook nor through the window.
pub proof fn law_hotkey_twice_changes_nothing(s: SharedStateView, vk: u32)
    ensures
        s.global_key(vk).global_key(vk) == s,
        s.key_outcome(vk, false) == KeyOutcome::AutoclickerToggled || s.key_outcome(vk, false)
            == KeyOutcome::MasterSwitchToggled ==> s.window_key(vk, false).window_key(vk, false)
            == s,
{
    let t = s.global_key(vk);
    assert(t.global_key(vk) =~= s);
    assert(s.running_toggled().running_toggled() =~= s);
    assert(s.macros_toggled().macros_toggled() =~= s);
}

/// While a hotkey is being bound, a key press does that and nothing else, and ends it.
pub proof fn law_binding_comes_first(s: SharedStateView, vk: u32, editing: bool)
    requires
        s.rebinding_target != REBIND_NOTHING,
        vk != 0,
    ensures
        s.window_key(vk, editing).rebinding_target == REBIND_NOTHING,
        s.window_key(vk, editing) == (SharedStateView {
            rebinding_target: REBIND_NOTHING,
            autoclicker_key: if s.rebinding_target == REBIND_AUTOCLICKER {
                vk
            } else {
                s.autoclicker_key
            },
            master_switch_key: if s.rebinding_target == REBIND_MASTER_SWITCH {
                vk
            } else {
                s.master_switch_key
            },
            ..s
        }),
{
}

/// A key that was bound to the autoclicker in the window toggles it from then on: in the window
/// as well as through the hook.
pub proof fn law_bound_key_works(
    s: SharedStateView,
    key: WindowKey,
    hooked: GlobalKey,
    editing: bool,
)
    requires
        s.rebinding_target == REBIND_AUTOCLICKER,
        counterpart(hooked) == Some(key),
    ensures
        ({
            let bound = s.window_key(window_code(key), editing);
            let unfocused = SharedStateView { window_focused: false, ..bound };
            &&& unfocused.global_key(global_code(hooked)) == unfocused.running_toggled()
            &&& !bound.is_recording() ==> bound.window_key(window_code(key), false)
                == bound.running_toggled()
        }),
{
    law_both_key_tables_agree(hooked);
}

/// A key that was bound to the master switch in the window turns it from then on, in the window as
/// well as through the hook, unless it is the key of the autoclicker, which is looked at first.
pub proof fn law_bound_master_key_works(
    s: SharedStateView,
    key: WindowKey,
    hooked: GlobalKey,
    editing: bool,
)
    requires
        s.rebinding_target == REBIND_MASTER_SWITCH,
        counterpart(hooked) == Some(key),
        window_code(key) != s.autoclicker_key,
    ensures
        ({
            let bound = s.window_key(window_code(key), editing);
            let unfocused = SharedStateView { window_focused: false, ..bound };
            &&& unfocused.global_key(global_code(hooked)) == unfocused.macros_toggled()
            &&& !bound.is_recording() ==> bound.window_key(window_code(key), false)
                == bound.macros_toggled()
        }),
{
    law_both_key_tables_agree(hooked);
}

/// A widget that is being edited keeps the hotkeys from working in the window.
pub proof fn law_editing_disables_hotkeys(s: SharedStateView, vk: u32)
    ensures
        s.window_key(vk, true).is_running == s.is_running,
        s.window_key(vk, true).macros_enabled == s.macros_enabled,
{
}

/// A key without a code does nothing at all.
pub proof fn law_unknown_keys_do_nothing(s: SharedStateView, editing: bool)
    ensures
        s.window_key(0, editing) == s,
        s.global_key(0) == s,
{
}

/// Recording a key only arms the macro: it takes the key and runs, but the master switch stays
/// where it is, and while that is off nothing is pressed.
pub proof fn law_recording_only_arms(s: SharedStateView, vk: u32, editing: bool)
    requires
        s.is_recording(),
        s.rebinding_target == REBIND_NOTHING,
        vk != 0,
    ensures
        ({
            let t = s.window_key(vk, editing);
            let id = s.current_macro_id;
            &&& t == s.with_macro(id, s.macros[id].armed(vk))
            &&& t.macros[id].state == MacroButtonState::Running
            &&& t.macros[id].recorded_key == Some(MacroKeyPress { vk_code: vk })
            &&& t.macros_enabled == s.macros_enabled
            &&& t.is_running == s.is_running
            &&& !s.macros_enabled ==> !presses(t, id)
            &&& s.macros_enabled && !s.macros[id].exhausted() ==> presses(t, id)
        }),
{
}

/// No macro presses its key while the master switch is off.
pub proof fn law_no_press_while_switched_off(s: SharedStateView, id: u32, stopped: bool)
    requires
        !s.macros_enabled,
    ensures
        !(executor_plan(s, id, stopped) is Press),
{
}

/// A macro that presses has a key to press.
pub proof fn law_pressing_macro_has_a_key(s: SharedStateView, id: u32, stopped: bool)
    requires
        s.macros_consistent(),
        executor_plan(s, id, stopped) is Press,
    ensures
        executor_plan(s, id, stopped)->key is Some,
        executor_plan(s, id, stopped)->key == s.macros[id].recorded_key,
{
    assert(s.is_live(id));
}

/// A macro does not press right after its Start/Stop was clicked, nor after it was removed.
pub proof fn law_stopped_and_removed_macros_do_not_press(s: SharedStateView, id: u32)
    requires
        s.wf(),
    ensures
        !presses(s.start_stop(id), id),
        !presses(s.remove_macro(id), id),
        !presses(s.macro_dropped(id), id),
{
    if s.is_live(id) {
        assert(id != 0);
    }
}

/// Start/Stop clicked twice on an idle macro leaves it as it was, with its presses counted anew.
pub proof fn law_start_stop_twice(m: Macro)
    requires
        m.consistent(),
        m.state == MacroButtonState::Idle,
    ensures
        m.toggled().toggled() == (Macro { repetition_count: 0, ..m }),
{
}

/// Start/Stop, recording a key and counting a press keep it so that a macro has a key exactly
/// while it runs.
pub proof fn law_macros_stay_consistent(m: Macro, vk: u32)
    requires
        m.consistent(),
    ensures
        m.toggled().consistent(),
        m.armed(vk).consistent(),
        m.pressed().consistent(),
{
}

/// Whether the selected macro, if any, is there.
pub open spec fn selection_valid(s: SharedStateView) -> bool {
    s.current_macro_id == 0 || s.is_live(s.current_macro_id)
}

/// Whether only a macro that is there, or none, is selected, and the selected one is not removed
/// without unselecting it.
pub open spec fn keeps_selection(s: SharedStateView, change: Change) -> bool {
    match change {
        Change::MacroSelected { id } => id == 0 || s.is_live(id),
        Change::MacroRemoved { id } => id != s.current_macro_id,
        _ => true,
    }
}

/// The selected macro is always there: removing one in the window unselects it, and nothing else
/// loses the selected one, as long as only macros that are there are selected and the selected one
/// is not removed without unselecting it.
pub proof fn law_selected_macro_is_there(s: SharedStateView, change: Change)
    requires
        s.wf(),
        selection_valid(s),
        keeps_selection(s, change),
    ensures
        selection_valid(s.changed(change)),
        change matches Change::MacroDropped { id } ==> id != 0 ==> s.changed(
            change,
        ).current_macro_id != id,
{
}

/// In every state that the application gets to, the selected macro is there.
pub proof fn law_reached_selection_is_there(changes: Seq<Change>)
    requires
        forall|i: int|
            0 <= i < changes.len() ==> keeps_its_number(#[trigger] changes[i]) && keeps_selection(
                SharedStateView::initial().after(changes.take(i)),
                changes[i],
            ),
    ensures
        selection_valid(SharedStateView::initial().after(changes)),
    decreases changes.len(),
{
    if changes.len() > 0 {
        let before = changes.drop_last();
        assert forall|i: int| 0 <= i < before.len() implies keeps_its_number(#[trigger] before[i])
            && keeps_selection(SharedStateView::initial().after(before.take(i)), before[i]) by {
            assert(before[i] == changes[i]);
            assert(before.take(i) =~= changes.take(i));
        }
        law_reached_selection_is_there(before);
        law_reached_states_are_valid(before);
        assert(changes.take(changes.len() - 1) =~= before);
        assert(changes.last() == changes[changes.len() - 1]);
        law_selected_macro_is_there(SharedStateView::initial().after(before), changes.last());
    }
}

/// Once the application ends, every thread ends, the hook is no longer listened to, and nothing
/// takes that back.
pub proof fn law_shutdown_is_final(
    s: SharedStateView,
    change: Change,
    id: u32,
    vk: u32,
    stopped: bool,
)
    requires
        s.shutdown,
    ensures
        clicker_plan(s) == ClickerPlan::Exit,
        executor_plan(s, id, stopped) == ExecutorPlan::Exit,
        s.hook_key(vk) == s,
        s.changed(change).shutdown,
{
}

/// Ending the application stops the clicker.
pub proof fn law_shutdown_stops_the_clicker(s: SharedStateView)
    ensures
        s.shut_down().shutdown,
        !s.shut_down().is_running,
        clicker_plan(s.shut_down()) == ClickerPlan::Exit,
{
}

/// A look at the clock: the time and the interval.
pub struct Look {
    pub now: nat,
    pub interval: nat,
}

/// From when on the interval counts after these looks at the clock.
pub open spec fn counted_after(start: nat, looks: Seq<Look>) -> nat
    decreases looks.len(),
{
    if looks.len() == 0 {
        start
    } else {
        counted_from(
            counted_after(start, looks.drop_last()),
            looks.last().now,
            looks.last().interval,
        )
    }
}

/// Whether the interval is over at the look at index `i`.
pub open spec fn due_at(start: nat, looks: Seq<Look>, i: int) -> bool {
    is_due(counted_after(start, looks.take(i)), looks[i].now, looks[i].interval)
}

/// Of two looks at the clock in a row that say to act, the second is at least its interval after
/// the first, however many looks in between say to wait.
pub proof fn law_actions_keep_their_distance(start: nat, looks: Seq<Look>, first: int, second: int)
    requires
        0 <= first < second < looks.len(),
        due_at(start, looks, first),
        due_at(start, looks, second),
        forall|k: int| first < k < second ==> !#[trigger] due_at(start, looks, k),
    ensures
        looks[second].now >= looks[first].now + looks[second].interval,
{
    lemma_counted_since(start, looks, first, second);
}

proof fn lemma_counted_since(start: nat, looks: Seq<Look>, first: int, next: int)
    requires
        0 <= first < next <= looks.len(),
        due_at(start, looks, first),
        forall|k: int| first < k < next ==> !#[trigger] due_at(start, looks, k),
    ensures
        counted_after(start, looks.take(next)) == looks[first].now,
    decreases next,
{
    assert(looks.take(next).drop_last() =~= looks.take(next - 1));
    assert(looks.take(next).last() == looks[next - 1]);
    if first < next - 1 {
        lemma_counted_since(start, looks, first, next - 1);
        assert(!due_at(start, looks, next - 1));
    }
}

/// A turn of the clicker: the plan that it read, the time, and the interval of the plan.
pub struct ClickerTurn {
    pub plan: ClickerPlan,
    pub now: nat,
    pub nanos: nat,
}

/// Where a clicker that started at `start` stands after these turns.
pub open spec fn clicker_after(start: nat, turns: Seq<ClickerTurn>) -> ClickerView
    decreases turns.len(),
{
    if turns.len() == 0 {
        ClickerView { last: start, rested: false }
    } else {
        clicker_after(start, turns.drop_last()).turn(
            turns.last().plan,
            turns.last().now,
            turns.last().nanos,
        ).0
    }
}

/// What the clicker is told to do in the turn at index `i`.
pub open spec fn clicker_action(start: nat, turns: Seq<ClickerTurn>, i: int) -> ClickerAction {
    clicker_after(start, turns.take(i)).turn(turns[i].plan, turns[i].now, turns[i].nanos).1
}

/// The time of the last of these turns in which the clicker clicked or found itself switched off;
/// the start where there is none.
pub open spec fn last_click_or_rest(start: nat, turns: Seq<ClickerTurn>) -> nat
    decreases turns.len(),
{
    if turns.len() == 0 {
        start
    } else if turns.last().plan is Rest || clicker_action(start, turns, turns.len() - 1)
        is Click {
        turns.last().now
    } else {
        last_click_or_rest(start, turns.drop_last())
    }
}

/// Whether the clock never goes back over these turns.
pub open spec fn clock_runs(start: nat, turns: Seq<ClickerTurn>) -> bool {
    &&& forall|i: int| 0 <= i < turns.len() ==> start <= #[trigger] turns[i].now
    &&& forall|i: int, j: int|
        0 <= i < j < turns.len() ==> #[trigger] turns[i].now <= #[trigger] turns[j].now
}

/// The clicker clicks only where it read that the application is not ending and that the
/// autoclicker is on, and where the interval is over since the last click, and since the last turn
/// in which it found itself switched off. So switching it on never clicks at once.
pub proof fn law_clicker_keeps_its_interval(
    s: SharedStateView,
    start: nat,
    turns: Seq<ClickerTurn>,
)
    requires
        turns.len() > 0,
        clock_runs(start, turns),
        turns.last().plan == clicker_plan(s),
        clicker_action(start, turns, turns.len() - 1) is Click,
    ensures
        !s.shutdown,
        s.is_running,
        clicker_plan(s) == ClickerPlan::Click(
            if s.mode == SLOW_MODE {
                ClickInterval::Seconds(s.slow_value)
            } else {
                ClickInterval::PerSecond(s.cps_value)
            },
        ),
        turns.last().now >= last_click_or_rest(start, turns.drop_last()) + turns.last().nanos,
        turns.len() > 1 && turns[turns.len() - 2].plan is Rest ==> turns.last().nanos == 0,
{
    let before = turns.drop_last();
    assert(turns.take(turns.len() - 1) =~= before);
    assert(turns.last() == turns[turns.len() - 1]);
    lemma_clock_runs_before(start, turns);
    lemma_clicker_counts_from(start, before);
    if before.len() > 0 {
        assert(before.last() == turns[turns.len() - 2]);
    }
}

/// A clock that never goes back over some turns does not do so without the last of them.
proof fn lemma_clock_runs_before(start: nat, turns: Seq<ClickerTurn>)
    requires
        turns.len() > 0,
        clock_runs(start, turns),
    ensures
        clock_runs(start, turns.drop_last()),
{
    let before = turns.drop_last();
    assert forall|i: int| 0 <= i < before.len() implies start <= #[trigger] before[i].now by {
        assert(before[i] == turns[i]);
    }
    assert forall|i: int, j: int| 0 <= i < j < before.len() implies #[trigger] before[i].now
        <= #[trigger] before[j].now by {
        assert(before[i] == turns[i] && before[j] == turns[j]);
    }
}

proof fn lemma_clicker_counts_from(start: nat, turns: Seq<ClickerTurn>)
    requires
        clock_runs(start, turns),
    ensures
        ({
            let clicker = clicker_after(start, turns);
            &&& clicker.rested ==> turns.len() > 0 && last_click_or_rest(start, turns)
                <= turns.last().now
            &&& !clicker.rested ==> clicker.last >= last_click_or_rest(start, turns)
            &&& turns.len() > 0 && turns.last().plan is Rest ==> clicker.rested
        }),
    decreases turns.len(),
{
    if turns.len() > 0 {
        let before = turns.drop_last();
        assert(turns.take(turns.len() - 1) =~= before);
        assert(turns.last() == turns[turns.len() - 1]);
        lemma_clock_runs_before(start, turns);
        lemma_clicker_counts_from(start, before);
        if before.len() > 0 {
            assert(before.last() == turns[turns.len() - 2]);
        }
    }
}

/// A turn of the thread of a macro: the state that it read, whether the thread was told to end, the
/// time, and the interval of the plan.
pub struct ExecutorTurn {
    pub state: SharedStateView,
    pub stopped: bool,
    pub now: nat,
    pub nanos: nat,
}

impl ExecutorTurn {
    /// The plan of the macro in this turn.
    pub open spec fn plan(self, id: u32) -> ExecutorPlan {
        executor_plan(self.state, id, self.stopped)
    }
}

/// From when on the interval counts of the thread of a macro that started at `start`, after these
/// turns.
pub open spec fn executor_after(id: u32, start: nat, turns: Seq<ExecutorTurn>) -> nat
    decreases turns.len(),
{
    if turns.len() == 0 {
        start
    } else {
        executor_turn(
            executor_after(id, start, turns.drop_last()),
            turns.last().plan(id),
            turns.last().now,
            turns.last().nanos,
        ).0
    }
}

/// What the thread of a macro is told to do in the last of these turns.
pub open spec fn executor_action(id: u32, start: nat, turns: Seq<ExecutorTurn>) -> ExecutorAction
    recommends
        turns.len() > 0,
{
    executor_turn(
        executor_after(id, start, turns.drop_last()),
        turns.last().plan(id),
        turns.last().now,
        turns.last().nanos,
    ).1
}

/// The time of the last of these turns in which the macro pressed its key; the start where there is
/// none.
pub open spec fn last_press(id: u32, start: nat, turns: Seq<ExecutorTurn>) -> nat
    decreases turns.len(),
{
    if turns.len() == 0 {
        start
    } else if executor_action(id, start, turns) is Press {
        turns.last().now
    } else {
        last_press(id, start, turns.drop_last())
    }
}

/// The thread of a macro presses its key exactly where it read that neither the application nor the
/// thread is to end, that the macro is there, runs and is not at its limit, and that the master
/// switch is on, and where the interval is over since the last press. The interval is the one that
/// was set, but at least a millisecond. The press is that of the recorded key, and it is counted.
pub proof fn law_executor_keeps_its_interval(id: u32, start: nat, turns: Seq<ExecutorTurn>)
    requires
        turns.len() > 0,
    ensures
        ({
            let turn = turns.last();
            let s = turn.state;
            let m = s.macros[id];
            let action = executor_action(id, start, turns);
            &&& action is Press <==> {
                &&& !s.shutdown && !turn.stopped
                &&& s.is_live(id) && m.state == MacroButtonState::Running
                &&& s.macros_enabled
                &&& m.repeat_count == 0 || m.repetition_count < m.repeat_count
                &&& turn.now >= last_press(id, start, turns.drop_last()) + turn.nanos
            }
            &&& action is Press ==> {
                &&& action == ExecutorAction::Press(m.recorded_key)
                &&& turn.plan(id) == ExecutorPlan::Press {
                    interval: press_interval(m.repeat_interval),
                    key: m.recorded_key,
                }
                &&& executor_applied(s, id, action) == s.with_macro(id, m.pressed())
            }
            &&& !(action is Press) ==> executor_applied(s, id, action) == s
        }),
{
    lemma_executor_counts_from(id, start, turns.drop_last());
}

proof fn lemma_executor_counts_from(id: u32, start: nat, turns: Seq<ExecutorTurn>)
    ensures
        executor_after(id, start, turns) == last_press(id, start, turns),
    decreases turns.len(),
{
    if turns.len() > 0 {
        lemma_executor_counts_from(id, start, turns.drop_last());
    }
}

/// In how many of these turns the macro pressed its key.
pub open spec fn presses_made(id: u32, start: nat, turns: Seq<ExecutorTurn>) -> nat
    decreases turns.len(),
{
    if turns.len() == 0 {
        0
    } else if executor_action(id, start, turns) is Press {
        presses_made(id, start, turns.drop_last()) + 1
    } else {
        presses_made(id, start, turns.drop_last())
    }
}

/// The macro, which was `m` at first, as the last of these turns leaves it.
pub open spec fn macro_after(id: u32, m: Macro, start: nat, turns: Seq<ExecutorTurn>) -> Macro {
    if turns.len() == 0 {
        m
    } else {
        executor_applied(
            turns.last().state,
            id,
            executor_action(id, start, turns),
        ).macros[id]
    }
}

/// Whether each of these turns finds the macro, which was `m` at first, as the turn before left it.
/// Whatever else there is in the state may be another in each turn, the master switch among it.
pub open spec fn undisturbed(id: u32, m: Macro, start: nat, turns: Seq<ExecutorTurn>) -> bool
    decreases turns.len(),
{
    turns.len() > 0 ==> {
        let before = turns.drop_last();
        &&& undisturbed(id, m, start, before)
        &&& turns.last().state.is_live(id)
        &&& turns.last().state.macros[id] == macro_after(id, m, start, before)
    }
}

/// Whether nothing but its limit keeps the macro `m` from pressing its key in the last of these
/// turns.
pub open spec fn may_press(id: u32, m: Macro, start: nat, turns: Seq<ExecutorTurn>) -> bool {
    let turn = turns.last();
    &&& !turn.state.shutdown && !turn.stopped
    &&& m.state == MacroButtonState::Running
    &&& turn.state.macros_enabled
    &&& turn.now >= last_press(id, start, turns.drop_last()) + turn.nanos
}

/// How many presses the count of the macro leaves to its limit.
pub open spec fn presses_left(m: Macro) -> nat {
    if m.repetition_count < m.repeat_count {
        (m.repeat_count - m.repetition_count) as nat
    } else {
        0
    }
}

/// A macro with a limit makes the presses that its count leaves and no more, whatever the master
/// switch does: it presses in each turn in which nothing else keeps it from that, until the limit is
/// reached. Its presses are counted, and nothing else of it changes.
pub proof fn law_limited_macro_makes_its_presses(
    id: u32,
    m: Macro,
    start: nat,
    turns: Seq<ExecutorTurn>,
)
    requires
        m.repeat_count > 0,
        undisturbed(id, m, start, turns),
    ensures
        presses_made(id, start, turns) <= presses_left(m),
        macro_after(id, m, start, turns) == (Macro {
            repetition_count: (m.repetition_count + presses_made(id, start, turns)) as u32,
            ..m
        }),
        turns.len() > 0 ==> (executor_action(id, start, turns) is Press <==> may_press(
            id,
            m,
            start,
            turns,
        ) && presses_made(id, start, turns.drop_last()) < presses_left(m)),
    decreases turns.len(),
{
    if turns.len() > 0 {
        law_limited_macro_makes_its_presses(id, m, start, turns.drop_last());
        law_executor_keeps_its_interval(id, start, turns);
    }
}

/// A macro without a limit goes on pressing its key, in each turn in which nothing else keeps it
/// from that. Nothing but its count changes.
pub proof fn law_unlimited_macro_goes_on(
    id: u32,
    m: Macro,
    start: nat,
    turns: Seq<ExecutorTurn>,
)
    requires
        m.repeat_count == 0,
        undisturbed(id, m, start, turns),
    ensures
        ({
            let after = macro_after(id, m, start, turns);
            after == (Macro { repetition_count: after.repetition_count, ..m })
        }),
        turns.len() > 0 ==> (executor_action(id, start, turns) is Press <==> may_press(
            id,
            m,
            start,
            turns,
        )),
    decreases turns.len(),
{
    if turns.len() > 0 {
        law_unlimited_macro_goes_on(id, m, start, turns.drop_last());
        law_executor_keeps_its_interval(id, start, turns);
    }
}

/// A macro presses its key at the interval that was set, where that is a positive number of at
/// least a millisecond, and otherwise at a millisecond.
pub proof fn law_press_interval_is_at_least_a_millisecond(bits: u32)
    ensures
        MIN_REPEAT_INTERVAL <= press_interval(bits) <= INFINITE_INTERVAL,
        MIN_REPEAT_INTERVAL <= bits <= INFINITE_INTERVAL ==> press_interval(bits) == bits,
        bits < MIN_REPEAT_INTERVAL || bits > INFINITE_INTERVAL ==> press_interval(bits)
            == MIN_REPEAT_INTERVAL,
{
}

/// Whoever waits for what is left of an interval finds it over.
pub proof fn law_waiting_ends(last: nat, now: nat, interval: nat)
    requires
        now >= last,
    ensures
        is_due(last, now + time_left(last, now, interval), interval),
        !is_due(last, now, interval) ==> time_left(last, now, interval) > 0,
{
}

/// The key presses of two runs of events are those of the first, then those of the second.
pub proof fn law_key_presses_of_joined_events(a: Seq<WindowEvent>, b: Seq<WindowEvent>)
    ensures
        fresh_presses(a + b) == fresh_presses(a) + fresh_presses(b),
    decreases b.len(),
{
    if b.len() == 0 {
        assert(a + b =~= a);
        assert(fresh_presses(a) + fresh_presses(b) =~= fresh_presses(a));
    } else {
        law_key_presses_of_joined_events(a, b.drop_last());
        assert((a + b).drop_last() =~= a + b.drop_last());
        assert((a + b).last() == b.last());
        assert(fresh_presses(a + b) =~= fresh_presses(a) + fresh_presses(b));
    }
}

/// A key that is held down, or let go, is no key press.
pub proof fn law_held_keys_are_no_presses(events: Seq<WindowEvent>)
    requires
        forall|i: int|
            0 <= i < events.len() ==> (#[trigger] events[i] matches WindowEvent::Key {
                pressed,
                repeat,
                ..
            } ==> !pressed || repeat),
    ensures
        fresh_presses(events).len() == 0,
    decreases events.len(),
{
    if events.len() > 0 {
        assert forall|i: int| 0 <= i < events.drop_last().len() implies (
        #[trigger] events.drop_last()[i] matches WindowEvent::Key { pressed, repeat, .. }
            ==> !pressed || repeat) by {
            assert(events.drop_last()[i] == events[i]);
        }
        law_held_keys_are_no_presses(events.drop_last());
        assert(events.last() == events[events.len() - 1]);
    }
}

/// It makes no difference whether keys are pressed within one frame or in two.
pub proof fn law_frames_do_not_matter(
    s: SharedStateView,
    a: Seq<WindowKey>,
    b: Seq<WindowKey>,
    editing: bool,
)
    ensures
        state_after_keys(s, a + b, editing) == state_after_keys(
            state_after_keys(s, a, editing),
            b,
            editing,
        ),
        key_reports(s, a + b, editing) == key_reports(s, a, editing) + key_reports(
            state_after_keys(s, a, editing),
            b,
            editing,
        ),
    decreases b.len(),
{
    if b.len() == 0 {
        assert(a + b =~= a);
        assert(key_reports(s, a, editing) + Seq::<KeyReport>::empty() =~= key_reports(
            s,
            a,
            editing,
        ));
    } else {
        law_frames_do_not_matter(s, a, b.drop_last(), editing);
        assert((a + b).drop_last() =~= a + b.drop_last());
        assert((a + b).last() == b.last());
        assert(key_reports(s, a + b, editing) =~= key_reports(s, a, editing) + key_reports(
            state_after_keys(s, a, editing),
            b,
            editing,
        ));
    }
}

/// A message is shown for two seconds from when it was set, and replaces the one before.
pub proof fn law_message_is_shown_for_its_time<H>(
    app: AppView<H>,
    message: Seq<char>,
    set: u128,
    now: u128,
)
    ensures
        app.told(message, set).feedback_message == message,
        app.told(message, set).shows_feedback(now) <==> now < set + 2_000_000_000,
{
}

/// Whether there is a thread for each macro that runs, and for no other.
pub open spec fn threads_match<H>(app: AppView<H>, s: SharedStateView) -> bool {
    forall|id: u32| #[trigger]
        app.macro_executors.contains_key(id) <==> s.is_live(id) && s.macros[id].state
            == MacroButtonState::Running
}

/// The threads after a change: one is started for a macro whose key was recorded, and the one of a
/// macro that was stopped, or removed in the window, is stopped.
pub open spec fn threads_after<H>(
    app: AppView<H>,
    s: SharedStateView,
    change: Change,
    handle: H,
) -> AppView<H> {
    match change {
        Change::WindowKeyPressed { vk, editing } => match s.key_outcome(vk, editing) {
            KeyOutcome::Recorded { macro_id } => AppView {
                macro_executors: app.macro_executors.insert(macro_id, handle),
                ..app
            },
            _ => app,
        },
        Change::StartStopClicked { id } => if s.start_stop_outcome(id) == Some(StartStop::Stopped) {
            AppView { macro_executors: app.macro_executors.remove(id), ..app }
        } else {
            app
        },
        Change::MacroDropped { id } => AppView {
            macro_executors: app.macro_executors.remove(id),
            ..app
        },
        _ => app,
    }
}

/// Whether modifying a macro neither starts nor ends it, and no running macro is removed but in the
/// window.
pub open spec fn keeps_threads(s: SharedStateView, change: Change) -> bool {
    match change {
        Change::MacroReplaced { id, with } => s.is_live(id) ==> (with.state
            == MacroButtonState::Running <==> s.macros[id].state == MacroButtonState::Running),
        Change::MacroRemoved { id } => s.is_live(id) ==> s.macros[id].state
            != MacroButtonState::Running,
        _ => true,
    }
}

/// There is a thread for each running macro and for no other: one is started when a key was
/// recorded, of a macro that had none, and stopped with the macro or when the macro is removed in
/// the window; no other change starts or ends a macro, as long as modifying a macro does neither and
/// no running macro is removed otherwise.
pub proof fn law_one_thread_per_running_macro<H>(
    app: AppView<H>,
    s: SharedStateView,
    change: Change,
    handle: H,
)
    requires
        s.wf(),
        threads_match(app, s),
        keeps_threads(s, change),
    ensures
        threads_match(threads_after(app, s, change, handle), s.changed(change)),
        change matches Change::WindowKeyPressed { vk, editing } ==> (s.key_outcome(
            vk,
            editing,
        ) matches KeyOutcome::Recorded { macro_id } ==> !app.macro_executors.contains_key(
            macro_id,
        )),
{
    let t = s.changed(change);
    let threads = threads_after(app, s, change, handle).macro_executors;
    law_added_macro_gets_an_unused_number(s);
    assert forall|k: u32| #[trigger] threads.contains_key(k) <==> t.is_live(k) && t.macros[k].state
        == MacroButtonState::Running by {
        assert(app.macro_executors.contains_key(k) <==> s.is_live(k) && s.macros[k].state
            == MacroButtonState::Running);
        assert(s.is_live(k) ==> k != 0);
    }
}

/// The threads after some changes, one after the other, where `handles` are those that the changes
/// start.
pub open spec fn threads_reached<H>(
    app: AppView<H>,
    s: SharedStateView,
    changes: Seq<Change>,
    handles: Seq<H>,
) -> AppView<H>
    decreases changes.len(),
{
    if changes.len() == 0 {
        app
    } else {
        let before = changes.drop_last();
        threads_after(
            threads_reached(app, s, before, handles),
            s.after(before),
            changes.last(),
            handles[changes.len() - 1],
        )
    }
}

/// In every state that the application gets to, there is a thread for each running macro and for no
/// other.
pub proof fn law_reached_threads_match<H>(changes: Seq<Change>, handles: Seq<H>)
    requires
        changes.len() <= handles.len(),
        forall|i: int|
            0 <= i < changes.len() ==> keeps_its_number(#[trigger] changes[i]) && keeps_threads(
                SharedStateView::initial().after(changes.take(i)),
                changes[i],
            ),
    ensures
        threads_match(
            threads_reached(AppView::<H>::initial(), SharedStateView::initial(), changes, handles),
            SharedStateView::initial().after(changes),
        ),
    decreases changes.len(),
{
    let app = AppView::<H>::initial();
    let s = SharedStateView::initial();
    if changes.len() > 0 {
        let before = changes.drop_last();
        assert forall|i: int| 0 <= i < before.len() implies keeps_its_number(#[trigger] before[i])
            && keeps_threads(s.after(before.take(i)), before[i]) by {
            assert(before[i] == changes[i]);
            assert(before.take(i) =~= changes.take(i));
        }
        law_reached_threads_match(before, handles);
        law_reached_states_are_valid(before);
        assert(changes.take(changes.len() - 1) =~= before);
        assert(changes.last() == changes[changes.len() - 1]);
        law_one_thread_per_running_macro(
            threads_reached(app, s, before, handles),
            s.after(before),
            changes.last(),
            handles[changes.len() - 1],
        );
    }
}

/// In a frame in which the window turns out to have lost the focus no key press counts.
pub proof fn law_focus_comes_before_keys<H>(
    app: AppView<H>,
    s: SharedStateView,
    active: isize,
    foreground: isize,
)
    requires
        app.hwnd_initialized,
        s.target_hwnd != 0,
        foreground != s.target_hwnd,
    ensures
        !focus_noted(app, s, active, foreground).window_focused,
{
}

} // verus!
