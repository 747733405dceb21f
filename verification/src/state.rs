//! The state that the window, the clicker, the keyboard hook and the macros share.
use std::collections::HashMap;
use vstd::prelude::*;
use crate::keys::{global_code, GlobalKey};
use crate::macros::{Macro, MacroButtonState, StartStop};
use crate::model::{
    is_snapshot, is_sorted_by_id, lemma_add_keeps_wf, lemma_remove_keeps_wf,
    lemma_same_registry_keeps_wf, lemma_with_macro_keeps_wf, lists_in_order, KeyOutcome,
    SharedStateView, CPS_MODE, DEFAULT_AUTOCLICKER_KEY, DEFAULT_CPS, DEFAULT_MASTER_SWITCH_KEY,
    DEFAULT_SLOW, MAX_CPS, MAX_MACROS, MAX_SLOW, REBIND_AUTOCLICKER, REBIND_MASTER_SWITCH,
    REBIND_NOTHING, SLOW_MODE,
};
use crate::tables::keys_of;

verus! {

broadcast use {vstd::std_specs::hash::group_hash_axioms, lemma_same_registry_keeps_wf};

/// The shared state. Its threads take it by turns, behind one lock.
pub struct SharedState {
    /// Whether the autoclicker is running.
    is_running: bool,
    /// Set once, when the application ends.
    shutdown: bool,
    /// Whether clicks are set by a rate or by an interval.
    mode: u32,
    /// Clicks per second, as the bit pattern of a single-precision number.
    cps_value: u32,
    /// Seconds between two clicks, as the bit pattern of a single-precision number.
    slow_value: u32,
    /// The lowest number that no macro ever had.
    next_macro_id: u32,
    /// Numbers of removed macros, to be used again.
    free_ids: Vec<u32>,
    /// All macros by their numbers.
    macros: HashMap<u32, Macro>,
    /// The number of the selected macro, or zero.
    current_macro_id: u32,
    /// The master switch: no macro presses its key while this is off.
    macros_enabled: bool,
    /// The hotkey of the autoclicker.
    autoclicker_key: u32,
    /// The hotkey of the master switch.
    master_switch_key: u32,
    /// Which hotkey the next key press is bound to.
    rebinding_target: u32,
    /// Whether the clicker and the macros stop when the window loses the focus.
    failsafe_enabled: bool,
    /// The handle of the application's window, or zero while it is not known.
    target_hwnd: isize,
    /// Whether the window had the focus when this was last looked at.
    window_focused: bool,
}

impl View for SharedState {
    type V = SharedStateView;

    closed spec fn view(&self) -> SharedStateView {
        SharedStateView {
            is_running: self.is_running,
            shutdown: self.shutdown,
            mode: self.mode,
            cps_value: self.cps_value,
            slow_value: self.slow_value,
            next_macro_id: self.next_macro_id,
            free_ids: self.free_ids@,
            macros: self.macros@,
            current_macro_id: self.current_macro_id,
            macros_enabled: self.macros_enabled,
            autoclicker_key: self.autoclicker_key,
            master_switch_key: self.master_switch_key,
            rebinding_target: self.rebinding_target,
            failsafe_enabled: self.failsafe_enabled,
            target_hwnd: self.target_hwnd,
            window_focused: self.window_focused,
        }
    }
}

impl SharedState {
    /// The state in which the application starts.
    pub fn new() -> (state: Self)
        ensures
            state@ == SharedStateView::initial(),
            state@.wf(),
            state@.macros_consistent(),
    {
        SharedState {
            is_running: false,
            shutdown: false,
            mode: CPS_MODE,
            cps_value: DEFAULT_CPS,
            slow_value: DEFAULT_SLOW,
            next_macro_id: 1,
            free_ids: Vec::new(),
            macros: HashMap::new(),
            current_macro_id: 0,
            macros_enabled: false,
            autoclicker_key: DEFAULT_AUTOCLICKER_KEY,
            master_switch_key: DEFAULT_MASTER_SWITCH_KEY,
            rebinding_target: REBIND_NOTHING,
            failsafe_enabled: true,
            target_hwnd: 0,
            window_focused: true,
        }
    }

    /// Takes note of the window in front, once per frame, and stops the clicker and the macros
    /// when the failsafe is on and the application's window just lost the focus.
    ///
    /// While the window stays unfocused nothing is stopped again, so the hotkeys can start the
    /// clicker while another window is in front.
    pub fn update_failsafe_from_gui(&mut self, foreground: isize)
        ensures
            final(self)@ == old(self)@.focus_checked(foreground),
            old(self)@.wf() ==> final(self)@.wf(),
            old(self)@.macros_consistent() ==> final(self)@.macros_consistent(),
    {
        let hwnd = self.target_hwnd;
        if hwnd == 0 {
            return;
        }
        let focused = foreground == hwnd;
        let was_focused = self.window_focused;
        self.window_focused = focused;
        if !self.failsafe_enabled {
            return;
        }
        if was_focused && !focused {
            self.is_running = false;
            self.macros_enabled = false;
        }
    }

    /// Adds a macro and returns its number, or zero where there are already as many as allowed.
    pub fn add_macro(&mut self) -> (id: u32)
        ensures
            (final(self)@, id) == old(self)@.add_macro(),
            old(self)@.wf() ==> final(self)@.wf(),
            old(self)@.macros_consistent() ==> final(self)@.macros_consistent(),
    {
        proof {
            if self@.wf() {
                lemma_add_keeps_wf(self@);
            }
        }
        if self.macros.len() >= MAX_MACROS {
            return 0;
        }
        let id: u32 = match self.free_ids.pop() {
            Some(id) => id,
            None => {
                let id: u32 = self.next_macro_id;
                self.next_macro_id = id.wrapping_add(1);
                id
            },
        };
        let mut new_macro = Macro::default();
        new_macro.id = id;
        self.macros.insert(id, new_macro);
        id
    }

    /// Removes a macro, frees its number, and says whether there was such a macro.
    pub fn remove_macro(&mut self, id: u32) -> (removed: bool)
        ensures
            final(self)@ == old(self)@.remove_macro(id),
            removed == (id != 0 && old(self)@.is_live(id)),
            old(self)@.wf() ==> final(self)@.wf(),
            old(self)@.macros_consistent() ==> final(self)@.macros_consistent(),
    {
        proof {
            if self@.wf() {
                lemma_remove_keeps_wf(self@, id);
            }
        }
        if id == 0 {
            return false;
        }
        if self.macros.remove(&id).is_some() {
            self.free_ids.push(id);
            true
        } else {
            assert(self.macros@ =~= old(self).macros@);
            false
        }
    }

    /// All macros, each once, in no particular order.
    pub fn snapshot(&self) -> (all: Vec<Macro>)
        ensures
            is_snapshot(all@, self@.macros),
    {
        let ids = keys_of(&self.macros);
        let mut all: Vec<Macro> = Vec::new();
        let mut i: usize = 0;
        while i < ids.len()
            invariant
                ids@.no_duplicates(),
                ids@.to_set() == self@.macros.dom(),
                i <= ids@.len(),
                all@.len() == i,
                forall|k: int| 0 <= k < i ==> #[trigger] all@[k] == self@.macros[ids@[k]],
            decreases ids@.len() - i,
        {
            assert(ids@.to_set().contains(ids@[i as int]));
            assert(self@.macros.dom().contains(ids@[i as int]));
            if let Some(m) = self.macros.get(&ids[i]) {
                all.push(*m);
            }
            i += 1;
        }
        proof {
            assert(all@ =~= ids@.map_values(|id: u32| self@.macros[id]));
            assert(lists_in_order(all@, ids@, self@.macros));
        }
        all
    }

    /// All macros in the order of their numbers.
    pub fn snapshot_sorted(&self) -> (sorted: Vec<Macro>)
        ensures
            is_snapshot(sorted@, self@.macros),
            is_sorted_by_id(sorted@),
    {
        let all = self.snapshot();
        let ghost macros = self@.macros;
        let ghost ids = choose|ids: Seq<u32>| #[trigger] lists_in_order(all@, ids, macros);
        let ghost mut order: Seq<u32> = Seq::empty();
        let mut sorted: Vec<Macro> = Vec::new();
        let mut i: usize = 0;
        while i < all.len()
            invariant
                macros == self@.macros,
                lists_in_order(all@, ids, macros),
                i <= all@.len(),
                order.len() == i,
                order.no_duplicates(),
                forall|id: u32| #[trigger] order.contains(id) <==> ids.take(i as int).contains(id),
                sorted@ == order.map_values(|id: u32| macros[id]),
                is_sorted_by_id(sorted@),
            decreases all@.len() - i,
        {
            let at = insert_by_id(&mut sorted, all[i]);
            proof {
                let id = ids[i as int];
                let before = order;
                lemma_next_of_distinct(ids, i as int);
                assert(!before.contains(id));
                order = before.insert(at as int, id);
                lemma_inserted(before, at as int, id);
                assert(sorted@ =~= order.map_values(|id: u32| macros[id]));
            }
            i += 1;
        }
        proof {
            assert(ids.take(i as int) =~= ids);
            assert forall|id: u32| #[trigger] order.to_set().contains(id) <==> ids.to_set().contains(
                id,
            ) by {
                assert(order.contains(id) <==> ids.contains(id));
            }
            assert(order.to_set() =~= macros.dom());
            assert(lists_in_order(sorted@, order, macros));
        }
        sorted
    }

    /// The macro with this number, where there is one.
    pub fn get_macro(&self, id: u32) -> (found: Option<Macro>)
        ensures
            found == (if self@.is_live(id) {
                Some(self@.macros[id])
            } else {
                None
            }),
    {
        match self.macros.get(&id) {
            Some(m) => Some(*m),
            None => None,
        }
    }

    /// Lets `f` change the macro with this number; nothing happens where there is none.
    pub fn modify_macro<F: FnOnce(&mut Macro)>(&mut self, id: u32, f: F)
        requires
            old(self)@.is_live(id) ==> forall|m: &mut Macro|
                *m == old(self)@.macros[id] ==> #[trigger] call_requires(f, (m,)),
        ensures
            !old(self)@.is_live(id) ==> final(self)@ == old(self)@,
            old(self)@.is_live(id) ==> exists|m: &mut Macro|
                {
                    &&& *m == old(self)@.macros[id]
                    &&& #[trigger] call_ensures(f, (m,), ())
                    &&& final(self)@ == old(self)@.with_macro(id, *final(m))
                },
            old(self)@.wf() && (forall|m: &mut Macro|
                *m == old(self)@.macros[id] && #[trigger] call_ensures(f, (m,), ()) ==> final(m).id
                    == id) ==> final(self)@.wf(),
            old(self)@.macros_consistent() && (forall|m: &mut Macro|
                *m == old(self)@.macros[id] && #[trigger] call_ensures(f, (m,), ())
                    ==> final(m).consistent()) ==> final(self)@.macros_consistent(),
    {
        if let Some(found) = self.macros.get(&id) {
            let mut m = *found;
            f(&mut m);
            self.macros.insert(id, m);
            proof {
                assert(old(self)@.is_live(id));
                if old(self)@.wf() && m.id == id {
                    lemma_with_macro_keeps_wf(old(self)@, id, m);
                }
            }
        }
    }

    /// How many macros there are.
    pub fn macro_count(&self) -> (count: usize)
        ensures
            count == self@.macros.len(),
    {
        self.macros.len()
    }

    /// The number of the selected macro, or zero.
    pub fn get_current_macro_id(&self) -> (id: u32)
        ensures
            id == self@.current_macro_id,
    {
        self.current_macro_id
    }

    /// Selects the macro with this number; zero selects none.
    pub fn set_current_macro_id(&mut self, index: u32)
        ensures
            final(self)@ == (SharedStateView { current_macro_id: index, ..old(self)@ }),
            old(self)@.wf() ==> final(self)@.wf(),
            old(self)@.macros_consistent() ==> final(self)@.macros_consistent(),
    {
        self.current_macro_id = index;
    }

    /// Clicks per second, as the bit pattern of a single-precision number.
    pub fn get_cps(&self) -> (bits: u32)
        ensures
            bits == self@.cps_value,
    {
        self.cps_value
    }

    /// Seconds between two clicks, as the bit pattern of a single-precision number.
    pub fn get_slow(&self) -> (bits: u32)
        ensures
            bits == self@.slow_value,
    {
        self.slow_value
    }

    /// The value that sets the clicks in the chosen mode, as the bit pattern of a single-precision
    /// number: an interval or a rate.
    pub fn shown_value(&self) -> (bits: u32)
        ensures
            bits == self@.shown_value(),
    {
        if self.is_slow_mode() {
            self.slow_value
        } else {
            self.cps_value
        }
    }

    /// The highest value that can be set in the chosen mode, as the bit pattern of a
    /// single-precision number.
    pub fn value_limit(&self) -> (bits: u32)
        ensures
            bits == self@.value_limit(),
    {
        if self.is_slow_mode() {
            MAX_SLOW
        } else {
            MAX_CPS
        }
    }

    /// Sets the value of the chosen mode, as the bit pattern of a single-precision number: an
    /// interval or a rate.
    pub fn value_edited(&mut self, bits: u32)
        ensures
            final(self)@ == old(self)@.value_edited(bits),
            old(self)@.wf() ==> final(self)@.wf(),
            old(self)@.macros_consistent() ==> final(self)@.macros_consistent(),
    {
        if self.is_slow_mode() {
            self.slow_value = bits;
        } else {
            self.cps_value = bits;
        }
    }

    /// Which of the two ways of setting clicks is chosen.
    pub fn get_mode(&self) -> (mode: u32)
        ensures
            mode == self@.mode,
    {
        self.mode
    }

    /// Chooses a way of setting clicks.
    pub fn set_mode(&mut self, mode: u32)
        ensures
            final(self)@ == (SharedStateView { mode, ..old(self)@ }),
            old(self)@.wf() ==> final(self)@.wf(),
            old(self)@.macros_consistent() ==> final(self)@.macros_consistent(),
    {
        self.mode = mode;
    }

    /// Whether clicks are set by an interval.
    pub fn is_slow_mode(&self) -> (slow: bool)
        ensures
            slow == (self@.mode == SLOW_MODE),
    {
        self.mode == SLOW_MODE
    }

    /// Whether the autoclicker is running.
    pub fn is_running(&self) -> (running: bool)
        ensures
            running == self@.is_running,
    {
        self.is_running
    }

    /// Whether the master switch of the macros is on.
    pub fn macros_enabled(&self) -> (enabled: bool)
        ensures
            enabled == self@.macros_enabled,
    {
        self.macros_enabled
    }

    /// Whether the application is ending.
    pub fn is_shut_down(&self) -> (shutdown: bool)
        ensures
            shutdown == self@.shutdown,
    {
        self.shutdown
    }

    /// The hotkey of the autoclicker.
    pub fn autoclicker_key(&self) -> (vk: u32)
        ensures
            vk == self@.autoclicker_key,
    {
        self.autoclicker_key
    }

    /// The hotkey of the master switch.
    pub fn master_switch_key(&self) -> (vk: u32)
        ensures
            vk == self@.master_switch_key,
    {
        self.master_switch_key
    }

    /// Which hotkey the next key press is bound to.
    pub fn rebinding_target(&self) -> (target: u32)
        ensures
            target == self@.rebinding_target,
    {
        self.rebinding_target
    }

    /// Has the next key press bound to a hotkey.
    pub fn set_rebinding_target(&mut self, target: u32)
        ensures
            final(self)@ == (SharedStateView { rebinding_target: target, ..old(self)@ }),
            old(self)@.wf() ==> final(self)@.wf(),
            old(self)@.macros_consistent() ==> final(self)@.macros_consistent(),
    {
        self.rebinding_target = target;
    }

    /// Whether the failsafe is on.
    pub fn failsafe_enabled(&self) -> (enabled: bool)
        ensures
            enabled == self@.failsafe_enabled,
    {
        self.failsafe_enabled
    }

    /// Switches the failsafe on or off.
    pub fn set_failsafe_enabled(&mut self, enabled: bool)
        ensures
            final(self)@ == (SharedStateView { failsafe_enabled: enabled, ..old(self)@ }),
            old(self)@.wf() ==> final(self)@.wf(),
            old(self)@.macros_consistent() ==> final(self)@.macros_consistent(),
    {
        self.failsafe_enabled = enabled;
    }

    /// Whether the window had the focus when this was last looked at.
    pub fn window_focused(&self) -> (focused: bool)
        ensures
            focused == self@.window_focused,
    {
        self.window_focused
    }

    /// Takes note of the handle of the application's window.
    pub fn set_target_hwnd(&mut self, hwnd: isize)
        ensures
            final(self)@ == (SharedStateView { target_hwnd: hwnd, ..old(self)@ }),
            old(self)@.wf() ==> final(self)@.wf(),
            old(self)@.macros_consistent() ==> final(self)@.macros_consistent(),
    {
        self.target_hwnd = hwnd;
    }

    /// Switches the autoclicker the other way.
    pub fn toggle_running(&mut self)
        ensures
            final(self)@ == old(self)@.running_toggled(),
            old(self)@.wf() ==> final(self)@.wf(),
            old(self)@.macros_consistent() ==> final(self)@.macros_consistent(),
    {
        self.is_running = !self.is_running;
    }

    /// Turns the master switch of the macros the other way.
    pub fn toggle_macros(&mut self)
        ensures
            final(self)@ == old(self)@.macros_toggled(),
            old(self)@.wf() ==> final(self)@.wf(),
            old(self)@.macros_consistent() ==> final(self)@.macros_consistent(),
    {
        self.macros_enabled = !self.macros_enabled;
    }

    /// Stops the clicker for good and tells every thread that the application is ending.
    pub fn begin_shutdown(&mut self)
        ensures
            final(self)@ == old(self)@.shut_down(),
            old(self)@.wf() ==> final(self)@.wf(),
            old(self)@.macros_consistent() ==> final(self)@.macros_consistent(),
    {
        self.is_running = false;
        self.shutdown = true;
    }

    /// Handles a key press in the window and says what it did.
    pub fn window_key_press(&mut self, vk: u32, editing: bool) -> (outcome: KeyOutcome)
        ensures
            outcome == old(self)@.key_outcome(vk, editing),
            final(self)@ == old(self)@.window_key(vk, editing),
            old(self)@.wf() ==> final(self)@.wf(),
            old(self)@.macros_consistent() ==> final(self)@.macros_consistent(),
    {
        if vk == 0 {
            return KeyOutcome::Unknown;
        }
        if self.rebinding_target != REBIND_NOTHING {
            let target: u32 = self.rebinding_target;
            self.rebinding_target = REBIND_NOTHING;
            return if target == REBIND_AUTOCLICKER {
                self.autoclicker_key = vk;
                KeyOutcome::AutoclickerKeySet
            } else if target == REBIND_MASTER_SWITCH {
                self.master_switch_key = vk;
                KeyOutcome::MasterSwitchKeySet
            } else {
                KeyOutcome::BindingDropped
            };
        }
        let id: u32 = self.current_macro_id;
        if id != 0 {
            if let Some(m) = self.get_macro(id) {
                if m.state == MacroButtonState::WaitingKey {
                    assert(self@.is_live(id));
                    self.modify_macro(
                        id,
                        |m: &mut Macro|
                            ensures
                                old(m).state == MacroButtonState::WaitingKey ==> *final(m) == old(
                                    m,
                                ).armed(vk)
                            {
                                let _ = m.record_key(vk);
                            },
                    );
                    return KeyOutcome::Recorded { macro_id: id };
                }
            }
        }
        if editing {
            return KeyOutcome::LeftToWidget;
        }
        if vk == self.autoclicker_key {
            self.toggle_running();
            KeyOutcome::AutoclickerToggled
        } else if vk == self.master_switch_key {
            self.toggle_macros();
            KeyOutcome::MasterSwitchToggled
        } else {
            KeyOutcome::Unbound
        }
    }

    /// Clicks Start/Stop of a macro and says what that did, where there is such a macro.
    pub fn start_stop_macro(&mut self, id: u32) -> (did: Option<StartStop>)
        ensures
            did == old(self)@.start_stop_outcome(id),
            final(self)@ == old(self)@.start_stop(id),
            old(self)@.wf() ==> final(self)@.wf(),
            old(self)@.macros_consistent() ==> final(self)@.macros_consistent(),
    {
        match self.get_macro(id) {
            None => None,
            Some(m) => {
                assert(self@.is_live(id));
                self.modify_macro(
                    id,
                    |m: &mut Macro|
                        ensures
                            *final(m) == old(m).toggled()
                        {
                            let _ = m.click_start_stop();
                        },
                );
                Some(
                    if m.state == MacroButtonState::Idle {
                        StartStop::Started
                    } else {
                        StartStop::Stopped
                    },
                )
            },
        }
    }

    /// Counts one key press of a macro.
    pub fn count_macro_press(&mut self, id: u32)
        ensures
            final(self)@ == old(self)@.press_counted(id),
            old(self)@.wf() ==> final(self)@.wf(),
            old(self)@.macros_consistent() ==> final(self)@.macros_consistent(),
    {
        assert(self@.wf() && self@.is_live(id) ==> self@.macros[id].id == id);
        self.modify_macro(
            id,
            |m: &mut Macro|
                ensures
                    *final(m) == old(m).pressed()
                {
                    m.count_press();
                },
        );
    }

    /// Sets the seconds between two presses of a macro, as the bit pattern of a
    /// single-precision number.
    pub fn set_repeat_interval(&mut self, id: u32, interval: u32)
        ensures
            final(self)@ == old(self)@.interval_set(id, interval),
            old(self)@.wf() ==> final(self)@.wf(),
            old(self)@.macros_consistent() ==> final(self)@.macros_consistent(),
    {
        assert(self@.wf() && self@.is_live(id) ==> self@.macros[id].id == id);
        self.modify_macro(
            id,
            |m: &mut Macro|
                ensures
                    *final(m) == (Macro { repeat_interval: interval, ..*old(m) })
                {
                    m.repeat_interval = interval;
                },
        );
    }

    /// Sets how many presses a macro makes; zero means no limit.
    pub fn set_repeat_count(&mut self, id: u32, count: u32)
        ensures
            final(self)@ == old(self)@.count_set(id, count),
            old(self)@.wf() ==> final(self)@.wf(),
            old(self)@.macros_consistent() ==> final(self)@.macros_consistent(),
    {
        assert(self@.wf() && self@.is_live(id) ==> self@.macros[id].id == id);
        self.modify_macro(
            id,
            |m: &mut Macro|
                ensures
                    *final(m) == (Macro { repeat_count: count, ..*old(m) })
                {
                    m.repeat_count = count;
                },
        );
    }
}

/// Handles a key that the system-wide hook reports: the two hotkeys work through it while the
/// window does not have the focus.
pub fn global_key_handler(state: &mut SharedState, key: &GlobalKey)
    ensures
        final(state)@ == old(state)@.global_key(global_code(*key)),
        old(state)@.wf() ==> final(state)@.wf(),
        old(state)@.macros_consistent() ==> final(state)@.macros_consistent(),
{
    if state.window_focused {
        return;
    }
    let vk = SharedState::key_to_vk_code(key);
    if vk == 0 {
        return;
    }
    if vk == state.autoclicker_key {
        state.toggle_running();
        return;
    }
    if vk == state.master_switch_key {
        state.toggle_macros();
    }
}

/// Handles a key that the system-wide hook reports to the application, which no longer listens
/// once it is ending.
pub fn hook_key_pressed(state: &mut SharedState, key: &GlobalKey)
    ensures
        final(state)@ == old(state)@.hook_key(global_code(*key)),
        old(state)@.wf() ==> final(state)@.wf(),
        old(state)@.macros_consistent() ==> final(state)@.macros_consistent(),
{
    if state.shutdown {
        return;
    }
    global_key_handler(state, key);
}

/// Puts a macro in its place among macros that stand in the order of their numbers, behind those
/// with the same number, and says where that is.
fn insert_by_id(sorted: &mut Vec<Macro>, m: Macro) -> (at: usize)
    requires
        is_sorted_by_id(old(sorted)@),
    ensures
        is_sorted_by_id(final(sorted)@),
        at <= old(sorted)@.len(),
        final(sorted)@ == old(sorted)@.insert(at as int, m),
{
    let mut at: usize = 0;
    while at < sorted.len() && sorted[at].id <= m.id
        invariant
            at <= sorted@.len(),
            forall|k: int| 0 <= k < at ==> #[trigger] sorted@[k].id <= m.id,
        decreases sorted@.len() - at,
    {
        at += 1;
    }
    sorted.insert(at, m);
    at
}

/// The item behind the first `i` of a sequence without duplicates is new, and is what the first
/// `i + 1` have more than those.
proof fn lemma_next_of_distinct(ids: Seq<u32>, i: int)
    requires
        ids.no_duplicates(),
        0 <= i < ids.len(),
    ensures
        !ids.take(i).contains(ids[i]),
        forall|id: u32| #[trigger]
            ids.take(i + 1).contains(id) <==> ids.take(i).contains(id) || id == ids[i],
{
    assert forall|id: u32| ids.take(i).contains(id) || id == ids[i] implies #[trigger] ids.take(
        i + 1,
    ).contains(id) by {
        if id == ids[i] {
            assert(ids.take(i + 1)[i] == id);
        } else {
            let k = choose|k: int| 0 <= k < i && ids.take(i)[k] == id;
            assert(ids.take(i + 1)[k] == id);
        }
    }
    assert forall|id: u32| #[trigger] ids.take(i + 1).contains(id) implies ids.take(i).contains(id)
        || id == ids[i] by {
        let k = choose|k: int| 0 <= k < i + 1 && #[trigger] ids.take(i + 1)[k] == id;
        if k < i {
            assert(ids.take(i)[k] == id);
        }
    }
}

/// A new item that is put anywhere into a sequence without duplicates is what the sequence then
/// has more.
proof fn lemma_inserted(before: Seq<u32>, at: int, id: u32)
    requires
        before.no_duplicates(),
        !before.contains(id),
        0 <= at <= before.len(),
    ensures
        before.insert(at, id).no_duplicates(),
        forall|k: u32| #[trigger]
            before.insert(at, id).contains(k) <==> before.contains(k) || k == id,
{
    let after = before.insert(at, id);
    assert forall|k: u32| before.contains(k) || k == id implies #[trigger] after.contains(k) by {
        if k == id {
            assert(after[at] == k);
        } else {
            let j = choose|j: int| 0 <= j < before.len() && before[j] == k;
            assert(after[if j < at { j } else { j + 1 }] == k);
        }
    }
    assert forall|k: u32| #[trigger] after.contains(k) implies before.contains(k) || k == id by {
        let j = choose|j: int| 0 <= j < after.len() && after[j] == k;
        if j != at {
            assert(before[if j < at { j } else { j - 1 }] == k);
        }
    }
    assert forall|i: int, j: int| 0 <= i < j < after.len() implies after[i] != after[j] by {
        let bi = if i < at { i } else { i - 1 };
        let bj = if j < at { j } else { j - 1 };
        if i == at {
            assert(before.contains(before[bj]));
        } else if j == at {
            assert(before.contains(before[bi]));
        } else {
            assert(before[bi] != before[bj]);
        }
    }
}

} // verus!
