//! The mathematical model of the shared state and of everything that changes it.
use vstd::prelude::*;
use crate::macros::{fresh_macro, Macro, MacroButtonState, StartStop};

verus! {

/// How many macros there can be at a time.
pub const MAX_MACROS: usize = 50;

/// F6 toggles the autoclicker until it is bound to another key.
pub const DEFAULT_AUTOCLICKER_KEY: u32 = 0x75;

/// F7 toggles the master switch of the macros until it is bound to another key.
pub const DEFAULT_MASTER_SWITCH_KEY: u32 = 0x76;

/// The bit pattern of the single-precision number 1: one click per second.
pub const DEFAULT_CPS: u32 = 0x3F80_0000;

/// The bit pattern of the single-precision number 10: one click in ten seconds.
pub const DEFAULT_SLOW: u32 = 0x4120_0000;

/// The bit pattern of the single-precision number 0.1: the lowest rate and the shortest interval
/// that can be set.
pub const MIN_VALUE: u32 = 0x3DCC_CCCD;

/// The bit pattern of the single-precision number 1000: the highest rate that can be set.
pub const MAX_CPS: u32 = 0x447A_0000;

/// The bit pattern of the single-precision number 3600: the longest interval that can be set.
pub const MAX_SLOW: u32 = 0x4561_0000;

/// The mode in which clicks are set by a rate.
pub const CPS_MODE: u32 = 0;

/// The mode in which clicks are set by an interval.
pub const SLOW_MODE: u32 = 1;

/// No hotkey is being bound.
pub const REBIND_NOTHING: u32 = 0;

/// The next key press becomes the hotkey of the autoclicker.
pub const REBIND_AUTOCLICKER: u32 = 1;

/// The next key press becomes the hotkey of the master switch.
pub const REBIND_MASTER_SWITCH: u32 = 2;

/// What a key press in the window did.
#[derive(Debug, Clone, Copy, PartialEq, Eq, Structural)]
pub enum KeyOutcome {
    /// The key has no virtual-key code.
    Unknown,
    /// It became the hotkey of the autoclicker.
    AutoclickerKeySet,
    /// It became the hotkey of the master switch.
    MasterSwitchKeySet,
    /// It ended a binding that was for neither hotkey.
    BindingDropped,
    /// It became the key of the current macro, which now runs.
    Recorded { macro_id: u32 },
    /// It was left to the widget that is being edited.
    LeftToWidget,
    /// It switched the autoclicker on or off.
    AutoclickerToggled,
    /// It switched the macros on or off.
    MasterSwitchToggled,
    /// It is bound to nothing.
    Unbound,
}

/// A change to the shared state. There is one for each operation that makes a change.
pub enum Change {
    /// A macro was added.
    MacroAdded,
    /// A macro was removed.
    MacroRemoved { id: u32 },
    /// A macro was removed in the window, which unselects it.
    MacroDropped { id: u32 },
    /// A macro was modified, and is now `with`.
    MacroReplaced { id: u32, with: Macro },
    /// A macro was selected, or none.
    MacroSelected { id: u32 },
    /// Start/Stop of a macro was clicked.
    StartStopClicked { id: u32 },
    /// A press of a macro was counted.
    PressCounted { id: u32 },
    /// The seconds between two presses of a macro were set.
    IntervalSet { id: u32, interval: u32 },
    /// The number of presses of a macro was set.
    CountSet { id: u32, count: u32 },
    /// A key was pressed in the window.
    WindowKeyPressed { vk: u32, editing: bool },
    /// The hook reported a key.
    HookKeyPressed { vk: u32 },
    /// The autoclicker was switched the other way.
    RunningToggled,
    /// The master switch was turned the other way.
    MasterSwitchTurned,
    /// A way of setting clicks was chosen.
    ModeChosen { mode: u32 },
    /// The value of the chosen mode was edited.
    ValueEdited { bits: u32 },
    /// The failsafe was switched on or off.
    FailsafeSet { on: bool },
    /// The next key press is to be bound.
    BindingBegun { target: u32 },
    /// The handle of the application's window became known.
    WindowNoted { hwnd: isize },
    /// The window in front was looked at.
    FocusChecked { foreground: isize },
    /// The application began to end.
    ShutDown,
}

/// The contents of the shared state.
#[verifier::ext_equal]
pub struct SharedStateView {
    pub is_running: bool,
    pub shutdown: bool,
    pub mode: u32,
    pub cps_value: u32,
    pub slow_value: u32,
    pub next_macro_id: u32,
    pub free_ids: Seq<u32>,
    pub macros: Map<u32, Macro>,
    pub current_macro_id: u32,
    pub macros_enabled: bool,
    pub autoclicker_key: u32,
    pub master_switch_key: u32,
    pub rebinding_target: u32,
    pub failsafe_enabled: bool,
    pub target_hwnd: isize,
    pub window_focused: bool,
}

impl SharedStateView {
    /// The state in which the application starts: everything off, the failsafe on.
    pub open spec fn initial() -> SharedStateView {
        SharedStateView {
            is_running: false,
            shutdown: false,
            mode: CPS_MODE,
            cps_value: DEFAULT_CPS,
            slow_value: DEFAULT_SLOW,
            next_macro_id: 1,
            free_ids: Seq::empty(),
            macros: Map::empty(),
            current_macro_id: 0,
            macros_enabled: false,
            autoclicker_key: DEFAULT_AUTOCLICKER_KEY,
            master_switch_key: DEFAULT_MASTER_SWITCH_KEY,
            rebinding_target: REBIND_NOTHING,
            failsafe_enabled: true,
            target_hwnd: 0,
            window_focused: true,
        }
    }

    /// Whether there is a macro with this number.
    pub open spec fn is_live(self, id: u32) -> bool {
        self.macros.contains_key(id)
    }

    /// The numbers handed out so far are 1 up to `next_macro_id`, exclusive; each belongs to
    /// exactly one macro or waits, once, to be used again. There are never more macros than
    /// allowed, nor more numbers; each macro carries its own number.
    pub open spec fn wf(self) -> bool {
        &&& 1 <= self.next_macro_id <= MAX_MACROS + 1
        &&& self.macros.dom().finite()
        &&& self.macros.len() + self.free_ids.len() == self.next_macro_id - 1
        &&& self.free_ids.no_duplicates()
        &&& forall|id: u32| #[trigger]
            self.is_live(id) ==> {
                &&& 1 <= id < self.next_macro_id
                &&& !self.free_ids.contains(id)
                &&& self.macros[id].id == id
            }
        &&& forall|id: u32| #[trigger]
            self.free_ids.contains(id) ==> 1 <= id < self.next_macro_id
        &&& forall|id: u32|
            1 <= id < self.next_macro_id ==> #[trigger] self.is_live(id) || self.free_ids.contains(
                id,
            )
    }

    /// Each macro holds a key exactly while it runs.
    pub open spec fn macros_consistent(self) -> bool {
        all_consistent(self.macros)
    }

    /// The number that the next macro gets: the one that was freed last, or a new one.
    pub open spec fn next_id(self) -> u32 {
        if self.free_ids.len() > 0 {
            self.free_ids.last()
        } else {
            self.next_macro_id
        }
    }

    /// Adding a macro: the state after it, and the number of the macro, or zero where there
    /// are already as many as allowed.
    pub open spec fn add_macro(self) -> (SharedStateView, u32) {
        if self.macros.len() >= MAX_MACROS {
            (self, 0)
        } else {
            let id = self.next_id();
            let added = SharedStateView {
                macros: self.macros.insert(id, fresh_macro(id)),
                ..self
            };
            if self.free_ids.len() > 0 {
                (SharedStateView { free_ids: self.free_ids.drop_last(), ..added }, id)
            } else {
                (SharedStateView { next_macro_id: number_after(self.next_macro_id), ..added }, id)
            }
        }
    }

    /// The state after the macro with this number was removed, which frees the number.
    pub open spec fn remove_macro(self, id: u32) -> SharedStateView {
        if id != 0 && self.is_live(id) {
            SharedStateView {
                macros: self.macros.remove(id),
                free_ids: self.free_ids.push(id),
                ..self
            }
        } else {
            self
        }
    }

    /// The state after a macro was removed, which is then no longer the selected one.
    pub open spec fn macro_dropped(self, id: u32) -> SharedStateView {
        let removed = self.remove_macro(id);
        if removed.current_macro_id == id {
            SharedStateView { current_macro_id: 0, ..removed }
        } else {
            removed
        }
    }

    /// The state with another macro in the place of the one with this number.
    pub open spec fn with_macro(self, id: u32, m: Macro) -> SharedStateView {
        SharedStateView { macros: self.macros.insert(id, m), ..self }
    }

    /// The state after `foreground` was seen to be the window in front.
    ///
    /// Nothing happens while the application's own window is not known. Where the failsafe is
    /// on, the clicker and the macros stop at the moment the window goes from focused to
    /// unfocused, and only then.
    pub open spec fn focus_checked(self, foreground: isize) -> SharedStateView {
        if self.target_hwnd == 0 {
            self
        } else {
            let focused = foreground == self.target_hwnd;
            let lost = self.failsafe_enabled && self.window_focused && !focused;
            SharedStateView {
                window_focused: focused,
                is_running: self.is_running && !lost,
                macros_enabled: self.macros_enabled && !lost,
                ..self
            }
        }
    }

    /// The state with the autoclicker switched the other way.
    pub open spec fn running_toggled(self) -> SharedStateView {
        SharedStateView { is_running: !self.is_running, ..self }
    }

    /// The state with the master switch of the macros turned the other way.
    pub open spec fn macros_toggled(self) -> SharedStateView {
        SharedStateView { macros_enabled: !self.macros_enabled, ..self }
    }

    /// The state after the system-wide hook reported the key with this code.
    ///
    /// While the window has the focus, its own key events are what counts, and the hook is
    /// not listened to.
    pub open spec fn global_key(self, vk: u32) -> SharedStateView {
        if self.window_focused || vk == 0 {
            self
        } else if vk == self.autoclicker_key {
            self.running_toggled()
        } else if vk == self.master_switch_key {
            self.macros_toggled()
        } else {
            self
        }
    }

    /// The state after the system-wide hook reported the key with this code to the application,
    /// which no longer listens once it is ending.
    pub open spec fn hook_key(self, vk: u32) -> SharedStateView {
        if self.shutdown {
            self
        } else {
            self.global_key(vk)
        }
    }

    /// The value that sets the clicks in the chosen mode: an interval or a rate.
    pub open spec fn shown_value(self) -> u32 {
        if self.mode == SLOW_MODE {
            self.slow_value
        } else {
            self.cps_value
        }
    }

    /// The highest value that can be set in the chosen mode.
    pub open spec fn value_limit(self) -> u32 {
        if self.mode == SLOW_MODE {
            MAX_SLOW
        } else {
            MAX_CPS
        }
    }

    /// The state after the value of the chosen mode was edited.
    pub open spec fn value_edited(self, bits: u32) -> SharedStateView {
        if self.mode == SLOW_MODE {
            SharedStateView { slow_value: bits, ..self }
        } else {
            SharedStateView { cps_value: bits, ..self }
        }
    }

    /// The mode is one of the two, and the rate and the interval lie in the ranges that can be
    /// set. The bit patterns of positive single-precision numbers are ordered as the numbers.
    pub open spec fn rates_in_range(self) -> bool {
        &&& self.mode == CPS_MODE || self.mode == SLOW_MODE
        &&& MIN_VALUE <= self.cps_value <= MAX_CPS
        &&& MIN_VALUE <= self.slow_value <= MAX_SLOW
    }

    /// Whether the current macro waits for its key.
    pub open spec fn is_recording(self) -> bool {
        &&& self.current_macro_id != 0
        &&& self.is_live(self.current_macro_id)
        &&& self.macros[self.current_macro_id].state == MacroButtonState::WaitingKey
    }

    /// What a key press in the window does: binding a hotkey comes first, recording the key
    /// of the current macro second, the hotkeys last, and these only where no widget is
    /// being edited.
    pub open spec fn key_outcome(self, vk: u32, editing: bool) -> KeyOutcome {
        if vk == 0 {
            KeyOutcome::Unknown
        } else if self.rebinding_target == REBIND_AUTOCLICKER {
            KeyOutcome::AutoclickerKeySet
        } else if self.rebinding_target == REBIND_MASTER_SWITCH {
            KeyOutcome::MasterSwitchKeySet
        } else if self.rebinding_target != REBIND_NOTHING {
            KeyOutcome::BindingDropped
        } else if self.is_recording() {
            KeyOutcome::Recorded { macro_id: self.current_macro_id }
        } else if editing {
            KeyOutcome::LeftToWidget
        } else if vk == self.autoclicker_key {
            KeyOutcome::AutoclickerToggled
        } else if vk == self.master_switch_key {
            KeyOutcome::MasterSwitchToggled
        } else {
            KeyOutcome::Unbound
        }
    }

    /// The state after a key press in the window that did `outcome`.
    pub open spec fn key_applied(self, vk: u32, outcome: KeyOutcome) -> SharedStateView {
        match outcome {
            KeyOutcome::AutoclickerKeySet => SharedStateView {
                autoclicker_key: vk,
                rebinding_target: REBIND_NOTHING,
                ..self
            },
            KeyOutcome::MasterSwitchKeySet => SharedStateView {
                master_switch_key: vk,
                rebinding_target: REBIND_NOTHING,
                ..self
            },
            KeyOutcome::BindingDropped => SharedStateView {
                rebinding_target: REBIND_NOTHING,
                ..self
            },
            KeyOutcome::Recorded { macro_id } => self.with_macro(
                macro_id,
                self.macros[macro_id].armed(vk),
            ),
            KeyOutcome::AutoclickerToggled => self.running_toggled(),
            KeyOutcome::MasterSwitchToggled => self.macros_toggled(),
            _ => self,
        }
    }

    /// The state after the key with this code was pressed in the window.
    pub open spec fn window_key(self, vk: u32, editing: bool) -> SharedStateView {
        self.key_applied(vk, self.key_outcome(vk, editing))
    }

    /// What clicking Start/Stop of a macro does; nothing where there is no such macro.
    pub open spec fn start_stop_outcome(self, id: u32) -> Option<StartStop> {
        if !self.is_live(id) {
            None
        } else if self.macros[id].state == MacroButtonState::Idle {
            Some(StartStop::Started)
        } else {
            Some(StartStop::Stopped)
        }
    }

    /// The state after Start/Stop of a macro was clicked.
    pub open spec fn start_stop(self, id: u32) -> SharedStateView {
        if self.is_live(id) {
            self.with_macro(id, self.macros[id].toggled())
        } else {
            self
        }
    }

    /// The state after a macro pressed its key once.
    pub open spec fn press_counted(self, id: u32) -> SharedStateView {
        if self.is_live(id) {
            self.with_macro(id, self.macros[id].pressed())
        } else {
            self
        }
    }

    /// The state after the seconds between two presses of a macro were set.
    pub open spec fn interval_set(self, id: u32, interval: u32) -> SharedStateView {
        if self.is_live(id) {
            self.with_macro(id, Macro { repeat_interval: interval, ..self.macros[id] })
        } else {
            self
        }
    }

    /// The state after the number of presses of a macro was set.
    pub open spec fn count_set(self, id: u32, count: u32) -> SharedStateView {
        if self.is_live(id) {
            self.with_macro(id, Macro { repeat_count: count, ..self.macros[id] })
        } else {
            self
        }
    }

    /// The state after the application began to end.
    pub open spec fn shut_down(self) -> SharedStateView {
        SharedStateView { is_running: false, shutdown: true, ..self }
    }

    /// The state after a change.
    pub open spec fn changed(self, change: Change) -> SharedStateView {
        match change {
            Change::MacroAdded => self.add_macro().0,
            Change::MacroRemoved { id } => self.remove_macro(id),
            Change::MacroDropped { id } => self.macro_dropped(id),
            Change::MacroReplaced { id, with } => if self.is_live(id) {
                self.with_macro(id, with)
            } else {
                self
            },
            Change::MacroSelected { id } => SharedStateView { current_macro_id: id, ..self },
            Change::StartStopClicked { id } => self.start_stop(id),
            Change::PressCounted { id } => self.press_counted(id),
            Change::IntervalSet { id, interval } => self.interval_set(id, interval),
            Change::CountSet { id, count } => self.count_set(id, count),
            Change::WindowKeyPressed { vk, editing } => self.window_key(vk, editing),
            Change::HookKeyPressed { vk } => self.hook_key(vk),
            Change::RunningToggled => self.running_toggled(),
            Change::MasterSwitchTurned => self.macros_toggled(),
            Change::ModeChosen { mode } => SharedStateView { mode, ..self },
            Change::ValueEdited { bits } => self.value_edited(bits),
            Change::FailsafeSet { on } => SharedStateView { failsafe_enabled: on, ..self },
            Change::BindingBegun { target } => SharedStateView { rebinding_target: target, ..self },
            Change::WindowNoted { hwnd } => SharedStateView { target_hwnd: hwnd, ..self },
            Change::FocusChecked { foreground } => self.focus_checked(foreground),
            Change::ShutDown => self.shut_down(),
        }
    }

    /// The state after some changes, one after the other.
    pub open spec fn after(self, changes: Seq<Change>) -> SharedStateView
        decreases changes.len(),
    {
        if changes.len() == 0 {
            self
        } else {
            self.after(changes.drop_last()).changed(changes.last())
        }
    }
}

/// The number after `id`; the numbers start again at zero behind the largest.
pub open spec fn number_after(id: u32) -> u32 {
    if id == u32::MAX {
        0
    } else {
        (id + 1) as u32
    }
}

/// Whether each of these macros holds a key exactly while it runs.
pub open spec fn all_consistent(macros: Map<u32, Macro>) -> bool {
    forall|id: u32| macros.contains_key(id) ==> (#[trigger] macros[id]).consistent()
}

/// Whether `s` holds the macro of each number once, in any order.
pub open spec fn is_snapshot(s: Seq<Macro>, macros: Map<u32, Macro>) -> bool {
    exists|ids: Seq<u32>| #[trigger] lists_in_order(s, ids, macros)
}

/// Whether `ids` are the numbers of all macros, each once, and `s` the macros in that order.
pub open spec fn lists_in_order(s: Seq<Macro>, ids: Seq<u32>, macros: Map<u32, Macro>) -> bool {
    &&& ids.no_duplicates()
    &&& ids.to_set() == macros.dom()
    &&& s == ids.map_values(|id: u32| macros[id])
}

/// Whether the macros of `s` stand in the order of the numbers that they carry.
pub open spec fn is_sorted_by_id(s: Seq<Macro>) -> bool {
    forall|i: int, j: int| 0 <= i < j < s.len() ==> #[trigger] s[i].id <= #[trigger] s[j].id
}

/// Whether two states have the same macros and the same numbers free.
pub open spec fn same_registry(s: SharedStateView, t: SharedStateView) -> bool {
    &&& t.macros == s.macros
    &&& t.free_ids == s.free_ids
    &&& t.next_macro_id == s.next_macro_id
}

/// Whatever leaves the macros and their numbers alone keeps the state valid.
pub broadcast proof fn lemma_same_registry_keeps_wf(s: SharedStateView, t: SharedStateView)
    requires
        #[trigger] s.wf(),
        same_registry(s, t),
    ensures
        #[trigger] t.wf(),
{
    assert forall|k: u32| #[trigger] t.is_live(k) implies s.is_live(k) by {}
    assert forall|k: u32| 1 <= k < t.next_macro_id implies #[trigger] t.is_live(k)
        || t.free_ids.contains(k) by {
        assert(s.is_live(k) || s.free_ids.contains(k));
    }
}

/// Putting a macro under its own number in the place of another keeps the state valid.
pub proof fn lemma_with_macro_keeps_wf(s: SharedStateView, id: u32, m: Macro)
    requires
        s.wf(),
        s.is_live(id),
        m.id == id,
    ensures
        s.with_macro(id, m).wf(),
        s.with_macro(id, m).macros.dom() == s.macros.dom(),
{
    let t = s.with_macro(id, m);
    assert(t.macros.dom() =~= s.macros.dom());
    assert forall|k: u32| #[trigger] t.is_live(k) implies {
        &&& 1 <= k < t.next_macro_id
        &&& !t.free_ids.contains(k)
        &&& t.macros[k].id == k
    } by {
        assert(s.is_live(k));
    }
    assert forall|k: u32| 1 <= k < t.next_macro_id implies #[trigger] t.is_live(k)
        || t.free_ids.contains(k) by {
        assert(s.is_live(k) || s.free_ids.contains(k));
    }
}

/// Adding a macro keeps the state valid.
pub proof fn lemma_add_keeps_wf(s: SharedStateView)
    requires
        s.wf(),
    ensures
        s.add_macro().0.wf(),
{
    if s.macros.len() < MAX_MACROS {
        let id = s.next_id();
        let t = s.add_macro().0;
        if s.free_ids.len() > 0 {
            assert(s.free_ids.contains(id));
            assert(!s.is_live(id));
            assert(t.free_ids =~= s.free_ids.drop_last());
            assert forall|k: u32| #[trigger] t.free_ids.contains(k) implies s.free_ids.contains(k)
                && k != id by {
                let i = choose|i: int| 0 <= i < t.free_ids.len() && t.free_ids[i] == k;
                assert(s.free_ids[i] == k);
            }
            assert forall|k: u32| s.free_ids.contains(k) && k != id implies t.free_ids.contains(
                k,
            ) by {
                let i = choose|i: int| 0 <= i < s.free_ids.len() && s.free_ids[i] == k;
                assert(t.free_ids[i] == k);
            }
        } else {
            assert(!s.is_live(id));
        }
        assert forall|k: u32| #[trigger] t.is_live(k) implies {
            &&& 1 <= k < t.next_macro_id
            &&& !t.free_ids.contains(k)
            &&& t.macros[k].id == k
            } by {
            if k != id {
                assert(s.is_live(k));
            }
        }
        assert forall|k: u32| 1 <= k < t.next_macro_id implies #[trigger] t.is_live(k)
            || t.free_ids.contains(k) by {
            if k != id {
                assert(s.is_live(k) || s.free_ids.contains(k));
            }
        }
    }
}

/// Removing a macro keeps the state valid.
pub proof fn lemma_remove_keeps_wf(s: SharedStateView, id: u32)
    requires
        s.wf(),
    ensures
        s.remove_macro(id).wf(),
{
    if id != 0 && s.is_live(id) {
        let t = s.remove_macro(id);
        assert forall|k: u32| t.free_ids.contains(k) <==> s.free_ids.contains(k) || k == id by {
            if s.free_ids.contains(k) {
                let i = choose|i: int| 0 <= i < s.free_ids.len() && s.free_ids[i] == k;
                assert(t.free_ids[i] == k);
            }
            if k == id {
                assert(t.free_ids[s.free_ids.len() as int] == k);
            }
        }
        assert forall|k: u32| #[trigger] t.is_live(k) implies {
            &&& 1 <= k < t.next_macro_id
            &&& !t.free_ids.contains(k)
            &&& t.macros[k].id == k
            } by {
            assert(s.is_live(k));
        }
        assert forall|k: u32| 1 <= k < t.next_macro_id implies #[trigger] t.is_live(k)
            || t.free_ids.contains(k) by {
            assert(s.is_live(k) || s.free_ids.contains(k));
        }
    }
}

} // verus!
