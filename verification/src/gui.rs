//! What the window keeps for itself, and what its controls do.
use std::collections::HashMap;
use vstd::prelude::*;
use vstd::string::*;
use crate::keys::{egui_key_to_vk, window_code, WindowKey};
use crate::labels::{key_feedback, key_message};
use crate::macros::StartStop;
use crate::model::{
    KeyOutcome, SharedStateView, REBIND_AUTOCLICKER, REBIND_MASTER_SWITCH, REBIND_NOTHING,
};
use crate::state::SharedState;
use crate::tables::keys_of;
use crate::text::{around_number, decimal, with_number};

verus! {

broadcast use vstd::std_specs::hash::group_hash_axioms;

/// How long a feedback message is shown, in nanoseconds.
pub const FEEDBACK_DURATION: u128 = 2_000_000_000;

/// The milliseconds to the next frame while something changes: about sixty frames a second.
pub const FAST_REPAINT: u64 = 16;

/// The milliseconds to the next frame while nothing changes: five frames a second.
pub const SLOW_REPAINT: u64 = 200;

/// The tabs of the window.
#[derive(Debug, Clone, Copy, PartialEq, Eq, Structural)]
pub enum Tab {
    Autoclicker,
    Macros,
    Settings,
}

/// An input event of the window.
#[derive(Debug, Clone, Copy)]
pub enum WindowEvent {
    /// A key went down or up; `repeat` says that it is held down.
    Key { key: WindowKey, pressed: bool, repeat: bool },
    /// Anything else.
    Other,
}

/// A key press in the window: the code of the key and what it did.
#[derive(Debug, Clone, Copy, PartialEq, Eq, Structural)]
pub struct KeyReport {
    pub vk: u32,
    pub outcome: KeyOutcome,
}

/// What a frame finds when it begins.
pub struct FrameInput {
    /// The handle of the active window; looked at only while that of the application's window is
    /// not known.
    pub active_window: isize,
    /// The handle of the window in front.
    pub foreground_window: isize,
    /// The input events since the last frame.
    pub events: Vec<WindowEvent>,
    /// Whether a widget is being edited.
    pub editing: bool,
}

/// The part of the application that belongs to its window. `H` is what is held of a running
/// macro thread.
pub struct AutoclickerApp<H> {
    /// The threads of the running macros, by the numbers of the macros.
    macro_executors: HashMap<u32, H>,
    feedback_message: String,
    /// When the feedback message was set, in nanoseconds, unless it is over.
    feedback_start: Option<u128>,
    selected_tab: Tab,
    /// Whether the handle of the window is known.
    hwnd_initialized: bool,
}

/// The contents of the window's part.
#[verifier::ext_equal]
#[verifier::reject_recursive_types(H)]
pub struct AppView<H> {
    pub macro_executors: Map<u32, H>,
    pub feedback_message: Seq<char>,
    pub feedback_start: Option<u128>,
    pub selected_tab: Tab,
    pub hwnd_initialized: bool,
}

impl<H> View for AutoclickerApp<H> {
    type V = AppView<H>;

    closed spec fn view(&self) -> AppView<H> {
        AppView {
            macro_executors: self.macro_executors@,
            feedback_message: self.feedback_message@,
            feedback_start: self.feedback_start,
            selected_tab: self.selected_tab,
            hwnd_initialized: self.hwnd_initialized,
        }
    }
}

impl<H> AppView<H> {
    /// The window when the application starts.
    pub open spec fn initial() -> AppView<H> {
        AppView {
            macro_executors: Map::empty(),
            feedback_message: Seq::empty(),
            feedback_start: None,
            selected_tab: Tab::Autoclicker,
            hwnd_initialized: false,
        }
    }

    /// The window with a feedback message set at `now`.
    pub open spec fn told(self, message: Seq<char>, now: u128) -> AppView<H> {
        AppView { feedback_message: message, feedback_start: Some(now), ..self }
    }

    /// The window after a key press was answered, where it is answered.
    pub open spec fn answered(self, report: KeyReport, now: u128) -> AppView<H> {
        match key_message(report.vk, report.outcome) {
            Some(message) => self.told(message, now),
            None => self,
        }
    }

    /// Whether a feedback message is to be shown at `now`.
    pub open spec fn shows_feedback(self, now: u128) -> bool {
        self.feedback_start matches Some(start) && now < start + FEEDBACK_DURATION
    }
}

/// The keys of the events that are key presses, without those of a key that is held down.
pub open spec fn fresh_presses(events: Seq<WindowEvent>) -> Seq<WindowKey>
    decreases events.len(),
{
    if events.len() == 0 {
        Seq::empty()
    } else {
        let before = fresh_presses(events.drop_last());
        match events.last() {
            WindowEvent::Key { key, pressed, repeat } => if pressed && !repeat {
                before.push(key)
            } else {
                before
            },
            WindowEvent::Other => before,
        }
    }
}

/// The shared state after these keys were pressed in the window, one after the other.
pub open spec fn state_after_keys(
    s: SharedStateView,
    keys: Seq<WindowKey>,
    editing: bool,
) -> SharedStateView
    decreases keys.len(),
{
    if keys.len() == 0 {
        s
    } else {
        state_after_keys(s, keys.drop_last(), editing).window_key(window_code(keys.last()), editing)
    }
}

/// What each of these key presses did.
pub open spec fn key_reports(s: SharedStateView, keys: Seq<WindowKey>, editing: bool) -> Seq<
    KeyReport,
>
    decreases keys.len(),
{
    if keys.len() == 0 {
        Seq::empty()
    } else {
        let before = state_after_keys(s, keys.drop_last(), editing);
        let vk = window_code(keys.last());
        key_reports(s, keys.drop_last(), editing).push(
            KeyReport { vk, outcome: before.key_outcome(vk, editing) },
        )
    }
}

/// The window after these key presses were answered, one after the other.
pub open spec fn app_after_reports<H>(
    app: AppView<H>,
    reports: Seq<KeyReport>,
    now: u128,
) -> AppView<H>
    decreases reports.len(),
{
    if reports.len() == 0 {
        app
    } else {
        app_after_reports(app, reports.drop_last(), now).answered(reports.last(), now)
    }
}

/// The shared state after a frame took note of the active window, which it does while the handle
/// of the application's own is not known.
pub open spec fn window_noted<H>(
    app: AppView<H>,
    s: SharedStateView,
    active: isize,
) -> SharedStateView {
    if !app.hwnd_initialized && active != 0 {
        SharedStateView { target_hwnd: active, ..s }
    } else {
        s
    }
}

/// The shared state after a frame took note of the active window and of the one in front.
pub open spec fn focus_noted<H>(
    app: AppView<H>,
    s: SharedStateView,
    active: isize,
    foreground: isize,
) -> SharedStateView {
    let noted = window_noted(app, s, active);
    if app.hwnd_initialized || active != 0 {
        noted.focus_checked(foreground)
    } else {
        noted
    }
}

/// Whether the next frame is due soon.
pub open spec fn needs_fast_repaint<H>(app: AppView<H>, s: SharedStateView) -> bool {
    s.is_running || s.macros_enabled || app.feedback_start is Some || s.rebinding_target
        != REBIND_NOTHING
}

/// Picks the key presses out of the events of a frame; those of a key that is held down do not
/// count.
pub fn key_presses_in(events: &Vec<WindowEvent>) -> (keys: Vec<WindowKey>)
    ensures
        keys@ == fresh_presses(events@),
{
    let mut keys: Vec<WindowKey> = Vec::new();
    let mut i: usize = 0;
    assert(events@.take(0) =~= Seq::empty());
    while i < events.len()
        invariant
            i <= events@.len(),
            keys@ == fresh_presses(events@.take(i as int)),
        decreases events@.len() - i,
    {
        match events[i] {
            WindowEvent::Key { key, pressed, repeat } => {
                if pressed && !repeat {
                    keys.push(key);
                }
            },
            WindowEvent::Other => {},
        }
        assert(events@.take(i + 1).drop_last() =~= events@.take(i as int));
        i += 1;
    }
    assert(events@.take(i as int) =~= events@);
    keys
}

impl<H> AutoclickerApp<H> {
    /// The window when the application starts.
    pub fn new() -> (app: Self)
        ensures
            app@ == AppView::<H>::initial(),
    {
        AutoclickerApp {
            macro_executors: HashMap::new(),
            feedback_message: String::new(),
            feedback_start: None,
            selected_tab: Tab::Autoclicker,
            hwnd_initialized: false,
        }
    }

    /// Takes over the thread of a macro, and gives back the one it had before, if any.
    pub fn start_macro_executor(&mut self, macro_id: u32, handle: H) -> (before: Option<H>)
        ensures
            final(self)@ == (AppView {
                macro_executors: old(self)@.macro_executors.insert(macro_id, handle),
                ..old(self)@
            }),
            before == (if old(self)@.macro_executors.contains_key(macro_id) {
                Some(old(self)@.macro_executors[macro_id])
            } else {
                None
            }),
    {
        self.macro_executors.insert(macro_id, handle)
    }

    /// Gives up the thread of a macro, to be told to end and waited for, if there is one.
    pub fn stop_macro_executor(&mut self, macro_id: u32) -> (handle: Option<H>)
        ensures
            final(self)@ == (AppView {
                macro_executors: old(self)@.macro_executors.remove(macro_id),
                ..old(self)@
            }),
            handle == (if old(self)@.macro_executors.contains_key(macro_id) {
                Some(old(self)@.macro_executors[macro_id])
            } else {
                None
            }),
    {
        self.macro_executors.remove(&macro_id)
    }

    /// Gives up the threads of all macros, to be told to end and waited for, each once and in no
    /// particular order.
    pub fn stop_all_macros(&mut self) -> (handles: Vec<H>)
        ensures
            final(self)@ == (AppView { macro_executors: Map::empty(), ..old(self)@ }),
            exists|ids: Seq<u32>|
                {
                    &&& #[trigger] ids.no_duplicates()
                    &&& ids.to_set() == old(self)@.macro_executors.dom()
                    &&& handles@ == ids.map_values(|id: u32| old(self)@.macro_executors[id])
                },
    {
        let ids = keys_of(&self.macro_executors);
        let mut handles: Vec<H> = Vec::new();
        let mut i: usize = 0;
        while i < ids.len()
            invariant
                i <= ids@.len(),
                ids@.no_duplicates(),
                ids@.to_set() == old(self)@.macro_executors.dom(),
                self@ == (AppView {
                    macro_executors: self@.macro_executors,
                    ..old(self)@
                }),
                forall|id: u32| #[trigger]
                    self@.macro_executors.contains_key(id) <==> exists|k: int|
                        i <= k < ids@.len() && #[trigger] ids@[k] == id,
                forall|id: u32| #[trigger]
                    self@.macro_executors.contains_key(id) ==> self@.macro_executors[id] == old(
                        self,
                    )@.macro_executors[id],
                handles@.len() == i,
                forall|k: int|
                    0 <= k < i ==> #[trigger] handles@[k] == old(self)@.macro_executors[ids@[k]],
            decreases ids@.len() - i,
        {
            let ghost before = self@.macro_executors;
            assert(before.contains_key(ids@[i as int]));
            if let Some(handle) = self.stop_macro_executor(ids[i]) {
                handles.push(handle);
            }
            i += 1;
            proof {
                assert forall|id: u32| #[trigger]
                    self@.macro_executors.contains_key(id) <==> exists|k: int|
                        i <= k < ids@.len() && #[trigger] ids@[k] == id by {
                    if self@.macro_executors.contains_key(id) {
                        assert(before.contains_key(id));
                        let k = choose|k: int| i - 1 <= k < ids@.len() && #[trigger] ids@[k] == id;
                        assert(k != i - 1);
                    }
                    if exists|k: int| i <= k < ids@.len() && #[trigger] ids@[k] == id {
                        assert(before.contains_key(id));
                    }
                }
            }
        }
        proof {
            assert(self@.macro_executors =~= Map::empty());
            assert(handles@ =~= ids@.map_values(|id: u32| old(self)@.macro_executors[id]));
        }
        handles
    }

    /// Ends the application: stops the clicker, tells every thread to end, and gives up the
    /// threads of all macros, to be told to end and waited for, each once and in no particular
    /// order.
    pub fn close(&mut self, state: &mut SharedState) -> (handles: Vec<H>)
        ensures
            final(state)@ == old(state)@.shut_down(),
            final(self)@ == (AppView { macro_executors: Map::empty(), ..old(self)@ }),
            exists|ids: Seq<u32>|
                {
                    &&& #[trigger] ids.no_duplicates()
                    &&& ids.to_set() == old(self)@.macro_executors.dom()
                    &&& handles@ == ids.map_values(|id: u32| old(self)@.macro_executors[id])
                },
            old(state)@.wf() ==> final(state)@.wf(),
            old(state)@.macros_consistent() ==> final(state)@.macros_consistent(),
    {
        state.begin_shutdown();
        self.stop_all_macros()
    }

    /// Shows a message for a while, from `now` on.
    pub fn set_feedback(&mut self, msg: String, now: u128)
        ensures
            final(self)@ == old(self)@.told(msg@, now),
    {
        self.feedback_message = msg;
        self.feedback_start = Some(now);
    }

    /// The message to show at `now`, if any; one that was shown long enough is over.
    pub fn feedback(&mut self, now: u128) -> (message: Option<String>)
        ensures
            old(self)@.shows_feedback(now) ==> {
                &&& message matches Some(text) && text@ == old(self)@.feedback_message
                &&& final(self)@ == old(self)@
            },
            !old(self)@.shows_feedback(now) ==> {
                &&& message is None
                &&& final(self)@ == (AppView { feedback_start: None, ..old(self)@ })
            },
    {
        match self.feedback_start {
            Some(start) => {
                if now.saturating_sub(start) < FEEDBACK_DURATION {
                    Some(self.feedback_message.clone())
                } else {
                    self.feedback_start = None;
                    None
                }
            },
            None => None,
        }
    }

    /// The tab that is shown.
    pub fn selected_tab(&self) -> (tab: Tab)
        ensures
            tab == self@.selected_tab,
    {
        self.selected_tab
    }

    /// Shows another tab.
    pub fn select_tab(&mut self, tab: Tab)
        ensures
            final(self)@ == (AppView { selected_tab: tab, ..old(self)@ }),
    {
        self.selected_tab = tab;
    }

    /// Whether the handle of the window is known.
    pub fn hwnd_initialized(&self) -> (known: bool)
        ensures
            known == self@.hwnd_initialized,
    {
        self.hwnd_initialized
    }

    /// Takes the handle of the window that is active, unless it is zero or a handle was taken
    /// before.
    pub fn note_active_window(&mut self, state: &mut SharedState, hwnd: isize)
        ensures
            !old(self)@.hwnd_initialized && hwnd != 0 ==> {
                &&& final(self)@ == (AppView { hwnd_initialized: true, ..old(self)@ })
                &&& final(state)@ == (SharedStateView { target_hwnd: hwnd, ..old(state)@ })
            },
            old(self)@.hwnd_initialized || hwnd == 0 ==> {
                &&& final(self)@ == old(self)@
                &&& final(state)@ == old(state)@
            },
            old(state)@.wf() ==> final(state)@.wf(),
            old(state)@.macros_consistent() ==> final(state)@.macros_consistent(),
    {
        if !self.hwnd_initialized {
            if hwnd != 0 {
                state.set_target_hwnd(hwnd);
                self.hwnd_initialized = true;
            }
        }
    }

    /// Takes note of the window in front, once the handle of the application's own is known.
    pub fn check_focus(&self, state: &mut SharedState, foreground: isize)
        ensures
            final(state)@ == (if self@.hwnd_initialized {
                old(state)@.focus_checked(foreground)
            } else {
                old(state)@
            }),
            old(state)@.wf() ==> final(state)@.wf(),
            old(state)@.macros_consistent() ==> final(state)@.macros_consistent(),
    {
        if self.hwnd_initialized {
            state.update_failsafe_from_gui(foreground);
        }
    }

    /// Handles the key presses of a frame, in their order, while the window has the focus, and
    /// says what each did. `editing` says whether a widget is being edited, which then gets the
    /// keys that would otherwise work as hotkeys.
    pub fn handle_key_presses(
        &mut self,
        state: &mut SharedState,
        keys: &Vec<WindowKey>,
        editing: bool,
        now: u128,
    ) -> (reports: Vec<KeyReport>)
        ensures
            old(state)@.window_focused ==> {
                &&& final(state)@ == state_after_keys(old(state)@, keys@, editing)
                &&& reports@ == key_reports(old(state)@, keys@, editing)
                &&& final(self)@ == app_after_reports(old(self)@, reports@, now)
            },
            !old(state)@.window_focused ==> {
                &&& final(state)@ == old(state)@
                &&& reports@.len() == 0
                &&& final(self)@ == old(self)@
            },
            old(state)@.wf() ==> final(state)@.wf(),
            old(state)@.macros_consistent() ==> final(state)@.macros_consistent(),
    {
        let mut reports: Vec<KeyReport> = Vec::new();
        if !state.window_focused() {
            return reports;
        }
        let mut i: usize = 0;
        assert(keys@.take(0) =~= Seq::empty());
        while i < keys.len()
            invariant
                i <= keys@.len(),
                old(state)@.wf() ==> state@.wf(),
                old(state)@.macros_consistent() ==> state@.macros_consistent(),
                state@ == state_after_keys(old(state)@, keys@.take(i as int), editing),
                reports@ == key_reports(old(state)@, keys@.take(i as int), editing),
                self@ == app_after_reports(old(self)@, reports@, now),
            decreases keys@.len() - i,
        {
            let ghost done = reports@;
            let vk = egui_key_to_vk(keys[i]);
            let outcome = state.window_key_press(vk, editing);
            if let Some(message) = key_feedback(vk, outcome) {
                self.set_feedback(message, now);
            }
            reports.push(KeyReport { vk, outcome });
            proof {
                assert(keys@.take(i + 1).drop_last() =~= keys@.take(i as int));
                assert(reports@.drop_last() =~= done);
            }
            i += 1;
        }
        assert(keys@.take(i as int) =~= keys@);
        reports
    }

    /// Begins a frame: takes note of the window, then of the focus, then handles the key presses
    /// where the window has the focus, and says what each did. The thread of a macro whose key
    /// was recorded is then to be started.
    pub fn begin_frame(&mut self, state: &mut SharedState, input: &FrameInput, now: u128) -> (reports:
        Vec<KeyReport>)
        ensures
            ({
                let noted = focus_noted(
                    old(self)@,
                    old(state)@,
                    input.active_window,
                    input.foreground_window,
                );
                let known = AppView {
                    hwnd_initialized: old(self)@.hwnd_initialized || input.active_window != 0,
                    ..old(self)@
                };
                let keys = fresh_presses(input.events@);
                &&& noted.window_focused ==> {
                    &&& final(state)@ == state_after_keys(noted, keys, input.editing)
                    &&& reports@ == key_reports(noted, keys, input.editing)
                    &&& final(self)@ == app_after_reports(known, reports@, now)
                }
                &&& !noted.window_focused ==> {
                    &&& final(state)@ == noted
                    &&& reports@.len() == 0
                    &&& final(self)@ == known
                }
            }),
            old(state)@.wf() ==> final(state)@.wf(),
            old(state)@.macros_consistent() ==> final(state)@.macros_consistent(),
    {
        self.note_active_window(state, input.active_window);
        self.check_focus(state, input.foreground_window);
        let keys = key_presses_in(&input.events);
        self.handle_key_presses(state, &keys, input.editing, now)
    }

    /// The milliseconds to the next frame.
    pub fn repaint_delay(&self, state: &SharedState) -> (millis: u64)
        ensures
            millis == (if needs_fast_repaint(self@, state@) {
                FAST_REPAINT
            } else {
                SLOW_REPAINT
            }),
    {
        let fast = state.is_running() || state.macros_enabled() || self.feedback_start.is_some()
            || state.rebinding_target() != REBIND_NOTHING;
        if fast {
            FAST_REPAINT
        } else {
            SLOW_REPAINT
        }
    }

    /// Adds a macro, tells its number, and returns it, or zero where there is no room.
    pub fn add_macro_clicked(&mut self, state: &mut SharedState, now: u128) -> (id: u32)
        ensures
            (final(state)@, id) == old(state)@.add_macro(),
            final(self)@ == (if id != 0 {
                old(self)@.told("Added macro #"@ + decimal(id as nat), now)
            } else {
                old(self)@
            }),
            old(state)@.wf() ==> final(state)@.wf(),
            old(state)@.macros_consistent() ==> final(state)@.macros_consistent(),
    {
        let id = state.add_macro();
        if id != 0 {
            self.set_feedback(with_number("Added macro #", id as u64), now);
        }
        id
    }

    /// Removes a macro, tells so, and gives up its thread, to be told to end and waited for, if
    /// there is one.
    pub fn remove_macro_clicked(&mut self, state: &mut SharedState, id: u32, now: u128) -> (handle:
        Option<H>)
        ensures
            handle == (if old(self)@.macro_executors.contains_key(id) {
                Some(old(self)@.macro_executors[id])
            } else {
                None
            }),
            final(state)@ == old(state)@.macro_dropped(id),
            final(self)@ == (AppView {
                macro_executors: old(self)@.macro_executors.remove(id),
                ..old(self)@
            }).told("Removed macro #"@ + decimal(id as nat), now),
            old(state)@.wf() ==> final(state)@.wf(),
            old(state)@.macros_consistent() ==> final(state)@.macros_consistent(),
    {
        let handle = self.stop_macro_executor(id);
        let _ = state.remove_macro(id);
        if state.get_current_macro_id() == id {
            state.set_current_macro_id(0);
        }
        self.set_feedback(with_number("Removed macro #", id as u64), now);
        handle
    }

    /// Selects a macro and tells so.
    pub fn set_current_clicked(&mut self, state: &mut SharedState, id: u32, now: u128)
        ensures
            final(state)@ == (SharedStateView { current_macro_id: id, ..old(state)@ }),
            final(self)@ == old(self)@.told(
                "Macro #"@ + decimal(id as nat) + " is now current"@,
                now,
            ),
            old(state)@.wf() ==> final(state)@.wf(),
            old(state)@.macros_consistent() ==> final(state)@.macros_consistent(),
    {
        state.set_current_macro_id(id);
        self.set_feedback(around_number("Macro #", id as u64, " is now current"), now);
    }

    /// Clicks Start/Stop of a macro, tells and returns what that did, and gives up the thread of a
    /// macro that was stopped, to be told to end and waited for.
    pub fn start_stop_clicked(&mut self, state: &mut SharedState, id: u32, now: u128) -> (did: (
        Option<StartStop>,
        Option<H>,
    ))
        ensures
            did.0 == old(state)@.start_stop_outcome(id),
            did.1 == (if did.0 == Some(StartStop::Stopped)
                && old(self)@.macro_executors.contains_key(id) {
                Some(old(self)@.macro_executors[id])
            } else {
                None
            }),
            final(state)@ == old(state)@.start_stop(id),
            final(self)@ == (match did.0 {
                Some(StartStop::Started) => old(self)@.told(
                    "Macro #"@ + decimal(id as nat) + ": press a key to record"@,
                    now,
                ),
                Some(StartStop::Stopped) => (AppView {
                    macro_executors: old(self)@.macro_executors.remove(id),
                    ..old(self)@
                }).told("Macro #"@ + decimal(id as nat) + " stopped"@, now),
                None => old(self)@,
            }),
            old(state)@.wf() ==> final(state)@.wf(),
            old(state)@.macros_consistent() ==> final(state)@.macros_consistent(),
    {
        let did = state.start_stop_macro(id);
        match did {
            Some(StartStop::Started) => {
                self.set_feedback(
                    around_number("Macro #", id as u64, ": press a key to record"),
                    now,
                );
                (did, None)
            },
            Some(StartStop::Stopped) => {
                let handle = self.stop_macro_executor(id);
                self.set_feedback(around_number("Macro #", id as u64, " stopped"), now);
                (did, handle)
            },
            None => (did, None),
        }
    }

    /// Has the next key press become the hotkey of the autoclicker.
    pub fn change_autoclicker_key_clicked(&mut self, state: &mut SharedState, now: u128)
        ensures
            final(state)@ == (SharedStateView {
                rebinding_target: REBIND_AUTOCLICKER,
                ..old(state)@
            }),
            final(self)@ == old(self)@.told("Press new key for Autoclicker..."@, now),
            old(state)@.wf() ==> final(state)@.wf(),
            old(state)@.macros_consistent() ==> final(state)@.macros_consistent(),
    {
        state.set_rebinding_target(REBIND_AUTOCLICKER);
        self.set_feedback("Press new key for Autoclicker...".to_string(), now);
    }

    /// Has the next key press become the hotkey of the master switch.
    pub fn change_master_switch_key_clicked(&mut self, state: &mut SharedState, now: u128)
        ensures
            final(state)@ == (SharedStateView {
                rebinding_target: REBIND_MASTER_SWITCH,
                ..old(state)@
            }),
            final(self)@ == old(self)@.told("Press new key for Macro Switch..."@, now),
            old(state)@.wf() ==> final(state)@.wf(),
            old(state)@.macros_consistent() ==> final(state)@.macros_consistent(),
    {
        state.set_rebinding_target(REBIND_MASTER_SWITCH);
        self.set_feedback("Press new key for Macro Switch...".to_string(), now);
    }
}

} // verus!
