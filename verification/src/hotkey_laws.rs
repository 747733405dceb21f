//! What key presses and the focus of the window do.
use vstd::prelude::*;
use vstd::string::*;
use crate::gui::{
    focus_noted, fresh_presses, key_presses_in, key_reports, state_after_keys, AppView,
    AutoclickerApp, FrameInput, KeyReport, WindowEvent,
};
use crate::keys::{egui_key_to_vk, window_code, GlobalKey, WindowKey};
use crate::labels::key_feedback;
use crate::macros::MacroKeyPress;
use crate::model::{KeyOutcome, SharedStateView};
use crate::state::{global_key_handler, hook_key_pressed, SharedState};

verus! {

/// While another window is in front and the application is not ending, a key that the hook reports
/// switches the autoclicker the other way if it is the autoclicker's hotkey, and otherwise turns the
/// master switch if it is that one's. Whether anything is running makes no difference, and nothing
/// else changes.
pub proof fn law_hook_works_the_hotkeys(state: &mut SharedState, key: &GlobalKey, vk: u32)
    requires
        call_ensures(hook_key_pressed, (state, key), ()),
        call_ensures(SharedState::key_to_vk_code, (key,), vk),
        !old(state)@.window_focused,
        !old(state)@.shutdown,
        vk != 0,
    ensures
        ({
            let s = old(state)@;
            let t = final(state)@;
            &&& t.is_running != s.is_running <==> vk == s.autoclicker_key
            &&& t.macros_enabled != s.macros_enabled <==> vk == s.master_switch_key && vk
                != s.autoclicker_key
            &&& t == (SharedStateView {
                is_running: t.is_running,
                macros_enabled: t.macros_enabled,
                ..s
            })
        }),
{
}

/// A key that the hook reports does nothing while the window has the focus, once the application is
/// ending, and where the key has no code.
pub proof fn law_hook_is_silent_otherwise(state: &mut SharedState, key: &GlobalKey, vk: u32)
    requires
        call_ensures(hook_key_pressed, (state, key), ()),
        call_ensures(SharedState::key_to_vk_code, (key,), vk),
        old(state)@.window_focused || old(state)@.shutdown || vk == 0,
    ensures
        final(state)@ == old(state)@,
{
}

/// As long as the application is not ending, listening to the hook and handling its key are the same.
pub proof fn law_hook_and_handler_agree(
    heard: &mut SharedState,
    handled: &mut SharedState,
    key: &GlobalKey,
    vk: u32,
)
    requires
        old(heard)@ == old(handled)@,
        call_ensures(hook_key_pressed, (heard, key), ()),
        call_ensures(global_key_handler, (handled, key), ()),
        call_ensures(SharedState::key_to_vk_code, (key,), vk),
    ensures
        !old(heard)@.shutdown ==> final(heard)@ == final(handled)@,
        final(handled)@.is_running != old(handled)@.is_running <==> {
            &&& !old(handled)@.window_focused
            &&& vk != 0
            &&& vk == old(handled)@.autoclicker_key
        },
        final(handled)@.macros_enabled != old(handled)@.macros_enabled <==> {
            &&& !old(handled)@.window_focused
            &&& vk != 0
            &&& vk == old(handled)@.master_switch_key
            &&& vk != old(handled)@.autoclicker_key
        },
        final(handled)@ == (SharedStateView {
            is_running: final(handled)@.is_running,
            macros_enabled: final(handled)@.macros_enabled,
            ..old(handled)@
        }),
{
}

/// Once the window is known, looking at the one in front says whether that is it. The clicker and the
/// macros stop exactly when the window just lost the focus while the failsafe is on; nothing is ever
/// started by it, and nothing else changes. Before the window is known nothing happens.
pub proof fn law_focus_is_what_is_in_front(state: &mut SharedState, foreground: isize)
    requires
        call_ensures(SharedState::update_failsafe_from_gui, (state, foreground), ()),
    ensures
        ({
            let s = old(state)@;
            let t = final(state)@;
            let lost = s.failsafe_enabled && s.window_focused && foreground != s.target_hwnd;
            &&& s.target_hwnd == 0 ==> t == s
            &&& s.target_hwnd != 0 ==> {
                &&& t.window_focused <==> foreground == s.target_hwnd
                &&& t.is_running <==> s.is_running && !lost
                &&& t.macros_enabled <==> s.macros_enabled && !lost
            }
            &&& t == (SharedStateView {
                window_focused: t.window_focused,
                is_running: t.is_running,
                macros_enabled: t.macros_enabled,
                ..s
            })
        }),
{
}

/// While a hotkey is being bound, a key press becomes that hotkey, ends the binding, and does nothing
/// else, whether or not a widget is being edited.
pub proof fn law_key_press_binds_first(
    state: &mut SharedState,
    vk: u32,
    editing: bool,
    outcome: KeyOutcome,
)
    requires
        call_ensures(SharedState::window_key_press, (state, vk, editing), outcome),
        old(state)@.rebinding_target != 0,
        vk != 0,
    ensures
        ({
            let s = old(state)@;
            let t = final(state)@;
            &&& t == (SharedStateView {
                rebinding_target: 0,
                autoclicker_key: t.autoclicker_key,
                master_switch_key: t.master_switch_key,
                ..s
            })
            &&& s.rebinding_target == 1 ==> {
                &&& outcome == KeyOutcome::AutoclickerKeySet
                &&& t.autoclicker_key == vk
                &&& t.master_switch_key == s.master_switch_key
            }
            &&& s.rebinding_target == 2 ==> {
                &&& outcome == KeyOutcome::MasterSwitchKeySet
                &&& t.master_switch_key == vk
                &&& t.autoclicker_key == s.autoclicker_key
            }
            &&& s.rebinding_target > 2 ==> {
                &&& outcome == KeyOutcome::BindingDropped
                &&& t.autoclicker_key == s.autoclicker_key
                &&& t.master_switch_key == s.master_switch_key
            }
        }),
{
}

/// Whether the selected macro waits for its key and no hotkey is being bound.
pub open spec fn waits_for_key(s: SharedStateView) -> bool {
    &&& s.rebinding_target == 0
    &&& s.current_macro_id != 0
    &&& s.macros.contains_key(s.current_macro_id)
    &&& s.macros[s.current_macro_id].state is WaitingKey
}

/// Where the selected macro waits for its key, a key press becomes that key and the macro runs. Its
/// number, its interval, its limit and its count stay as they were, and so does everything else in the
/// state, whether or not a widget is being edited.
pub proof fn law_key_press_records_second(
    state: &mut SharedState,
    vk: u32,
    editing: bool,
    outcome: KeyOutcome,
)
    requires
        call_ensures(SharedState::window_key_press, (state, vk, editing), outcome),
        waits_for_key(old(state)@),
        vk != 0,
    ensures
        ({
            let s = old(state)@;
            let t = final(state)@;
            let id = s.current_macro_id;
            let before = s.macros[id];
            let after = t.macros[id];
            &&& outcome == (KeyOutcome::Recorded { macro_id: id })
            &&& t == (SharedStateView { macros: t.macros, ..s })
            &&& t.macros.dom() == s.macros.dom()
            &&& forall|k: u32| k != id ==> #[trigger] t.macros[k] == s.macros[k]
            &&& after.recorded_key == Some(MacroKeyPress { vk_code: vk })
            &&& after.state is Running
            &&& after.id == before.id
            &&& after.repeat_interval == before.repeat_interval
            &&& after.repeat_count == before.repeat_count
            &&& after.repetition_count == before.repetition_count
        }),
{
    let s = old(state)@;
    assert(s.macros.insert(s.current_macro_id, s.macros[s.current_macro_id].armed(vk)).dom()
        =~= s.macros.dom());
}

/// Where no hotkey is being bound and no macro waits for its key, a key press works as a hotkey, unless
/// a widget is being edited: the autoclicker's switches it the other way, otherwise the master switch's
/// turns that one, and nothing else changes.
pub proof fn law_key_press_works_hotkeys_last(
    state: &mut SharedState,
    vk: u32,
    editing: bool,
    outcome: KeyOutcome,
)
    requires
        call_ensures(SharedState::window_key_press, (state, vk, editing), outcome),
        old(state)@.rebinding_target == 0,
        !waits_for_key(old(state)@),
        vk != 0,
    ensures
        ({
            let s = old(state)@;
            let t = final(state)@;
            &&& t.is_running != s.is_running <==> !editing && vk == s.autoclicker_key
            &&& t.macros_enabled != s.macros_enabled <==> !editing && vk == s.master_switch_key && vk
                != s.autoclicker_key
            &&& t == (SharedStateView {
                is_running: t.is_running,
                macros_enabled: t.macros_enabled,
                ..s
            })
            &&& outcome == KeyOutcome::LeftToWidget <==> editing
            &&& outcome == KeyOutcome::AutoclickerToggled <==> t.is_running != s.is_running
            &&& outcome == KeyOutcome::MasterSwitchToggled <==> t.macros_enabled != s.macros_enabled
            &&& outcome == KeyOutcome::Unbound <==> !editing && t == s
        }),
{
}

/// A key without a code does nothing, and the press is reported as such.
pub proof fn law_key_press_without_code(
    state: &mut SharedState,
    vk: u32,
    editing: bool,
    outcome: KeyOutcome,
)
    requires
        call_ensures(SharedState::window_key_press, (state, vk, editing), outcome),
    ensures
        outcome == KeyOutcome::Unknown <==> vk == 0,
        vk == 0 ==> final(state)@ == old(state)@,
{
}

/// The key presses of some events and one more: the key of the last one is added exactly where that
/// is a key that went down and is not held. No events have no key presses.
pub proof fn law_one_more_event(
    events: &Vec<WindowEvent>,
    more: &Vec<WindowEvent>,
    event: WindowEvent,
    keys: Vec<WindowKey>,
    more_keys: Vec<WindowKey>,
)
    requires
        more@ == events@.push(event),
        call_ensures(key_presses_in, (events,), keys),
        call_ensures(key_presses_in, (more,), more_keys),
    ensures
        events@.len() == 0 ==> keys@.len() == 0,
        event matches WindowEvent::Key { key, pressed: true, repeat: false } ==> more_keys@
            == keys@.push(key),
        !(event matches WindowEvent::Key { pressed: true, repeat: false, .. }) ==> more_keys@ == keys@,
{
    assert(more@.drop_last() =~= events@);
}

/// The key presses of a frame work one after the other: those of some keys and one more do what those
/// of the keys do, and then what the press of the last key does, under its own code and with the same
/// widget being edited or not. Each is reported, and answered where it has an answer.
pub proof fn law_one_more_key_press<H>(
    app: &mut AutoclickerApp<H>,
    state: &mut SharedState,
    more_app: &mut AutoclickerApp<H>,
    more_state: &mut SharedState,
    last_state: &mut SharedState,
    keys: &Vec<WindowKey>,
    more: &Vec<WindowKey>,
    key: WindowKey,
    editing: bool,
    now: u128,
    reports: Vec<KeyReport>,
    more_reports: Vec<KeyReport>,
    vk: u32,
    outcome: KeyOutcome,
    answer: Option<String>,
)
    requires
        old(state)@.window_focused,
        old(more_state)@ == old(state)@,
        old(more_app)@ == old(app)@,
        old(last_state)@ == final(state)@,
        more@ == keys@.push(key),
        call_ensures(
            AutoclickerApp::<H>::handle_key_presses,
            (app, state, keys, editing, now),
            reports,
        ),
        call_ensures(
            AutoclickerApp::<H>::handle_key_presses,
            (more_app, more_state, more, editing, now),
            more_reports,
        ),
        call_ensures(egui_key_to_vk, (key,), vk),
        call_ensures(SharedState::window_key_press, (last_state, vk, editing), outcome),
        call_ensures(key_feedback, (vk, outcome), answer),
    ensures
        final(more_state)@ == final(last_state)@,
        more_reports@ == reports@.push(KeyReport { vk, outcome }),
        answer matches Some(text) ==> final(more_app)@ == (AppView {
            feedback_message: text@,
            feedback_start: Some(now),
            ..final(app)@
        }),
        answer is None ==> final(more_app)@ == final(app)@,
{
    assert(more@.drop_last() =~= keys@);
    assert(more_reports@.drop_last() =~= reports@);
}

/// A frame without key presses changes nothing, and no key press counts while the window does not have
/// the focus.
pub proof fn law_no_key_presses_no_change<H>(
    app: &mut AutoclickerApp<H>,
    state: &mut SharedState,
    keys: &Vec<WindowKey>,
    editing: bool,
    now: u128,
    reports: Vec<KeyReport>,
)
    requires
        call_ensures(
            AutoclickerApp::<H>::handle_key_presses,
            (app, state, keys, editing, now),
            reports,
        ),
        keys@.len() == 0 || !old(state)@.window_focused,
    ensures
        final(app)@ == old(app)@,
        final(state)@ == old(state)@,
        reports@.len() == 0,
{
}

/// While a widget is being edited, no key presses of a frame, however many, switch the autoclicker or
/// turn the master switch: typing into a field starts and stops nothing.
pub proof fn law_typing_starts_nothing<H>(
    app: &mut AutoclickerApp<H>,
    state: &mut SharedState,
    keys: &Vec<WindowKey>,
    now: u128,
    reports: Vec<KeyReport>,
)
    requires
        call_ensures(
            AutoclickerApp::<H>::handle_key_presses,
            (app, state, keys, true, now),
            reports,
        ),
    ensures
        final(state)@.is_running == old(state)@.is_running,
        final(state)@.macros_enabled == old(state)@.macros_enabled,
        reports@.len() <= keys@.len(),
        forall|i: int|
            0 <= i < reports@.len() ==> #[trigger] reports@[i].outcome
                != KeyOutcome::AutoclickerToggled && reports@[i].outcome
                != KeyOutcome::MasterSwitchToggled,
{
    lemma_typing_starts_nothing(old(state)@, keys@);
}

proof fn lemma_typing_starts_nothing(s: SharedStateView, keys: Seq<WindowKey>)
    ensures
        ({
            let t = state_after_keys(s, keys, true);
            let reports = key_reports(s, keys, true);
            &&& t.is_running == s.is_running
            &&& t.macros_enabled == s.macros_enabled
            &&& reports.len() == keys.len()
            &&& forall|i: int|
                0 <= i < reports.len() ==> #[trigger] reports[i].outcome
                    != KeyOutcome::AutoclickerToggled && reports[i].outcome
                    != KeyOutcome::MasterSwitchToggled
        }),
    decreases keys.len(),
{
    if keys.len() > 0 {
        lemma_typing_starts_nothing(s, keys.drop_last());
    }
}

/// No key presses in the window, however many, end the application, touch the failsafe, the focus, the
/// selection or the way clicks are set, add or remove macros, or change the number, the interval, the
/// limit or the count of one.
pub proof fn law_key_presses_leave_the_rest<H>(
    app: &mut AutoclickerApp<H>,
    state: &mut SharedState,
    keys: &Vec<WindowKey>,
    editing: bool,
    now: u128,
    reports: Vec<KeyReport>,
)
    requires
        call_ensures(
            AutoclickerApp::<H>::handle_key_presses,
            (app, state, keys, editing, now),
            reports,
        ),
    ensures
        ({
            let s = old(state)@;
            let t = final(state)@;
            &&& t == (SharedStateView {
                is_running: t.is_running,
                macros_enabled: t.macros_enabled,
                autoclicker_key: t.autoclicker_key,
                master_switch_key: t.master_switch_key,
                rebinding_target: t.rebinding_target,
                macros: t.macros,
                ..s
            })
            &&& t.macros.dom() == s.macros.dom()
            &&& forall|k: u32| #[trigger]
                s.macros.contains_key(k) ==> {
                    &&& t.macros[k].id == s.macros[k].id
                    &&& t.macros[k].repeat_interval == s.macros[k].repeat_interval
                    &&& t.macros[k].repeat_count == s.macros[k].repeat_count
                    &&& t.macros[k].repetition_count == s.macros[k].repetition_count
                }
        }),
{
    lemma_key_presses_leave_the_rest(old(state)@, keys@, editing);
}

proof fn lemma_key_presses_leave_the_rest(
    s: SharedStateView,
    keys: Seq<WindowKey>,
    editing: bool,
)
    ensures
        ({
            let t = state_after_keys(s, keys, editing);
            &&& t == (SharedStateView {
                is_running: t.is_running,
                macros_enabled: t.macros_enabled,
                autoclicker_key: t.autoclicker_key,
                master_switch_key: t.master_switch_key,
                rebinding_target: t.rebinding_target,
                macros: t.macros,
                ..s
            })
            &&& t.macros.dom() == s.macros.dom()
            &&& forall|k: u32| #[trigger]
                s.macros.contains_key(k) ==> {
                    &&& t.macros[k].id == s.macros[k].id
                    &&& t.macros[k].repeat_interval == s.macros[k].repeat_interval
                    &&& t.macros[k].repeat_count == s.macros[k].repeat_count
                    &&& t.macros[k].repetition_count == s.macros[k].repetition_count
                }
        }),
    decreases keys.len(),
{
    if keys.len() > 0 {
        lemma_key_presses_leave_the_rest(s, keys.drop_last(), editing);
        let u = state_after_keys(s, keys.drop_last(), editing);
        let t = u.window_key(window_code(keys.last()), editing);
        assert(t.macros.dom() =~= u.macros.dom());
    }
}

/// The active window becomes the application's own exactly where that is not known yet and some window
/// is active; nothing else changes.
pub proof fn law_window_is_taken_once<H>(
    app: &mut AutoclickerApp<H>,
    state: &mut SharedState,
    hwnd: isize,
)
    requires
        call_ensures(AutoclickerApp::<H>::note_active_window, (app, state, hwnd), ()),
    ensures
        final(app)@ == (AppView {
            hwnd_initialized: old(app)@.hwnd_initialized || hwnd != 0,
            ..old(app)@
        }),
        final(state)@ == (SharedStateView { target_hwnd: final(state)@.target_hwnd, ..old(state)@ }),
        !old(app)@.hwnd_initialized && hwnd != 0 ==> final(state)@.target_hwnd == hwnd,
        old(app)@.hwnd_initialized || hwnd == 0 ==> final(state)@.target_hwnd
            == old(state)@.target_hwnd,
{
}

/// A frame does four things in a row: it takes note of the active window, looks at the one in front
/// where its own is known, picks the key presses out of the events, and handles them.
pub proof fn law_frame_is_its_steps<H>(
    app: &mut AutoclickerApp<H>,
    state: &mut SharedState,
    input: &FrameInput,
    now: u128,
    reports: Vec<KeyReport>,
    noting: &mut AutoclickerApp<H>,
    noted: &mut SharedState,
    knowing: &AutoclickerApp<H>,
    looked: &mut SharedState,
    handling: &mut AutoclickerApp<H>,
    handled: &mut SharedState,
    keys: &Vec<WindowKey>,
    handled_reports: Vec<KeyReport>,
)
    requires
        call_ensures(AutoclickerApp::<H>::begin_frame, (app, state, input, now), reports),
        old(noting)@ == old(app)@,
        old(noted)@ == old(state)@,
        call_ensures(
            AutoclickerApp::<H>::note_active_window,
            (noting, noted, input.active_window),
            (),
        ),
        knowing@ == final(noting)@,
        old(looked)@ == final(noted)@,
        call_ensures(
            AutoclickerApp::<H>::check_focus,
            (knowing, looked, input.foreground_window),
            (),
        ),
        call_ensures(key_presses_in, (&input.events,), *keys),
        old(handling)@ == final(noting)@,
        old(handled)@ == final(looked)@,
        call_ensures(
            AutoclickerApp::<H>::handle_key_presses,
            (handling, handled, keys, input.editing, now),
            handled_reports,
        ),
    ensures
        final(state)@ == final(handled)@,
        final(app)@ == final(handling)@,
        reports@ == handled_reports@,
{
    assert(reports@ =~= handled_reports@);
}

/// The window in front is looked at exactly where the application's own is known.
pub proof fn law_focus_is_looked_at_once_known<H>(
    app: &AutoclickerApp<H>,
    state: &mut SharedState,
    looked: &mut SharedState,
    foreground: isize,
)
    requires
        old(looked)@ == old(state)@,
        call_ensures(AutoclickerApp::<H>::check_focus, (app, state, foreground), ()),
        call_ensures(SharedState::update_failsafe_from_gui, (looked, foreground), ()),
    ensures
        app@.hwnd_initialized ==> final(state)@ == final(looked)@,
        !app@.hwnd_initialized ==> final(state)@ == old(state)@,
{
}

/// A frame in which a widget is being edited starts nothing, and stops something only where the window
/// just lost the focus while the failsafe is on.
pub proof fn law_frame_while_editing<H>(
    app: &mut AutoclickerApp<H>,
    state: &mut SharedState,
    input: &FrameInput,
    now: u128,
    reports: Vec<KeyReport>,
)
    requires
        call_ensures(AutoclickerApp::<H>::begin_frame, (app, state, input, now), reports),
        input.editing,
    ensures
        final(state)@.is_running ==> old(state)@.is_running,
        final(state)@.macros_enabled ==> old(state)@.macros_enabled,
        !old(state)@.failsafe_enabled || final(state)@.window_focused || !old(state)@.window_focused
            ==> {
            &&& final(state)@.is_running == old(state)@.is_running
            &&& final(state)@.macros_enabled == old(state)@.macros_enabled
        },
{
    let noted = focus_noted(
        old(app)@,
        old(state)@,
        input.active_window,
        input.foreground_window,
    );
    lemma_typing_starts_nothing(noted, fresh_presses(input.events@));
    lemma_key_presses_leave_the_rest(noted, fresh_presses(input.events@), true);
}

} // verus!
