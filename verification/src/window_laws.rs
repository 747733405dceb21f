//! What the controls of the window do, and what it shows.
use vstd::prelude::*;
use vstd::string::*;
use crate::gui::{AppView, AutoclickerApp, Tab};
use crate::icon::{icon_from_pixels, load_icon, IconData, IconError};
use crate::input::{both_events_sent, click_events, key_press_events, InputEvent};
use crate::labels::{
    add_button_label, autoclicker_key_label, can_add_macro, click_button_label, count_label,
    failsafe_label, is_row_of, key_feedback, macro_row, macro_rows, macro_state_label,
    master_key_label, master_label, mode_label, on_off_label, status_label, value_label,
    waiting_label, MacroRow, StatusText,
};
use crate::laws::law_snapshot_lists_each_macro_once;
use crate::macros::{Macro, StartStop};
use crate::model::{is_snapshot, is_sorted_by_id, KeyOutcome, SharedStateView};
use crate::state::SharedState;
use crate::text::decimal;

verus! {

/// The window starts on its first tab, with no threads, nothing to tell, and its handle not known.
pub proof fn law_window_starts_empty<H>(app: AutoclickerApp<H>)
    requires
        call_ensures(AutoclickerApp::<H>::new, (), app),
    ensures
        app@.macro_executors.dom() == Set::<u32>::empty(),
        app@.feedback_start is None,
        app@.feedback_message.len() == 0,
        app@.selected_tab == Tab::Autoclicker,
        !app@.hwnd_initialized,
{
    assert(app@.macro_executors.dom() =~= Set::<u32>::empty());
}

/// A message that was set is shown for two seconds, and then no more, whatever the clock says later;
/// showing it changes nothing, and nothing else is touched by it.
pub proof fn law_message_is_shown_for_two_seconds<H>(
    app: &mut AutoclickerApp<H>,
    shown: &mut AutoclickerApp<H>,
    again: &mut AutoclickerApp<H>,
    msg: String,
    set: u128,
    now: u128,
    later: u128,
    message: Option<String>,
    repeated: Option<String>,
)
    requires
        call_ensures(AutoclickerApp::<H>::set_feedback, (app, msg, set), ()),
        *old(shown) == *final(app),
        call_ensures(AutoclickerApp::<H>::feedback, (shown, now), message),
        *old(again) == *final(shown),
        call_ensures(AutoclickerApp::<H>::feedback, (again, later), repeated),
    ensures
        message is Some <==> now < set + 2_000_000_000,
        message matches Some(text) ==> text@ == msg@,
        message is None ==> repeated is None,
        message is Some ==> (repeated is Some <==> later < set + 2_000_000_000),
        repeated matches Some(text) ==> text@ == msg@,
        final(again)@.macro_executors == old(app)@.macro_executors,
        final(again)@.selected_tab == old(app)@.selected_tab,
        final(again)@.hwnd_initialized == old(app)@.hwnd_initialized,
{
}

/// Where no message was set, or the last one is over, none is shown.
pub proof fn law_no_message_is_made_up<H>(
    app: &mut AutoclickerApp<H>,
    now: u128,
    message: Option<String>,
)
    requires
        call_ensures(AutoclickerApp::<H>::feedback, (app, now), message),
    ensures
        message is Some <==> old(app)@.feedback_start is Some && now < old(app)@.feedback_start->0
            + 2_000_000_000,
        message matches Some(text) ==> text@ == old(app)@.feedback_message && final(app)@ == old(app)@,
        message is None ==> final(app)@ == (AppView { feedback_start: None, ..old(app)@ }),
{
}

/// The tab that was chosen is the one that is shown, and choosing it changes nothing else; whether the
/// window's handle is known is told as it is.
pub proof fn law_chosen_tab_is_shown<H>(
    app: &mut AutoclickerApp<H>,
    tab: Tab,
    shown: Tab,
    known: bool,
)
    requires
        call_ensures(AutoclickerApp::<H>::select_tab, (app, tab), ()),
        call_ensures(AutoclickerApp::<H>::selected_tab, (&*final(app),), shown),
        call_ensures(AutoclickerApp::<H>::hwnd_initialized, (&*final(app),), known),
    ensures
        shown == tab,
        known == old(app)@.hwnd_initialized,
        final(app)@ == (AppView { selected_tab: tab, ..old(app)@ }),
{
}

/// The thread that was taken over for a macro is the one that is given up for it later, once; other
/// macros keep theirs, and nothing else changes.
pub proof fn law_threads_are_given_back<H>(
    app: &mut AutoclickerApp<H>,
    then: &mut AutoclickerApp<H>,
    last: &mut AutoclickerApp<H>,
    id: u32,
    handle: H,
    before: Option<H>,
    given: Option<H>,
    nothing: Option<H>,
)
    requires
        call_ensures(AutoclickerApp::<H>::start_macro_executor, (app, id, handle), before),
        *old(then) == *final(app),
        call_ensures(AutoclickerApp::<H>::stop_macro_executor, (then, id), given),
        *old(last) == *final(then),
        call_ensures(AutoclickerApp::<H>::stop_macro_executor, (last, id), nothing),
    ensures
        before is Some <==> old(app)@.macro_executors.contains_key(id),
        before matches Some(h) ==> old(app)@.macro_executors.contains_pair(id, h),
        given == Some(handle),
        nothing is None,
        forall|k: u32|
            k != id ==> (#[trigger] final(last)@.macro_executors.contains_key(k) <==> old(
                app,
            )@.macro_executors.contains_key(k)) && final(last)@.macro_executors[k] == old(
                app,
            )@.macro_executors[k],
        !final(last)@.macro_executors.contains_key(id),
        final(last)@ == (AppView {
            macro_executors: final(last)@.macro_executors,
            ..old(app)@
        }),
{
}

/// All threads are given up at once: each of them is among those handed out, as often as there are
/// macros with a thread, and none is kept. Closing does so too, stops the clicker, and ends the
/// application; neither changes anything else.
pub proof fn law_all_threads_are_given_up<H>(
    app: &mut AutoclickerApp<H>,
    closing: &mut AutoclickerApp<H>,
    state: &mut SharedState,
    handles: Vec<H>,
    closed: Vec<H>,
)
    requires
        call_ensures(AutoclickerApp::<H>::stop_all_macros, (app,), handles),
        call_ensures(AutoclickerApp::<H>::close, (closing, state), closed),
    ensures
        handles@.len() == old(app)@.macro_executors.dom().len(),
        forall|k: u32| #[trigger]
            old(app)@.macro_executors.contains_key(k) ==> handles@.contains(
                old(app)@.macro_executors[k],
            ),
        final(app)@ == (AppView { macro_executors: Map::empty(), ..old(app)@ }),
        closed@.len() == old(closing)@.macro_executors.dom().len(),
        forall|k: u32| #[trigger]
            old(closing)@.macro_executors.contains_key(k) ==> closed@.contains(
                old(closing)@.macro_executors[k],
            ),
        final(closing)@ == (AppView { macro_executors: Map::empty(), ..old(closing)@ }),
        final(state)@ == (SharedStateView { is_running: false, shutdown: true, ..old(state)@ }),
{
    lemma_all_given_up(old(app)@.macro_executors, handles@);
    lemma_all_given_up(old(closing)@.macro_executors, closed@);
}

proof fn lemma_all_given_up<H>(threads: Map<u32, H>, handles: Seq<H>)
    requires
        exists|ids: Seq<u32>|
            {
                &&& #[trigger] ids.no_duplicates()
                &&& ids.to_set() == threads.dom()
                &&& handles == ids.map_values(|id: u32| threads[id])
            },
    ensures
        handles.len() == threads.dom().len(),
        forall|k: u32| #[trigger] threads.contains_key(k) ==> handles.contains(threads[k]),
{
    let ids = choose|ids: Seq<u32>|
        {
            &&& #[trigger] ids.no_duplicates()
            &&& ids.to_set() == threads.dom()
            &&& handles == ids.map_values(|id: u32| threads[id])
        };
    ids.unique_seq_to_set();
    assert forall|k: u32| #[trigger] threads.contains_key(k) implies handles.contains(
        threads[k],
    ) by {
        assert(ids.to_set().contains(k));
        let i = choose|i: int| 0 <= i < ids.len() && ids[i] == k;
        assert(handles[i] == threads[k]);
    }
}

/// The button that adds a macro does what adding one does, and tells its number where there was room.
pub proof fn law_add_button_adds<H>(
    app: &mut AutoclickerApp<H>,
    state: &mut SharedState,
    added: &mut SharedState,
    now: u128,
    id: u32,
    number: u32,
)
    requires
        call_ensures(AutoclickerApp::<H>::add_macro_clicked, (app, state, now), id),
        old(added)@ == old(state)@,
        call_ensures(SharedState::add_macro, (added,), number),
    ensures
        id == number,
        final(state)@ == final(added)@,
        id == 0 ==> final(app)@ == old(app)@,
        id != 0 ==> final(app)@ == (AppView {
            feedback_message: "Added macro #"@ + decimal(id as nat),
            feedback_start: Some(now),
            ..old(app)@
        }),
{
}

/// The button that removes a macro does what removing it does, unselects that macro and no other, gives
/// up its thread and no other, and tells its number.
pub proof fn law_remove_button_removes<H>(
    app: &mut AutoclickerApp<H>,
    stopping: &mut AutoclickerApp<H>,
    state: &mut SharedState,
    removing: &mut SharedState,
    id: u32,
    now: u128,
    handle: Option<H>,
    stopped: Option<H>,
    removed: bool,
)
    requires
        call_ensures(AutoclickerApp::<H>::remove_macro_clicked, (app, state, id, now), handle),
        old(stopping)@ == old(app)@,
        call_ensures(AutoclickerApp::<H>::stop_macro_executor, (stopping, id), stopped),
        old(removing)@ == old(state)@,
        call_ensures(SharedState::remove_macro, (removing, id), removed),
    ensures
        handle == stopped,
        final(state)@.current_macro_id == (if old(state)@.current_macro_id == id {
            0
        } else {
            old(state)@.current_macro_id
        }),
        final(state)@ == (SharedStateView {
            current_macro_id: final(state)@.current_macro_id,
            ..final(removing)@
        }),
        final(app)@ == (AppView {
            feedback_message: "Removed macro #"@ + decimal(id as nat),
            feedback_start: Some(now),
            ..final(stopping)@
        }),
{
}

/// The button that selects a macro selects it, changes nothing else in the state, and tells so.
pub proof fn law_select_button_selects<H>(
    app: &mut AutoclickerApp<H>,
    state: &mut SharedState,
    id: u32,
    now: u128,
)
    requires
        call_ensures(AutoclickerApp::<H>::set_current_clicked, (app, state, id, now), ()),
    ensures
        final(state)@ == (SharedStateView { current_macro_id: id, ..old(state)@ }),
        final(app)@ == (AppView {
            feedback_message: "Macro #"@ + decimal(id as nat) + " is now current"@,
            feedback_start: Some(now),
            ..old(app)@
        }),
{
}

/// Start/Stop in the window does what it does in the state, and tells what that was. It gives up the
/// thread of the macro exactly where the macro was stopped, and where there is no such macro nothing
/// happens.
pub proof fn law_start_stop_button<H>(
    app: &mut AutoclickerApp<H>,
    stopping: &mut AutoclickerApp<H>,
    state: &mut SharedState,
    toggled: &mut SharedState,
    id: u32,
    now: u128,
    did: (Option<StartStop>, Option<H>),
    in_state: Option<StartStop>,
    stopped: Option<H>,
)
    requires
        call_ensures(AutoclickerApp::<H>::start_stop_clicked, (app, state, id, now), did),
        old(toggled)@ == old(state)@,
        call_ensures(SharedState::start_stop_macro, (toggled, id), in_state),
        old(stopping)@ == old(app)@,
        call_ensures(AutoclickerApp::<H>::stop_macro_executor, (stopping, id), stopped),
    ensures
        did.0 == in_state,
        final(state)@ == final(toggled)@,
        in_state == Some(StartStop::Stopped) ==> did.1 == stopped && final(app)@ == (AppView {
            feedback_message: "Macro #"@ + decimal(id as nat) + " stopped"@,
            feedback_start: Some(now),
            ..final(stopping)@
        }),
        in_state == Some(StartStop::Started) ==> did.1 is None && final(app)@ == (AppView {
            feedback_message: "Macro #"@ + decimal(id as nat) + ": press a key to record"@,
            feedback_start: Some(now),
            ..old(app)@
        }),
        in_state is None ==> did.1 is None && final(app)@ == old(app)@,
{
}

/// The two buttons of the settings have the next key press bound, each to its own hotkey, and ask for it;
/// nothing else changes.
pub proof fn law_change_buttons_bind_their_own_hotkey<H>(
    app: &mut AutoclickerApp<H>,
    state: &mut SharedState,
    master_app: &mut AutoclickerApp<H>,
    master_state: &mut SharedState,
    now: u128,
)
    requires
        call_ensures(AutoclickerApp::<H>::change_autoclicker_key_clicked, (app, state, now), ()),
        call_ensures(
            AutoclickerApp::<H>::change_master_switch_key_clicked,
            (master_app, master_state, now),
            (),
        ),
    ensures
        final(state)@ == (SharedStateView { rebinding_target: 1, ..old(state)@ }),
        final(app)@ == (AppView {
            feedback_message: "Press new key for Autoclicker..."@,
            feedback_start: Some(now),
            ..old(app)@
        }),
        final(master_state)@ == (SharedStateView { rebinding_target: 2, ..old(master_state)@ }),
        final(master_app)@ == (AppView {
            feedback_message: "Press new key for Macro Switch..."@,
            feedback_start: Some(now),
            ..old(master_app)@
        }),
{
}

/// A hotkey that is changed by its button becomes the next key that is pressed in the window.
pub proof fn law_changed_hotkey_is_the_next_key<H>(
    app: &mut AutoclickerApp<H>,
    state: &mut SharedState,
    pressed: &mut SharedState,
    master_app: &mut AutoclickerApp<H>,
    master_state: &mut SharedState,
    master_pressed: &mut SharedState,
    now: u128,
    vk: u32,
    editing: bool,
    outcome: KeyOutcome,
    master_outcome: KeyOutcome,
)
    requires
        vk != 0,
        call_ensures(AutoclickerApp::<H>::change_autoclicker_key_clicked, (app, state, now), ()),
        old(pressed)@ == final(state)@,
        call_ensures(SharedState::window_key_press, (pressed, vk, editing), outcome),
        call_ensures(
            AutoclickerApp::<H>::change_master_switch_key_clicked,
            (master_app, master_state, now),
            (),
        ),
        old(master_pressed)@ == final(master_state)@,
        call_ensures(
            SharedState::window_key_press,
            (master_pressed, vk, editing),
            master_outcome,
        ),
    ensures
        final(pressed)@ == (SharedStateView {
            autoclicker_key: vk,
            rebinding_target: 0,
            ..old(state)@
        }),
        final(master_pressed)@ == (SharedStateView {
            master_switch_key: vk,
            rebinding_target: 0,
            ..old(master_state)@
        }),
{
}

/// The next frame comes soon exactly while the clicker runs, the master switch is on, a message is set,
/// or a hotkey is being bound.
pub proof fn law_frames_come_soon_while_something_changes<H>(
    app: &AutoclickerApp<H>,
    state: &SharedState,
    millis: u64,
)
    requires
        call_ensures(AutoclickerApp::<H>::repaint_delay, (app, state), millis),
    ensures
        millis == 16 <==> {
            ||| state@.is_running
            ||| state@.macros_enabled
            ||| app@.feedback_start is Some
            ||| state@.rebinding_target != 0
        },
        millis == 16 || millis == 200,
{
}

/// The autoclicker's tab names the chosen mode and its value, says whether the clicker is running, and
/// offers to switch it the other way.
pub proof fn law_autoclicker_tab_tells_its_state(
    state: &SharedState,
    running: bool,
    mode: &'static str,
    value: &'static str,
    status: &'static str,
    button: &'static str,
)
    requires
        call_ensures(mode_label, (state,), mode),
        call_ensures(value_label, (state,), value),
        call_ensures(status_label, (running,), status),
        call_ensures(click_button_label, (running,), button),
    ensures
        state@.mode == 1 ==> mode@ == "Mode: SLOW "@ && value@ == "Click Interval (seconds):"@,
        state@.mode != 1 ==> mode@ == "Mode: CPS "@ && value@ == "CPS (Clicks per Second):"@,
        running ==> status@ == "Status: RUNNING"@ && button@ == "Stop Clicking"@,
        !running ==> status@ == "Status: STOPPED"@ && button@ == "Start Clicking"@,
{
}

/// The macros' tab counts the macros out of fifty, offers to add one while there are fewer, and says
/// what the master switch is at and which key turns it.
pub proof fn law_macros_tab_tells_its_state(
    state: &SharedState,
    count: String,
    can: bool,
    add_label: &'static str,
    master: StatusText,
    key: String,
)
    requires
        call_ensures(count_label, (state,), count),
        call_ensures(can_add_macro, (state,), can),
        call_ensures(add_button_label, (can,), add_label),
        call_ensures(master_label, (state,), master),
        call_ensures(SharedState::vk_to_key_name, (state@.master_switch_key,), key),
    ensures
        count@ == "Active Macros: "@ + decimal(state@.macros.dom().len()) + "/"@ + decimal(50),
        can <==> state@.macros.dom().len() < 50,
        can ==> add_label@ == "Add Macro (+)"@,
        !can ==> add_label@ == "Add Macro (+) [disabled]"@,
        master.on == state@.macros_enabled,
        state@.macros_enabled ==> master.text@ == "Master Switch: ON  (press "@ + key@
            + " to disable)"@,
        !state@.macros_enabled ==> master.text@
            == "Master Switch: OFF — armed macros will NOT fire until you press "@ + key@,
{
}

/// A macro is shown under its number, with where it stands: while it runs, its presses out of those
/// asked for, which are endless where there is no limit. Its key is shown exactly where it has one, by
/// its code, and its interval and limit as they are.
pub proof fn law_macro_is_shown_as_it_is(m: &Macro, label: String, row: MacroRow)
    requires
        call_ensures(macro_state_label, (m,), label),
        call_ensures(macro_row, (m,), row),
    ensures
        row.id == m.id,
        row.title@ == "Macro #"@ + decimal(m.id as nat),
        row.state@ == label@,
        m.state is Idle ==> label@ == "State: "@ + "Idle"@,
        m.state is WaitingKey ==> label@ == "State: "@ + "Waiting for key..."@,
        m.state is Running && m.repeat_count == 0 ==> label@ == "State: "@ + ("Running ("@ + decimal(
            m.repetition_count as nat,
        ) + "/"@ + "∞"@ + ")"@),
        m.state is Running && m.repeat_count != 0 ==> label@ == "State: "@ + ("Running ("@ + decimal(
            m.repetition_count as nat,
        ) + "/"@ + decimal(m.repeat_count as nat) + ")"@),
        row.recorded is Some <==> m.recorded_key is Some,
        row.recorded matches Some(text) ==> text@ == "Recorded key: VK="@ + decimal(
            m.recorded_key->0.vk_code as nat,
        ),
        row.repeat_interval == m.repeat_interval,
        row.repeat_count == m.repeat_count,
{
}

/// There is one row for each macro, in the order of their numbers, and each tells of its own macro what
/// is shown of that macro alone.
pub proof fn law_there_is_a_row_for_each_macro(state: &SharedState, rows: Vec<MacroRow>)
    requires
        state@.wf(),
        call_ensures(macro_rows, (state,), rows),
    ensures
        rows@.len() == state@.macros.dom().len(),
        forall|i: int, j: int|
            0 <= i < j < rows@.len() ==> #[trigger] rows@[i].id < #[trigger] rows@[j].id,
        forall|i: int|
            0 <= i < rows@.len() ==> {
                let m = state@.macros[(#[trigger] rows@[i]).id];
                &&& state@.macros.contains_key(rows@[i].id)
                &&& rows@[i].title@ == "Macro #"@ + decimal(rows@[i].id as nat)
                &&& rows@[i].repeat_interval == m.repeat_interval
                &&& rows@[i].repeat_count == m.repeat_count
                &&& rows@[i].recorded is Some <==> m.recorded_key is Some
                &&& m.state is Idle ==> rows@[i].state@ == "State: "@ + "Idle"@
                &&& rows@[i].recorded matches Some(text) ==> text@ == "Recorded key: VK="@ + decimal(
                    m.recorded_key->0.vk_code as nat,
                )
                &&& m.state is WaitingKey ==> rows@[i].state@ == "State: "@ + "Waiting for key..."@
                &&& m.state is Running && m.repeat_count == 0 ==> rows@[i].state@ == "State: "@ + (
                "Running ("@ + decimal(m.repetition_count as nat) + "/"@ + "∞"@ + ")"@)
                &&& m.state is Running && m.repeat_count != 0 ==> rows@[i].state@ == "State: "@ + (
                "Running ("@ + decimal(m.repetition_count as nat) + "/"@ + decimal(
                    m.repeat_count as nat,
                ) + ")"@)
            },
{
    let macros = choose|macros: Seq<Macro>|
        {
            &&& is_snapshot(macros, state@.macros)
            &&& #[trigger] is_sorted_by_id(macros)
            &&& rows@.len() == macros.len()
            &&& forall|i: int|
                0 <= i < rows@.len() ==> is_row_of(#[trigger] rows@[i], macros[i])
        };
    law_snapshot_lists_each_macro_once(macros, state@);
    assert forall|i: int| 0 <= i < rows@.len() implies {
        let m = state@.macros[(#[trigger] rows@[i]).id];
        &&& state@.macros.contains_key(rows@[i].id)
        &&& m == macros[i]
        &&& rows@[i].id == macros[i].id
    } by {
        assert(is_row_of(rows@[i], macros[i]));
    }
    assert forall|i: int, j: int| 0 <= i < j < rows@.len() implies #[trigger] rows@[i].id
        < #[trigger] rows@[j].id by {
        assert(rows@[i].id == macros[i].id && rows@[j].id == macros[j].id);
        assert(macros[i].id <= macros[j].id && macros[i].id != macros[j].id);
    }
}

/// The settings' tab names the two hotkeys by the names of their keys, asks for a key exactly while one
/// is being bound, and says what is on.
pub proof fn law_settings_tab_tells_its_state(
    state: &SharedState,
    on: bool,
    autoclicker: String,
    master: String,
    autoclicker_name: String,
    master_name: String,
    waiting: Option<&'static str>,
    switch: &'static str,
    failsafe: &'static str,
)
    requires
        call_ensures(autoclicker_key_label, (state,), autoclicker),
        call_ensures(master_key_label, (state,), master),
        call_ensures(SharedState::vk_to_key_name, (state@.autoclicker_key,), autoclicker_name),
        call_ensures(SharedState::vk_to_key_name, (state@.master_switch_key,), master_name),
        call_ensures(waiting_label, (state,), waiting),
        call_ensures(on_off_label, (on,), switch),
        call_ensures(failsafe_label, (on,), failsafe),
    ensures
        autoclicker@ == "Autoclicker Toggle: "@ + autoclicker_name@,
        master@ == "Macro Master Switch: "@ + master_name@,
        waiting is Some <==> state@.rebinding_target != 0,
        waiting matches Some(text) ==> text@ == "WAITING FOR KEY PRESS..."@,
        on ==> switch@ == "(ON)"@,
        !on ==> switch@ == "(OFF)"@,
        on ==> failsafe@
            == "✅ Failsafe is ON — Autoclicker and macros will auto-stop when window loses focus."@,
        !on ==> failsafe@
            == "❌ Failsafe is OFF — Autoclicker and macros will continue even when window is unfocused."@,
{
}

/// A key press is answered exactly where it bound a hotkey or was recorded, with the name of the key
/// that was pressed and what it is now for.
pub proof fn law_answers_name_the_key(
    vk: u32,
    outcome: KeyOutcome,
    answer: Option<String>,
    name: String,
)
    requires
        call_ensures(key_feedback, (vk, outcome), answer),
        call_ensures(SharedState::vk_to_key_name, (vk,), name),
    ensures
        match outcome {
            KeyOutcome::AutoclickerKeySet => answer matches Some(text) && text@
                == "Autoclicker key set to "@ + name@,
            KeyOutcome::MasterSwitchKeySet => answer matches Some(text) && text@
                == "Macro master switch key set to "@ + name@,
            KeyOutcome::Recorded { macro_id } => answer matches Some(text) && text@ == "Key "@ + name@
                + " recorded for macro #"@ + decimal(macro_id as nat),
            _ => answer is None,
        },
{
}

/// A click is the left button going down and then up; a key press is the key going down and then up,
/// under the lower sixteen bits of its code, which is the code itself where it fits. Both were sent
/// where the system took as many events as there are.
pub proof fn law_presses_go_down_and_up(
    vk_code: u32,
    click: Vec<InputEvent>,
    press: Vec<InputEvent>,
    sent: u32,
    both: bool,
)
    requires
        call_ensures(click_events, (), click),
        call_ensures(key_press_events, (vk_code,), press),
        call_ensures(both_events_sent, (sent,), both),
    ensures
        click@.len() == 2 && press@.len() == 2,
        click@[0] == InputEvent::LeftButtonDown && click@[1] == InputEvent::LeftButtonUp,
        press@[0] matches InputEvent::KeyDown(down) && down == vk_code % 0x1_0000,
        press@[1] matches InputEvent::KeyUp(up) && up == vk_code % 0x1_0000,
        both <==> sent == 2,
{
}

/// An icon is the pixels and the size that were decoded, with four bytes for each pixel, and bytes that
/// are no image are told as such.
pub proof fn law_icon_is_what_was_decoded(
    decoded: Option<(Vec<u8>, u32, u32)>,
    made: Result<IconData, IconError>,
    encoded: &[u8],
    again: &[u8],
    loaded: Result<IconData, IconError>,
    reloaded: Result<IconData, IconError>,
)
    requires
        call_ensures(icon_from_pixels, (decoded,), made),
        call_ensures(load_icon, (encoded,), loaded),
        call_ensures(load_icon, (again,), reloaded),
        encoded@ == again@,
    ensures
        made is Ok <==> decoded is Some,
        made matches Ok(icon) ==> decoded == Some((icon.rgba, icon.width, icon.height)),
        made matches Err(e) ==> e == IconError::NotAnImage,
        loaded matches Ok(icon) ==> icon.rgba@.len() == 4 * icon.width * icon.height,
        loaded matches Err(e) ==> e == IconError::NotAnImage,
        loaded is Ok <==> reloaded is Ok,
        loaded is Ok ==> {
            &&& loaded->Ok_0.rgba@ == reloaded->Ok_0.rgba@
            &&& loaded->Ok_0.width == reloaded->Ok_0.width
            &&& loaded->Ok_0.height == reloaded->Ok_0.height
        },
{
}

} // verus!
