//! The texts that the window shows.
use vstd::prelude::*;
use vstd::string::*;
use crate::keys::key_name;
use crate::macros::{Macro, MacroButtonState};
use crate::model::{
    is_snapshot, is_sorted_by_id, KeyOutcome, SharedStateView, MAX_MACROS, REBIND_NOTHING,
    SLOW_MODE,
};
use crate::state::SharedState;
use crate::text::{around_number, decimal, decimal_string, join, with_number};

verus! {

/// A text, and whether it tells of something that is on.
pub struct StatusText {
    pub text: String,
    pub on: bool,
}

/// What the window shows of one macro.
pub struct MacroRow {
    /// The number of the macro.
    pub id: u32,
    /// The heading of the macro.
    pub title: String,
    /// Where the macro stands.
    pub state: String,
    /// The recorded key, where there is one.
    pub recorded: Option<String>,
    /// Seconds between two key presses, as the bit pattern of a single-precision number.
    pub repeat_interval: u32,
    /// How many presses the macro makes; zero means no limit.
    pub repeat_count: u32,
}

/// The way in which clicks are set.
pub open spec fn mode_text(s: SharedStateView) -> Seq<char> {
    if s.mode == SLOW_MODE {
        "Mode: SLOW "@
    } else {
        "Mode: CPS "@
    }
}

/// The value that sets the clicks in the chosen mode.
pub open spec fn value_text(s: SharedStateView) -> Seq<char> {
    if s.mode == SLOW_MODE {
        "Click Interval (seconds):"@
    } else {
        "CPS (Clicks per Second):"@
    }
}

/// How many macros there are, out of how many there can be.
pub open spec fn count_text(s: SharedStateView) -> Seq<char> {
    "Active Macros: "@ + decimal(s.macros.len()) + "/"@ + decimal(MAX_MACROS as nat)
}

/// What the master switch is at, and the key that turns it.
pub open spec fn master_text(s: SharedStateView) -> Seq<char> {
    if s.macros_enabled {
        "Master Switch: ON  (press "@ + key_name(s.master_switch_key) + " to disable)"@
    } else {
        "Master Switch: OFF — armed macros will NOT fire until you press "@ + key_name(
            s.master_switch_key,
        )
    }
}

/// How many presses a macro is asked for.
pub open spec fn total_text(m: Macro) -> Seq<char> {
    if m.repeat_count == 0 {
        "∞"@
    } else {
        decimal(m.repeat_count as nat)
    }
}

/// Where a macro stands.
pub open spec fn state_text(m: Macro) -> Seq<char> {
    match m.state {
        MacroButtonState::Idle => "State: "@ + "Idle"@,
        MacroButtonState::WaitingKey => "State: "@ + "Waiting for key..."@,
        MacroButtonState::Running => "State: "@ + ("Running ("@ + decimal(
            m.repetition_count as nat,
        ) + "/"@ + total_text(m) + ")"@),
    }
}

/// What the window shows of `m`.
pub open spec fn is_row_of(row: MacroRow, m: Macro) -> bool {
    &&& row.id == m.id
    &&& row.title@ == "Macro #"@ + decimal(m.id as nat)
    &&& row.state@ == state_text(m)
    &&& match m.recorded_key {
        Some(key) => row.recorded matches Some(text) && text@ == "Recorded key: VK="@ + decimal(
            key.vk_code as nat,
        ),
        None => row.recorded is None,
    }
    &&& row.repeat_interval == m.repeat_interval
    &&& row.repeat_count == m.repeat_count
}

/// What a key press in the window is answered with, where it is answered.
pub open spec fn key_message(vk: u32, outcome: KeyOutcome) -> Option<Seq<char>> {
    match outcome {
        KeyOutcome::AutoclickerKeySet => Some("Autoclicker key set to "@ + key_name(vk)),
        KeyOutcome::MasterSwitchKeySet => Some("Macro master switch key set to "@ + key_name(vk)),
        KeyOutcome::Recorded { macro_id } => Some(
            "Key "@ + key_name(vk) + " recorded for macro #"@ + decimal(macro_id as nat),
        ),
        _ => None,
    }
}

/// Says in which way clicks are set.
pub fn mode_label(state: &SharedState) -> (label: &'static str)
    ensures
        label@ == mode_text(state@),
{
    if state.is_slow_mode() {
        "Mode: SLOW "
    } else {
        "Mode: CPS "
    }
}

/// Names the value that sets the clicks in the chosen mode.
pub fn value_label(state: &SharedState) -> (label: &'static str)
    ensures
        label@ == value_text(state@),
{
    if state.is_slow_mode() {
        "Click Interval (seconds):"
    } else {
        "CPS (Clicks per Second):"
    }
}

/// Says whether the autoclicker is running.
pub fn status_label(running: bool) -> (label: &'static str)
    ensures
        label@ == (if running {
            "Status: RUNNING"@
        } else {
            "Status: STOPPED"@
        }),
{
    if running {
        "Status: RUNNING"
    } else {
        "Status: STOPPED"
    }
}

/// The caption of the button that switches the autoclicker.
pub fn click_button_label(running: bool) -> (label: &'static str)
    ensures
        label@ == (if running {
            "Stop Clicking"@
        } else {
            "Start Clicking"@
        }),
{
    if running {
        "Stop Clicking"
    } else {
        "Start Clicking"
    }
}

/// Says how many macros there are.
pub fn count_label(state: &SharedState) -> (label: String)
    ensures
        label@ == count_text(state@),
{
    let count: u64 = state.macro_count() as u64;
    let total = decimal_string(MAX_MACROS as u64);
    around_number("Active Macros: ", count, "/").concat(total.as_str())
}

/// Whether there is room for one more macro.
pub fn can_add_macro(state: &SharedState) -> (can: bool)
    ensures
        can == (state@.macros.len() < MAX_MACROS),
{
    state.macro_count() < MAX_MACROS
}

/// The caption of the button that adds a macro.
pub fn add_button_label(can_add: bool) -> (label: &'static str)
    ensures
        label@ == (if can_add {
            "Add Macro (+)"@
        } else {
            "Add Macro (+) [disabled]"@
        }),
{
    if !can_add {
        "Add Macro (+) [disabled]"
    } else {
        "Add Macro (+)"
    }
}

/// Says what the master switch is at.
pub fn master_label(state: &SharedState) -> (label: StatusText)
    ensures
        label.text@ == master_text(state@),
        label.on == state@.macros_enabled,
{
    let name = SharedState::vk_to_key_name(state.master_switch_key());
    if state.macros_enabled() {
        StatusText {
            text: join("Master Switch: ON  (press ", name.as_str()).concat(" to disable)"),
            on: true,
        }
    } else {
        StatusText {
            text: join(
                "Master Switch: OFF — armed macros will NOT fire until you press ",
                name.as_str(),
            ),
            on: false,
        }
    }
}

/// Says where a macro stands.
pub fn macro_state_label(m: &Macro) -> (label: String)
    ensures
        label@ == state_text(*m),
{
    match m.state {
        MacroButtonState::Idle => join("State: ", "Idle"),
        MacroButtonState::WaitingKey => join("State: ", "Waiting for key..."),
        MacroButtonState::Running => {
            let total = if m.repeat_count == 0 {
                "∞".to_string()
            } else {
                decimal_string(m.repeat_count as u64)
            };
            let progress = around_number("Running (", m.repetition_count as u64, "/").concat(
                total.as_str(),
            ).concat(")");
            join("State: ", progress.as_str())
        },
    }
}

/// What the window shows of a macro.
pub fn macro_row(m: &Macro) -> (row: MacroRow)
    ensures
        is_row_of(row, *m),
{
    MacroRow {
        id: m.id,
        title: with_number("Macro #", m.id as u64),
        state: macro_state_label(m),
        recorded: match m.recorded_key {
            Some(key) => Some(with_number("Recorded key: VK=", key.vk_code as u64)),
            None => None,
        },
        repeat_interval: m.repeat_interval,
        repeat_count: m.repeat_count,
    }
}

/// What the window shows of the macros, in the order of their numbers.
pub fn macro_rows(state: &SharedState) -> (rows: Vec<MacroRow>)
    ensures
        exists|macros: Seq<Macro>|
            {
                &&& is_snapshot(macros, state@.macros)
                &&& #[trigger] is_sorted_by_id(macros)
                &&& rows@.len() == macros.len()
                &&& forall|i: int|
                    0 <= i < rows@.len() ==> is_row_of(#[trigger] rows@[i], macros[i])
            },
{
    let macros = state.snapshot_sorted();
    let mut rows: Vec<MacroRow> = Vec::new();
    let mut i: usize = 0;
    while i < macros.len()
        invariant
            i <= macros@.len(),
            rows@.len() == i,
            forall|k: int| 0 <= k < i ==> is_row_of(#[trigger] rows@[k], macros@[k]),
        decreases macros@.len() - i,
    {
        rows.push(macro_row(&macros[i]));
        i += 1;
    }
    rows
}

/// Asks for a key while a hotkey is being bound.
pub fn waiting_label(state: &SharedState) -> (label: Option<&'static str>)
    ensures
        match label {
            Some(text) => state@.rebinding_target != REBIND_NOTHING && text@
                == "WAITING FOR KEY PRESS..."@,
            None => state@.rebinding_target == REBIND_NOTHING,
        },
{
    if state.rebinding_target() != REBIND_NOTHING {
        Some("WAITING FOR KEY PRESS...")
    } else {
        None
    }
}

/// Names the hotkey of the autoclicker.
pub fn autoclicker_key_label(state: &SharedState) -> (label: String)
    ensures
        label@ == "Autoclicker Toggle: "@ + key_name(state@.autoclicker_key),
{
    let name = SharedState::vk_to_key_name(state.autoclicker_key());
    join("Autoclicker Toggle: ", name.as_str())
}

/// Names the hotkey of the master switch.
pub fn master_key_label(state: &SharedState) -> (label: String)
    ensures
        label@ == "Macro Master Switch: "@ + key_name(state@.master_switch_key),
{
    let name = SharedState::vk_to_key_name(state.master_switch_key());
    join("Macro Master Switch: ", name.as_str())
}

/// The short form of what the master switch is at.
pub fn on_off_label(on: bool) -> (label: &'static str)
    ensures
        label@ == (if on {
            "(ON)"@
        } else {
            "(OFF)"@
        }),
{
    if on {
        "(ON)"
    } else {
        "(OFF)"
    }
}

/// Says what the failsafe does.
pub fn failsafe_label(on: bool) -> (label: &'static str)
    ensures
        label@ == (if on {
            "✅ Failsafe is ON — Autoclicker and macros will auto-stop when window loses focus."@
        } else {
            "❌ Failsafe is OFF — Autoclicker and macros will continue even when window is unfocused."@
        }),
{
    if on {
        "✅ Failsafe is ON — Autoclicker and macros will auto-stop when window loses focus."
    } else {
        "❌ Failsafe is OFF — Autoclicker and macros will continue even when window is unfocused."
    }
}

/// What a key press in the window is answered with, where it is answered.
pub fn key_feedback(vk: u32, outcome: KeyOutcome) -> (message: Option<String>)
    ensures
        match key_message(vk, outcome) {
            Some(text) => message matches Some(m) && m@ == text,
            None => message is None,
        },
{
    match outcome {
        KeyOutcome::AutoclickerKeySet => {
            let name = SharedState::vk_to_key_name(vk);
            Some(join("Autoclicker key set to ", name.as_str()))
        },
        KeyOutcome::MasterSwitchKeySet => {
            let name = SharedState::vk_to_key_name(vk);
            Some(join("Macro master switch key set to ", name.as_str()))
        },
        KeyOutcome::Recorded { macro_id } => {
            let name = SharedState::vk_to_key_name(vk);
            let number = decimal_string(macro_id as u64);
            Some(
                join("Key ", name.as_str()).concat(" recorded for macro #").concat(
                    number.as_str(),
                ),
            )
        },
        _ => None,
    }
}

} // verus!
