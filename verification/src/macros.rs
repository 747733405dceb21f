//! One key macro and its life cycle.
use vstd::prelude::*;

verus! {

/// The bit pattern of the single-precision number 0.1: ten presses per second.
pub const DEFAULT_REPEAT_INTERVAL: u32 = 0x3DCC_CCCD;

/// The bit pattern of the single-precision number 0.001: a millisecond, the shortest interval at
/// which a macro presses its key.
pub const MIN_REPEAT_INTERVAL: u32 = 0x3A83_126F;

/// The bit pattern behind those of all positive single-precision numbers. Patterns above it stand
/// for negative numbers and for what is no number.
pub const INFINITE_INTERVAL: u32 = 0x7F80_0000;

/// The key that a macro presses.
#[derive(Debug, Clone, Copy, PartialEq, Eq, Structural)]
pub struct MacroKeyPress {
    pub vk_code: u32,
}

/// Where a macro stands in its life cycle.
#[derive(Debug, Clone, Copy, PartialEq, Eq, Structural)]
pub enum MacroButtonState {
    /// Nothing recorded, nothing to press.
    Idle,
    /// The next key press in the window becomes the macro's key.
    WaitingKey,
    /// A key is recorded; it is pressed while the master switch is on.
    Running,
}

/// A key macro.
#[derive(Debug, Clone, Copy)]
pub struct Macro {
    pub id: u32,
    /// Seconds between two key presses, as the bit pattern of a single-precision number.
    pub repeat_interval: u32,
    /// How many presses to make; zero means no limit.
    pub repeat_count: u32,
    /// How many presses were made since the macro was last started.
    pub repetition_count: u32,
    pub state: MacroButtonState,
    pub recorded_key: Option<MacroKeyPress>,
}

/// What the Start/Stop button of a macro did.
#[derive(Debug, Clone, Copy, PartialEq, Eq, Structural)]
pub enum StartStop {
    /// The macro now waits for its key.
    Started,
    /// The macro is idle again.
    Stopped,
}

/// A macro with the given number that was never started.
pub open spec fn fresh_macro(id: u32) -> Macro {
    Macro {
        id,
        repeat_interval: DEFAULT_REPEAT_INTERVAL,
        repeat_count: 0,
        repetition_count: 0,
        state: MacroButtonState::Idle,
        recorded_key: None,
    }
}

/// The interval at which a macro presses its key that is set to `bits`: that interval, but at least
/// a millisecond. The bit patterns of positive single-precision numbers are ordered as the numbers.
pub open spec fn press_interval(bits: u32) -> u32 {
    if MIN_REPEAT_INTERVAL < bits <= INFINITE_INTERVAL {
        bits
    } else {
        MIN_REPEAT_INTERVAL
    }
}

impl Macro {
    /// A macro holds a key exactly while it runs.
    pub open spec fn consistent(self) -> bool {
        self.recorded_key is Some <==> self.state == MacroButtonState::Running
    }

    /// The macro after its Start/Stop button was clicked.
    pub open spec fn toggled(self) -> Macro {
        match self.state {
            MacroButtonState::Idle => Macro {
                state: MacroButtonState::WaitingKey,
                repetition_count: 0,
                ..self
            },
            _ => Macro {
                state: MacroButtonState::Idle,
                recorded_key: None,
                repetition_count: 0,
                ..self
            },
        }
    }

    /// The macro after `vk` was recorded as its key.
    pub open spec fn armed(self, vk: u32) -> Macro {
        Macro {
            recorded_key: Some(MacroKeyPress { vk_code: vk }),
            state: MacroButtonState::Running,
            ..self
        }
    }

    /// The macro after one more press; the count stays at its maximum once it got there.
    pub open spec fn pressed(self) -> Macro {
        Macro {
            repetition_count: if self.repetition_count < u32::MAX {
                (self.repetition_count + 1) as u32
            } else {
                u32::MAX
            },
            ..self
        }
    }

    /// Whether the macro has a limit and reached it.
    pub open spec fn exhausted(self) -> bool {
        self.repeat_count > 0 && self.repetition_count >= self.repeat_count
    }

    /// Clicks the Start/Stop button of this macro.
    pub fn click_start_stop(&mut self) -> (did: StartStop)
        ensures
            *final(self) == old(self).toggled(),
            did == (if old(self).state == MacroButtonState::Idle {
                StartStop::Started
            } else {
                StartStop::Stopped
            }),
    {
        match self.state {
            MacroButtonState::Idle => {
                self.state = MacroButtonState::WaitingKey;
                self.repetition_count = 0;
                StartStop::Started
            },
            MacroButtonState::WaitingKey | MacroButtonState::Running => {
                self.state = MacroButtonState::Idle;
                self.recorded_key = None;
                self.repetition_count = 0;
                StartStop::Stopped
            },
        }
    }

    /// Takes `vk` as the macro's key if it waits for one, and says whether it did.
    pub fn record_key(&mut self, vk: u32) -> (recorded: bool)
        ensures
            recorded == (old(self).state == MacroButtonState::WaitingKey),
            *final(self) == (if recorded {
                old(self).armed(vk)
            } else {
                *old(self)
            }),
    {
        if self.state == MacroButtonState::WaitingKey {
            self.recorded_key = Some(MacroKeyPress { vk_code: vk });
            self.state = MacroButtonState::Running;
            true
        } else {
            false
        }
    }

    /// Counts one key press.
    pub fn count_press(&mut self)
        ensures
            *final(self) == old(self).pressed(),
    {
        self.repetition_count = self.repetition_count.saturating_add(1);
    }

    /// The interval at which the macro presses its key, as the bit pattern of a single-precision
    /// number: the interval that was set, but at least a millisecond.
    pub fn press_interval(&self) -> (bits: u32)
        ensures
            bits == press_interval(self.repeat_interval),
    {
        if MIN_REPEAT_INTERVAL < self.repeat_interval && self.repeat_interval <= INFINITE_INTERVAL {
            self.repeat_interval
        } else {
            MIN_REPEAT_INTERVAL
        }
    }

    /// Whether the macro made all the presses it was asked for.
    pub fn is_limited(&self) -> (limited: bool)
        ensures
            limited == self.exhausted(),
    {
        self.repeat_count > 0 && self.repetition_count >= self.repeat_count
    }
}

impl Default for Macro {
    fn default() -> (m: Self)
        ensures
            m == fresh_macro(0),
    {
        Macro {
            id: 0,
            repeat_interval: DEFAULT_REPEAT_INTERVAL,
            repeat_count: 0,
            repetition_count: 0,
            state: MacroButtonState::Idle,
            recorded_key: None,
        }
    }
}

} // verus!
