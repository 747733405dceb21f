//! The input events that a click and a key press consist of.
use vstd::prelude::*;

verus! {

/// One event to hand to the system's input queue.
#[derive(Debug, Clone, Copy, PartialEq, Eq, Structural)]
pub enum InputEvent {
    LeftButtonDown,
    LeftButtonUp,
    KeyDown(u16),
    KeyUp(u16),
}

/// A left mouse click: the button goes down, then up.
pub open spec fn click() -> Seq<InputEvent> {
    seq![InputEvent::LeftButtonDown, InputEvent::LeftButtonUp]
}

/// A key press: the key goes down, then up.
pub open spec fn key_press(vk: u16) -> Seq<InputEvent> {
    seq![InputEvent::KeyDown(vk), InputEvent::KeyUp(vk)]
}

/// The events of a left mouse click.
pub fn click_events() -> (events: Vec<InputEvent>)
    ensures
        events@ == click(),
{
    let mut events: Vec<InputEvent> = Vec::new();
    events.push(InputEvent::LeftButtonDown);
    events.push(InputEvent::LeftButtonUp);
    assert(events@ =~= click());
    events
}

/// The events of a press of the key with this virtual-key code, of which the system takes the
/// lower sixteen bits.
pub fn key_press_events(vk_code: u32) -> (events: Vec<InputEvent>)
    ensures
        events@ == key_press((vk_code % 0x1_0000) as u16),
{
    let vk: u16 = (vk_code % 0x1_0000) as u16;
    let mut events: Vec<InputEvent> = Vec::new();
    events.push(InputEvent::KeyDown(vk));
    events.push(InputEvent::KeyUp(vk));
    assert(events@ =~= key_press(vk));
    events
}

/// Whether the system took a whole click or key press, given how many events it took.
pub fn both_events_sent(sent: u32) -> (both: bool)
    ensures
        both == (sent == click().len()),
{
    sent == 2
}

/// A click and a key press consist of equally many events.
pub proof fn law_click_and_key_press_have_two_events(vk: u16)
    ensures
        click().len() == 2,
        key_press(vk).len() == 2,
{
}

} // verus!
