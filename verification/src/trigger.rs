//! The trigger bridge: what the callback bound to the active hotkey does with
//! a key event from the platform.
use vstd::prelude::*;

verus! {

/// The state of the hotkey that a key event reports.
#[derive(Clone, Copy, Debug, PartialEq, Eq, Structural)]
pub enum KeyState {
    /// The key combination went down.
    Pressed,
    /// The key combination was let go.
    Released,
}

/// The name of the application event that a press of the hotkey raises. It
/// carries no payload.
pub open spec fn trigger_event() -> Seq<char> {
    "trigger-screenshot"@
}

/// The event to emit for a key event in `state`: the trigger event, once, on
/// a press, and nothing on anything else.
pub fn on_key_event(state: KeyState) -> (emit: Option<&'static str>)
    ensures
        match state {
            KeyState::Pressed => emit matches Some(name) && name@ == trigger_event(),
            KeyState::Released => emit is None,
        },
{
    match state {
        KeyState::Pressed => Some("trigger-screenshot"),
        KeyState::Released => None,
    }
}

} // verus!
