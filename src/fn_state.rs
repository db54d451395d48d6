use vstd::prelude::*;

verus! {

/// Press lifecycle of the Fn key, updated on every observed flag snapshot.
#[derive(Debug, Clone, Copy, PartialEq, Eq, Structural)]
pub struct FnState {
    /// Fn is down as a standalone gesture that can still count as a tap.
    pub is_pressed: bool,
    /// Value of the Fn bit in the previous flag snapshot.
    pub was_pressed_last_frame: bool,
    /// Clock reading, in milliseconds, when the current press started.
    pub press_time: Option<u64>,
    /// Another key went down while Fn was held.
    pub other_keys_pressed: bool,
}

/// The "not pressed" baseline.
pub open spec fn idle_state() -> FnState {
    FnState {
        is_pressed: false,
        was_pressed_last_frame: false,
        press_time: None,
        other_keys_pressed: false,
    }
}

impl Default for FnState {
    fn default() -> (r: Self)
        ensures
            r == idle_state(),
    {
        FnState {
            is_pressed: false,
            was_pressed_last_frame: false,
            press_time: None,
            other_keys_pressed: false,
        }
    }
}

} // verus!
