//! Enumerations of the iTunes COM interface

use vstd::prelude::*;

use super::LONG;

verus! {

/// The state of the play/pause/stop button of the player
#[derive(Debug, Clone, Copy, PartialEq, Eq, Structural)]
pub enum ITPlayButtonState {
    /// The button shows "play" and is disabled.
    ITPlayButtonStatePlayDisabled,
    /// The button shows "play" and is enabled.
    ITPlayButtonStatePlayEnabled,
    /// The button shows "pause" and is enabled.
    ITPlayButtonStatePauseEnabled,
    /// The button shows "pause" and is disabled.
    ITPlayButtonStatePauseDisabled,
    /// The button shows "stop" and is enabled.
    ITPlayButtonStateStopEnabled,
    /// The button shows "stop" and is disabled.
    ITPlayButtonStateStopDisabled,
}

impl ITPlayButtonState {
    /// The number that the host sends for this state.
    pub open spec fn raw(self) -> int {
        match self {
            ITPlayButtonState::ITPlayButtonStatePlayDisabled => 0,
            ITPlayButtonState::ITPlayButtonStatePlayEnabled => 1,
            ITPlayButtonState::ITPlayButtonStatePauseEnabled => 2,
            ITPlayButtonState::ITPlayButtonStatePauseDisabled => 3,
            ITPlayButtonState::ITPlayButtonStateStopEnabled => 4,
            ITPlayButtonState::ITPlayButtonStateStopDisabled => 5,
        }
    }

    /// The state that the host means by `value`, if it is one of the six it defines.
    pub fn from_i32(value: LONG) -> (state: Option<Self>)
        ensures
            0 <= value <= 5 ==> state.is_some() && state.unwrap().raw() == value,
            !(0 <= value <= 5) ==> state.is_none(),
    {
        if value == 0 {
            Some(ITPlayButtonState::ITPlayButtonStatePlayDisabled)
        } else if value == 1 {
            Some(ITPlayButtonState::ITPlayButtonStatePlayEnabled)
        } else if value == 2 {
            Some(ITPlayButtonState::ITPlayButtonStatePauseEnabled)
        } else if value == 3 {
            Some(ITPlayButtonState::ITPlayButtonStatePauseDisabled)
        } else if value == 4 {
            Some(ITPlayButtonState::ITPlayButtonStateStopEnabled)
        } else if value == 5 {
            Some(ITPlayButtonState::ITPlayButtonStateStopDisabled)
        } else {
            None
        }
    }

    /// The number that the host sends for this state.
    pub fn to_i32(&self) -> (value: LONG)
        ensures
            value == self.raw(),
    {
        match self {
            ITPlayButtonState::ITPlayButtonStatePlayDisabled => 0,
            ITPlayButtonState::ITPlayButtonStatePlayEnabled => 1,
            ITPlayButtonState::ITPlayButtonStatePauseEnabled => 2,
            ITPlayButtonState::ITPlayButtonStatePauseDisabled => 3,
            ITPlayButtonState::ITPlayButtonStateStopEnabled => 4,
            ITPlayButtonState::ITPlayButtonStateStopDisabled => 5,
        }
    }
}

/// Every state has one number, and no two states share it.
pub proof fn lemma_play_button_state_raw_is_injective(a: ITPlayButtonState, b: ITPlayButtonState)
    ensures
        0 <= a.raw() <= 5,
        a.raw() == b.raw() ==> a == b,
{
}

} // verus!
