use vstd::prelude::*;

verus! {

/// What a craft attempt remembers of the actions used so far.
#[derive(Copy, Clone, Debug, PartialEq, Eq, Structural)]
pub struct ActionStates {
    /// 0 when no touch combo is armed, 1 after the first touch of the chain,
    /// 2 after the second.
    pub touch_combo_step: u8,
    /// How often the condition was re-rolled by careful observation: at most 3.
    pub careful_observation_count: u8,
    pub used_heart_and_soul: bool,
    /// Set by an observation and cleared by whatever action follows.
    pub has_observed: bool,
}

impl ActionStates {
    /// Nothing remembered: the memory at the start of a craft.
    pub open spec fn cleared() -> ActionStates {
        ActionStates {
            touch_combo_step: 0,
            careful_observation_count: 0,
            used_heart_and_soul: false,
            has_observed: false,
        }
    }
}

impl Default for ActionStates {
    fn default() -> (r: Self)
        ensures
            r == ActionStates::cleared(),
    {
        ActionStates {
            touch_combo_step: 0,
            careful_observation_count: 0,
            used_heart_and_soul: false,
            has_observed: false,
        }
    }
}

} // verus!
