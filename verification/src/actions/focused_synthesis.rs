use crate::actions::action::ActionTrait;
use crate::actions::action_type::Action;
use vstd::prelude::*;

verus! {

/// A synthesis of efficiency 200 that succeeds half of the time, and always
/// right after an observation.
pub struct FocusedSynthesis;

impl ActionTrait for FocusedSynthesis {
    open spec fn spec_id() -> Action {
        Action::FocusedSynthesis
    }

    fn id() -> (r: Action) {
        Action::FocusedSynthesis
    }
}

} // verus!
