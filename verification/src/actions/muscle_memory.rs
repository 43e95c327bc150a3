use crate::actions::action::ActionTrait;
use crate::actions::action_type::Action;
use vstd::prelude::*;

verus! {

/// A synthesis of efficiency 300 for the first step only, which starts
/// muscle memory: the next synthesis within five steps counts double.
pub struct MuscleMemory;

impl ActionTrait for MuscleMemory {
    open spec fn spec_id() -> Action {
        Action::MuscleMemory
    }

    fn id() -> (r: Action) {
        Action::MuscleMemory
    }
}

} // verus!
