use crate::actions::action::ActionTrait;
use crate::actions::action_type::Action;
use vstd::prelude::*;

verus! {

/// A specialist action that re-rolls the condition without counting as a
/// step, at most three times in a craft.
pub struct CarefulObservation;

impl ActionTrait for CarefulObservation {
    open spec fn spec_id() -> Action {
        Action::CarefulObservation
    }

    fn id() -> (r: Action) {
        Action::CarefulObservation
    }
}

} // verus!
