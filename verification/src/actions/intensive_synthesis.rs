use crate::actions::action::ActionTrait;
use crate::actions::action_type::Action;
use vstd::prelude::*;

verus! {

/// A synthesis of efficiency 400 that needs a good condition.
pub struct IntensiveSynthesis;

impl ActionTrait for IntensiveSynthesis {
    open spec fn spec_id() -> Action {
        Action::IntensiveSynthesis
    }

    fn id() -> (r: Action) {
        Action::IntensiveSynthesis
    }
}

} // verus!
