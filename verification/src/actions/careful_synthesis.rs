use crate::actions::action::ActionTrait;
use crate::actions::action_type::Action;
use vstd::prelude::*;

verus! {

/// A synthesis of efficiency 150, or 180 from level 82 on.
pub struct CarefulSynthesis;

impl ActionTrait for CarefulSynthesis {
    open spec fn spec_id() -> Action {
        Action::CarefulSynthesis
    }

    fn id() -> (r: Action) {
        Action::CarefulSynthesis
    }
}

} // verus!
