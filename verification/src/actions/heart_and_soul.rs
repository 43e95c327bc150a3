use crate::actions::action::ActionTrait;
use crate::actions::action_type::Action;
use vstd::prelude::*;

verus! {

/// A specialist action that lets one action that needs a good condition be
/// used in any condition. It can be used once and does not count as a step.
pub struct HeartAndSoul;

impl ActionTrait for HeartAndSoul {
    open spec fn spec_id() -> Action {
        Action::HeartAndSoul
    }

    fn id() -> (r: Action) {
        Action::HeartAndSoul
    }
}

} // verus!
