use crate::actions::action::ActionTrait;
use crate::actions::action_type::Action;
use vstd::prelude::*;

verus! {

/// A heavy touch of efficiency 200 that adds one more stack of inner quiet.
pub struct PreparatoryTouch;

impl ActionTrait for PreparatoryTouch {
    open spec fn spec_id() -> Action {
        Action::PreparatoryTouch
    }

    fn id() -> (r: Action) {
        Action::PreparatoryTouch
    }
}

} // verus!
