use crate::actions::action::ActionTrait;
use crate::actions::action_type::Action;
use vstd::prelude::*;

verus! {

/// The second touch of the combo: a touch of efficiency 125 that costs 18
/// CP right after a basic touch, and 32 otherwise.
pub struct StandardTouch;

impl ActionTrait for StandardTouch {
    open spec fn spec_id() -> Action {
        Action::StandardTouch
    }

    fn id() -> (r: Action) {
        Action::StandardTouch
    }
}

} // verus!
