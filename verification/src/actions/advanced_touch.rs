use crate::actions::action::ActionTrait;
use crate::actions::action_type::Action;
use vstd::prelude::*;

verus! {

/// The third touch of the combo: a touch of efficiency 150 that costs 18 CP
/// right after a standard touch that followed a basic touch, and 46
/// otherwise.
pub struct AdvancedTouch;

impl ActionTrait for AdvancedTouch {
    open spec fn spec_id() -> Action {
        Action::AdvancedTouch
    }

    fn id() -> (r: Action) {
        Action::AdvancedTouch
    }
}

} // verus!
