use crate::actions::action::ActionTrait;
use crate::actions::action_type::Action;
use vstd::prelude::*;

verus! {

/// A heavy synthesis of efficiency 300, or 360 from level 86 on, which does
/// half as much where the durability does not cover its cost.
pub struct Groundwork;

impl ActionTrait for Groundwork {
    open spec fn spec_id() -> Action {
        Action::Groundwork
    }

    fn id() -> (r: Action) {
        Action::Groundwork
    }
}

} // verus!
