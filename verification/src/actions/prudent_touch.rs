use crate::actions::action::ActionTrait;
use crate::actions::action_type::Action;
use vstd::prelude::*;

verus! {

/// A touch of efficiency 100 at half the durability cost, which cannot be
/// used under a conservation buff.
pub struct PrudentTouch;

impl ActionTrait for PrudentTouch {
    open spec fn spec_id() -> Action {
        Action::PrudentTouch
    }

    fn id() -> (r: Action) {
        Action::PrudentTouch
    }
}

} // verus!
