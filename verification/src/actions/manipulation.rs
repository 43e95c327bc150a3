use crate::actions::action::ActionTrait;
use crate::actions::action_type::Action;
use vstd::prelude::*;

verus! {

/// Starts manipulation, which mends 5 durability after each action for
/// eight steps. It needs a permission of its own, and does not mend on its
/// own use.
pub struct Manipulation;

impl ActionTrait for Manipulation {
    open spec fn spec_id() -> Action {
        Action::Manipulation
    }

    fn id() -> (r: Action) {
        Action::Manipulation
    }
}

} // verus!
