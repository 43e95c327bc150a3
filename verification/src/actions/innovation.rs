use crate::actions::action::ActionTrait;
use crate::actions::action_type::Action;
use vstd::prelude::*;

verus! {

/// Starts innovation, which adds half to every touch for four steps.
pub struct Innovation;

impl ActionTrait for Innovation {
    open spec fn spec_id() -> Action {
        Action::Innovation
    }

    fn id() -> (r: Action) {
        Action::Innovation
    }
}

} // verus!
