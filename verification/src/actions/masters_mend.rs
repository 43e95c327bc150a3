use crate::actions::action::ActionTrait;
use crate::actions::action_type::Action;
use vstd::prelude::*;

verus! {

/// Gives 30 durability back, up to the cap.
pub struct MastersMend;

impl ActionTrait for MastersMend {
    open spec fn spec_id() -> Action {
        Action::MastersMend
    }

    fn id() -> (r: Action) {
        Action::MastersMend
    }
}

} // verus!
