use crate::actions::action::ActionTrait;
use crate::actions::action_type::Action;
use vstd::prelude::*;

verus! {

/// A synthesis of efficiency 180 at half the durability cost, which cannot
/// be used under a conservation buff.
pub struct PrudentSynthesis;

impl ActionTrait for PrudentSynthesis {
    open spec fn spec_id() -> Action {
        Action::PrudentSynthesis
    }

    fn id() -> (r: Action) {
        Action::PrudentSynthesis
    }
}

} // verus!
