use crate::actions::action::ActionTrait;
use crate::actions::action_type::Action;
use vstd::prelude::*;

verus! {

/// Gives 20 CP back, up to the cap. It needs a good condition.
pub struct TricksOfTheTrade;

impl ActionTrait for TricksOfTheTrade {
    open spec fn spec_id() -> Action {
        Action::TricksOfTheTrade
    }

    fn id() -> (r: Action) {
        Action::TricksOfTheTrade
    }
}

} // verus!
