use crate::actions::action::ActionTrait;
use crate::actions::action_type::Action;
use vstd::prelude::*;

verus! {

/// The plain synthesis: free of CP, of efficiency 100, or 120 from level 31
/// on.
pub struct BasicSynthesis;

impl ActionTrait for BasicSynthesis {
    open spec fn spec_id() -> Action {
        Action::BasicSynthesis
    }

    fn id() -> (r: Action) {
        Action::BasicSynthesis
    }
}

} // verus!
