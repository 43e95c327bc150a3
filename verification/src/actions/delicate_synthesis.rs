use crate::actions::action::ActionTrait;
use crate::actions::action_type::Action;
use vstd::prelude::*;

verus! {

/// A synthesis and a touch at once, each of efficiency 100.
pub struct DelicateSynthesis;

impl ActionTrait for DelicateSynthesis {
    open spec fn spec_id() -> Action {
        Action::DelicateSynthesis
    }

    fn id() -> (r: Action) {
        Action::DelicateSynthesis
    }
}

} // verus!
