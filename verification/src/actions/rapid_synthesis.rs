use crate::actions::action::ActionTrait;
use crate::actions::action_type::Action;
use vstd::prelude::*;

verus! {

/// A synthesis that is free of CP and succeeds half of the time, of
/// efficiency 250, or 500 from level 63 on.
pub struct RapidSynthesis;

impl ActionTrait for RapidSynthesis {
    open spec fn spec_id() -> Action {
        Action::RapidSynthesis
    }

    fn id() -> (r: Action) {
        Action::RapidSynthesis
    }
}

} // verus!
