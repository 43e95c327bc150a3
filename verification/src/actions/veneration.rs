use crate::actions::action::ActionTrait;
use crate::actions::action_type::Action;
use vstd::prelude::*;

verus! {

/// Starts veneration, which adds half to every synthesis for four steps.
pub struct Veneration;

impl ActionTrait for Veneration {
    open spec fn spec_id() -> Action {
        Action::Veneration
    }

    fn id() -> (r: Action) {
        Action::Veneration
    }
}

} // verus!
