use crate::actions::action::ActionTrait;
use crate::actions::action_type::Action;
use vstd::prelude::*;

verus! {

/// Does nothing but pass a step, after which the focused actions are
/// certain to succeed.
pub struct Observe;

impl ActionTrait for Observe {
    open spec fn spec_id() -> Action {
        Action::Observe
    }

    fn id() -> (r: Action) {
        Action::Observe
    }
}

} // verus!
