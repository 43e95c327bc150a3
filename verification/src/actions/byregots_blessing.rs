use crate::actions::action::ActionTrait;
use crate::actions::action_type::Action;
use vstd::prelude::*;

verus! {

/// A touch whose efficiency grows with the inner quiet counter, 100 plus 20
/// for each stack, and which uses the counter up. It needs at least one
/// stack.
pub struct ByregotsBlessing;

impl ActionTrait for ByregotsBlessing {
    open spec fn spec_id() -> Action {
        Action::ByregotsBlessing
    }

    fn id() -> (r: Action) {
        Action::ByregotsBlessing
    }
}

} // verus!
