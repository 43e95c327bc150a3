use crate::actions::action::ActionTrait;
use crate::actions::action_type::Action;
use vstd::prelude::*;

verus! {

/// Starts great strides, which doubles the next touch within three steps.
pub struct GreatStrides;

impl ActionTrait for GreatStrides {
    open spec fn spec_id() -> Action {
        Action::GreatStrides
    }

    fn id() -> (r: Action) {
        Action::GreatStrides
    }
}

} // verus!
