use crate::actions::action::ActionTrait;
use crate::actions::action_type::Action;
use vstd::prelude::*;

verus! {

/// A touch of efficiency 150 that needs a good condition and adds one more
/// stack of inner quiet.
pub struct PreciseTouch;

impl ActionTrait for PreciseTouch {
    open spec fn spec_id() -> Action {
        Action::PreciseTouch
    }

    fn id() -> (r: Action) {
        Action::PreciseTouch
    }
}

} // verus!
