use crate::actions::action::ActionTrait;
use crate::actions::action_type::Action;
use vstd::prelude::*;

verus! {

/// A touch of efficiency 150 that succeeds half of the time, and always
/// right after an observation.
pub struct FocusedTouch;

impl ActionTrait for FocusedTouch {
    open spec fn spec_id() -> Action {
        Action::FocusedTouch
    }

    fn id() -> (r: Action) {
        Action::FocusedTouch
    }
}

} // verus!
