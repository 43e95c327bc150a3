use crate::actions::action::ActionTrait;
use crate::actions::action_type::Action;
use vstd::prelude::*;

verus! {

/// A touch of efficiency 100 that is free of CP and succeeds six times in
/// ten.
pub struct HastyTouch;

impl ActionTrait for HastyTouch {
    open spec fn spec_id() -> Action {
        Action::HastyTouch
    }

    fn id() -> (r: Action) {
        Action::HastyTouch
    }
}

} // verus!
