use crate::actions::action::ActionTrait;
use crate::actions::action_type::Action;
use vstd::prelude::*;

verus! {

/// The first touch of the combo: a touch of efficiency 100 that arms the
/// discount of the standard touch.
pub struct BasicTouch;

impl ActionTrait for BasicTouch {
    open spec fn spec_id() -> Action {
        Action::BasicTouch
    }

    fn id() -> (r: Action) {
        Action::BasicTouch
    }
}

} // verus!
