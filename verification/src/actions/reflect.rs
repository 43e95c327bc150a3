use crate::actions::action::ActionTrait;
use crate::actions::action_type::Action;
use vstd::prelude::*;

verus! {

/// A touch of efficiency 100 for the first step only, which adds one more
/// stack of inner quiet.
pub struct Reflect;

impl ActionTrait for Reflect {
    open spec fn spec_id() -> Action {
        Action::Reflect
    }

    fn id() -> (r: Action) {
        Action::Reflect
    }
}

} // verus!
