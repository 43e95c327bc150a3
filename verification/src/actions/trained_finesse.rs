use crate::actions::action::ActionTrait;
use crate::actions::action_type::Action;
use vstd::prelude::*;

verus! {

/// A touch of efficiency 100 that costs no durability and needs the full
/// inner quiet.
pub struct TrainedFinesse;

impl ActionTrait for TrainedFinesse {
    open spec fn spec_id() -> Action {
        Action::TrainedFinesse
    }

    fn id() -> (r: Action) {
        Action::TrainedFinesse
    }
}

} // verus!
