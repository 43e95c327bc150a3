use crate::actions::action::ActionTrait;
use crate::actions::action_type::Action;
use vstd::prelude::*;

verus! {

/// Brings the quality to its target at once. It can only open a craft, on a
/// recipe that is not an expert one and lies at least ten levels below the
/// player.
pub struct TrainedEye;

impl ActionTrait for TrainedEye {
    open spec fn spec_id() -> Action {
        Action::TrainedEye
    }

    fn id() -> (r: Action) {
        Action::TrainedEye
    }
}

} // verus!
