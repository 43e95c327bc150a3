use crate::actions::action::ActionTrait;
use crate::actions::action_type::Action;
use vstd::prelude::*;

verus! {

/// Starts the final appraisal, which holds the progress one short of the
/// target once. It does not count as a step.
pub struct FinalAppraisal;

impl ActionTrait for FinalAppraisal {
    open spec fn spec_id() -> Action {
        Action::FinalAppraisal
    }

    fn id() -> (r: Action) {
        Action::FinalAppraisal
    }
}

} // verus!
