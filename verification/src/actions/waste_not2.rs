use crate::actions::action::ActionTrait;
use crate::actions::action_type::Action;
use vstd::prelude::*;

verus! {

/// Starts the longer conservation buff, which halves durability costs for
/// eight steps.
pub struct WasteNot2;

impl ActionTrait for WasteNot2 {
    open spec fn spec_id() -> Action {
        Action::WasteNot2
    }

    fn id() -> (r: Action) {
        Action::WasteNot2
    }
}

} // verus!
