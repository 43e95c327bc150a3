use crate::actions::action::ActionTrait;
use crate::actions::action_type::Action;
use vstd::prelude::*;

verus! {

/// Starts the shorter conservation buff, which halves durability costs for
/// four steps.
pub struct WasteNot;

impl ActionTrait for WasteNot {
    open spec fn spec_id() -> Action {
        Action::WasteNot
    }

    fn id() -> (r: Action) {
        Action::WasteNot
    }
}

} // verus!
