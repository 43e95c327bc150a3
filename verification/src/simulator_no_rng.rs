//! The simulator without chance: an action succeeds only where it is certain
//! to, and a re-rolled condition is always normal.

use crate::actions::Action;
use crate::condition::Condition;
use crate::craft_context::Input;
use crate::craft_state::State;
use crate::executor::{execute_with, is_rotation, is_step, ActionResponse, Executor};
use crate::simulator::{spec_success_rate, Simulator};
use vstd::prelude::*;

verus! {

/// The simulator without chance.
#[derive(Copy, Clone, Debug)]
pub struct NoRngSimulator {}

/// Whether the action succeeds in the state when nothing is left to chance:
/// its rate, with the condition counted in, is 100 percent.
pub open spec fn is_certain(action: Action, state: State) -> bool {
    spec_success_rate(state, action.spec_success_rate(state)) == 100
}

/// The state after the action was used without chance.
pub open spec fn spec_use_action_no_rng(action: Action, input: Input, state: State) -> State {
    action.spec_use_action(input, state, is_certain(action, state), Condition::Normal)
}

impl Simulator for NoRngSimulator {
    open spec fn may_succeed(&self, success_rate: u8, success: bool) -> bool {
        success == (success_rate == 100)
    }

    open spec fn may_roll(&self, condition: Condition) -> bool {
        condition == Condition::Normal
    }

    fn roll_condition(&mut self) -> (condition: Condition) {
        Condition::Normal
    }

    fn roll_success_raw(&mut self, success_rate: u8) -> (success: bool) {
        success_rate == 100
    }
}

/// Without chance, the outcome of the rolls is fixed wherever it matters: all
/// outcomes that the policy allows lead to the same state.
pub proof fn lemma_no_rng_outcome(
    sim: NoRngSimulator,
    action: Action,
    input: Input,
    state: State,
    success: bool,
    rolled: Condition,
)
    requires
        action.is_outcome(sim, state, success, rolled),
    ensures
        action.spec_use_action(input, state, success, rolled) == spec_use_action_no_rng(
            action,
            input,
            state,
        ),
{
    action.lemma_use_success_frame(input, state, rolled);
    action.lemma_use_success_frame(input, state, Condition::Normal);
}

/// Without chance, a step from a state leads to one state only.
pub proof fn lemma_no_rng_step(
    sim: NoRngSimulator,
    action: Action,
    input: Input,
    before: State,
    after: State,
)
    requires
        is_step(sim, input, before, action, after),
    ensures
        after == spec_use_action_no_rng(action, input, before),
{
    let (success, rolled) = choose|success: bool, rolled: Condition| #[trigger]
        action.is_outcome(sim, before, success, rolled) && after == action.spec_use_action(
            input,
            before,
            success,
            rolled,
        );
    lemma_no_rng_outcome(sim, action, input, before, success, rolled);
}

/// Without chance, a rotation from a state leads to one state only: whoever
/// steps through it twice ends in the same state.
pub proof fn lemma_no_rng_rotation(
    sim: NoRngSimulator,
    input: Input,
    start: State,
    actions: Seq<Action>,
    end: State,
    other: State,
)
    requires
        is_rotation(sim, input, start, actions, end),
        is_rotation(sim, input, start, actions, other),
    ensures
        end == other,
    decreases actions.len(),
{
    if actions.len() > 0 {
        let before = choose|before: State|
            is_rotation(sim, input, start, actions.drop_last(), before) && #[trigger] is_step(
                sim,
                input,
                before,
                actions.last(),
                end,
            );
        let other_before = choose|before: State|
            is_rotation(sim, input, start, actions.drop_last(), before) && #[trigger] is_step(
                sim,
                input,
                before,
                actions.last(),
                other,
            );
        lemma_no_rng_rotation(sim, input, start, actions.drop_last(), before, other_before);
        lemma_no_rng_step(sim, actions.last(), input, before, end);
        lemma_no_rng_step(sim, actions.last(), input, before, other);
    }
}

impl Executor for NoRngSimulator {
    /// Uses `action` on `state` if the craft is still going and the action is
    /// legal. Nothing is left to chance, so the state afterwards is a function
    /// of the arguments.
    fn execute(&mut self, input: &Input, state: &mut State, action: Action) -> (r: ActionResponse)
        ensures
            r == ActionResponse::UsedAction ==> *final(state) == spec_use_action_no_rng(
                action,
                *input,
                *old(state),
            ),
    {
        let ghost before = *state;
        let ghost sim = *self;
        let r = execute_with(self, input, state, action);
        proof {
            if r == ActionResponse::UsedAction {
                lemma_no_rng_step(sim, action, *input, before, *state);
            }
        }
        r
    }
}

impl NoRngSimulator {
    /// The simulator without chance.
    pub fn new() -> (r: Self) {
        NoRngSimulator {  }
    }
}

} // verus!
