//! The single-step front of the engine: checks a requested action against the
//! state, rejects it with a reason or applies it.

use crate::actions::Action;
use crate::condition::Condition;
use crate::craft_context::Input;
use crate::craft_state::State;
use crate::simulator::{at_crafter_level, same_policy, spec_at_crafter_level, Simulator};
use vstd::prelude::*;

verus! {

/// How far a craft has come.
#[derive(Copy, Clone, Debug, PartialEq, Eq, Structural)]
pub enum CompletionState {
    Incomplete,
    ProgressComplete,
    NoMoreDurability,
    InvalidAction,
    MaxActionCountReached,
    NoMoreActions,
}

/// What became of a request to use an action.
#[derive(Copy, Clone, Debug, PartialEq, Eq, Structural)]
pub enum ActionResponse {
    UsedAction,
    SynthesisAlreadyComplete,
    ActionNotUnlocked,
    NotEnoughCP,
    NoDurability,
    CannotUseAction,
}

/// How far the craft has come in `state`: complete once the progress has
/// reached its target, else failed once no durability is left, else still
/// going. The quality plays no part.
pub open spec fn spec_completion_state(input: Input, state: State) -> CompletionState {
    if state.progress >= input.progress_target {
        CompletionState::ProgressComplete
    } else if state.durability <= 0 {
        CompletionState::NoMoreDurability
    } else {
        CompletionState::Incomplete
    }
}

/// How far the craft has come in `state`.
pub fn get_completion_state(input: &Input, state: &State) -> (r: CompletionState)
    ensures
        r == spec_completion_state(*input, *state),
        r == CompletionState::NoMoreDurability <==> state.progress < input.progress_target
            && state.durability <= 0,
{
    if state.progress >= input.progress_target {
        CompletionState::ProgressComplete
    } else if state.durability <= 0 {
        CompletionState::NoMoreDurability
    } else {
        CompletionState::Incomplete
    }
}

/// Whether the craft is over, by success or by failure.
pub open spec fn spec_is_complete(input: Input, state: State) -> bool {
    spec_completion_state(input, state) != CompletionState::Incomplete
}

/// Whether the craft is over, by success or by failure.
pub fn is_complete(input: &Input, state: &State) -> (r: bool)
    ensures
        r == spec_is_complete(*input, *state),
{
    get_completion_state(input, state) != CompletionState::Incomplete
}

/// The answer to a request to use `action` in `state`. A craft that is over
/// takes no action. An illegal action is rejected for the first reason that
/// holds: the player lacks the level or the permission for it, the CP do not
/// cover it, or its own rule forbids it.
pub open spec fn spec_response(input: Input, state: State, action: Action) -> ActionResponse {
    if spec_is_complete(input, state) {
        ActionResponse::SynthesisAlreadyComplete
    } else if action.spec_can_use(input, state) {
        ActionResponse::UsedAction
    } else if !spec_at_crafter_level(input, action.spec_level()) || (action
        == Action::Manipulation && !input.can_use_manipulation) {
        ActionResponse::ActionNotUnlocked
    } else if action.spec_cp_cost(state) > state.cp {
        ActionResponse::NotEnoughCP
    } else {
        ActionResponse::CannotUseAction
    }
}

/// Whether using `action` in `before` is accepted and `after` is a state that
/// it can lead to, by outcomes of the rolls that the simulator's policy allows.
pub open spec fn is_step<S: Simulator>(
    sim: S,
    input: Input,
    before: State,
    action: Action,
    after: State,
) -> bool {
    spec_response(input, before, action) == ActionResponse::UsedAction && exists|
        success: bool,
        rolled: Condition,
    | #[trigger]
        action.is_outcome(sim, before, success, rolled) && after == action.spec_use_action(
            input,
            before,
            success,
            rolled,
        )
}

/// Whether the rotation `actions`, used one after the other from `start`, can
/// lead to `end`, each action being accepted in its turn.
pub open spec fn is_rotation<S: Simulator>(
    sim: S,
    input: Input,
    start: State,
    actions: Seq<Action>,
    end: State,
) -> bool
    decreases actions.len(),
{
    if actions.len() == 0 {
        start == end
    } else {
        exists|before: State|
            is_rotation(sim, input, start, actions.drop_last(), before) && #[trigger] is_step(
                sim,
                input,
                before,
                actions.last(),
                end,
            )
    }
}

/// The state that the rotation `actions` leads to from `start`, where `rolls`
/// holds for each action how its success roll and its condition roll came
/// out.
pub open spec fn spec_run(
    input: Input,
    start: State,
    actions: Seq<Action>,
    rolls: Seq<(bool, Condition)>,
) -> State
    decreases actions.len(),
{
    if actions.len() == 0 {
        start
    } else {
        actions.last().spec_use_action(
            input,
            spec_run(input, start, actions.drop_last(), rolls.drop_last()),
            rolls.last().0,
            rolls.last().1,
        )
    }
}

/// Chance enters a craft by the rolls alone. Where a rotation leads is fixed
/// by the craft, the state it starts from, the rotation, and how the rolls
/// came out: two crafts that agree in these agree in every state they pass
/// through, whatever simulators made the rolls.
pub proof fn lemma_rotation_is_fixed_by_rolls<S: Simulator>(
    sim: S,
    input: Input,
    start: State,
    actions: Seq<Action>,
    end: State,
)
    requires
        is_rotation(sim, input, start, actions, end),
    ensures
        exists|rolls: Seq<(bool, Condition)>|
            rolls.len() == actions.len() && end == #[trigger] spec_run(
                input,
                start,
                actions,
                rolls,
            ),
    decreases actions.len(),
{
    if actions.len() == 0 {
        let none = Seq::<(bool, Condition)>::empty();
        assert(end == spec_run(input, start, actions, none));
    } else {
        let before = choose|before: State|
            is_rotation(sim, input, start, actions.drop_last(), before) && #[trigger] is_step(
                sim,
                input,
                before,
                actions.last(),
                end,
            );
        lemma_rotation_is_fixed_by_rolls(sim, input, start, actions.drop_last(), before);
        let earlier = choose|rolls: Seq<(bool, Condition)>|
            rolls.len() == actions.drop_last().len() && before == #[trigger] spec_run(
                input,
                start,
                actions.drop_last(),
                rolls,
            );
        let action = actions.last();
        let (success, rolled) = choose|success: bool, rolled: Condition| #[trigger]
            action.is_outcome(sim, before, success, rolled) && end == action.spec_use_action(
                input,
                before,
                success,
                rolled,
            );
        let rolls = earlier.push((success, rolled));
        assert(rolls.drop_last() =~= earlier);
        assert(end == spec_run(input, start, actions, rolls));
    }
}

/// What a simulator allows in one step, another of the same policy allows too.
pub proof fn lemma_is_step_by_policy<S: Simulator>(
    sim: S,
    other: S,
    input: Input,
    before: State,
    action: Action,
    after: State,
)
    requires
        same_policy(sim, other),
        is_step(sim, input, before, action, after),
    ensures
        is_step(other, input, before, action, after),
{
    let (success, rolled) = choose|success: bool, rolled: Condition| #[trigger]
        action.is_outcome(sim, before, success, rolled) && after == action.spec_use_action(
            input,
            before,
            success,
            rolled,
        );
    assert(action.is_outcome(other, before, success, rolled));
}

/// A rotation that leads somewhere goes on by one accepted step.
pub proof fn lemma_rotation_extends<S: Simulator>(
    sim: S,
    input: Input,
    start: State,
    actions: Seq<Action>,
    before: State,
    action: Action,
    after: State,
)
    requires
        is_rotation(sim, input, start, actions, before),
        is_step(sim, input, before, action, after),
    ensures
        is_rotation(sim, input, start, actions.push(action), after),
{
    assert(actions.push(action).drop_last() =~= actions);
    assert(actions.push(action).last() == action);
}

/// A step is accepted only while the craft is going and the action is legal,
/// and it is counted: the action counter goes up by one unless it is full.
pub proof fn lemma_step_is_counted<S: Simulator>(
    sim: S,
    input: Input,
    before: State,
    action: Action,
    after: State,
)
    requires
        is_step(sim, input, before, action, after),
    ensures
        !spec_is_complete(input, before),
        action.spec_can_use(input, before),
        before.action < u8::MAX ==> after.action == before.action + 1,
{
    let (success, rolled) = choose|success: bool, rolled: Condition| #[trigger]
        action.is_outcome(sim, before, success, rolled) && after == action.spec_use_action(
            input,
            before,
            success,
            rolled,
        );
    action.lemma_use_success_frame(input, before, rolled);
}

/// A craft that starts within its caps stays within them, whatever rotation
/// is used and however the rolls come out: durability and CP never exceed
/// their caps, and the inner quiet counter never exceeds ten.
pub proof fn lemma_rotation_stays_within_caps<S: Simulator>(
    sim: S,
    input: Input,
    start: State,
    actions: Seq<Action>,
    end: State,
)
    requires
        start.within_caps(input),
        is_rotation(sim, input, start, actions, end),
    ensures
        end.within_caps(input),
    decreases actions.len(),
{
    if actions.len() > 0 {
        let before = choose|before: State|
            is_rotation(sim, input, start, actions.drop_last(), before) && #[trigger] is_step(
                sim,
                input,
                before,
                actions.last(),
                end,
            );
        lemma_rotation_stays_within_caps(sim, input, start, actions.drop_last(), before);
        let action = actions.last();
        let (success, rolled) = choose|success: bool, rolled: Condition| #[trigger]
            action.is_outcome(sim, before, success, rolled) && end == action.spec_use_action(
                input,
                before,
                success,
                rolled,
            );
        action.lemma_stays_within_caps(input, before, success, rolled);
    }
}

/// Uses `action` on `state` if the craft is still going and the action is
/// legal, with the rolls of `sim`; otherwise says why not and changes nothing.
pub fn execute_with<S: Simulator>(
    sim: &mut S,
    input: &Input,
    state: &mut State,
    action: Action,
) -> (r: ActionResponse)
    ensures
        r == spec_response(*input, *old(state), action),
        same_policy(*final(sim), *old(sim)),
        r != ActionResponse::UsedAction ==> *final(state) == *old(state),
        r != ActionResponse::UsedAction ==> *final(sim) == *old(sim),
        r == ActionResponse::UsedAction ==> is_step(
            *old(sim),
            *input,
            *old(state),
            action,
            *final(state),
        ),
{
    if is_complete(input, state) {
        return ActionResponse::SynthesisAlreadyComplete;
    }
    if !action.can_use(input, state) {
        if !at_crafter_level(input, action.level()) || (action == Action::Manipulation
            && !input.can_use_manipulation) {
            ActionResponse::ActionNotUnlocked
        } else if action.cp_cost(state) > state.cp {
            ActionResponse::NotEnoughCP
        } else {
            ActionResponse::CannotUseAction
        }
    } else {
        action.use_action(sim, input, state);
        ActionResponse::UsedAction
    }
}

/// Steps through `actions` from `state` and stops at the first that is not
/// accepted, which leaves the state as the actions before it made it. Returns
/// nothing if every action was used, and else the place of the action that
/// was not and the answer to it.
pub fn execute_rotation<S: Simulator>(
    sim: &mut S,
    input: &Input,
    state: &mut State,
    actions: &[Action],
) -> (r: Option<(usize, ActionResponse)>)
    ensures
        same_policy(*final(sim), *old(sim)),
        match r {
            None => is_rotation(*old(sim), *input, *old(state), actions@, *final(state)),
            Some((at, response)) => {
                &&& at < actions@.len()
                &&& is_rotation(
                    *old(sim),
                    *input,
                    *old(state),
                    actions@.take(at as int),
                    *final(state),
                )
                &&& response == spec_response(*input, *final(state), actions@[at as int])
                &&& response != ActionResponse::UsedAction
            },
        },
{
    let ghost policy = *sim;
    let ghost start = *state;
    let mut i: usize = 0;
    while i < actions.len()
        invariant
            policy == *old(sim),
            start == *old(state),
            i <= actions@.len(),
            same_policy(*sim, policy),
            is_rotation(policy, *input, start, actions@.take(i as int), *state),
        decreases actions.len() - i,
    {
        let ghost before = *state;
        let ghost rolling = *sim;
        let response = execute_with(sim, input, state, actions[i]);
        if response != ActionResponse::UsedAction {
            return Some((i, response));
        }
        proof {
            lemma_is_step_by_policy(rolling, policy, *input, before, actions@[i as int], *state);
            lemma_rotation_extends(
                policy,
                *input,
                start,
                actions@.take(i as int),
                before,
                actions@[i as int],
                *state,
            );
            assert(actions@.take(i + 1) =~= actions@.take(i as int).push(actions@[i as int]));
        }
        i += 1;
    }
    proof {
        assert(actions@.take(i as int) =~= actions@);
    }
    None
}

/// A simulator that steps through a craft.
pub trait Executor: Simulator {
    /// Whether the craft is over, by success or by failure.
    fn is_complete(&self, input: &Input, state: &State) -> (r: bool)
        ensures
            r == spec_is_complete(*input, *state),
    {
        is_complete(input, state)
    }

    /// How far the craft has come in `state`.
    fn get_completion_state(&self, input: &Input, state: &State) -> (r: CompletionState)
        ensures
            r == spec_completion_state(*input, *state),
    {
        get_completion_state(input, state)
    }

    /// Uses `action` on `state` if the craft is still going and the action is
    /// legal; otherwise says why not and changes nothing.
    fn execute(&mut self, input: &Input, state: &mut State, action: Action) -> (r: ActionResponse)
        ensures
            r == spec_response(*input, *old(state), action),
            same_policy(*final(self), *old(self)),
            r != ActionResponse::UsedAction ==> *final(state) == *old(state),
            r != ActionResponse::UsedAction ==> *final(self) == *old(self),
            r == ActionResponse::UsedAction ==> is_step(
                *old(self),
                *input,
                *old(state),
                action,
                *final(state),
            ),
    {
        execute_with(self, input, state, action)
    }
}

/// A craft that has failed for want of durability stays failed: every further
/// request is turned away, so the progress cannot reach its target later.
pub proof fn lemma_failure_is_final(input: Input, state: State, action: Action)
    requires
        state.progress < input.progress_target,
        state.durability <= 0,
    ensures
        spec_completion_state(input, state) == CompletionState::NoMoreDurability,
        spec_response(input, state, action) == ActionResponse::SynthesisAlreadyComplete,
{
}

} // verus!
