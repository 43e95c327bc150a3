//! What each action of the catalog demands of a state and does to it.

use crate::action_states::ActionStates;
use crate::actions::action_type::Action;
use crate::condition::Condition;
use crate::craft_context::Input;
use crate::craft_state::{Effects, State};
use crate::simulator::{
    at_crafter_level, bump, consume_good_condition, increase_progress, increase_quality,
    increase_quality_raw, is_first_step, is_in_good_condition, reduce_cp, reduce_durability,
    rerolls, restore_cp, restore_durability, roll_success, same_policy, saturate,
    spec_at_crafter_level, spec_consume_good_condition, spec_cp_cost, spec_increase_progress,
    spec_increase_quality, spec_increase_quality_raw, spec_is_first_step,
    spec_is_in_good_condition, spec_reduce_cp, spec_reduce_durability, spec_restore_cp,
    spec_restore_durability, spec_success_rate, spec_tick_condition, tick_condition, Simulator,
};
use vstd::prelude::*;

verus! {

/// A counter one higher, up to the largest value it can hold.
pub open spec fn count_up(counter: u8) -> u8 {
    if counter < u8::MAX {
        (counter + 1) as u8
    } else {
        counter
    }
}

impl Action {
    /// What every action but the careful observation asks for: the player has
    /// the level, and the state holds the CP that the action costs.
    pub open spec fn spec_can_use_default(self, input: Input, state: State) -> bool {
        spec_at_crafter_level(input, self.spec_level()) && state.cp >= self.spec_cp_cost(state)
    }

    /// Whether the action is legal in the state.
    pub open spec fn spec_can_use(self, input: Input, state: State) -> bool {
        match self {
            Action::CarefulObservation => input.is_specialist
                && state.action_states.careful_observation_count < 3,
            Action::ByregotsBlessing => self.spec_can_use_default(input, state)
                && state.effects.inner_quiet > 0,
            Action::HeartAndSoul => self.spec_can_use_default(input, state) && input.is_specialist
                && !state.action_states.used_heart_and_soul,
            Action::IntensiveSynthesis | Action::PreciseTouch | Action::TricksOfTheTrade =>
                self.spec_can_use_default(input, state) && spec_is_in_good_condition(state),
            Action::Manipulation => input.can_use_manipulation && self.spec_can_use_default(
                input,
                state,
            ),
            Action::MuscleMemory | Action::Reflect => spec_is_first_step(state)
                && self.spec_can_use_default(input, state),
            Action::PrudentSynthesis | Action::PrudentTouch =>
                !state.effects.spec_is_waste_not_active() && self.spec_can_use_default(
                    input,
                    state,
                ),
            Action::TrainedEye => spec_is_first_step(state) && !input.is_expert
                && input.player_job_level >= input.recipe_job_level + 10
                && self.spec_can_use_default(input, state),
            Action::TrainedFinesse => state.effects.inner_quiet == 10 && self.spec_can_use_default(
                input,
                state,
            ),
            _ => self.spec_can_use_default(input, state),
        }
    }

    fn can_use_default(self, input: &Input, state: &State) -> (r: bool)
        ensures
            r == self.spec_can_use_default(*input, *state),
    {
        at_crafter_level(input, self.level()) && state.cp >= self.cp_cost(state)
    }

    /// Whether the action is legal in the state.
    pub fn can_use(self, input: &Input, state: &State) -> (r: bool)
        ensures
            r == self.spec_can_use(*input, *state),
    {
        match self {
            Action::ByregotsBlessing => {
                self.can_use_default(input, state) && state.effects.inner_quiet > 0
            },
            Action::CarefulObservation => {
                input.is_specialist && state.action_states.careful_observation_count < 3
            },
            Action::HeartAndSoul => {
                self.can_use_default(input, state) && input.is_specialist
                    && !state.action_states.used_heart_and_soul
            },
            Action::IntensiveSynthesis | Action::PreciseTouch => {
                self.can_use_default(input, state) && is_in_good_condition(state)
            },
            Action::Manipulation => {
                input.can_use_manipulation && self.can_use_default(input, state)
            },
            Action::MuscleMemory | Action::Reflect => {
                is_first_step(state) && self.can_use_default(input, state)
            },
            Action::PrudentSynthesis | Action::PrudentTouch => {
                !state.effects.is_waste_not_active() && self.can_use_default(input, state)
            },
            Action::TrainedEye => {
                is_first_step(state) && !input.is_expert && input.player_job_level as u16
                    >= input.recipe_job_level as u16 + 10 && self.can_use_default(input, state)
            },
            Action::TrainedFinesse => {
                state.effects.inner_quiet == 10 && self.can_use_default(input, state)
            },
            Action::TricksOfTheTrade => {
                is_in_good_condition(state) && self.can_use_default(input, state)
            },
            _ => self.can_use_default(input, state),
        }
    }

    /// The state after the gains of an action that has an efficiency: first
    /// the progress, if it is a synthesis, then the quality, if it is a touch.
    pub open spec fn spec_use_success_default(self, input: Input, state: State) -> State {
        let efficiency = self.spec_efficiency(input, state);
        if efficiency == 0 {
            state
        } else {
            let advanced = if self.spec_increases_progress() {
                spec_increase_progress(input, state, efficiency)
            } else {
                state
            };
            if self.spec_increases_quality() {
                spec_increase_quality(input, advanced, efficiency)
            } else {
                advanced
            }
        }
    }

    /// The state after the action has succeeded, before its costs are paid.
    /// `rolled` is what a re-roll of the condition gives; only the careful
    /// observation asks for one.
    pub open spec fn spec_use_success(self, input: Input, state: State, rolled: Condition) -> State {
        let gained = self.spec_use_success_default(input, state);
        match self {
            Action::ByregotsBlessing => State {
                effects: Effects { inner_quiet: 0, ..gained.effects },
                ..gained
            },
            Action::CarefulObservation => State {
                condition: spec_tick_condition(state.condition, rolled),
                ..state
            },
            Action::FinalAppraisal => State {
                effects: Effects { final_appraisal: 5, ..state.effects },
                ..state
            },
            Action::GreatStrides => State {
                effects: Effects { great_strides: 3, ..state.effects },
                ..state
            },
            Action::HeartAndSoul => State {
                effects: Effects { heart_and_soul: true, ..state.effects },
                ..state
            },
            Action::Innovation => State {
                effects: Effects { innovation: 4, ..state.effects },
                ..state
            },
            Action::IntensiveSynthesis => spec_consume_good_condition(gained),
            Action::MastersMend => spec_restore_durability(input, state, 30),
            Action::MuscleMemory => State {
                effects: Effects { muscle_memory: 5, ..gained.effects },
                ..gained
            },
            Action::PreciseTouch => spec_consume_good_condition(
                State {
                    effects: Effects {
                        inner_quiet: bump(gained.effects.inner_quiet),
                        ..gained.effects
                    },
                    ..gained
                },
            ),
            Action::PreparatoryTouch | Action::Reflect => State {
                effects: Effects { inner_quiet: bump(gained.effects.inner_quiet), ..gained.effects },
                ..gained
            },
            Action::TrainedEye => spec_increase_quality_raw(
                input,
                state,
                saturate(input.quality_target - state.quality),
            ),
            Action::TricksOfTheTrade => spec_consume_good_condition(
                spec_restore_cp(input, state, 20),
            ),
            Action::Veneration => State {
                effects: Effects { veneration: 4, ..state.effects },
                ..state
            },
            Action::WasteNot => State {
                effects: Effects { waste_not: 4, ..state.effects },
                ..state
            },
            Action::WasteNot2 => State {
                effects: Effects { waste_not_ii: 8, ..state.effects },
                ..state
            },
            _ => gained,
        }
    }

    /// Whether the success of the action, in this state, re-rolls the
    /// condition.
    pub open spec fn success_rerolls(self, state: State) -> bool {
        self == Action::CarefulObservation && rerolls(state.condition)
    }

    /// What the success of an action leaves alone: the counters and the memory
    /// of past actions always, the CP of an action that costs CP, the
    /// durability of one that costs durability, and the condition of one that
    /// counts as a step.
    pub proof fn lemma_use_success_frame(self, input: Input, state: State, rolled: Condition)
        ensures
            ({
                let after = self.spec_use_success(input, state, rolled);
                &&& after.step == state.step
                &&& after.action == state.action
                &&& after.action_states == state.action_states
                &&& self.spec_cp_cost(state) > 0 ==> after.cp == state.cp
                &&& self.spec_durability_cost() > 0 ==> after.durability == state.durability
                &&& self.spec_increases_step_count() ==> after.condition == state.condition
            }),
    {
    }

    fn use_success_default(self, input: &Input, state: &mut State)
        ensures
            *final(state) == self.spec_use_success_default(*input, *old(state)),
    {
        let efficiency = self.efficiency(input, state);
        if efficiency != 0 {
            if self.increases_progress() {
                increase_progress(input, state, efficiency);
            }
            if self.increases_quality() {
                increase_quality(input, state, efficiency);
            }
        }
    }

    /// Applies what the action does when it succeeds. The careful observation
    /// moves the condition on, which may ask the simulator for a roll; what
    /// was rolled is then the condition of the state.
    pub fn use_success<S: Simulator>(self, sim: &mut S, input: &Input, state: &mut State)
        ensures
            same_policy(*final(sim), *old(sim)),
            !self.success_rerolls(*old(state)) ==> *final(sim) == *old(sim),
            self.success_rerolls(*old(state)) ==> old(sim).may_roll(final(state).condition),
            *final(state) == self.spec_use_success(
                *input,
                *old(state),
                final(state).condition,
            ),
    {
        match self {
            Action::ByregotsBlessing => {
                self.use_success_default(input, state);
                state.effects.inner_quiet = 0;
            },
            Action::CarefulObservation => {
                tick_condition(sim, state);
            },
            Action::FinalAppraisal => {
                state.effects.final_appraisal = 5;
            },
            Action::GreatStrides => {
                state.effects.great_strides = 3;
            },
            Action::HeartAndSoul => {
                state.effects.heart_and_soul = true;
            },
            Action::Innovation => {
                state.effects.innovation = 4;
            },
            Action::IntensiveSynthesis => {
                self.use_success_default(input, state);
                consume_good_condition(state);
            },
            Action::MastersMend => {
                restore_durability(input, state, 30);
            },
            Action::MuscleMemory => {
                self.use_success_default(input, state);
                state.effects.muscle_memory = 5;
            },
            Action::PreciseTouch => {
                self.use_success_default(input, state);
                state.effects.inner_quiet = crate::simulator::bumped(state.effects.inner_quiet);
                consume_good_condition(state);
            },
            Action::PreparatoryTouch | Action::Reflect => {
                self.use_success_default(input, state);
                state.effects.inner_quiet = crate::simulator::bumped(state.effects.inner_quiet);
            },
            Action::TrainedEye => {
                let missing = input.quality_target.saturating_sub(state.quality);
                increase_quality_raw(input, state, missing);
            },
            Action::TricksOfTheTrade => {
                restore_cp(input, state, 20);
                consume_good_condition(state);
            },
            Action::Veneration => {
                state.effects.veneration = 4;
            },
            Action::WasteNot => {
                state.effects.waste_not = 4;
            },
            Action::WasteNot2 => {
                state.effects.waste_not_ii = 8;
            },
            _ => {
                self.use_success_default(input, state);
            },
        }
    }

    /// The memory after any action: the observation is forgotten and the touch
    /// combo is broken.
    pub open spec fn spec_mutate_state_default(states: ActionStates) -> ActionStates {
        ActionStates { has_observed: false, touch_combo_step: 0, ..states }
    }

    /// The memory after the action: the default, unless the action arms or
    /// continues the touch combo, observes, or uses up an allowance.
    pub open spec fn spec_mutate_state(self, states: ActionStates) -> ActionStates {
        let reset = Action::spec_mutate_state_default(states);
        match self {
            Action::BasicTouch => ActionStates { touch_combo_step: 1, ..reset },
            Action::StandardTouch => if states.touch_combo_step == 1 {
                ActionStates { touch_combo_step: 2, ..reset }
            } else {
                reset
            },
            Action::Observe => ActionStates { has_observed: true, ..reset },
            Action::CarefulObservation => ActionStates {
                careful_observation_count: if states.careful_observation_count < 3 {
                    (states.careful_observation_count + 1) as u8
                } else {
                    states.careful_observation_count
                },
                ..reset
            },
            Action::HeartAndSoul => ActionStates { used_heart_and_soul: true, ..reset },
            _ => reset,
        }
    }

    fn mutate_state_default(states: &mut ActionStates)
        ensures
            *final(states) == Action::spec_mutate_state_default(*old(states)),
    {
        states.has_observed = false;
        states.touch_combo_step = 0;
    }

    /// Records the action in the memory of the craft.
    pub fn mutate_state(self, states: &mut ActionStates)
        ensures
            *final(states) == self.spec_mutate_state(*old(states)),
    {
        match self {
            Action::BasicTouch => {
                Action::mutate_state_default(states);
                states.touch_combo_step = 1;
            },
            Action::CarefulObservation => {
                if states.careful_observation_count < 3 {
                    states.careful_observation_count += 1;
                }
                Action::mutate_state_default(states);
            },
            Action::HeartAndSoul => {
                states.used_heart_and_soul = true;
                Action::mutate_state_default(states);
            },
            Action::Observe => {
                Action::mutate_state_default(states);
                states.has_observed = true;
            },
            Action::StandardTouch => {
                let advance_combo = states.touch_combo_step == 1;
                Action::mutate_state_default(states);
                if advance_combo {
                    states.touch_combo_step = 2;
                }
            },
            _ => {
                Action::mutate_state_default(states);
            },
        }
    }

    /// The state after the bookkeeping that ends an action. An action that
    /// counts as a step raises the step counter, moves the condition on, and
    /// makes every buff timer tick. An action that is no step leaves step,
    /// condition and timers as they are. Every action is recorded in the
    /// memory and counted.
    pub open spec fn spec_finish(self, state: State, rolled: Condition) -> State {
        let counted = if self.spec_increases_step_count() {
            State {
                step: count_up(state.step),
                condition: spec_tick_condition(state.condition, rolled),
                effects: state.effects.spec_decrement_timers(),
                ..state
            }
        } else {
            state
        };
        State {
            action: count_up(counted.action),
            action_states: self.spec_mutate_state(counted.action_states),
            ..counted
        }
    }

    /// An action that is no step costs no time. The step counter stays, and
    /// so does every buff, but for what the action itself starts when it
    /// succeeds: no timer ticks, so a final appraisal begins at its full five
    /// steps and the buffs that run lose none. The action is paid for in CP,
    /// and wears no durability; a running manipulation mends as after any
    /// action.
    pub proof fn lemma_no_step_leaves_timers(
        self,
        input: Input,
        state: State,
        success: bool,
        rolled: Condition,
    )
        requires
            !self.spec_increases_step_count(),
        ensures
            ({
                let after = self.spec_use_action(input, state, success, rolled);
                let started = match self {
                    Action::FinalAppraisal if success => Effects {
                        final_appraisal: 5,
                        ..state.effects
                    },
                    Action::HeartAndSoul if success => Effects {
                        heart_and_soul: true,
                        ..state.effects
                    },
                    _ => state.effects,
                };
                &&& after.step == state.step
                &&& after.action == count_up(state.action)
                &&& after.durability == state.durability || (state.durability + 5
                    <= input.durability_max && after.durability == state.durability + 5)
                    || after.durability == input.durability_max
                &&& after.effects == started
                &&& after.cp == (state.cp - spec_cp_cost(state, self.spec_cp_cost(state))) as u32
                &&& after.progress == state.progress
                &&& after.quality == state.quality
                &&& self != Action::CarefulObservation ==> after.condition == state.condition
            }),
    {
    }

    /// The state after the action was used, where `success` is how the success
    /// roll came out and `rolled` is what a re-roll of the condition gives.
    ///
    /// A successful action takes effect; its CP and durability are paid
    /// whether it succeeded or not; a running manipulation then mends 5
    /// durability if any is left; and the bookkeeping of `spec_finish` ends the
    /// action. Manipulation itself goes another way: it always takes effect, and
    /// skips the mending.
    pub open spec fn spec_use_action(
        self,
        input: Input,
        state: State,
        success: bool,
        rolled: Condition,
    ) -> State {
        if self == Action::Manipulation {
            let buffed = State { effects: Effects { manipulation: 8, ..state.effects }, ..state };
            let paid = spec_reduce_cp(buffed, self.spec_cp_cost(buffed));
            self.spec_finish(paid, rolled)
        } else {
            let done = if success {
                self.spec_use_success(input, state, rolled)
            } else {
                state
            };
            let paid = spec_reduce_cp(done, self.spec_cp_cost(done));
            let worn = spec_reduce_durability(paid, self.spec_durability_cost());
            let mended = if worn.durability > 0 && worn.effects.manipulation > 0 {
                spec_restore_durability(input, worn, 5)
            } else {
                worn
            };
            self.spec_finish(mended, rolled)
        }
    }

    /// A craft stays within its caps: if durability, CP and the counters are in
    /// their ranges before an accepted action, they are afterwards, however
    /// the rolls come out. In particular the inner quiet counter never exceeds
    /// ten.
    pub proof fn lemma_stays_within_caps(
        self,
        input: Input,
        state: State,
        success: bool,
        rolled: Condition,
    )
        requires
            state.within_caps(input),
            self.spec_can_use(input, state),
            state.durability > 0,
        ensures
            self.spec_use_action(input, state, success, rolled).within_caps(input),
    {
        self.lemma_use_success_frame(input, state, rolled);
    }

    /// The inner quiet counter changes only by the effect of a touch that
    /// succeeded. No other action, no failed action, no cost and no tick of the
    /// timers moves it.
    pub proof fn lemma_inner_quiet_moves_only_by_touch(
        self,
        input: Input,
        state: State,
        success: bool,
        rolled: Condition,
    )
        requires
            !(success && self.spec_increases_quality()),
        ensures
            self.spec_use_action(input, state, success, rolled).effects.inner_quiet
                == state.effects.inner_quiet,
    {
    }

    /// The price of the touch combo. Right after a basic touch the standard
    /// touch costs 18 CP, and right after that standard touch the advanced
    /// touch costs 18 CP. With another action in between, the standard touch
    /// costs its full 32 and the advanced touch its full 46. The action in
    /// between must not itself be the one that arms the discount: a second
    /// basic touch arms the standard touch again.
    pub proof fn lemma_combo_pricing(
        input: Input,
        state: State,
        between: Action,
        first: (bool, Condition),
        second: (bool, Condition),
        third: (bool, Condition),
    )
        ensures
            ({
                let armed = Action::BasicTouch.spec_use_action(input, state, first.0, first.1);
                let chained = Action::StandardTouch.spec_use_action(
                    input,
                    armed,
                    second.0,
                    second.1,
                );
                let broken = between.spec_use_action(input, armed, second.0, second.1);
                let broken_late = between.spec_use_action(input, chained, third.0, third.1);
                &&& Action::StandardTouch.spec_cp_cost(armed) == 18
                &&& Action::AdvancedTouch.spec_cp_cost(chained) == 18
                &&& between != Action::BasicTouch ==> Action::StandardTouch.spec_cp_cost(broken)
                    == 32
                &&& Action::AdvancedTouch.spec_cp_cost(broken_late) == 46
                &&& Action::AdvancedTouch.spec_cp_cost(armed) == 46
            }),
    {
        let armed = Action::BasicTouch.spec_use_action(input, state, first.0, first.1);
        let chained = Action::StandardTouch.spec_use_action(input, armed, second.0, second.1);
        Action::BasicTouch.lemma_use_success_frame(input, state, first.1);
        Action::StandardTouch.lemma_use_success_frame(input, armed, second.1);
        between.lemma_use_success_frame(input, armed, second.1);
        between.lemma_use_success_frame(input, chained, third.1);
    }

    /// Whether using the action asks the simulator for a success roll. Only
    /// manipulation does not.
    pub open spec fn rolls_success(self) -> bool {
        self != Action::Manipulation
    }

    /// Whether using the action in the state asks the simulator for a
    /// condition roll, given how the success roll came out.
    pub open spec fn rolls_condition(self, state: State, success: bool) -> bool {
        rerolls(state.condition) && if self == Action::CarefulObservation {
            success
        } else {
            self.spec_increases_step_count()
        }
    }

    /// Whether the simulator's policy allows `success` and `rolled` as the
    /// outcomes of the rolls that using the action in the state asks for.
    pub open spec fn is_outcome<S: Simulator>(
        self,
        sim: S,
        state: State,
        success: bool,
        rolled: Condition,
    ) -> bool {
        &&& self.rolls_success() ==> sim.may_succeed(
            spec_success_rate(state, self.spec_success_rate(state)),
            success,
        )
        &&& self.rolls_condition(state, success) ==> sim.may_roll(rolled)
    }

    /// With a simulator that keeps to the conditions of a recipe, a craft
    /// never leaves them: if the condition is enabled before an action, it is
    /// enabled afterwards. A recipe that enables the good omen must enable the
    /// good condition, which follows it.
    pub proof fn lemma_condition_stays_enabled<S: Simulator>(
        self,
        sim: S,
        input: Input,
        state: State,
        success: bool,
        rolled: Condition,
        conditions_flag: u16,
    )
        requires
            crate::simulator::rolls_within(sim, conditions_flag),
            self.is_outcome(sim, state, success, rolled),
            state.condition.spec_is_enabled(conditions_flag),
            Condition::GoodOmen.spec_is_enabled(conditions_flag) ==> Condition::Good.spec_is_enabled(
                conditions_flag,
            ),
        ensures
            self.spec_use_action(input, state, success, rolled).condition.spec_is_enabled(
                conditions_flag,
            ),
    {
        self.lemma_use_success_frame(input, state, rolled);
    }

    fn finish<S: Simulator>(self, sim: &mut S, state: &mut State)
        ensures
            same_policy(*final(sim), *old(sim)),
            self.spec_increases_step_count() && rerolls(old(state).condition) ==> old(
                sim,
            ).may_roll(final(state).condition),
            *final(state) == self.spec_finish(*old(state), final(state).condition),
    {
        if self.increases_step_count() {
            state.step = state.step.saturating_add(1);
            tick_condition(sim, state);
            state.effects.decrement_timers();
        }
        self.mutate_state(&mut state.action_states);
        state.action = state.action.saturating_add(1);
    }

    /// Uses the action on the state: the transition of one accepted action.
    ///
    /// The action must be legal in the state and durability must be left. The
    /// state afterwards is what `spec_use_action` gives for some outcome of the
    /// rolls that the simulator's policy allows.
    #[verifier::rlimit(40)]
    pub fn use_action<S: Simulator>(self, sim: &mut S, input: &Input, state: &mut State)
        requires
            self.spec_can_use(*input, *old(state)),
            old(state).durability > 0,
        ensures
            same_policy(*final(sim), *old(sim)),
            exists|success: bool, rolled: Condition| #[trigger]
                self.is_outcome(*old(sim), *old(state), success, rolled) && *final(state)
                    == self.spec_use_action(*input, *old(state), success, rolled),
    {
        let ghost before = *state;
        let ghost policy = *sim;
        match self {
            Action::Manipulation => {
                state.effects.manipulation = 8;
                let cost = self.cp_cost(state);
                reduce_cp(state, cost);
                self.finish(sim, state);
                assert(self.is_outcome(policy, before, true, state.condition));
            },
            _ => {
                let rate = self.success_rate(state);
                let success = roll_success(sim, state, rate);
                if success {
                    self.use_success(sim, input, state);
                }
                proof {
                    self.lemma_use_success_frame(*input, before, state.condition);
                }
                let ghost done = *state;
                let cost = self.cp_cost(state);
                reduce_cp(state, cost);
                reduce_durability(state, self.durability_cost());
                if state.durability > 0 && state.effects.manipulation > 0 {
                    restore_durability(input, state, 5);
                }
                self.finish(sim, state);
                proof {
                    let rolled = state.condition;
                    if success {
                        assert(done == self.spec_use_success(*input, before, rolled));
                    }
                    assert(self.is_outcome(policy, before, success, rolled));
                    assert(*state == self.spec_use_action(*input, before, success, rolled));
                }
            },
        }
    }
}

/// A type that stands for one action of the catalog, so that the action's
/// rules can be reached without a value: `BasicTouch::level()` is the level of
/// `Action::BasicTouch`.
pub trait ActionTrait: Sized {
    /// The action that the type stands for.
    spec fn spec_id() -> Action;

    /// The action that the type stands for.
    fn id() -> (r: Action)
        ensures
            r == Self::spec_id(),
    ;

    /// The player level that unlocks the action.
    fn level() -> (r: u8)
        ensures
            r == Self::spec_id().spec_level(),
    {
        Self::id().level()
    }

    /// Whether the action advances the progress.
    fn increases_progress() -> (r: bool)
        ensures
            r == Self::spec_id().spec_increases_progress(),
    {
        Self::id().increases_progress()
    }

    /// Whether the action advances the quality.
    fn increases_quality() -> (r: bool)
        ensures
            r == Self::spec_id().spec_increases_quality(),
    {
        Self::id().increases_quality()
    }

    /// What the action takes from the durability before buffs and condition
    /// are counted in.
    fn durability_cost() -> (r: i8)
        ensures
            r == Self::spec_id().spec_durability_cost(),
    {
        Self::id().durability_cost()
    }

    /// Whether the action counts as a step of the craft.
    fn increases_step_count() -> (r: bool)
        ensures
            r == Self::spec_id().spec_increases_step_count(),
    {
        Self::id().increases_step_count()
    }

    /// What the action takes from the CP before the condition is counted in.
    fn cp_cost(state: &State) -> (r: u32)
        ensures
            r == Self::spec_id().spec_cp_cost(*state),
    {
        Self::id().cp_cost(state)
    }

    /// The efficiency of the action in percent.
    fn efficiency(input: &Input, state: &State) -> (r: u32)
        ensures
            r == Self::spec_id().spec_efficiency(*input, *state),
    {
        Self::id().efficiency(input, state)
    }

    /// The chance in percent that the action succeeds, before the condition is
    /// counted in.
    fn success_rate(state: &State) -> (r: u8)
        ensures
            r == Self::spec_id().spec_success_rate(*state),
    {
        Self::id().success_rate(state)
    }

    /// Whether the action is legal in the state.
    fn can_use(input: &Input, state: &State) -> (r: bool)
        ensures
            r == Self::spec_id().spec_can_use(*input, *state),
    {
        Self::id().can_use(input, state)
    }

    /// Uses the action on the state, which must allow it and have durability
    /// left.
    fn use_action<S: Simulator>(sim: &mut S, input: &Input, state: &mut State)
        requires
            Self::spec_id().spec_can_use(*input, *old(state)),
            old(state).durability > 0,
        ensures
            same_policy(*final(sim), *old(sim)),
            exists|success: bool, rolled: Condition| #[trigger]
                Self::spec_id().is_outcome(*old(sim), *old(state), success, rolled)
                    && *final(state) == Self::spec_id().spec_use_action(
                    *input,
                    *old(state),
                    success,
                    rolled,
                ),
    {
        Self::id().use_action(sim, input, state)
    }

    /// Applies what the action does when it succeeds.
    fn use_success<S: Simulator>(sim: &mut S, input: &Input, state: &mut State)
        ensures
            same_policy(*final(sim), *old(sim)),
            Self::spec_id().success_rerolls(*old(state)) ==> old(sim).may_roll(
                final(state).condition,
            ),
            *final(state) == Self::spec_id().spec_use_success(
                *input,
                *old(state),
                final(state).condition,
            ),
    {
        Self::id().use_success(sim, input, state)
    }

    /// Records the action in the memory of the craft.
    fn mutate_state(states: &mut ActionStates)
        ensures
            *final(states) == Self::spec_id().spec_mutate_state(*old(states)),
    {
        Self::id().mutate_state(states)
    }
}

} // verus!
