//! The state of one craft attempt.

use crate::action_set::{ActionSet, BitFlagExt};
use crate::action_states::ActionStates;
use crate::actions::Action;
use crate::condition::Condition;
use crate::craft_context::Input;
use crate::simulator::{
    calculate_durability_cost, calculate_progress_gain, is_first_step, spec_durability_cost,
    spec_is_first_step, spec_progress_gain,
};
use vstd::prelude::*;

verus! {

/// The highest value the inner quiet counter takes.
pub const INNER_QUIET_MAX: u8 = 10;

/// A timer one step later: one less, and zero stays zero.
pub open spec fn tick(timer: u8) -> u8 {
    if timer > 0 {
        (timer - 1) as u8
    } else {
        0
    }
}

/// A timer `steps` steps later: that much less, and never below zero.
pub open spec fn run_down(timer: u8, steps: nat) -> u8 {
    if timer > steps {
        (timer - steps) as u8
    } else {
        0
    }
}

/// The buffs of a craft attempt: countdown timers, the inner quiet counter and
/// the heart and soul flag.
#[derive(Copy, Clone, Debug, PartialEq, Eq, Structural)]
pub struct Effects {
    pub inner_quiet: u8,
    pub waste_not: u8,
    pub waste_not_ii: u8,
    pub manipulation: u8,
    pub great_strides: u8,
    pub innovation: u8,
    pub veneration: u8,
    pub muscle_memory: u8,
    pub final_appraisal: u8,
    pub heart_and_soul: bool,
}

impl Effects {
    /// No buff: the effects at the start of a craft.
    pub open spec fn none() -> Effects {
        Effects {
            inner_quiet: 0,
            waste_not: 0,
            waste_not_ii: 0,
            manipulation: 0,
            great_strides: 0,
            innovation: 0,
            veneration: 0,
            muscle_memory: 0,
            final_appraisal: 0,
            heart_and_soul: false,
        }
    }

    /// The effects one step later: every timer ticked, the inner quiet counter
    /// and the heart and soul flag as they were.
    pub open spec fn spec_decrement_timers(self) -> Effects {
        Effects {
            inner_quiet: self.inner_quiet,
            waste_not: tick(self.waste_not),
            waste_not_ii: tick(self.waste_not_ii),
            manipulation: tick(self.manipulation),
            great_strides: tick(self.great_strides),
            innovation: tick(self.innovation),
            veneration: tick(self.veneration),
            muscle_memory: tick(self.muscle_memory),
            final_appraisal: tick(self.final_appraisal),
            heart_and_soul: self.heart_and_soul,
        }
    }

    /// Decrements all buff timers by one step. A timer at zero stays there.
    pub fn decrement_timers(&mut self)
        ensures
            *final(self) == old(self).spec_decrement_timers(),
            final(self).inner_quiet == old(self).inner_quiet,
    {
        self.waste_not = self.waste_not.saturating_sub(1);
        self.waste_not_ii = self.waste_not_ii.saturating_sub(1);
        self.manipulation = self.manipulation.saturating_sub(1);
        self.great_strides = self.great_strides.saturating_sub(1);
        self.innovation = self.innovation.saturating_sub(1);
        self.veneration = self.veneration.saturating_sub(1);
        self.muscle_memory = self.muscle_memory.saturating_sub(1);
        self.final_appraisal = self.final_appraisal.saturating_sub(1);
    }

    /// The effects `steps` steps later.
    pub open spec fn spec_decrement_timers_by(self, steps: nat) -> Effects
        decreases steps,
    {
        if steps == 0 {
            self
        } else {
            self.spec_decrement_timers_by((steps - 1) as nat).spec_decrement_timers()
        }
    }

    /// However often the timers tick, none of them goes below zero: each has
    /// gone down by the number of steps, or has stopped at zero. The inner
    /// quiet counter and the heart and soul flag are not timers and stay.
    pub proof fn lemma_timers_stop_at_zero(self, steps: nat)
        ensures
            ({
                let later = self.spec_decrement_timers_by(steps);
                &&& later.waste_not == run_down(self.waste_not, steps)
                &&& later.waste_not_ii == run_down(self.waste_not_ii, steps)
                &&& later.manipulation == run_down(self.manipulation, steps)
                &&& later.great_strides == run_down(self.great_strides, steps)
                &&& later.innovation == run_down(self.innovation, steps)
                &&& later.veneration == run_down(self.veneration, steps)
                &&& later.muscle_memory == run_down(self.muscle_memory, steps)
                &&& later.final_appraisal == run_down(self.final_appraisal, steps)
                &&& later.inner_quiet == self.inner_quiet
                &&& later.heart_and_soul == self.heart_and_soul
            }),
        decreases steps,
    {
        if steps > 0 {
            self.lemma_timers_stop_at_zero((steps - 1) as nat);
        }
    }

    /// Whether one of the two conservation buffs is running.
    pub open spec fn spec_is_waste_not_active(self) -> bool {
        self.waste_not > 0 || self.waste_not_ii > 0
    }

    /// Whether one of the two conservation buffs is running.
    pub fn is_waste_not_active(&self) -> (r: bool)
        ensures
            r == self.spec_is_waste_not_active(),
    {
        self.waste_not > 0 || self.waste_not_ii > 0
    }
}

impl Default for Effects {
    fn default() -> (r: Self)
        ensures
            r == Effects::none(),
    {
        Effects {
            inner_quiet: 0,
            waste_not: 0,
            waste_not_ii: 0,
            manipulation: 0,
            great_strides: 0,
            innovation: 0,
            veneration: 0,
            muscle_memory: 0,
            final_appraisal: 0,
            heart_and_soul: false,
        }
    }
}

/// A snapshot of one craft attempt.
#[derive(Copy, Clone, Debug, PartialEq, Eq, Structural)]
pub struct State {
    /// How many of the executed actions counted as a step.
    pub step: u8,
    /// How many actions were executed.
    pub action: u8,
    pub progress: u32,
    pub quality: u32,
    /// What is left of the durability. Zero or less means that the craft
    /// failed.
    pub durability: i8,
    pub cp: u32,
    pub condition: Condition,
    pub action_states: ActionStates,
    pub effects: Effects,
}

impl State {
    /// The state at the start of a craft: full durability and CP, the starting
    /// quality, no progress, no buff, nothing remembered.
    pub open spec fn spec_initial(input: Input) -> State {
        State {
            step: 0,
            action: 0,
            progress: 0,
            quality: input.starting_quality,
            durability: input.durability_max,
            cp: input.cp_max,
            condition: Condition::Normal,
            action_states: ActionStates::cleared(),
            effects: Effects::none(),
        }
    }

    /// The state at the start of a craft.
    pub fn initial(input: &Input) -> (r: State)
        ensures
            r == State::spec_initial(*input),
            r.within_caps(*input),
    {
        State {
            step: 0,
            action: 0,
            progress: 0,
            quality: input.starting_quality,
            durability: input.durability_max,
            cp: input.cp_max,
            condition: Condition::Normal,
            action_states: ActionStates::default(),
            effects: Effects::default(),
        }
    }

    /// What holds of every state that a craft passes through: durability and CP
    /// are within their caps, the inner quiet counter is within its own, and
    /// the combo and observation counters are in their ranges.
    pub open spec fn within_caps(self, input: Input) -> bool {
        &&& self.durability <= input.durability_max
        &&& self.cp <= input.cp_max
        &&& self.effects.inner_quiet <= INNER_QUIET_MAX
        &&& self.action_states.touch_combo_step <= 2
        &&& self.action_states.careful_observation_count <= 3
    }
}

impl Default for State {
    fn default() -> (r: Self)
        ensures
            r.step == 0,
            r.action == 0,
            r.progress == 0,
            r.quality == 0,
            r.durability == 0,
            r.cp == 0,
            r.condition == Condition::Normal,
            r.action_states == ActionStates::cleared(),
            r.effects == Effects::none(),
    {
        State {
            step: 0,
            action: 0,
            progress: 0,
            quality: 0,
            durability: 0,
            cp: 0,
            condition: Condition::Normal,
            action_states: ActionStates::default(),
            effects: Effects::default(),
        }
    }
}

/// Whether the craft has ended in `state` as far as a search is concerned: the
/// progress has reached its target, the cap on actions is reached, or no
/// durability is left.
pub open spec fn spec_is_terminal(input: Input, state: State) -> bool {
    state.progress >= input.progress_target || state.action >= input.action_max
        || state.durability <= 0
}

/// Whether a strict search has only the trained eye to consider: it is the
/// first step of a craft with a quality target, on a recipe that is not an
/// expert one, and the player has the action.
pub open spec fn trained_eye_is_forced(input: Input, state: State) -> bool {
    spec_is_first_step(state) && input.quality_target > 0 && !input.is_expert
        && input.action_pool@.contains(Action::TrainedEye)
}

/// Whether `action` would bring the progress to its target.
pub open spec fn would_finish(action: Action, input: Input, state: State) -> bool {
    state.progress + spec_progress_gain(input, state, action.spec_efficiency(input, state))
        >= input.progress_target
}

/// The rules by which a strict search prunes moves that are legal but not
/// worth trying. After an observation only the focused actions remain. No
/// touch under muscle memory on a recipe of level 90, and no pure touch under
/// veneration. A synthesis that would finish the craft waits until a fifth of
/// the quality target is reached, and one that would not, and is no touch,
/// waits while innovation runs.
pub open spec fn passes_strict_pruning(action: Action, input: Input, state: State) -> bool {
    &&& state.action_states.has_observed ==> action == Action::FocusedSynthesis || action
        == Action::FocusedTouch
    &&& !(input.recipe_job_level == 90 && state.effects.muscle_memory > 0
        && action.spec_increases_quality())
    &&& !(state.effects.veneration > 0 && !action.spec_increases_progress()
        && action.spec_increases_quality())
    &&& action.spec_increases_progress() ==> if would_finish(action, input, state) {
        state.quality >= input.quality_target / 5
    } else {
        !(state.effects.innovation > 0 && !action.spec_increases_quality())
    }
}

/// The rules that each action adds to its own legality when moves are
/// listed. Some hold always: the trained finesse needs the full inner quiet,
/// the prudent actions no conservation buff, the focused actions an
/// observation and an observation none, and groundwork the durability for its
/// full cost. A strict search also refuses to renew a buff that still runs, to
/// bless at one stack or less, to observe without the CP to follow up, and to
/// mend less than 25 durability.
pub open spec fn passes_own_rule(action: Action, input: Input, state: State, strict: bool) -> bool {
    match action {
        Action::ByregotsBlessing => strict ==> state.effects.inner_quiet > 1,
        Action::TrainedFinesse => state.effects.inner_quiet == 10,
        Action::PrudentSynthesis | Action::PrudentTouch => state.effects.waste_not == 0
            && state.effects.waste_not_ii == 0,
        Action::WasteNot | Action::WasteNot2 => strict ==> state.effects.waste_not == 0
            && state.effects.waste_not_ii == 0,
        Action::Observe => !state.action_states.has_observed && (strict ==> state.cp >= 5),
        Action::FocusedSynthesis | Action::FocusedTouch => state.action_states.has_observed,
        Action::Groundwork => state.durability >= spec_durability_cost(
            state,
            action.spec_durability_cost(),
        ),
        Action::MastersMend => strict ==> input.durability_max - state.durability >= 25,
        Action::Manipulation => strict ==> state.effects.manipulation == 0,
        Action::GreatStrides => strict ==> state.effects.great_strides == 0,
        Action::Veneration | Action::Innovation => strict ==> state.effects.veneration <= 1
            && state.effects.innovation <= 1,
        _ => true,
    }
}

/// Whether `action` is a move to consider in `state`. It must be legal, and a
/// touch is no move once the quality target is reached. Where a strict search
/// is bound to the trained eye, that is the only move. Otherwise the action
/// must pass the pruning of a strict search and its own rule.
pub open spec fn spec_is_available(action: Action, input: Input, state: State, strict: bool) -> bool {
    &&& action.spec_can_use(input, state)
    &&& !(state.quality >= input.quality_target && action.spec_increases_quality())
    &&& if strict && trained_eye_is_forced(input, state) {
        action == Action::TrainedEye
    } else {
        &&& strict ==> passes_strict_pruning(action, input, state)
        &&& passes_own_rule(action, input, state, strict)
    }
}

/// The moves to consider in `state`: none once the craft has ended, else the
/// actions of the pool that are available.
pub open spec fn spec_available_moves(input: Input, state: State, strict: bool) -> Set<Action> {
    if spec_is_terminal(input, state) {
        Set::empty()
    } else {
        input.action_pool@.filter(|a: Action| spec_is_available(a, input, state, strict))
    }
}

/// Whether `action` is a move to consider in `state`.
pub fn is_available(action: Action, input: &Input, state: &State, strict: bool) -> (r: bool)
    ensures
        r == spec_is_available(action, *input, *state, strict),
{
    if action.cp_cost(state) > state.cp {
        return false;
    }
    if state.quality >= input.quality_target && action.increases_quality() {
        return false;
    }
    if strict {
        if is_first_step(state) && input.quality_target > 0 && !input.is_expert
            && input.action_pool.contains(Action::TrainedEye) {
            return action == Action::TrainedEye && action.can_use(input, state);
        }
        if state.action_states.has_observed && action != Action::FocusedSynthesis && action
            != Action::FocusedTouch {
            return false;
        }
        if input.recipe_job_level == 90 && state.effects.muscle_memory > 0
            && action.increases_quality() {
            return false;
        }
        if state.effects.veneration > 0 && !action.increases_progress()
            && action.increases_quality() {
            return false;
        }
        if action.increases_progress() {
            let efficiency = action.efficiency(input, state);
            let gain = calculate_progress_gain(input, state, efficiency);
            let finishes = state.progress as u64 + gain as u64 >= input.progress_target as u64;
            if finishes {
                if state.quality < input.quality_target / 5 {
                    return false;
                }
            } else {
                if state.effects.innovation > 0 && !action.increases_quality() {
                    return false;
                }
            }
        }
    }
    if !action.can_use(input, state) {
        return false;
    }
    let effects = &state.effects;
    match action {
        Action::ByregotsBlessing => !strict || effects.inner_quiet > 1,
        Action::TrainedFinesse => effects.inner_quiet == 10,
        Action::PrudentSynthesis | Action::PrudentTouch => {
            effects.waste_not == 0 && effects.waste_not_ii == 0
        },
        Action::WasteNot | Action::WasteNot2 => {
            !strict || (effects.waste_not == 0 && effects.waste_not_ii == 0)
        },
        Action::Observe => !state.action_states.has_observed && (!strict || state.cp >= 5),
        Action::FocusedSynthesis | Action::FocusedTouch => state.action_states.has_observed,
        Action::Groundwork => {
            let cost = calculate_durability_cost(state, action.durability_cost());
            state.durability >= cost
        },
        Action::MastersMend => {
            !strict || input.durability_max as i16 - state.durability as i16 >= 25
        },
        Action::Manipulation => !strict || effects.manipulation == 0,
        Action::GreatStrides => !strict || effects.great_strides == 0,
        Action::Veneration | Action::Innovation => {
            !strict || (effects.veneration <= 1 && effects.innovation <= 1)
        },
        _ => true,
    }
}

/// How a craft attempt ended.
#[derive(Copy, Clone, Debug, PartialEq, Eq, Structural)]
pub enum CraftResult {
    /// The craft reached its progress target. Holds the score of the final
    /// state, in millionths.
    Finished(u32),
    /// No durability remains.
    DurabilityFailure,
    /// The cap on actions was reached.
    MaxStepsFailure,
    /// No action is available.
    InvalidActionFailure,
}

impl CraftResult {
    /// What the result is worth to a search, in millionths: the score of a
    /// finished craft, and nothing for a failed one.
    pub open spec fn spec_score(self) -> u32 {
        match self {
            CraftResult::Finished(score) => score,
            _ => 0,
        }
    }

    /// What the result is worth to a search, in millionths.
    pub fn score(&self) -> (r: u32)
        ensures
            r == self.spec_score(),
    {
        match self {
            CraftResult::Finished(score) => *score,
            _ => 0,
        }
    }
}

/// A full score, in millionths.
pub const SCORE_ONE: u32 = 1_000_000;

/// The share of `weight` that `value` earns against `target`: all of it once
/// the target is reached or where there is none, none of it at zero or below,
/// and in between the part that the ratio gives, rounded down.
pub open spec fn share(weight: u32, value: int, target: int) -> int {
    if target <= 0 || value >= target {
        weight as int
    } else if value <= 0 {
        0
    } else {
        (weight * value) / target
    }
}

fn share_of(weight: u32, value: u32, target: u32) -> (r: u32)
    requires
        weight <= SCORE_ONE,
    ensures
        r == share(weight, value as int, target as int),
        r <= weight,
{
    if target == 0 || value >= target {
        weight
    } else {
        proof {
            vstd::arithmetic::mul::lemma_mul_upper_bound(
                weight as int,
                SCORE_ONE as int,
                value as int,
                u32::MAX as int,
            );
            assert(weight * value <= weight * target) by (nonlinear_arith)
                requires
                    0 <= value < target,
                    0 <= weight,
            ;
            vstd::arithmetic::div_mod::lemma_div_is_ordered(
                weight * value,
                weight * target,
                target as int,
            );
            vstd::arithmetic::div_mod::lemma_div_multiples_vanish(weight as int, target as int);
        }
        ((weight as u64 * value as u64) / (target as u64)) as u32
    }
}

impl State {
    /// The score, in millionths, of a finished craft with a quality target: a
    /// fifth for the progress, 65 hundredths for the quality, and a twentieth
    /// each for the durability left, the CP left, and the actions not used,
    /// each as far as its own target is met.
    pub open spec fn spec_score(self, input: Input) -> int {
        share(200_000, self.progress as int, input.progress_target as int) + share(
            650_000,
            self.quality as int,
            input.quality_target as int,
        ) + share(50_000, self.durability as int, input.durability_max as int) + share(
            50_000,
            self.cp as int,
            input.cp_max as int,
        ) + share(50_000, input.action_max - self.step, input.action_max as int)
    }

    /// The score, in millionths, of a finished craft without a quality target:
    /// the part of the allowed actions that was not used.
    pub open spec fn spec_score_no_quality(self, input: Input) -> int {
        share(SCORE_ONE, input.action_max - self.step, input.action_max as int)
    }

    /// The score of the state, in millionths: between zero and one million.
    pub fn score(&self, input: &Input) -> (r: u32)
        ensures
            r == self.spec_score(*input),
            r <= SCORE_ONE,
    {
        let durability: u32 = if self.durability > 0 {
            self.durability as u32
        } else {
            0
        };
        let durability_max: u32 = if input.durability_max > 0 {
            input.durability_max as u32
        } else {
            0
        };
        let unused: u32 = if self.step < input.action_max {
            (input.action_max - self.step) as u32
        } else {
            0
        };
        share_of(200_000, self.progress, input.progress_target) + share_of(
            650_000,
            self.quality,
            input.quality_target,
        ) + share_of(50_000, durability, durability_max) + share_of(
            50_000,
            self.cp,
            input.cp_max,
        ) + share_of(50_000, unused, input.action_max as u32)
    }

    /// The score of the state, in millionths, where quality does not matter.
    pub fn score_no_quality(&self, input: &Input) -> (r: u32)
        ensures
            r == self.spec_score_no_quality(*input),
            r <= SCORE_ONE,
    {
        let unused: u32 = if self.step < input.action_max {
            (input.action_max - self.step) as u32
        } else {
            0
        };
        share_of(SCORE_ONE, unused, input.action_max as u32)
    }
}

/// How the craft has ended in `state`, if it has, where `moves` are the moves
/// listed for the state. Reaching the progress target is success, scored for
/// quality where there is a quality target and for brevity where there is
/// none. Otherwise the craft has failed once the durability is used up, once
/// the cap on actions is reached, or once no move is left.
pub open spec fn spec_check_result(input: Input, state: State, moves: Set<Action>) -> Option<
    CraftResult,
> {
    if state.progress >= input.progress_target {
        Some(
            CraftResult::Finished(
                if input.quality_target > 0 {
                    state.spec_score(input) as u32
                } else {
                    state.spec_score_no_quality(input) as u32
                },
            ),
        )
    } else if state.durability <= 0 {
        Some(CraftResult::DurabilityFailure)
    } else if state.action >= input.action_max {
        Some(CraftResult::MaxStepsFailure)
    } else if moves == Set::<Action>::empty() {
        Some(CraftResult::InvalidActionFailure)
    } else {
        None
    }
}

/// A vertex of the search tree: a state, the action that led to it, what the
/// search has learned below it, and the moves still to be tried from it.
#[derive(Copy, Clone, Debug, PartialEq, Eq)]
pub struct Node {
    pub state: State,
    /// The action that led to this state.
    pub action: Option<Action>,
    /// The sum of the scores of the playouts through this node, each in
    /// millionths.
    pub score_sum: u64,
    /// The best score, in millionths, of a playout through this node.
    pub max_score: u32,
    /// How many playouts went through this node.
    pub visits: u32,
    pub available_moves: ActionSet,
}

impl Node {
    /// A node for `state` that no playout has visited, with every move that is
    /// available in the state.
    pub fn new(input: &Input, state: State) -> (r: Self)
        ensures
            r.state == state,
            r.action is None,
            r.score_sum == 0,
            r.max_score == 0,
            r.visits == 0,
            r.available_moves@ == spec_available_moves(*input, state, false),
    {
        let mut r = Node {
            state,
            action: None,
            score_sum: 0,
            max_score: 0,
            visits: 0,
            available_moves: ActionSet::new(),
        };
        r.set_available_moves(input, false);
        r
    }

    /// How the craft has ended in the node's state, if it has.
    pub fn check_result(&self, input: &Input) -> (r: Option<CraftResult>)
        ensures
            r == spec_check_result(*input, self.state, self.available_moves@),
            r matches Some(result) ==> result.spec_score() <= SCORE_ONE,
            self.state.durability <= 0 && self.state.progress < input.progress_target ==> r
                == Some(CraftResult::DurabilityFailure),
    {
        let state = &self.state;
        if state.progress >= input.progress_target {
            let score = if input.quality_target > 0 {
                state.score(input)
            } else {
                state.score_no_quality(input)
            };
            Some(CraftResult::Finished(score))
        } else if state.durability <= 0 {
            Some(CraftResult::DurabilityFailure)
        } else if state.action >= input.action_max {
            Some(CraftResult::MaxStepsFailure)
        } else if self.available_moves.is_empty() {
            Some(CraftResult::InvalidActionFailure)
        } else {
            None
        }
    }

    /// Lists the moves to consider from the node's state. A strict listing
    /// prunes moves that are legal but not worth trying.
    pub fn set_available_moves(&mut self, input: &Input, strict: bool)
        ensures
            final(self).available_moves@ == spec_available_moves(*input, old(self).state, strict),
            final(self).state == old(self).state,
            final(self).action == old(self).action,
            final(self).score_sum == old(self).score_sum,
            final(self).max_score == old(self).max_score,
            final(self).visits == old(self).visits,
    {
        let state = self.state;
        if state.progress >= input.progress_target || state.action >= input.action_max
            || state.durability <= 0 {
            self.available_moves = ActionSet::new();
            return ;
        }
        let mut moves = input.action_pool;
        let wanted = |action: Action| -> (r: bool)
            ensures
                r == spec_is_available(action, *input, state, strict),
            {
                is_available(action, input, &state, strict)
            };
        moves.keep(wanted);
        proof {
            assert(moves@ =~= spec_available_moves(*input, state, strict));
        }
        self.available_moves = moves;
    }
}

} // verus!
