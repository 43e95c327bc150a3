//! The arithmetic of one craft step: what an action gains and costs in a given
//! state, and the changes it makes to the state.
//!
//! Multipliers are held as whole percentages (or tenths, for the inner quiet
//! modifier), so that every gain is the floor of an exact product.

use crate::condition::Condition;
use crate::craft_context::Input;
use crate::craft_state::{Effects, State, INNER_QUIET_MAX};
use vstd::arithmetic::mul::lemma_mul_upper_bound;
use vstd::prelude::*;

verus! {

/// The source of the two rolls of a craft step. What an implementation may
/// return is its policy, which the rolls themselves leave unchanged. An
/// implementation that states no policy may return anything.
pub trait Simulator: Sized {
    /// Whether a success roll at `success_rate` percent may come out as
    /// `success`.
    open spec fn may_succeed(&self, success_rate: u8, success: bool) -> bool {
        true
    }

    /// Whether a re-roll of the condition may produce `condition`.
    open spec fn may_roll(&self, condition: Condition) -> bool {
        true
    }

    /// The condition that a re-roll gives.
    fn roll_condition(&mut self) -> (condition: Condition)
        ensures
            old(self).may_roll(condition),
            forall|rate: u8, outcome: bool| #[trigger]
                final(self).may_succeed(rate, outcome) == old(self).may_succeed(rate, outcome),
            forall|other: Condition| #[trigger]
                final(self).may_roll(other) == old(self).may_roll(other),
    ;

    /// Whether an action with the given success rate, in percent, succeeds.
    fn roll_success_raw(&mut self, success_rate: u8) -> (success: bool)
        ensures
            old(self).may_succeed(success_rate, success),
            forall|rate: u8, outcome: bool| #[trigger]
                final(self).may_succeed(rate, outcome) == old(self).may_succeed(rate, outcome),
            forall|other: Condition| #[trigger]
                final(self).may_roll(other) == old(self).may_roll(other),
    ;
}

/// Two simulators allow the same outcomes of both rolls.
pub open spec fn same_policy<S: Simulator>(a: S, b: S) -> bool {
    &&& forall|rate: u8, success: bool| #[trigger]
        a.may_succeed(rate, success) == b.may_succeed(rate, success)
    &&& forall|condition: Condition| #[trigger] a.may_roll(condition) == b.may_roll(condition)
}

/// Whether the simulator keeps to the conditions of a recipe: a re-roll gives
/// only conditions that the mask `conditions_flag` enables.
pub open spec fn rolls_within<S: Simulator>(sim: S, conditions_flag: u16) -> bool {
    forall|condition: Condition| #[trigger]
        sim.may_roll(condition) ==> condition.spec_is_enabled(conditions_flag)
}

/// A number cut off at the largest `u32`.
pub open spec fn saturate(x: int) -> u32 {
    if x > u32::MAX {
        u32::MAX
    } else if x < 0 {
        0
    } else {
        x as u32
    }
}

/// The floor of `factor` times the efficiency and the three modifiers, each
/// of which is a count of hundredths or tenths that `divisor` undoes, cut off
/// at the largest `u32`.
pub open spec fn scaled(
    factor: u64,
    efficiency: u32,
    first: u32,
    second: u32,
    third: u32,
    divisor: u32,
) -> u32 {
    saturate((factor * efficiency * first * second * third) / (divisor as int))
}

fn scale(factor: u64, efficiency: u32, first: u32, second: u32, third: u32, divisor: u32) -> (r:
    u32)
    requires
        first <= 1000,
        second <= 1000,
        third <= 1000,
        divisor > 0,
    ensures
        r == scaled(factor, efficiency, first, second, third, divisor),
{
    proof {
        lemma_mul_upper_bound(factor as int, u64::MAX as int, efficiency as int, u32::MAX as int);
        lemma_mul_upper_bound(
            factor * efficiency,
            u64::MAX * u32::MAX,
            first as int,
            1000,
        );
        lemma_mul_upper_bound(
            factor * efficiency * first,
            u64::MAX * u32::MAX * 1000,
            second as int,
            1000,
        );
        lemma_mul_upper_bound(
            factor * efficiency * first * second,
            u64::MAX * u32::MAX * 1000 * 1000,
            third as int,
            1000,
        );
        assert(u64::MAX * u32::MAX * 1000 * 1000 * 1000 <= u128::MAX) by (nonlinear_arith);
    }
    let product: u128 = (factor as u128) * (efficiency as u128) * (first as u128) * (
    second as u128) * (third as u128);
    let quotient: u128 = product / (divisor as u128);
    if quotient > u32::MAX as u128 {
        u32::MAX
    } else {
        quotient as u32
    }
}

/// The progress modifier of the buffs, in percent: 100, plus 100 under muscle
/// memory, plus 50 under veneration.
pub open spec fn progress_buff_percent(effects: Effects) -> u32 {
    (100 + if effects.muscle_memory > 0 {
        100int
    } else {
        0int
    } + if effects.veneration > 0 {
        50int
    } else {
        0int
    }) as u32
}

/// The progress modifier of the condition, in percent.
pub open spec fn progress_condition_percent(condition: Condition) -> u32 {
    if condition == Condition::Malleable {
        150
    } else {
        100
    }
}

/// The quality modifier of the buffs, in percent: 100, plus 100 under great
/// strides, plus 50 under innovation.
pub open spec fn quality_buff_percent(effects: Effects) -> u32 {
    (100 + if effects.great_strides > 0 {
        100int
    } else {
        0int
    } + if effects.innovation > 0 {
        50int
    } else {
        0int
    }) as u32
}

/// The quality modifier of the condition, in percent.
pub open spec fn quality_condition_percent(condition: Condition, splendorous: bool) -> u32 {
    match condition {
        Condition::Poor => 50,
        Condition::Good => if splendorous {
            175
        } else {
            150
        },
        Condition::Excellent => 400,
        _ => 100,
    }
}

/// The quality modifier of the inner quiet counter, in tenths.
pub open spec fn inner_quiet_tenths(effects: Effects) -> u32 {
    (10 + effects.inner_quiet) as u32
}

/// The progress that an efficiency, in percent, gains in a state: the floor of
/// the progress factor times efficiency, condition modifier and buff modifier.
pub open spec fn spec_progress_gain(input: Input, state: State, efficiency: u32) -> u32 {
    scaled(
        input.progress_factor,
        efficiency,
        progress_condition_percent(state.condition),
        progress_buff_percent(state.effects),
        1,
        1_000_000,
    )
}

/// The progress that an efficiency, in percent, gains in a state.
pub fn calculate_progress_gain(input: &Input, state: &State, efficiency: u32) -> (r: u32)
    ensures
        r == spec_progress_gain(*input, *state, efficiency),
{
    let mut buff: u32 = 100;
    if state.effects.muscle_memory > 0 {
        buff += 100;
    }
    if state.effects.veneration > 0 {
        buff += 50;
    }
    let condition: u32 = match state.condition {
        Condition::Malleable => 150,
        _ => 100,
    };
    scale(input.progress_factor, efficiency, condition, buff, 1, 1_000_000)
}

/// The quality that an efficiency, in percent, gains in a state: the floor of
/// the quality factor times efficiency, condition modifier, inner quiet
/// modifier and buff modifier.
pub open spec fn spec_quality_gain(input: Input, state: State, efficiency: u32) -> u32 {
    scaled(
        input.quality_factor,
        efficiency,
        quality_condition_percent(state.condition, input.has_splendorous_tool),
        inner_quiet_tenths(state.effects),
        quality_buff_percent(state.effects),
        10_000_000,
    )
}

/// The quality that an efficiency, in percent, gains in a state.
pub fn calculate_quality_gain(input: &Input, state: &State, efficiency: u32) -> (r: u32)
    ensures
        r == spec_quality_gain(*input, *state, efficiency),
{
    let mut buff: u32 = 100;
    if state.effects.great_strides > 0 {
        buff += 100;
    }
    if state.effects.innovation > 0 {
        buff += 50;
    }
    let inner_quiet: u32 = 10 + state.effects.inner_quiet as u32;
    let condition: u32 = match state.condition {
        Condition::Poor => 50,
        Condition::Good => if input.has_splendorous_tool {
            175
        } else {
            150
        },
        Condition::Excellent => 400,
        _ => 100,
    };
    scale(input.quality_factor, efficiency, condition, inner_quiet, buff, 10_000_000)
}

/// Half of a number, rounded up.
pub open spec fn half_up(x: int) -> int {
    -((-x) / 2)
}

/// What an action of base cost `amount` takes from the CP: half of it, rounded
/// up, under the pliant condition, and all of it otherwise.
pub open spec fn spec_cp_cost(state: State, amount: u32) -> u32 {
    if state.condition == Condition::Pliant {
        half_up(amount as int) as u32
    } else {
        amount
    }
}

/// What an action of base cost `amount` takes from the CP.
pub fn calculate_cp_cost(state: &State, amount: u32) -> (r: u32)
    ensures
        r == spec_cp_cost(*state, amount),
        r <= amount,
{
    if state.condition == Condition::Pliant {
        amount / 2 + amount % 2
    } else {
        amount
    }
}

/// What an action of base cost `amount` takes from the durability: half of it,
/// rounded up, under a conservation buff, and half of that again, rounded up,
/// under the sturdy condition.
pub open spec fn spec_durability_cost(state: State, amount: i8) -> i8 {
    let conserved = if state.effects.spec_is_waste_not_active() {
        half_up(amount as int)
    } else {
        amount as int
    };
    if state.condition == Condition::Sturdy {
        half_up(conserved) as i8
    } else {
        conserved as i8
    }
}

/// What a conservation buff and the sturdy condition do to the durability cost
/// of an action. Either of them alone makes it exactly half of the base cost,
/// rounded up. Both together make it half of that again, rounded up, which is
/// a quarter of the base cost, rounded up.
pub proof fn lemma_durability_cost_halves(state: State, amount: i8)
    ensures
        ({
            let cost = spec_durability_cost(state, amount) as int;
            let conserving = state.effects.spec_is_waste_not_active();
            let sturdy = state.condition == Condition::Sturdy;
            &&& !conserving && !sturdy ==> cost == amount
            &&& conserving != sturdy ==> cost == half_up(amount as int)
            &&& conserving != sturdy ==> 2 * (cost - 1) < amount <= 2 * cost
            &&& conserving && sturdy ==> cost == half_up(half_up(amount as int))
            &&& conserving && sturdy ==> 4 * (cost - 1) < amount <= 4 * cost
        }),
{
}

fn halve_up(x: i8) -> (r: i8)
    ensures
        r == half_up(x as int),
        x >= 0 ==> 0 <= r <= x,
        x <= 0 ==> x <= r <= 0,
{
    if x >= 0 {
        x / 2 + x % 2
    } else {
        let magnitude: i16 = -(x as i16);
        let halved: i16 = magnitude / 2;
        (-halved) as i8
    }
}

/// What an action of base cost `amount` takes from the durability.
pub fn calculate_durability_cost(state: &State, amount: i8) -> (r: i8)
    ensures
        r == spec_durability_cost(*state, amount),
        amount >= 0 ==> 0 <= r <= amount,
{
    let mut cost = amount;
    if state.effects.is_waste_not_active() {
        cost = halve_up(cost);
    }
    if state.condition == Condition::Sturdy {
        cost = halve_up(cost);
    }
    cost
}

/// The chance of success, in percent, of an action whose base rate is
/// `success_rate`: 25 more under the centered condition, and at most 100.
pub open spec fn spec_success_rate(state: State, success_rate: u8) -> u8 {
    let raised = if state.condition == Condition::Centered {
        success_rate + 25
    } else {
        success_rate as int
    };
    if raised > 100 {
        100
    } else {
        raised as u8
    }
}

/// The chance of success, in percent, of an action whose base rate is
/// `success_rate`.
pub fn calculate_success_rate(state: &State, success_rate: u8) -> (r: u8)
    ensures
        r == spec_success_rate(*state, success_rate),
        r <= 100,
{
    let mut rate: u16 = success_rate as u16;
    if state.condition == Condition::Centered {
        rate += 25;
    }
    if rate > 100 {
        100
    } else {
        rate as u8
    }
}

/// The inner quiet counter one stack higher, up to its cap.
pub open spec fn bump(inner_quiet: u8) -> u8 {
    if inner_quiet < INNER_QUIET_MAX {
        (inner_quiet + 1) as u8
    } else {
        inner_quiet
    }
}

pub(crate) fn bumped(inner_quiet: u8) -> (r: u8)
    ensures
        r == bump(inner_quiet),
{
    if inner_quiet < INNER_QUIET_MAX {
        inner_quiet + 1
    } else {
        inner_quiet
    }
}

/// Whether the player has reached `level`.
pub open spec fn spec_at_crafter_level(input: Input, level: u8) -> bool {
    input.player_job_level >= level
}

/// Whether the player has reached `level`.
pub fn at_crafter_level(input: &Input, level: u8) -> (r: bool)
    ensures
        r == spec_at_crafter_level(*input, level),
{
    input.player_job_level >= level
}

/// Whether no action that counts as a step was used yet.
pub open spec fn spec_is_first_step(state: State) -> bool {
    state.step == 0
}

/// Whether no action that counts as a step was used yet.
pub fn is_first_step(state: &State) -> (r: bool)
    ensures
        r == spec_is_first_step(*state),
{
    state.step == 0
}

/// Whether the actions that need a good condition can be used: the condition
/// is good or excellent, or heart and soul stands in for it.
pub open spec fn spec_is_in_good_condition(state: State) -> bool {
    state.condition == Condition::Good || state.condition == Condition::Excellent
        || state.effects.heart_and_soul
}

/// Whether the actions that need a good condition can be used.
pub fn is_in_good_condition(state: &State) -> (r: bool)
    ensures
        r == spec_is_in_good_condition(*state),
{
    match state.condition {
        Condition::Good | Condition::Excellent => true,
        _ => state.effects.heart_and_soul,
    }
}

/// The state after an action has used the good condition: heart and soul is
/// spent unless the condition itself was good or excellent.
pub open spec fn spec_consume_good_condition(state: State) -> State {
    if state.condition == Condition::Good || state.condition == Condition::Excellent {
        state
    } else {
        State { effects: Effects { heart_and_soul: false, ..state.effects }, ..state }
    }
}

/// Spends heart and soul unless the condition itself is good or excellent.
pub fn consume_good_condition(state: &mut State)
    ensures
        *final(state) == spec_consume_good_condition(*old(state)),
{
    match state.condition {
        Condition::Good | Condition::Excellent => {},
        _ => {
            state.effects.heart_and_soul = false;
        },
    }
}

/// The state after `amount` of progress was gained. Muscle memory is used up.
/// While a final appraisal runs, progress that would reach the target stops
/// one short of it, and the appraisal ends.
pub open spec fn spec_increase_progress_raw(input: Input, state: State, amount: u32) -> State {
    let raised = saturate(state.progress + amount);
    let held = state.effects.final_appraisal > 0 && raised >= input.progress_target;
    State {
        progress: if held {
            saturate(input.progress_target - 1)
        } else {
            raised
        },
        effects: Effects {
            muscle_memory: 0,
            final_appraisal: if held {
                0
            } else {
                state.effects.final_appraisal
            },
            ..state.effects
        },
        ..state
    }
}

/// Adds `amount` to the progress.
pub fn increase_progress_raw(input: &Input, state: &mut State, amount: u32)
    ensures
        *final(state) == spec_increase_progress_raw(*input, *old(state), amount),
{
    state.progress = state.progress.saturating_add(amount);
    state.effects.muscle_memory = 0;
    if state.effects.final_appraisal > 0 && state.progress >= input.progress_target {
        state.progress = input.progress_target.saturating_sub(1);
        state.effects.final_appraisal = 0;
    }
}

/// The state after an action of the given efficiency advanced the progress.
pub open spec fn spec_increase_progress(input: Input, state: State, efficiency: u32) -> State {
    spec_increase_progress_raw(input, state, spec_progress_gain(input, state, efficiency))
}

/// Advances the progress by what the efficiency gains in this state.
pub fn increase_progress(input: &Input, state: &mut State, efficiency: u32)
    ensures
        *final(state) == spec_increase_progress(*input, *old(state), efficiency),
{
    let amount = calculate_progress_gain(input, state, efficiency);
    increase_progress_raw(input, state, amount);
}

/// The state after `amount` of quality was gained. Great strides is used up,
/// and from level 11 on the inner quiet counter goes up by one.
pub open spec fn spec_increase_quality_raw(input: Input, state: State, amount: u32) -> State {
    State {
        quality: saturate(state.quality + amount),
        effects: Effects {
            great_strides: 0,
            inner_quiet: if spec_at_crafter_level(input, 11) {
                bump(state.effects.inner_quiet)
            } else {
                state.effects.inner_quiet
            },
            ..state.effects
        },
        ..state
    }
}

/// Adds `amount` to the quality.
pub fn increase_quality_raw(input: &Input, state: &mut State, amount: u32)
    ensures
        *final(state) == spec_increase_quality_raw(*input, *old(state), amount),
{
    state.quality = state.quality.saturating_add(amount);
    state.effects.great_strides = 0;
    if at_crafter_level(input, 11) {
        state.effects.inner_quiet = bumped(state.effects.inner_quiet);
    }
}

/// The state after an action of the given efficiency advanced the quality.
pub open spec fn spec_increase_quality(input: Input, state: State, efficiency: u32) -> State {
    spec_increase_quality_raw(input, state, spec_quality_gain(input, state, efficiency))
}

/// Advances the quality by what the efficiency gains in this state.
pub fn increase_quality(input: &Input, state: &mut State, efficiency: u32)
    ensures
        *final(state) == spec_increase_quality(*input, *old(state), efficiency),
{
    let amount = calculate_quality_gain(input, state, efficiency);
    increase_quality_raw(input, state, amount);
}

/// The state with `amount` taken from the CP.
pub open spec fn spec_reduce_cp_raw(state: State, amount: u32) -> State {
    State { cp: (state.cp - amount) as u32, ..state }
}

/// Takes `amount` from the CP, which must hold as much.
pub fn reduce_cp_raw(state: &mut State, amount: u32)
    requires
        amount <= old(state).cp,
    ensures
        *final(state) == spec_reduce_cp_raw(*old(state), amount),
{
    state.cp -= amount;
}

/// The state after an action of base cost `amount` was paid for in CP.
pub open spec fn spec_reduce_cp(state: State, amount: u32) -> State {
    spec_reduce_cp_raw(state, spec_cp_cost(state, amount))
}

/// Takes from the CP what an action of base cost `amount` costs in this state.
pub fn reduce_cp(state: &mut State, amount: u32)
    requires
        spec_cp_cost(*old(state), amount) <= old(state).cp,
    ensures
        *final(state) == spec_reduce_cp(*old(state), amount),
{
    let cost = calculate_cp_cost(state, amount);
    reduce_cp_raw(state, cost);
}

/// The state with `amount` taken from the durability.
pub open spec fn spec_reduce_durability_raw(state: State, amount: i8) -> State {
    State { durability: (state.durability - amount) as i8, ..state }
}

/// Takes `amount` from the durability, which may go to zero or below. The
/// difference must be one that the field can hold.
pub fn reduce_durability_raw(state: &mut State, amount: i8)
    requires
        i8::MIN <= old(state).durability - amount <= i8::MAX,
    ensures
        *final(state) == spec_reduce_durability_raw(*old(state), amount),
{
    state.durability -= amount;
}

/// The state after an action of base cost `amount` wore the durability down.
pub open spec fn spec_reduce_durability(state: State, amount: i8) -> State {
    spec_reduce_durability_raw(state, spec_durability_cost(state, amount))
}

/// Takes from the durability what an action of base cost `amount` costs in
/// this state.
pub fn reduce_durability(state: &mut State, amount: i8)
    requires
        i8::MIN <= old(state).durability - spec_durability_cost(*old(state), amount) <= i8::MAX,
    ensures
        *final(state) == spec_reduce_durability(*old(state), amount),
{
    let cost = calculate_durability_cost(state, amount);
    reduce_durability_raw(state, cost);
}

/// The state with `amount` given back to the CP, up to the cap.
pub open spec fn spec_restore_cp(input: Input, state: State, amount: u32) -> State {
    State {
        cp: if state.cp + amount <= input.cp_max {
            (state.cp + amount) as u32
        } else {
            input.cp_max
        },
        ..state
    }
}

/// Gives `amount` back to the CP, up to the cap.
pub fn restore_cp(input: &Input, state: &mut State, amount: u32)
    ensures
        *final(state) == spec_restore_cp(*input, *old(state), amount),
        final(state).cp <= input.cp_max,
{
    let raised: u64 = state.cp as u64 + amount as u64;
    if raised <= input.cp_max as u64 {
        state.cp = raised as u32;
    } else {
        state.cp = input.cp_max;
    }
}

/// The state with `amount` given back to the durability, up to the cap.
pub open spec fn spec_restore_durability(input: Input, state: State, amount: i8) -> State {
    State {
        durability: if state.durability + amount <= input.durability_max {
            (state.durability + amount) as i8
        } else {
            input.durability_max
        },
        ..state
    }
}

/// Gives `amount`, which is not negative, back to the durability, up to the
/// cap.
pub fn restore_durability(input: &Input, state: &mut State, amount: i8)
    requires
        amount >= 0,
    ensures
        *final(state) == spec_restore_durability(*input, *old(state), amount),
        final(state).durability <= input.durability_max,
{
    let raised: i16 = state.durability as i16 + amount as i16;
    if raised <= input.durability_max as i16 {
        state.durability = raised as i8;
    } else {
        state.durability = input.durability_max;
    }
}

/// Whether the condition is one that the end of a step re-rolls: every one
/// but poor, good, excellent and good omen, which have a fixed successor.
pub open spec fn rerolls(condition: Condition) -> bool {
    !(condition == Condition::Poor || condition == Condition::Good || condition
        == Condition::Excellent || condition == Condition::GoodOmen)
}

/// The condition that follows `condition` at the end of a step, where `rolled`
/// is what a re-roll gives: poor and good turn normal, excellent stays, a good
/// omen turns good, and every other condition is rolled again.
pub open spec fn spec_tick_condition(condition: Condition, rolled: Condition) -> Condition {
    match condition {
        Condition::Poor => Condition::Normal,
        Condition::Good => Condition::Normal,
        Condition::Excellent => Condition::Excellent,
        Condition::GoodOmen => Condition::Good,
        _ => rolled,
    }
}

/// Moves the condition on by one step, rolling it where it has no fixed
/// successor.
pub fn tick_condition<S: Simulator>(sim: &mut S, state: &mut State)
    ensures
        same_policy(*final(sim), *old(sim)),
        !rerolls(old(state).condition) ==> *final(sim) == *old(sim),
        rerolls(old(state).condition) ==> exists|rolled: Condition|
            #[trigger] old(sim).may_roll(rolled) && *final(state) == (State {
                condition: rolled,
                ..*old(state)
            }),
        !rerolls(old(state).condition) ==> *final(state) == (State {
            condition: spec_tick_condition(old(state).condition, Condition::Normal),
            ..*old(state)
        }),
{
    state.condition = match state.condition {
        Condition::Poor => Condition::Normal,
        Condition::Good => Condition::Normal,
        Condition::Excellent => Condition::Excellent,
        Condition::GoodOmen => Condition::Good,
        _ => sim.roll_condition(),
    };
}

/// Rolls for the success of an action whose base rate is `success_rate`
/// percent.
pub fn roll_success<S: Simulator>(sim: &mut S, state: &State, success_rate: u8) -> (r: bool)
    ensures
        old(sim).may_succeed(spec_success_rate(*state, success_rate), r),
        same_policy(*final(sim), *old(sim)),
{
    let rate = calculate_success_rate(state, success_rate);
    sim.roll_success_raw(rate)
}

} // verus!
