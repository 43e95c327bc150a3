use crafty::simulator::{
    calculate_cp_cost, calculate_durability_cost, calculate_progress_gain,
    calculate_quality_gain, calculate_success_rate, increase_progress_raw, increase_quality_raw,
    reduce_cp, reduce_durability, restore_cp, restore_durability,
};
use crafty::{Condition, CraftOptions, Effects, Input, Player, Recipe, State};

fn recipe() -> Recipe {
    Recipe {
        rlvl: 560,
        level: 90,
        progress_max: 3500,
        quality_max: 7200,
        durability_max: 80,
        progress_divider: 130,
        progress_modifier: 90,
        quality_divider: 115,
        quality_modifier: 80,
        is_expert: false,
        conditions_flag: 15,
    }
}

fn input() -> Input {
    let player = Player::new(90, 3304, 3374, 575);
    Input::new(&player, &recipe(), CraftOptions { max_steps: 15, ..Default::default() })
}

fn in_condition(condition: Condition) -> State {
    State { condition, ..State::initial(&input()) }
}

#[test]
fn progress_gain_is_the_floor_of_the_product() {
    let input = input();
    let mut state = State::initial(&input);
    assert_eq!(calculate_progress_gain(&input, &state, 100), 230);
    assert_eq!(calculate_progress_gain(&input, &state, 120), 276);
    assert_eq!(calculate_progress_gain(&input, &state, 360), 828);
    state.effects.veneration = 1;
    assert_eq!(calculate_progress_gain(&input, &state, 120), 414);
    assert_eq!(calculate_progress_gain(&input, &state, 360), 1242);
    state.effects.muscle_memory = 3;
    assert_eq!(calculate_progress_gain(&input, &state, 120), 690);
    state.effects.veneration = 0;
    assert_eq!(calculate_progress_gain(&input, &state, 120), 552);
    assert_eq!(calculate_progress_gain(&input, &state, 0), 0);
}

#[test]
fn progress_gain_rounds_down() {
    let mut input = input();
    input.progress_factor = 7;
    let state = State::initial(&input);
    assert_eq!(calculate_progress_gain(&input, &state, 125), 8);
    assert_eq!(calculate_progress_gain(&input, &state, 150), 10);
    let malleable = State { condition: Condition::Malleable, ..state };
    assert_eq!(calculate_progress_gain(&input, &malleable, 125), 13);
}

#[test]
fn progress_gain_under_the_malleable_condition() {
    let input = input();
    assert_eq!(calculate_progress_gain(&input, &in_condition(Condition::Malleable), 100), 345);
    assert_eq!(calculate_progress_gain(&input, &in_condition(Condition::Good), 100), 230);
    assert_eq!(calculate_progress_gain(&input, &in_condition(Condition::Sturdy), 100), 230);
}

#[test]
fn quality_gain_is_the_floor_of_the_product() {
    let input = input();
    let mut state = State::initial(&input);
    assert_eq!(calculate_quality_gain(&input, &state, 100), 262);
    state.effects.inner_quiet = 2;
    assert_eq!(calculate_quality_gain(&input, &state, 200), 628);
    state.effects.inner_quiet = 10;
    assert_eq!(calculate_quality_gain(&input, &state, 100), 524);
    state.effects.great_strides = 1;
    assert_eq!(calculate_quality_gain(&input, &state, 300), 3144);
    state.effects.innovation = 1;
    assert_eq!(calculate_quality_gain(&input, &state, 100), 1310);
    state.effects.great_strides = 0;
    assert_eq!(calculate_quality_gain(&input, &state, 100), 786);
}

#[test]
fn quality_gain_under_each_condition() {
    let mut input = input();
    assert_eq!(calculate_quality_gain(&input, &in_condition(Condition::Normal), 100), 262);
    assert_eq!(calculate_quality_gain(&input, &in_condition(Condition::Poor), 100), 131);
    assert_eq!(calculate_quality_gain(&input, &in_condition(Condition::Good), 100), 393);
    assert_eq!(calculate_quality_gain(&input, &in_condition(Condition::Excellent), 100), 1048);
    assert_eq!(calculate_quality_gain(&input, &in_condition(Condition::Malleable), 100), 262);
    assert_eq!(calculate_quality_gain(&input, &in_condition(Condition::GoodOmen), 100), 262);
    input.has_splendorous_tool = true;
    assert_eq!(calculate_quality_gain(&input, &in_condition(Condition::Good), 100), 458);
    assert_eq!(calculate_quality_gain(&input, &in_condition(Condition::Excellent), 100), 1048);
}

#[test]
fn gains_are_cut_off_at_the_largest_value() {
    let mut input = input();
    input.progress_factor = u64::MAX;
    input.quality_factor = u64::MAX;
    let state = State::initial(&input);
    assert_eq!(calculate_progress_gain(&input, &state, u32::MAX), u32::MAX);
    assert_eq!(calculate_quality_gain(&input, &state, u32::MAX), u32::MAX);
}

#[test]
fn cp_cost_is_halved_and_rounded_up_when_pliant() {
    let pliant = in_condition(Condition::Pliant);
    let normal = in_condition(Condition::Normal);
    assert_eq!(calculate_cp_cost(&pliant, 7), 4);
    assert_eq!(calculate_cp_cost(&pliant, 18), 9);
    assert_eq!(calculate_cp_cost(&pliant, 1), 1);
    assert_eq!(calculate_cp_cost(&pliant, 0), 0);
    assert_eq!(calculate_cp_cost(&pliant, u32::MAX), 2147483648);
    assert_eq!(calculate_cp_cost(&normal, 7), 7);
    assert_eq!(calculate_cp_cost(&in_condition(Condition::Sturdy), 7), 7);
}

#[test]
fn durability_cost_halves_compose() {
    let plain = in_condition(Condition::Normal);
    let sturdy = in_condition(Condition::Sturdy);
    let mut conserving = plain;
    conserving.effects.waste_not = 2;
    let mut both = sturdy;
    both.effects.waste_not_ii = 1;
    for (base, half, quarter) in [(0i8, 0i8, 0i8), (5, 3, 2), (10, 5, 3), (20, 10, 5)] {
        assert_eq!(calculate_durability_cost(&plain, base), base);
        assert_eq!(calculate_durability_cost(&conserving, base), half);
        assert_eq!(calculate_durability_cost(&sturdy, base), half);
        assert_eq!(calculate_durability_cost(&both, base), quarter);
    }
    assert_eq!(calculate_durability_cost(&both, 127), 32);
    assert_eq!(calculate_durability_cost(&conserving, -5), -2);
    assert_eq!(calculate_durability_cost(&both, -128), -32);
}

#[test]
fn success_rate_is_raised_when_centered_and_capped() {
    let normal = in_condition(Condition::Normal);
    let centered = in_condition(Condition::Centered);
    assert_eq!(calculate_success_rate(&normal, 50), 50);
    assert_eq!(calculate_success_rate(&normal, 100), 100);
    assert_eq!(calculate_success_rate(&normal, 0), 0);
    assert_eq!(calculate_success_rate(&centered, 50), 75);
    assert_eq!(calculate_success_rate(&centered, 60), 85);
    assert_eq!(calculate_success_rate(&centered, 100), 100);
    assert_eq!(calculate_success_rate(&centered, 250), 100);
    assert_eq!(calculate_success_rate(&normal, 250), 100);
}

#[test]
fn final_appraisal_holds_the_progress_one_short() {
    let input = input();
    let mut state = State::initial(&input);
    state.progress = 3000;
    state.effects.final_appraisal = 3;
    state.effects.muscle_memory = 2;
    increase_progress_raw(&input, &mut state, 600);
    assert_eq!(state.progress, 3499);
    assert_eq!(state.effects.final_appraisal, 0);
    assert_eq!(state.effects.muscle_memory, 0);
    increase_progress_raw(&input, &mut state, 1);
    assert_eq!(state.progress, 3500);
}

#[test]
fn final_appraisal_stays_while_the_target_is_out_of_reach() {
    let input = input();
    let mut state = State::initial(&input);
    state.effects.final_appraisal = 3;
    increase_progress_raw(&input, &mut state, 3499);
    assert_eq!(state.progress, 3499);
    assert_eq!(state.effects.final_appraisal, 3);
}

#[test]
fn quality_gain_stacks_inner_quiet_up_to_ten() {
    let input = input();
    let mut state = State::initial(&input);
    state.effects.great_strides = 2;
    for expected in [1u8, 2, 3, 4, 5, 6, 7, 8, 9, 10, 10, 10] {
        increase_quality_raw(&input, &mut state, 10);
        assert_eq!(state.effects.inner_quiet, expected);
        assert_eq!(state.effects.great_strides, 0);
    }
    assert_eq!(state.quality, 120);
}

#[test]
fn quality_gain_below_level_eleven_stacks_nothing() {
    let mut input = input();
    input.player_job_level = 10;
    let mut state = State::initial(&input);
    increase_quality_raw(&input, &mut state, 10);
    assert_eq!(state.effects.inner_quiet, 0);
    assert_eq!(state.quality, 10);
}

#[test]
fn meters_stop_at_the_largest_value() {
    let input = input();
    let mut state = State::initial(&input);
    state.progress = u32::MAX - 5;
    state.quality = u32::MAX - 5;
    increase_progress_raw(&input, &mut state, 100);
    increase_quality_raw(&input, &mut state, 100);
    assert_eq!(state.progress, u32::MAX);
    assert_eq!(state.quality, u32::MAX);
}

#[test]
fn restoring_is_clamped_to_the_caps() {
    let input = input();
    let mut state = State::initial(&input);
    state.cp = 560;
    state.durability = 60;
    restore_cp(&input, &mut state, 20);
    restore_durability(&input, &mut state, 30);
    assert_eq!(state.cp, 575);
    assert_eq!(state.durability, 80);
    state.cp = 100;
    state.durability = 10;
    restore_cp(&input, &mut state, 20);
    restore_durability(&input, &mut state, 30);
    assert_eq!(state.cp, 120);
    assert_eq!(state.durability, 40);
}

#[test]
fn costs_are_taken_from_the_state() {
    let input = input();
    let mut state = State::initial(&input);
    state.condition = Condition::Pliant;
    reduce_cp(&mut state, 7);
    assert_eq!(state.cp, 571);
    state.condition = Condition::Sturdy;
    state.effects.waste_not = 1;
    reduce_durability(&mut state, 10);
    assert_eq!(state.durability, 77);
    state.durability = 2;
    reduce_durability(&mut state, 20);
    assert_eq!(state.durability, -3);
}

#[test]
fn timers_saturate_at_zero() {
    let mut effects = Effects {
        inner_quiet: 7,
        waste_not: 1,
        waste_not_ii: 2,
        manipulation: 0,
        great_strides: 3,
        innovation: 1,
        veneration: 0,
        muscle_memory: 5,
        final_appraisal: 2,
        heart_and_soul: true,
    };
    effects.decrement_timers();
    assert_eq!(
        effects,
        Effects {
            inner_quiet: 7,
            waste_not: 0,
            waste_not_ii: 1,
            manipulation: 0,
            great_strides: 2,
            innovation: 0,
            veneration: 0,
            muscle_memory: 4,
            final_appraisal: 1,
            heart_and_soul: true,
        }
    );
    for _ in 0..300 {
        effects.decrement_timers();
    }
    assert_eq!(effects, Effects { inner_quiet: 7, heart_and_soul: true, ..Effects::default() });
    assert!(!effects.is_waste_not_active());
    effects.waste_not_ii = 1;
    assert!(effects.is_waste_not_active());
}
