use crafty::executor::{
    execute_rotation, execute_with, get_completion_state, is_complete, ActionResponse,
    CompletionState, Executor,
};
use crafty::simulator::Simulator;
use crafty::simulator_no_rng::NoRngSimulator;
use crafty::{Action, Condition, CraftOptions, Input, Player, Recipe, State};

fn recipe() -> Recipe {
    Recipe {
        rlvl: 560,
        level: 90,
        progress_max: 3500,
        quality_max: 7200,
        durability_max: 80,
        progress_divider: 130,
        progress_modifier: 90,
        quality_divider: 115,
        quality_modifier: 80,
        is_expert: false,
        conditions_flag: 15,
    }
}

fn player() -> Player {
    let mut player = Player::new(90, 3304, 3374, 575);
    player.can_use_manipulation = true;
    player
}

fn input() -> Input {
    Input::new(&player(), &recipe(), CraftOptions { max_steps: 15, ..Default::default() })
}

fn run(input: &Input, rotation: &[Action]) -> State {
    let mut sim = NoRngSimulator::new();
    let mut state = State::initial(input);
    for action in rotation {
        assert!(sim.execute(input, &mut state, *action) == ActionResponse::UsedAction);
    }
    state
}

/// A simulator that plays back a list of outcomes.
struct Scripted {
    successes: Vec<bool>,
    conditions: Vec<Condition>,
    rates: Vec<u8>,
}

impl Simulator for Scripted {
    fn roll_condition(&mut self) -> Condition {
        self.conditions.remove(0)
    }

    fn roll_success_raw(&mut self, success_rate: u8) -> bool {
        self.rates.push(success_rate);
        self.successes.remove(0)
    }
}

impl Executor for Scripted {}

#[test]
fn reference_rotation_is_reproduced() {
    let input = input();
    let rotation = [
        Action::Reflect,
        Action::Manipulation,
        Action::PreparatoryTouch,
        Action::WasteNot2,
        Action::PreparatoryTouch,
        Action::Innovation,
        Action::PreparatoryTouch,
        Action::PreparatoryTouch,
        Action::GreatStrides,
        Action::ByregotsBlessing,
        Action::Veneration,
        Action::Groundwork,
        Action::Groundwork,
        Action::Groundwork,
    ];
    let expected: [(u32, u32, i8, u32); 14] = [
        (0, 262, 70, 569),
        (0, 262, 70, 473),
        (0, 890, 55, 433),
        (0, 890, 60, 335),
        (0, 1623, 55, 295),
        (0, 1623, 60, 277),
        (0, 2880, 55, 237),
        (0, 4294, 50, 197),
        (0, 4294, 55, 165),
        (0, 7438, 50, 141),
        (0, 7438, 50, 123),
        (1242, 7438, 30, 105),
        (2484, 7438, 10, 87),
        (3105, 7438, -10, 69),
    ];
    let mut sim = NoRngSimulator::new();
    let mut state = State::initial(&input);
    for (action, snapshot) in rotation.iter().zip(expected.iter()) {
        let response = sim.execute(&input, &mut state, *action);
        assert!(response == ActionResponse::UsedAction);
        assert_eq!((state.progress, state.quality, state.durability, state.cp), *snapshot);
    }
    assert_eq!(state.step, 14);
    assert_eq!(state.action, 14);
    assert_eq!(state.effects.inner_quiet, 0);
    assert_eq!(state.effects.veneration, 0);
    assert_eq!(state.condition, Condition::Normal);
}

#[test]
fn equal_inputs_give_equal_results() {
    let input = input();
    let rotation = [
        Action::MuscleMemory,
        Action::Manipulation,
        Action::Veneration,
        Action::WasteNot,
        Action::Groundwork,
        Action::BasicTouch,
        Action::StandardTouch,
        Action::AdvancedTouch,
    ];
    let first = run(&input, &rotation);
    let second = run(&input, &rotation);
    assert_eq!(first, second);
    assert_eq!(first.progress, 690 + 2070);
}

#[test]
fn a_finished_craft_takes_no_action() {
    let input = input();
    let mut sim = NoRngSimulator::new();
    let mut state = State::initial(&input);
    state.progress = 3500;
    let before = state;
    assert!(is_complete(&input, &state));
    assert!(get_completion_state(&input, &state) == CompletionState::ProgressComplete);
    let response = sim.execute(&input, &mut state, Action::BasicSynthesis);
    assert!(response == ActionResponse::SynthesisAlreadyComplete);
    assert_eq!(state, before);
}

#[test]
fn an_action_above_the_level_is_not_unlocked() {
    let low = Player::new(60, 3304, 3374, 575);
    let input = Input::new(&low, &recipe(), CraftOptions::default());
    let mut sim = NoRngSimulator::new();
    let mut state = State::initial(&input);
    let before = state;
    let response = sim.execute(&input, &mut state, Action::PreparatoryTouch);
    assert!(response == ActionResponse::ActionNotUnlocked);
    assert_eq!(state, before);
}

#[test]
fn manipulation_needs_its_permission() {
    let input = Input::new(&Player::new(90, 3304, 3374, 575), &recipe(), CraftOptions::default());
    let mut sim = NoRngSimulator::new();
    let mut state = State::initial(&input);
    let before = state;
    let response = sim.execute(&input, &mut state, Action::Manipulation);
    assert!(response == ActionResponse::ActionNotUnlocked);
    assert_eq!(state, before);
}

#[test]
fn too_little_cp_is_reported() {
    let input = input();
    let mut sim = NoRngSimulator::new();
    let mut state = State::initial(&input);
    state.cp = 17;
    let before = state;
    let response = sim.execute(&input, &mut state, Action::BasicTouch);
    assert!(response == ActionResponse::NotEnoughCP);
    assert_eq!(state, before);
    state.cp = 18;
    assert!(sim.execute(&input, &mut state, Action::BasicTouch) == ActionResponse::UsedAction);
    assert_eq!(state.cp, 0);
}

#[test]
fn an_action_against_its_own_rule_cannot_be_used() {
    let input = input();
    let mut sim = NoRngSimulator::new();
    let mut state = State::initial(&input);
    let before = state;
    assert!(
        sim.execute(&input, &mut state, Action::ByregotsBlessing)
            == ActionResponse::CannotUseAction
    );
    assert!(
        sim.execute(&input, &mut state, Action::IntensiveSynthesis)
            == ActionResponse::CannotUseAction
    );
    assert!(
        sim.execute(&input, &mut state, Action::TrainedFinesse) == ActionResponse::CannotUseAction
    );
    assert!(sim.execute(&input, &mut state, Action::TrainedEye) == ActionResponse::CannotUseAction);
    assert!(
        sim.execute(&input, &mut state, Action::CarefulObservation)
            == ActionResponse::CannotUseAction
    );
    assert_eq!(state, before);
    assert!(sim.execute(&input, &mut state, Action::BasicSynthesis) == ActionResponse::UsedAction);
    assert!(sim.execute(&input, &mut state, Action::Reflect) == ActionResponse::CannotUseAction);
    assert!(sim.execute(&input, &mut state, Action::MuscleMemory) == ActionResponse::CannotUseAction);
}

#[test]
fn exhausted_durability_is_a_failure_whatever_the_quality() {
    let input = input();
    let mut state = State::initial(&input);
    state.quality = 7200;
    state.durability = 0;
    assert!(get_completion_state(&input, &state) == CompletionState::NoMoreDurability);
    state.durability = -10;
    assert!(get_completion_state(&input, &state) == CompletionState::NoMoreDurability);
    assert!(is_complete(&input, &state));
    let mut sim = NoRngSimulator::new();
    let before = state;
    let response = sim.execute(&input, &mut state, Action::BasicSynthesis);
    assert!(response == ActionResponse::SynthesisAlreadyComplete);
    assert_eq!(state, before);
    state.durability = 1;
    assert!(get_completion_state(&input, &state) == CompletionState::Incomplete);
    assert!(!is_complete(&input, &state));
}

#[test]
fn progress_reached_with_the_last_durability_is_success() {
    let input = input();
    let mut state = State::initial(&input);
    state.progress = 3500;
    state.durability = -5;
    assert!(get_completion_state(&input, &state) == CompletionState::ProgressComplete);
}

#[test]
fn a_rotation_that_wears_the_item_out_fails() {
    let input = input();
    let mut sim = NoRngSimulator::new();
    let mut state = State::initial(&input);
    for _ in 0..8 {
        assert!(sim.execute(&input, &mut state, Action::BasicTouch) == ActionResponse::UsedAction);
    }
    assert_eq!(state.durability, 0);
    assert!(state.progress < input.progress_target);
    assert!(get_completion_state(&input, &state) == CompletionState::NoMoreDurability);
    assert!(
        sim.execute(&input, &mut state, Action::BasicSynthesis)
            == ActionResponse::SynthesisAlreadyComplete
    );
}

#[test]
fn the_touch_combo_is_discounted_only_in_a_row() {
    let input = input();
    let chained = run(&input, &[Action::BasicTouch, Action::StandardTouch, Action::AdvancedTouch]);
    assert_eq!(chained.cp, 575 - 18 - 18 - 18);
    let broken = run(&input, &[Action::BasicTouch, Action::Observe, Action::StandardTouch]);
    assert_eq!(broken.cp, 575 - 18 - 7 - 32);
    let late = run(
        &input,
        &[Action::BasicTouch, Action::StandardTouch, Action::Veneration, Action::AdvancedTouch],
    );
    assert_eq!(late.cp, 575 - 18 - 18 - 18 - 46);
    let unarmed = run(&input, &[Action::StandardTouch, Action::AdvancedTouch]);
    assert_eq!(unarmed.cp, 575 - 32 - 46);
    let twice = run(&input, &[Action::BasicTouch, Action::StandardTouch, Action::StandardTouch]);
    assert_eq!(twice.cp, 575 - 18 - 18 - 32);
    let appraised =
        run(&input, &[Action::BasicTouch, Action::FinalAppraisal, Action::StandardTouch]);
    assert_eq!(appraised.cp, 575 - 18 - 1 - 32);
}

#[test]
fn an_observation_makes_the_focused_actions_certain() {
    let input = input();
    let observed = run(&input, &[Action::Observe, Action::FocusedSynthesis]);
    assert_eq!(observed.progress, 460);
    assert_eq!(observed.cp, 575 - 7 - 5);
    let blind = run(&input, &[Action::FocusedSynthesis]);
    assert_eq!(blind.progress, 0);
    assert_eq!(blind.cp, 570);
    assert_eq!(blind.durability, 70);
    let stale = run(&input, &[Action::Observe, Action::Veneration, Action::FocusedTouch]);
    assert_eq!(stale.quality, 0);
}

#[test]
fn an_action_that_fails_still_costs() {
    let input = input();
    let state = run(&input, &[Action::RapidSynthesis, Action::HastyTouch]);
    assert_eq!(state.progress, 0);
    assert_eq!(state.quality, 0);
    assert_eq!(state.durability, 60);
    assert_eq!(state.step, 2);
    assert_eq!(state.effects.inner_quiet, 0);
}

#[test]
fn rolls_are_asked_in_order_and_at_the_right_rate() {
    let input = input();
    let mut sim = Scripted {
        successes: vec![true, false, true, true],
        conditions: vec![Condition::Centered, Condition::Good, Condition::Pliant],
        rates: vec![],
    };
    let mut state = State::initial(&input);
    assert!(sim.execute(&input, &mut state, Action::RapidSynthesis) == ActionResponse::UsedAction);
    assert_eq!(state.progress, 1150);
    assert_eq!(state.condition, Condition::Centered);
    assert!(sim.execute(&input, &mut state, Action::HastyTouch) == ActionResponse::UsedAction);
    assert_eq!(state.quality, 0);
    assert_eq!(state.condition, Condition::Good);
    assert!(sim.execute(&input, &mut state, Action::PreciseTouch) == ActionResponse::UsedAction);
    assert_eq!(state.quality, 589);
    assert_eq!(state.effects.inner_quiet, 2);
    assert_eq!(state.condition, Condition::Normal);
    assert!(sim.execute(&input, &mut state, Action::BasicTouch) == ActionResponse::UsedAction);
    assert_eq!(state.condition, Condition::Pliant);
    assert_eq!(sim.rates, vec![50, 85, 100, 100]);
    assert!(sim.conditions.is_empty());
    let before = state.cp;
    assert!(
        execute_with(&mut Scripted { successes: vec![], conditions: vec![Condition::Normal], rates: vec![] }, &input, &mut state, Action::Manipulation)
            == ActionResponse::UsedAction
    );
    assert_eq!(before - state.cp, 48);
    assert_eq!(state.effects.manipulation, 7);
}

#[test]
fn fixed_conditions_resolve_without_a_roll() {
    let input = input();
    for (from, to) in [
        (Condition::Poor, Condition::Normal),
        (Condition::Good, Condition::Normal),
        (Condition::Excellent, Condition::Excellent),
        (Condition::GoodOmen, Condition::Good),
    ] {
        let mut sim = Scripted { successes: vec![true], conditions: vec![], rates: vec![] };
        let mut state = State { condition: from, ..State::initial(&input) };
        assert!(sim.execute(&input, &mut state, Action::BasicSynthesis) == ActionResponse::UsedAction);
        assert_eq!(state.condition, to);
    }
}

#[test]
fn actions_that_are_no_step_leave_step_and_condition() {
    let mut specialist = player();
    specialist.is_specialist = true;
    let input = Input::new(&specialist, &recipe(), CraftOptions::default());
    let mut sim = NoRngSimulator::new();
    let mut state = State { condition: Condition::Good, ..State::initial(&input) };
    assert!(sim.execute(&input, &mut state, Action::FinalAppraisal) == ActionResponse::UsedAction);
    assert_eq!(state.step, 0);
    assert_eq!(state.action, 1);
    assert_eq!(state.condition, Condition::Good);
    assert_eq!(state.cp, 574);
    assert_eq!(state.effects.final_appraisal, 5);
    assert!(sim.execute(&input, &mut state, Action::HeartAndSoul) == ActionResponse::UsedAction);
    assert!(state.effects.heart_and_soul);
    assert!(state.action_states.used_heart_and_soul);
    assert!(sim.execute(&input, &mut state, Action::HeartAndSoul) == ActionResponse::CannotUseAction);
    assert_eq!(state.step, 0);
    assert_eq!(state.action, 2);
}

#[test]
fn careful_observation_moves_the_condition_three_times() {
    let mut specialist = player();
    specialist.is_specialist = true;
    let input = Input::new(&specialist, &recipe(), CraftOptions::default());
    let mut sim = Scripted {
        successes: vec![true, true, true],
        conditions: vec![Condition::GoodOmen, Condition::Sturdy],
        rates: vec![],
    };
    let mut state = State::initial(&input);
    assert!(sim.execute(&input, &mut state, Action::CarefulObservation) == ActionResponse::UsedAction);
    assert_eq!(state.condition, Condition::GoodOmen);
    assert!(sim.execute(&input, &mut state, Action::CarefulObservation) == ActionResponse::UsedAction);
    assert_eq!(state.condition, Condition::Good);
    assert!(sim.execute(&input, &mut state, Action::CarefulObservation) == ActionResponse::UsedAction);
    assert_eq!(state.condition, Condition::Normal);
    assert_eq!(state.action_states.careful_observation_count, 3);
    assert_eq!(state.step, 0);
    assert!(
        sim.execute(&input, &mut state, Action::CarefulObservation)
            == ActionResponse::CannotUseAction
    );
}

#[test]
fn heart_and_soul_survives_a_good_condition() {
    let mut specialist = player();
    specialist.is_specialist = true;
    let input = Input::new(&specialist, &recipe(), CraftOptions::default());
    let mut sim = NoRngSimulator::new();
    let mut state = State { condition: Condition::Good, ..State::initial(&input) };
    assert!(sim.execute(&input, &mut state, Action::HeartAndSoul) == ActionResponse::UsedAction);
    assert!(sim.execute(&input, &mut state, Action::TricksOfTheTrade) == ActionResponse::UsedAction);
    assert!(state.effects.heart_and_soul);
    assert_eq!(state.condition, Condition::Normal);
    assert!(sim.execute(&input, &mut state, Action::IntensiveSynthesis) == ActionResponse::UsedAction);
    assert!(!state.effects.heart_and_soul);
    assert_eq!(state.progress, 920);
    assert!(
        sim.execute(&input, &mut state, Action::IntensiveSynthesis)
            == ActionResponse::CannotUseAction
    );
}

#[test]
fn byregots_blessing_scales_with_inner_quiet_and_resets_it() {
    let input = input();
    let mut sim = NoRngSimulator::new();
    let mut state = State::initial(&input);
    state.effects.inner_quiet = 4;
    assert!(sim.execute(&input, &mut state, Action::ByregotsBlessing) == ActionResponse::UsedAction);
    assert_eq!(state.quality, 660);
    assert_eq!(state.effects.inner_quiet, 0);
    assert!(
        sim.execute(&input, &mut state, Action::ByregotsBlessing)
            == ActionResponse::CannotUseAction
    );
}

#[test]
fn trained_eye_sets_the_quality_to_its_target() {
    let input = Input::new(
        &player(),
        &Recipe { level: 80, rlvl: 430, ..recipe() },
        CraftOptions { max_steps: 15, starting_quality: Some(100), quality_target: None },
    );
    let mut sim = NoRngSimulator::new();
    let mut state = State::initial(&input);
    state.condition = Condition::Excellent;
    state.effects.great_strides = 2;
    assert!(sim.execute(&input, &mut state, Action::TrainedEye) == ActionResponse::UsedAction);
    assert_eq!(state.quality, 7200);
    assert_eq!(state.cp, 325);
    assert_eq!(state.durability, 70);
    assert_eq!(state.effects.inner_quiet, 1);
    assert!(sim.execute(&input, &mut state, Action::TrainedEye) == ActionResponse::CannotUseAction);
    let expert = Input { is_expert: true, ..input };
    let mut state = State::initial(&expert);
    assert!(sim.execute(&expert, &mut state, Action::TrainedEye) == ActionResponse::CannotUseAction);
}

#[test]
fn manipulation_mends_after_each_action_but_its_own() {
    let input = input();
    let mut sim = NoRngSimulator::new();
    let mut state = State::initial(&input);
    state.durability = 40;
    state.effects.manipulation = 2;
    assert!(sim.execute(&input, &mut state, Action::Manipulation) == ActionResponse::UsedAction);
    assert_eq!(state.durability, 40);
    assert_eq!(state.effects.manipulation, 7);
    assert!(sim.execute(&input, &mut state, Action::BasicSynthesis) == ActionResponse::UsedAction);
    assert_eq!(state.durability, 35);
    state.durability = 10;
    assert!(sim.execute(&input, &mut state, Action::BasicSynthesis) == ActionResponse::UsedAction);
    assert_eq!(state.durability, 0);
    state.durability = 78;
    assert!(sim.execute(&input, &mut state, Action::Observe) == ActionResponse::UsedAction);
    assert_eq!(state.durability, 80);
}

#[test]
fn inner_quiet_never_exceeds_ten() {
    let input = Input::new(
        &player(),
        &Recipe { quality_max: 4_000_000, ..recipe() },
        CraftOptions::default(),
    );
    let mut sim = NoRngSimulator::new();
    let mut state = State::initial(&input);
    for _ in 0..12 {
        state.durability = 80;
        state.cp = 575;
        assert!(sim.execute(&input, &mut state, Action::PreparatoryTouch) == ActionResponse::UsedAction);
        assert!(state.effects.inner_quiet <= 10);
    }
    assert_eq!(state.effects.inner_quiet, 10);
    for action in [Action::Veneration, Action::BasicSynthesis, Action::Observe, Action::MastersMend] {
        state.cp = 575;
        assert!(sim.execute(&input, &mut state, action) == ActionResponse::UsedAction);
        assert_eq!(state.effects.inner_quiet, 10);
    }
    assert!(sim.execute(&input, &mut state, Action::TrainedFinesse) == ActionResponse::UsedAction);
    assert_eq!(state.effects.inner_quiet, 10);
    assert_eq!(state.durability, 80);
}

#[test]
fn counters_stop_at_their_largest_value() {
    let input = input();
    let mut sim = NoRngSimulator::new();
    let mut state = State::initial(&input);
    state.step = 255;
    state.action = 254;
    assert!(sim.execute(&input, &mut state, Action::Observe) == ActionResponse::UsedAction);
    assert_eq!(state.step, 255);
    assert_eq!(state.action, 255);
    assert!(sim.execute(&input, &mut state, Action::Observe) == ActionResponse::UsedAction);
    assert_eq!(state.action, 255);
}

#[test]
fn groundwork_does_half_when_durability_falls_short() {
    let input = input();
    let mut sim = NoRngSimulator::new();
    let mut state = State::initial(&input);
    state.durability = 20;
    assert!(sim.execute(&input, &mut state, Action::Groundwork) == ActionResponse::UsedAction);
    assert_eq!(state.progress, 828);
    assert_eq!(state.durability, 0);
    let mut state = State::initial(&input);
    state.durability = 19;
    assert!(sim.execute(&input, &mut state, Action::Groundwork) == ActionResponse::UsedAction);
    assert_eq!(state.progress, 414);
    assert_eq!(state.durability, -1);
    let mut state = State::initial(&input);
    state.durability = 10;
    state.effects.waste_not = 2;
    assert!(sim.execute(&input, &mut state, Action::Groundwork) == ActionResponse::UsedAction);
    assert_eq!(state.progress, 828);
    assert_eq!(state.durability, 0);
}

#[test]
fn pliant_halves_what_an_action_costs_in_cp() {
    let input = input();
    let mut sim = NoRngSimulator::new();
    let mut state = State { condition: Condition::Pliant, ..State::initial(&input) };
    assert!(sim.execute(&input, &mut state, Action::CarefulSynthesis) == ActionResponse::UsedAction);
    assert_eq!(state.cp, 571);
    assert_eq!(state.progress, 414);
}

#[test]
fn a_rotation_is_stepped_through_to_its_end() {
    let input = input();
    let rotation = [
        Action::Reflect,
        Action::Manipulation,
        Action::PreparatoryTouch,
        Action::WasteNot2,
        Action::PreparatoryTouch,
        Action::Innovation,
        Action::PreparatoryTouch,
        Action::PreparatoryTouch,
        Action::GreatStrides,
        Action::ByregotsBlessing,
        Action::Veneration,
        Action::Groundwork,
        Action::Groundwork,
        Action::Groundwork,
    ];
    let mut sim = NoRngSimulator::new();
    let mut state = State::initial(&input);
    assert_eq!(execute_rotation(&mut sim, &input, &mut state, &rotation), None);
    assert_eq!((state.progress, state.quality, state.durability, state.cp), (3105, 7438, -10, 69));
    assert_eq!(state, run(&input, &rotation));
    let mut empty = State::initial(&input);
    assert_eq!(execute_rotation(&mut sim, &input, &mut empty, &[]), None);
    assert_eq!(empty, State::initial(&input));
}

#[test]
fn a_rotation_stops_at_the_first_rejection() {
    let input = input();
    let rotation =
        [Action::BasicTouch, Action::Reflect, Action::BasicSynthesis, Action::TrainedFinesse];
    let mut sim = NoRngSimulator::new();
    let mut state = State::initial(&input);
    assert_eq!(
        execute_rotation(&mut sim, &input, &mut state, &rotation),
        Some((1, ActionResponse::CannotUseAction))
    );
    assert_eq!(state, run(&input, &[Action::BasicTouch]));
    let mut worn = State { durability: 10, ..State::initial(&input) };
    assert_eq!(
        execute_rotation(
            &mut sim,
            &input,
            &mut worn,
            &[Action::BasicSynthesis, Action::BasicSynthesis]
        ),
        Some((1, ActionResponse::SynthesisAlreadyComplete))
    );
    assert_eq!(worn.durability, 0);
    assert_eq!(worn.progress, 276);
    let mut poor = State { cp: 20, ..State::initial(&input) };
    assert_eq!(
        execute_rotation(&mut sim, &input, &mut poor, &[Action::BasicTouch, Action::BasicTouch]),
        Some((1, ActionResponse::NotEnoughCP))
    );
    assert_eq!(poor.cp, 2);
}

#[test]
fn an_action_that_is_no_step_ticks_no_timer() {
    let mut specialist = player();
    specialist.is_specialist = true;
    let input = Input::new(&specialist, &recipe(), CraftOptions::default());
    let mut sim = NoRngSimulator::new();
    let mut state = State::initial(&input);
    state.cp = 100;
    state.effects.innovation = 2;
    state.effects.waste_not = 1;
    state.effects.manipulation = 3;
    state.durability = 40;
    let before = state;
    assert!(sim.execute(&input, &mut state, Action::FinalAppraisal) == ActionResponse::UsedAction);
    assert_eq!(state.cp, 99);
    assert_eq!(state.step, 0);
    assert_eq!(state.action, 1);
    assert_eq!(state.effects.final_appraisal, 5);
    assert_eq!(state.effects.innovation, 2);
    assert_eq!(state.effects.waste_not, 1);
    assert_eq!(state.effects.manipulation, 3);
    assert_eq!(state.condition, before.condition);
    assert!(sim.execute(&input, &mut state, Action::HeartAndSoul) == ActionResponse::UsedAction);
    assert!(sim.execute(&input, &mut state, Action::CarefulObservation) == ActionResponse::UsedAction);
    assert_eq!(state.effects.final_appraisal, 5);
    assert_eq!(state.effects.innovation, 2);
    assert_eq!(state.effects.waste_not, 1);
    assert_eq!(state.step, 0);
    assert_eq!(state.action, 3);
    assert!(sim.execute(&input, &mut state, Action::Observe) == ActionResponse::UsedAction);
    assert_eq!(state.effects.final_appraisal, 4);
    assert_eq!(state.effects.innovation, 1);
    assert_eq!(state.effects.waste_not, 0);
    assert_eq!(state.step, 1);
}

#[test]
fn final_appraisal_holds_for_five_steps() {
    let input = input();
    let mut sim = NoRngSimulator::new();
    let mut state = State::initial(&input);
    assert!(sim.execute(&input, &mut state, Action::FinalAppraisal) == ActionResponse::UsedAction);
    for left in [4u8, 3, 2, 1, 0] {
        assert!(state.effects.final_appraisal > 0);
        assert!(sim.execute(&input, &mut state, Action::Observe) == ActionResponse::UsedAction);
        assert_eq!(state.effects.final_appraisal, left);
    }
}
