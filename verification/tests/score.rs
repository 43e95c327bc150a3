use crafty::craft_state::Node;
use crafty::{
    Action, ActionSet, Condition, CraftOptions, CraftResult, Input, Player, Recipe, State,
};

fn input() -> Input {
    let recipe = Recipe {
        rlvl: 560,
        level: 90,
        progress_max: 3500,
        quality_max: 7200,
        durability_max: 80,
        progress_divider: 130,
        progress_modifier: 90,
        quality_divider: 115,
        quality_modifier: 80,
        is_expert: false,
        conditions_flag: 15,
    };
    let player = Player::new(90, 3304, 3374, 575);
    Input::new(&player, &recipe, CraftOptions { max_steps: 15, ..Default::default() })
}

fn finished(quality: u32, durability: i8, cp: u32, step: u8) -> State {
    State { progress: 3500, quality, durability, cp, step, action: step, ..State::default() }
}

#[test]
fn score_weighs_each_part() {
    let input = input();
    assert_eq!(finished(3600, 40, 115, 12).score(&input), 570_000);
    assert_eq!(finished(7200, 80, 575, 0).score(&input), 1_000_000);
    assert_eq!(finished(0, 0, 0, 15).score(&input), 200_000);
    assert_eq!(finished(7200, 0, 0, 15).score(&input), 850_000);
    assert_eq!(finished(0, 80, 0, 15).score(&input), 250_000);
    assert_eq!(finished(0, 0, 575, 15).score(&input), 250_000);
    assert_eq!(finished(0, 0, 0, 0).score(&input), 250_000);
}

#[test]
fn score_parts_are_rounded_down_and_clamped() {
    let input = input();
    assert_eq!(finished(1, 0, 0, 15).score(&input), 200_090);
    assert_eq!(finished(0, 1, 0, 15).score(&input), 200_625);
    assert_eq!(finished(0, 0, 1, 15).score(&input), 200_086);
    assert_eq!(finished(0, 0, 0, 14).score(&input), 203_333);
    assert_eq!(finished(9000, 100, 3000, 0).score(&input), 1_000_000);
    assert_eq!(finished(0, -20, 0, 200).score(&input), 200_000);
    let half = State { progress: 1750, ..finished(0, 0, 0, 15) };
    assert_eq!(half.score(&input), 100_000);
    let over = State { progress: u32::MAX, ..finished(0, 0, 0, 15) };
    assert_eq!(over.score(&input), 200_000);
}

#[test]
fn score_without_targets_is_full() {
    let input = Input {
        progress_target: 0,
        quality_target: 0,
        durability_max: 0,
        cp_max: 0,
        action_max: 0,
        ..input()
    };
    assert_eq!(State::default().score(&input), 1_000_000);
    assert_eq!(State::default().score_no_quality(&input), 1_000_000);
}

#[test]
fn score_without_quality_counts_the_steps_saved() {
    let input = input();
    assert_eq!(finished(0, 0, 0, 3).score_no_quality(&input), 800_000);
    assert_eq!(finished(7200, 80, 575, 3).score_no_quality(&input), 800_000);
    assert_eq!(finished(0, 0, 0, 0).score_no_quality(&input), 1_000_000);
    assert_eq!(finished(0, 0, 0, 15).score_no_quality(&input), 0);
    assert_eq!(finished(0, 0, 0, 16).score_no_quality(&input), 0);
    assert_eq!(finished(0, 0, 0, 14).score_no_quality(&input), 66_666);
}

#[test]
fn a_result_is_worth_its_score() {
    assert_eq!(CraftResult::Finished(123).score(), 123);
    assert_eq!(CraftResult::DurabilityFailure.score(), 0);
    assert_eq!(CraftResult::MaxStepsFailure.score(), 0);
    assert_eq!(CraftResult::InvalidActionFailure.score(), 0);
}

#[test]
fn a_craft_ends_in_one_way() {
    let input = input();
    let start = State::initial(&input);
    assert_eq!(Node::new(&input, start).check_result(&input), None);
    let done = State { progress: 3500, durability: -5, action: 15, step: 15, ..start };
    assert_eq!(
        Node::new(&input, done).check_result(&input),
        Some(CraftResult::Finished(250_000))
    );
    let worn = State { durability: 0, action: 15, quality: 7200, ..start };
    assert_eq!(
        Node::new(&input, worn).check_result(&input),
        Some(CraftResult::DurabilityFailure)
    );
    let below = State { durability: -10, quality: 7200, ..start };
    assert_eq!(
        Node::new(&input, below).check_result(&input),
        Some(CraftResult::DurabilityFailure)
    );
    let late = State { action: 15, ..start };
    assert_eq!(Node::new(&input, late).check_result(&input), Some(CraftResult::MaxStepsFailure));
    let stuck = Input { action_pool: ActionSet::new(), ..input };
    assert_eq!(
        Node::new(&stuck, start).check_result(&stuck),
        Some(CraftResult::InvalidActionFailure)
    );
}

#[test]
fn a_finished_craft_without_a_quality_target_is_scored_for_brevity() {
    let input = Input { quality_target: 0, ..input() };
    let done = State { progress: 3500, step: 6, action: 6, ..State::initial(&input) };
    assert_eq!(
        Node::new(&input, done).check_result(&input),
        Some(CraftResult::Finished(600_000))
    );
}

#[test]
fn conditions_have_their_flags() {
    let all = [
        (Condition::Normal, 0x0001u16),
        (Condition::Good, 0x0002),
        (Condition::Excellent, 0x0004),
        (Condition::Poor, 0x0008),
        (Condition::Centered, 0x0010),
        (Condition::Sturdy, 0x0020),
        (Condition::Pliant, 0x0040),
        (Condition::Malleable, 0x0080),
        (Condition::Primed, 0x0100),
        (Condition::GoodOmen, 0x0200),
    ];
    for (condition, flag) in all {
        assert_eq!(condition.flag(), flag);
        assert!(condition.is_enabled(flag));
        assert!(condition.is_enabled(0xffff));
        assert_eq!(condition.is_enabled(0), condition == Condition::Normal);
        assert_eq!(condition.is_enabled(15), flag <= 8);
    }
    assert_eq!(Condition::default(), Condition::Normal);
    assert_eq!(Action::Observe.index(), 19);
}
