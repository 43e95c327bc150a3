use crafty::craft_state::{Node, SCORE_ONE};
use crafty::executor::{ActionResponse, Executor};
use crafty::simulator_no_rng::NoRngSimulator;
use crafty::solver::{floor_log2, floor_sqrt, record, strict_node, ucb, Playout};
use crafty::{
    ActionSet, CraftOptions, CraftResult, Input, Player, Recipe, SearchOptions, Solver, State,
};
use rand::rngs::SmallRng;
use rand::SeedableRng;

fn recipe() -> Recipe {
    Recipe {
        rlvl: 560,
        level: 90,
        progress_max: 3500,
        quality_max: 7200,
        durability_max: 80,
        progress_divider: 130,
        progress_modifier: 90,
        quality_divider: 115,
        quality_modifier: 80,
        is_expert: false,
        conditions_flag: 15,
    }
}

fn player() -> Player {
    let mut player = Player::new(90, 3304, 3374, 575);
    player.can_use_manipulation = true;
    player
}

fn hard() -> Input {
    Input::new(&player(), &recipe(), CraftOptions { max_steps: 15, ..Default::default() })
}

fn easy() -> Input {
    Input::new(
        &player(),
        &Recipe { progress_max: 500, ..recipe() },
        CraftOptions { max_steps: 15, starting_quality: None, quality_target: Some(0) },
    )
}

fn options(iterations: u32, rng_seed: u64) -> SearchOptions {
    SearchOptions { iterations, rng_seed, ..SearchOptions::default() }
}

fn replay(input: &Input, playout: &Playout) -> State {
    let mut sim = NoRngSimulator::new();
    let mut state = State::initial(input);
    for action in &playout.rotation {
        assert!(sim.execute(input, &mut state, *action) == ActionResponse::UsedAction);
    }
    state
}

fn node(visits: u32, score_sum: u64, max_score: u32) -> Node {
    Node {
        state: State::default(),
        action: None,
        score_sum,
        max_score,
        visits,
        available_moves: ActionSet::new(),
    }
}

#[test]
fn logarithm_is_rounded_down() {
    for (n, log) in [
        (0u32, 0u32),
        (1, 0),
        (2, 1),
        (3, 1),
        (4, 2),
        (7, 2),
        (8, 3),
        (1023, 9),
        (1024, 10),
        (u32::MAX, 31),
    ] {
        assert_eq!(floor_log2(n), log);
    }
}

#[test]
fn square_root_is_rounded_down() {
    for (x, root) in [
        (0u64, 0u64),
        (1, 1),
        (3, 1),
        (4, 2),
        (99, 9),
        (100, 10),
        (693_147, 832),
        (u64::MAX, 4294967295),
        (18446744065119617025, 4294967295),
        (18446744065119617024, 4294967294),
    ] {
        assert_eq!(floor_sqrt(x), root);
    }
}

#[test]
fn selection_value_adds_score_and_bonus() {
    let defaults = SearchOptions::default();
    assert_eq!(defaults.exploration_constant, 1_500_000);
    assert_eq!(defaults.max_score_weighting, 10);
    assert_eq!(defaults.iterations, 100_000);
    assert_eq!(ucb(16, &node(4, 2_000_000, 800_000), &defaults), 1_778_000);
    assert_eq!(ucb(16, &node(0, 0, 0), &defaults), u64::MAX);
    assert_eq!(ucb(1, &node(1, 400_000, 400_000), &defaults), 400_000);
    let greedy = SearchOptions { exploration_constant: 0, max_score_weighting: 100, ..defaults };
    assert_eq!(ucb(16, &node(4, 2_000_000, 800_000), &greedy), 800_000);
    let over = SearchOptions { max_score_weighting: 250, ..greedy };
    assert_eq!(ucb(16, &node(4, 2_000_000, 800_000), &over), 800_000);
    let mean = SearchOptions { exploration_constant: 0, max_score_weighting: 0, ..defaults };
    assert_eq!(ucb(16, &node(4, 2_000_001, 800_000), &mean), 500_000);
}

#[test]
fn a_recorded_score_counts_once() {
    let fresh = node(0, 0, 0);
    let once = record(fresh, 300_000);
    assert_eq!((once.visits, once.score_sum, once.max_score), (1, 300_000, 300_000));
    let twice = record(once, 100_000);
    assert_eq!((twice.visits, twice.score_sum, twice.max_score), (2, 400_000, 300_000));
    let thrice = record(twice, SCORE_ONE);
    assert_eq!((thrice.visits, thrice.score_sum, thrice.max_score), (3, 1_400_000, 1_000_000));
    let full = node(u32::MAX, 5, 2);
    let still = record(full, 7);
    assert_eq!((still.visits, still.score_sum, still.max_score), (u32::MAX, 5, 7));
}

#[test]
fn no_iteration_gives_no_playout() {
    let mut sim = NoRngSimulator::new();
    assert_eq!(Solver::search(&mut sim, &hard(), &options(0, 1)), None);
}

#[test]
fn one_iteration_gives_a_playout() {
    let input = hard();
    let mut sim = NoRngSimulator::new();
    let playout = Solver::search(&mut sim, &input, &options(1, 1)).unwrap();
    assert!(!playout.rotation.is_empty());
    assert_eq!(replay(&input, &playout), playout.state);
}

#[test]
fn a_short_craft_is_finished_in_one_step() {
    let input = easy();
    let mut sim = NoRngSimulator::new();
    let playout = Solver::search(&mut sim, &input, &options(200, 5)).unwrap();
    assert_eq!(playout.result, CraftResult::Finished(933_333));
    assert_eq!(playout.rotation.len(), 1);
    assert!(playout.state.progress >= 500);
    assert_eq!(playout.state.step, 1);
    assert_eq!(replay(&input, &playout), playout.state);
    assert_eq!(playout.state.score_no_quality(&input), 933_333);
}

#[test]
fn the_best_playout_replays_to_its_state() {
    let input = hard();
    for seed in 0..5 {
        let mut sim = NoRngSimulator::new();
        let playout = Solver::search(&mut sim, &input, &options(300, seed)).unwrap();
        let end = replay(&input, &playout);
        assert_eq!(end, playout.state);
        let moves = strict_node(&input, end, None);
        assert_eq!(moves.check_result(&input), Some(playout.result));
        match playout.result {
            CraftResult::Finished(score) => {
                assert!(end.progress >= input.progress_target);
                assert_eq!(score, end.score(&input));
                assert!(score <= SCORE_ONE);
            },
            CraftResult::DurabilityFailure => assert!(end.durability <= 0),
            CraftResult::MaxStepsFailure => assert!(end.action >= input.action_max),
            CraftResult::InvalidActionFailure => assert!(moves.available_moves.is_empty()),
        }
    }
}

#[test]
fn equal_seeds_give_equal_searches() {
    let input = hard();
    let mut sim = NoRngSimulator::new();
    let first = Solver::search(&mut sim, &input, &options(400, 42));
    let second = Solver::search(&mut sim, &input, &options(400, 42));
    assert!(first.is_some());
    assert_eq!(first, second);
    let mut differs = false;
    for seed in 0..20 {
        if Solver::search(&mut sim, &input, &options(50, seed)) != first {
            differs = true;
        }
    }
    assert!(differs);
}

#[test]
fn every_iteration_visits_the_root() {
    let input = hard();
    let mut sim = NoRngSimulator::new();
    let mut rng = SmallRng::seed_from_u64(9);
    let search = options(0, 9);
    let mut solver = Solver::new(&sim, &input);
    assert_eq!(solver.root().visits, 0);
    assert_eq!(solver.root().available_moves.len(), 22);
    assert!(solver.best().is_none());
    let mut best = 0;
    for done in 1..=60u32 {
        solver.iterate(&mut sim, &mut rng, &input, &search);
        let root = solver.root();
        assert_eq!(root.visits, done);
        assert!(root.score_sum <= done as u64 * SCORE_ONE as u64);
        assert!(root.max_score >= best);
        best = root.max_score;
        assert_eq!(root.state, State::initial(&input));
        assert_eq!(solver.best().as_ref().unwrap().result.score(), best);
        if done <= 22 {
            assert_eq!(root.available_moves.len(), 22 - done as usize);
        } else {
            assert!(root.available_moves.is_empty());
        }
    }
    let playout = solver.into_best().unwrap();
    assert_eq!(replay(&input, &playout), playout.state);
}

#[test]
fn more_iterations_never_score_less() {
    let input = hard();
    let mut sim = NoRngSimulator::new();
    let few = Solver::search(&mut sim, &input, &options(20, 3)).unwrap();
    let many = Solver::search(&mut sim, &input, &options(2000, 3)).unwrap();
    assert!(many.result.score() >= few.result.score());
}

#[test]
fn a_craft_that_has_ended_is_played_out_at_once() {
    let input = Input::new(&player(), &recipe(), CraftOptions::default());
    let mut sim = NoRngSimulator::new();
    let playout = Solver::search(&mut sim, &input, &options(3, 0)).unwrap();
    assert!(playout.rotation.is_empty());
    assert_eq!(playout.state, State::initial(&input));
    assert_eq!(playout.result, CraftResult::MaxStepsFailure);
    let none = Input { progress_target: 0, ..input };
    let playout = Solver::search(&mut sim, &none, &options(3, 0)).unwrap();
    assert_eq!(playout.result, CraftResult::Finished(350_000));
}

#[test]
fn a_run_counts_its_iterations_at_the_root() {
    let input = hard();
    let mut sim = NoRngSimulator::new();
    let mut rng = SmallRng::seed_from_u64(11);
    let mut solver = Solver::new(&sim, &input);
    solver.run(&mut sim, &mut rng, &input, &options(0, 11));
    assert_eq!(solver.root().visits, 0);
    assert!(solver.best().is_none());
    solver.run(&mut sim, &mut rng, &input, &options(37, 11));
    assert_eq!(solver.root().visits, 37);
    let first = solver.root().max_score;
    assert_eq!(solver.best().as_ref().unwrap().result.score(), first);
    solver.run(&mut sim, &mut rng, &input, &options(37, 11));
    assert_eq!(solver.root().visits, 74);
    assert!(solver.root().max_score >= first);
    assert_eq!(solver.best().as_ref().unwrap().result.score(), solver.root().max_score);
    let whole = Solver::search(&mut sim, &input, &options(74, 11));
    assert_eq!(*solver.best(), whole);
}
