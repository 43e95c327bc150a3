use crafty::{Action, CraftOptions, Input, Player, Recipe, State};

fn recipe(rlvl: u32, level: u8) -> Recipe {
    Recipe {
        rlvl,
        level,
        progress_max: 3500,
        quality_max: 7200,
        durability_max: 80,
        progress_divider: 130,
        progress_modifier: 90,
        quality_divider: 115,
        quality_modifier: 80,
        is_expert: false,
        conditions_flag: 15,
    }
}

#[test]
fn crafter_levels_follow_the_table() {
    assert_eq!(Player::new(0, 0, 0, 0).clvl(), None);
    assert_eq!(Player::new(50, 0, 0, 0).clvl(), None);
    let expected: [u32; 40] = [
        120, 125, 130, 133, 136, 139, 142, 145, 148, 150, 260, 265, 270, 273, 276, 279, 282, 285,
        288, 290, 390, 395, 400, 403, 406, 409, 412, 415, 418, 420, 517, 520, 525, 530, 535, 540,
        545, 550, 555, 560,
    ];
    for (i, clvl) in expected.iter().enumerate() {
        assert_eq!(Player::new(51 + i as u8, 0, 0, 0).clvl(), Some(*clvl));
    }
}

#[test]
fn new_player_has_no_permission_or_tool() {
    let player = Player::new(90, 3304, 3374, 575);
    assert_eq!(player.level, 90);
    assert_eq!(player.craftsmanship, 3304);
    assert_eq!(player.control, 3374);
    assert_eq!(player.cp, 575);
    assert!(!player.can_use_manipulation);
    assert!(!player.has_splendorous_tool);
    assert!(!player.is_specialist);
}

#[test]
fn factors_are_lowered_at_or_below_the_recipe_level() {
    let player = Player::new(90, 3304, 3374, 575);
    let input = Input::new(&player, &recipe(560, 90), CraftOptions::default());
    assert_eq!(input.progress_factor, 230);
    assert_eq!(input.quality_factor, 262);
    let harder = Input::new(&player, &recipe(600, 90), CraftOptions::default());
    assert_eq!(harder.progress_factor, 230);
    assert_eq!(harder.quality_factor, 262);
}

#[test]
fn factors_are_whole_above_the_recipe_level() {
    let player = Player::new(90, 3304, 3374, 575);
    let input = Input::new(&player, &recipe(559, 90), CraftOptions::default());
    assert_eq!(input.progress_factor, 256);
    assert_eq!(input.quality_factor, 328);
    let low = Player::new(50, 3304, 3374, 575);
    let input = Input::new(&low, &recipe(1, 1), CraftOptions::default());
    assert_eq!(input.progress_factor, 256);
    assert_eq!(input.quality_factor, 328);
}

#[test]
fn factors_of_the_largest_stats_fit() {
    let mut player = Player::new(90, u32::MAX, u32::MAX, 0);
    player.is_specialist = true;
    let mut r = recipe(560, 90);
    r.progress_divider = 1;
    r.quality_divider = 1;
    r.progress_modifier = u32::MAX;
    r.quality_modifier = u32::MAX;
    let input = Input::new(&player, &r, CraftOptions::default());
    assert_eq!(input.progress_factor, 1844674406597861048);
    assert_eq!(input.quality_factor, 1844674408015200255);
}

#[test]
fn options_override_the_quality_bounds() {
    let player = Player::new(90, 3304, 3374, 575);
    let plain = Input::new(&player, &recipe(560, 90), CraftOptions::default());
    assert_eq!(plain.starting_quality, 0);
    assert_eq!(plain.quality_target, 7200);
    assert_eq!(plain.action_max, 0);
    let options =
        CraftOptions { max_steps: 25, starting_quality: Some(300), quality_target: Some(5000) };
    let input = Input::new(&player, &recipe(560, 90), options);
    assert_eq!(input.starting_quality, 300);
    assert_eq!(input.quality_target, 5000);
    assert_eq!(input.action_max, 25);
    assert_eq!(input.progress_target, 3500);
    assert_eq!(input.durability_max, 80);
    assert_eq!(input.cp_max, 575);
    assert_eq!(input.player_job_level, 90);
    assert_eq!(input.recipe_job_level, 90);
    let state = State::initial(&input);
    assert_eq!(state.quality, 300);
    assert_eq!(state.durability, 80);
    assert_eq!(state.cp, 575);
    assert_eq!(state.progress, 0);
    assert_eq!(state.step, 0);
}

#[test]
fn action_pool_holds_what_the_level_unlocks() {
    let player = Player::new(50, 100, 100, 100);
    let input = Input::new(&player, &recipe(1, 50), CraftOptions::default());
    let pool = input.action_pool;
    assert!(pool.contains(Action::BasicSynthesis));
    assert!(pool.contains(Action::ByregotsBlessing));
    assert!(pool.contains(Action::WasteNot2));
    assert!(!pool.contains(Action::PreciseTouch));
    assert!(!pool.contains(Action::TrainedEye));
    assert_eq!(pool.len(), 15);
    let all = Input::new(&Player::new(90, 1, 1, 1), &recipe(1, 80), CraftOptions::default());
    assert_eq!(all.action_pool.len(), 33);
}

#[test]
fn trained_eye_needs_ten_levels_over_the_recipe() {
    let player = Player::new(90, 100, 100, 100);
    let near = Input::new(&player, &recipe(1, 81), CraftOptions::default());
    assert!(!near.action_pool.contains(Action::TrainedEye));
    assert_eq!(near.action_pool.len(), 32);
    let far = Input::new(&player, &recipe(1, 80), CraftOptions::default());
    assert!(far.action_pool.contains(Action::TrainedEye));
    let above = Input::new(&Player::new(80, 1, 1, 1), &recipe(1, 90), CraftOptions::default());
    assert!(!above.action_pool.contains(Action::TrainedEye));
}
