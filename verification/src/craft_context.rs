//! What a craft is made from: the constants derived once from player, recipe
//! and options, which every state of the craft shares.

use crate::action_set::ActionSet;
use crate::actions::Action;
use crate::player::{spec_clvl, Player, MAX_LEVEL};
use crate::recipe::Recipe;
use vstd::arithmetic::div_mod::lemma_div_is_ordered_by_denominator;
use vstd::arithmetic::mul::lemma_mul_upper_bound;
use vstd::prelude::*;

verus! {

/// The constants of one craft.
#[derive(Copy, Clone, Debug, PartialEq, Eq)]
pub struct Input {
    pub player_job_level: u8,
    pub recipe_job_level: u8,
    /// Multiplied by the efficiency of a synthesis action for the increase in
    /// progress.
    pub progress_factor: u64,
    /// Multiplied by the efficiency of a touch action for the increase in
    /// quality.
    pub quality_factor: u64,
    pub action_max: u8,
    pub progress_target: u32,
    pub starting_quality: u32,
    pub quality_target: u32,
    pub durability_max: i8,
    pub cp_max: u32,
    pub is_expert: bool,
    pub can_use_manipulation: bool,
    pub is_specialist: bool,
    pub has_splendorous_tool: bool,
    /// The actions that the player's level unlocks for this recipe.
    pub action_pool: ActionSet,
}

/// What the caller chooses for one craft.
#[derive(Copy, Clone, Debug, PartialEq, Eq, Structural)]
pub struct CraftOptions {
    pub max_steps: u8,
    pub starting_quality: Option<u32>,
    pub quality_target: Option<u32>,
}

impl Default for CraftOptions {
    fn default() -> (r: Self)
        ensures
            r == (CraftOptions { max_steps: 0, starting_quality: None, quality_target: None }),
    {
        CraftOptions { max_steps: 0, starting_quality: None, quality_target: None }
    }
}

/// Whether the recipe is at or above the player's crafter level, so that the
/// recipe's modifiers lower the player's factors.
pub open spec fn is_penalised(player: Player, recipe: Recipe) -> bool {
    spec_clvl(player.level) matches Some(clvl) && clvl <= recipe.rlvl
}

/// The factor that a stat gives against a divider: ten times the stat over the
/// divider plus a bonus, times the modifier in percent where the level gap
/// penalises the player, rounded down.
pub open spec fn spec_factor(
    stat: u32,
    divider: u32,
    bonus: nat,
    modifier: u32,
    penalised: bool,
) -> int {
    if penalised {
        ((10 * stat + bonus * divider) * modifier) / (100 * divider)
    } else {
        (10 * stat + bonus * divider) / (divider as int)
    }
}

/// The actions that a player can use on a recipe at all: those that the
/// player's level unlocks, and the trained eye only where the player is at
/// least ten levels above the recipe.
pub open spec fn spec_action_pool(player: Player, recipe: Recipe) -> Set<Action> {
    Set::new(
        |a: Action|
            player.level >= a.spec_level() && (a == Action::TrainedEye ==> player.level
                - recipe.level >= 10),
    )
}

fn factor(stat: u32, divider: u32, bonus: u8, modifier: u32, penalised: bool) -> (r: u64)
    requires
        divider > 0,
        bonus <= 35,
    ensures
        r == spec_factor(stat, divider, bonus as nat, modifier, penalised),
{
    proof {
        lemma_mul_upper_bound(bonus as int, 35, divider as int, u32::MAX as int);
    }
    let base: u128 = 10 * (stat as u128) + (bonus as u128) * (divider as u128);
    if penalised {
        proof {
            lemma_mul_upper_bound(base as int, 45 * u32::MAX, modifier as int, u32::MAX as int);
            let scaled = base * modifier;
            lemma_div_is_ordered_by_denominator(scaled, 100, 100 * divider);
        }
        let scaled: u128 = base * (modifier as u128);
        (scaled / (100 * (divider as u128))) as u64
    } else {
        proof {
            lemma_div_is_ordered_by_denominator(base as int, 1, divider as int);
        }
        (base / (divider as u128)) as u64
    }
}

impl Input {
    fn factors(player: &Player, recipe: &Recipe) -> (r: (u64, u64))
        requires
            player.level <= MAX_LEVEL,
            recipe.progress_divider > 0,
            recipe.quality_divider > 0,
        ensures
            r.0 == spec_factor(
                player.craftsmanship,
                recipe.progress_divider,
                2,
                recipe.progress_modifier,
                is_penalised(*player, *recipe),
            ),
            r.1 == spec_factor(
                player.control,
                recipe.quality_divider,
                35,
                recipe.quality_modifier,
                is_penalised(*player, *recipe),
            ),
    {
        let penalised = match player.clvl() {
            Some(clvl) => clvl <= recipe.rlvl,
            None => false,
        };
        (
            factor(
                player.craftsmanship,
                recipe.progress_divider,
                2,
                recipe.progress_modifier,
                penalised,
            ),
            factor(player.control, recipe.quality_divider, 35, recipe.quality_modifier, penalised),
        )
    }

    fn determine_action_pool(player: &Player, recipe: &Recipe) -> (pool: ActionSet)
        ensures
            pool@ == spec_action_pool(*player, *recipe),
    {
        let mut pool = ActionSet::new();
        let mut i: u32 = 0;
        while i < 33
            invariant
                i <= 33,
                forall|a: Action|
                    #[trigger] pool@.contains(a) == (a.spec_index() < i && spec_action_pool(
                        *player,
                        *recipe,
                    ).contains(a)),
            decreases 33 - i,
        {
            let found = Action::from_index(i);
            let action = found.unwrap();
            if player.level >= action.level() {
                let too_close = action == Action::TrainedEye && player.level.saturating_sub(
                    recipe.level,
                ) < 10;
                if !too_close {
                    pool.insert(action);
                }
            }
            i += 1;
        }
        proof {
            assert forall|a: Action|
                #[trigger] pool@.contains(a) == spec_action_pool(*player, *recipe).contains(
                    a,
                ) by {
                a.lemma_index_roundtrip();
            }
            assert(pool@ =~= spec_action_pool(*player, *recipe));
        }
        pool
    }

    /// The constants of the craft of a recipe by a player.
    ///
    /// The player's level must be one that has a crafter level or none (at most
    /// 90), and the recipe's dividers must not be zero.
    pub fn new(player: &Player, recipe: &Recipe, options: CraftOptions) -> (r: Self)
        requires
            player.level <= MAX_LEVEL,
            recipe.progress_divider > 0,
            recipe.quality_divider > 0,
        ensures
            r.player_job_level == player.level,
            r.recipe_job_level == recipe.level,
            r.progress_factor == spec_factor(
                player.craftsmanship,
                recipe.progress_divider,
                2,
                recipe.progress_modifier,
                is_penalised(*player, *recipe),
            ),
            r.quality_factor == spec_factor(
                player.control,
                recipe.quality_divider,
                35,
                recipe.quality_modifier,
                is_penalised(*player, *recipe),
            ),
            r.action_max == options.max_steps,
            r.progress_target == recipe.progress_max,
            r.starting_quality == options.starting_quality.unwrap_or(0),
            r.quality_target == options.quality_target.unwrap_or(recipe.quality_max),
            r.durability_max == recipe.durability_max,
            r.cp_max == player.cp,
            r.is_expert == recipe.is_expert,
            r.can_use_manipulation == player.can_use_manipulation,
            r.is_specialist == player.is_specialist,
            r.has_splendorous_tool == player.has_splendorous_tool,
            r.action_pool@ == spec_action_pool(*player, *recipe),
    {
        let (progress_factor, quality_factor) = Input::factors(player, recipe);
        Input {
            player_job_level: player.level,
            recipe_job_level: recipe.level,
            progress_factor,
            quality_factor,
            action_max: options.max_steps,
            progress_target: recipe.progress_max,
            starting_quality: options.starting_quality.unwrap_or(0),
            quality_target: options.quality_target.unwrap_or(recipe.quality_max),
            durability_max: recipe.durability_max,
            cp_max: player.cp,
            is_expert: recipe.is_expert,
            can_use_manipulation: player.can_use_manipulation,
            is_specialist: player.is_specialist,
            has_splendorous_tool: player.has_splendorous_tool,
            action_pool: Input::determine_action_pool(player, recipe),
        }
    }
}

} // verus!
