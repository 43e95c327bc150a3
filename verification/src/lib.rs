//! Rotations for a turn-based crafting minigame.
//!
//! A craft spends durability and CP on actions that advance two meters,
//! progress and quality, under a condition that changes from step to step.
//! The simulation engine models one step of it: a closed catalog of actions,
//! the state of an attempt, and the arithmetic that turns an action and a
//! state into costs and gains. The search grows a tree of the states it
//! reaches and plays crafts out at random to find a rotation that scores
//! well.

pub mod action_set;
pub mod action_states;
pub mod actions;
pub mod condition;
pub mod craft_context;
pub mod craft_state;
pub mod executor;
pub mod intrinsics;
pub mod player;
pub mod recipe;
pub mod simulator;
pub mod simulator_no_rng;
pub mod solver;
pub mod tree;

pub use action_set::ActionSet;
pub use actions::Action;
pub use condition::Condition;
pub use craft_context::{CraftOptions, Input};
pub use craft_state::{CraftResult, Effects, State};
pub use player::Player;
pub use recipe::Recipe;
pub use solver::{SearchOptions, Solver};
