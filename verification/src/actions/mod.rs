//! The action catalog: the enum of all actions with their rules, and one
//! type for each action, through which the same rules are reached statically.

pub mod action;
pub mod action_type;
pub mod advanced_touch;
pub mod basic_synthesis;
pub mod basic_touch;
pub mod byregots_blessing;
pub mod careful_observation;
pub mod careful_synthesis;
pub mod delicate_synthesis;
pub mod final_appraisal;
pub mod focused_synthesis;
pub mod focused_touch;
pub mod great_strides;
pub mod groundwork;
pub mod hasty_touch;
pub mod heart_and_soul;
pub mod innovation;
pub mod intensive_synthesis;
pub mod label;
pub mod manipulation;
pub mod masters_mend;
pub mod muscle_memory;
pub mod observe;
pub mod precise_touch;
pub mod preparatory_touch;
pub mod prudent_synthesis;
pub mod prudent_touch;
pub mod rapid_synthesis;
pub mod reflect;
pub mod standard_touch;
pub mod trained_eye;
pub mod trained_finesse;
pub mod tricks_of_the_trade;
pub mod veneration;
pub mod waste_not;
pub mod waste_not2;

pub use action::ActionTrait;
pub use action_type::Action;
pub use action_type::ACTION_COUNT;
pub use label::ActionParseError;
