//! The closed catalog of actions.

use crate::craft_context::Input;
use crate::craft_state::State;
use crate::simulator::{calculate_cp_cost, calculate_durability_cost, spec_at_crafter_level};
use vstd::prelude::*;

verus! {

/// How many actions the catalog holds.
pub const ACTION_COUNT: u32 = 33;

/// One of the named operations of the craft. A value carries only its
/// identity; what the action costs and does is looked up by matching on it.
#[derive(Copy, Clone, Debug, PartialEq, Eq, Hash, Structural)]
pub enum Action {
    AdvancedTouch,
    BasicSynthesis,
    BasicTouch,
    ByregotsBlessing,
    CarefulObservation,
    CarefulSynthesis,
    DelicateSynthesis,
    FinalAppraisal,
    FocusedSynthesis,
    FocusedTouch,
    GreatStrides,
    Groundwork,
    HastyTouch,
    HeartAndSoul,
    Innovation,
    IntensiveSynthesis,
    Manipulation,
    MastersMend,
    MuscleMemory,
    Observe,
    PreciseTouch,
    PreparatoryTouch,
    PrudentSynthesis,
    PrudentTouch,
    RapidSynthesis,
    Reflect,
    StandardTouch,
    TrainedEye,
    TrainedFinesse,
    TricksOfTheTrade,
    Veneration,
    WasteNot,
    WasteNot2,
}

impl Action {
    /// The position of the action in the catalog, in declaration order.
    pub open spec fn spec_index(self) -> nat {
        match self {
            Action::AdvancedTouch => 0,
            Action::BasicSynthesis => 1,
            Action::BasicTouch => 2,
            Action::ByregotsBlessing => 3,
            Action::CarefulObservation => 4,
            Action::CarefulSynthesis => 5,
            Action::DelicateSynthesis => 6,
            Action::FinalAppraisal => 7,
            Action::FocusedSynthesis => 8,
            Action::FocusedTouch => 9,
            Action::GreatStrides => 10,
            Action::Groundwork => 11,
            Action::HastyTouch => 12,
            Action::HeartAndSoul => 13,
            Action::Innovation => 14,
            Action::IntensiveSynthesis => 15,
            Action::Manipulation => 16,
            Action::MastersMend => 17,
            Action::MuscleMemory => 18,
            Action::Observe => 19,
            Action::PreciseTouch => 20,
            Action::PreparatoryTouch => 21,
            Action::PrudentSynthesis => 22,
            Action::PrudentTouch => 23,
            Action::RapidSynthesis => 24,
            Action::Reflect => 25,
            Action::StandardTouch => 26,
            Action::TrainedEye => 27,
            Action::TrainedFinesse => 28,
            Action::TricksOfTheTrade => 29,
            Action::Veneration => 30,
            Action::WasteNot => 31,
            Action::WasteNot2 => 32,
        }
    }

    /// The action at a position of the catalog.
    pub open spec fn spec_from_index(index: nat) -> Option<Action> {
        if index == 0 {
            Some(Action::AdvancedTouch)
        } else if index == 1 {
            Some(Action::BasicSynthesis)
        } else if index == 2 {
            Some(Action::BasicTouch)
        } else if index == 3 {
            Some(Action::ByregotsBlessing)
        } else if index == 4 {
            Some(Action::CarefulObservation)
        } else if index == 5 {
            Some(Action::CarefulSynthesis)
        } else if index == 6 {
            Some(Action::DelicateSynthesis)
        } else if index == 7 {
            Some(Action::FinalAppraisal)
        } else if index == 8 {
            Some(Action::FocusedSynthesis)
        } else if index == 9 {
            Some(Action::FocusedTouch)
        } else if index == 10 {
            Some(Action::GreatStrides)
        } else if index == 11 {
            Some(Action::Groundwork)
        } else if index == 12 {
            Some(Action::HastyTouch)
        } else if index == 13 {
            Some(Action::HeartAndSoul)
        } else if index == 14 {
            Some(Action::Innovation)
        } else if index == 15 {
            Some(Action::IntensiveSynthesis)
        } else if index == 16 {
            Some(Action::Manipulation)
        } else if index == 17 {
            Some(Action::MastersMend)
        } else if index == 18 {
            Some(Action::MuscleMemory)
        } else if index == 19 {
            Some(Action::Observe)
        } else if index == 20 {
            Some(Action::PreciseTouch)
        } else if index == 21 {
            Some(Action::PreparatoryTouch)
        } else if index == 22 {
            Some(Action::PrudentSynthesis)
        } else if index == 23 {
            Some(Action::PrudentTouch)
        } else if index == 24 {
            Some(Action::RapidSynthesis)
        } else if index == 25 {
            Some(Action::Reflect)
        } else if index == 26 {
            Some(Action::StandardTouch)
        } else if index == 27 {
            Some(Action::TrainedEye)
        } else if index == 28 {
            Some(Action::TrainedFinesse)
        } else if index == 29 {
            Some(Action::TricksOfTheTrade)
        } else if index == 30 {
            Some(Action::Veneration)
        } else if index == 31 {
            Some(Action::WasteNot)
        } else if index == 32 {
            Some(Action::WasteNot2)
        } else {
            None
        }
    }

    /// The position of the action in the catalog, in declaration order.
    pub fn index(self) -> (r: u32)
        ensures
            r == self.spec_index(),
            r < ACTION_COUNT,
    {
        match self {
            Action::AdvancedTouch => 0,
            Action::BasicSynthesis => 1,
            Action::BasicTouch => 2,
            Action::ByregotsBlessing => 3,
            Action::CarefulObservation => 4,
            Action::CarefulSynthesis => 5,
            Action::DelicateSynthesis => 6,
            Action::FinalAppraisal => 7,
            Action::FocusedSynthesis => 8,
            Action::FocusedTouch => 9,
            Action::GreatStrides => 10,
            Action::Groundwork => 11,
            Action::HastyTouch => 12,
            Action::HeartAndSoul => 13,
            Action::Innovation => 14,
            Action::IntensiveSynthesis => 15,
            Action::Manipulation => 16,
            Action::MastersMend => 17,
            Action::MuscleMemory => 18,
            Action::Observe => 19,
            Action::PreciseTouch => 20,
            Action::PreparatoryTouch => 21,
            Action::PrudentSynthesis => 22,
            Action::PrudentTouch => 23,
            Action::RapidSynthesis => 24,
            Action::Reflect => 25,
            Action::StandardTouch => 26,
            Action::TrainedEye => 27,
            Action::TrainedFinesse => 28,
            Action::TricksOfTheTrade => 29,
            Action::Veneration => 30,
            Action::WasteNot => 31,
            Action::WasteNot2 => 32,
        }
    }

    /// The action at a position of the catalog, if the position is one.
    pub fn from_index(index: u32) -> (r: Option<Action>)
        ensures
            r == Action::spec_from_index(index as nat),
            r is Some <==> index < ACTION_COUNT,
            r matches Some(a) ==> a.spec_index() == index,
    {
        match index {
            0 => Some(Action::AdvancedTouch),
            1 => Some(Action::BasicSynthesis),
            2 => Some(Action::BasicTouch),
            3 => Some(Action::ByregotsBlessing),
            4 => Some(Action::CarefulObservation),
            5 => Some(Action::CarefulSynthesis),
            6 => Some(Action::DelicateSynthesis),
            7 => Some(Action::FinalAppraisal),
            8 => Some(Action::FocusedSynthesis),
            9 => Some(Action::FocusedTouch),
            10 => Some(Action::GreatStrides),
            11 => Some(Action::Groundwork),
            12 => Some(Action::HastyTouch),
            13 => Some(Action::HeartAndSoul),
            14 => Some(Action::Innovation),
            15 => Some(Action::IntensiveSynthesis),
            16 => Some(Action::Manipulation),
            17 => Some(Action::MastersMend),
            18 => Some(Action::MuscleMemory),
            19 => Some(Action::Observe),
            20 => Some(Action::PreciseTouch),
            21 => Some(Action::PreparatoryTouch),
            22 => Some(Action::PrudentSynthesis),
            23 => Some(Action::PrudentTouch),
            24 => Some(Action::RapidSynthesis),
            25 => Some(Action::Reflect),
            26 => Some(Action::StandardTouch),
            27 => Some(Action::TrainedEye),
            28 => Some(Action::TrainedFinesse),
            29 => Some(Action::TricksOfTheTrade),
            30 => Some(Action::Veneration),
            31 => Some(Action::WasteNot),
            32 => Some(Action::WasteNot2),
            _ => None,
        }
    }

    /// Every position below the count holds an action, and an action is found
    /// again at its own position.
    pub proof fn lemma_index_roundtrip(self)
        ensures
            self.spec_index() < ACTION_COUNT,
            Action::spec_from_index(self.spec_index()) == Some(self),
    {
    }

    /// Positions and actions correspond one to one.
    pub proof fn lemma_from_index(index: nat)
        ensures
            index < ACTION_COUNT ==> Action::spec_from_index(index) is Some
                && Action::spec_from_index(index)->0.spec_index() == index,
            index >= ACTION_COUNT ==> Action::spec_from_index(index) is None,
    {
    }
}

/// The properties of each action that do not change a state: its unlock
/// level, what it advances, and what it costs, gains and risks in a state.
impl Action {
    /// The player level that unlocks the action.
    pub open spec fn spec_level(self) -> u8 {
        match self {
            Action::BasicSynthesis => 1,
            Action::BasicTouch => 5,
            Action::MastersMend => 7,
            Action::HastyTouch | Action::RapidSynthesis => 9,
            Action::Observe | Action::TricksOfTheTrade => 13,
            Action::Veneration | Action::WasteNot => 15,
            Action::StandardTouch => 18,
            Action::GreatStrides => 21,
            Action::Innovation => 26,
            Action::FinalAppraisal => 42,
            Action::WasteNot2 => 47,
            Action::ByregotsBlessing => 50,
            Action::PreciseTouch => 53,
            Action::MuscleMemory => 54,
            Action::CarefulObservation => 55,
            Action::CarefulSynthesis => 62,
            Action::Manipulation => 65,
            Action::PrudentTouch => 66,
            Action::FocusedSynthesis => 67,
            Action::FocusedTouch => 68,
            Action::Reflect => 69,
            Action::PreparatoryTouch => 71,
            Action::Groundwork => 72,
            Action::DelicateSynthesis => 76,
            Action::IntensiveSynthesis => 78,
            Action::TrainedEye => 80,
            Action::AdvancedTouch => 84,
            Action::HeartAndSoul => 86,
            Action::PrudentSynthesis => 88,
            Action::TrainedFinesse => 90,
        }
    }

    /// The player level that unlocks the action.
    pub fn level(self) -> (r: u8)
        ensures
            r == self.spec_level(),
    {
        match self {
            Action::AdvancedTouch => 84,
            Action::BasicSynthesis => 1,
            Action::BasicTouch => 5,
            Action::ByregotsBlessing => 50,
            Action::CarefulObservation => 55,
            Action::CarefulSynthesis => 62,
            Action::DelicateSynthesis => 76,
            Action::FinalAppraisal => 42,
            Action::FocusedSynthesis => 67,
            Action::FocusedTouch => 68,
            Action::GreatStrides => 21,
            Action::Groundwork => 72,
            Action::HastyTouch => 9,
            Action::HeartAndSoul => 86,
            Action::Innovation => 26,
            Action::IntensiveSynthesis => 78,
            Action::Manipulation => 65,
            Action::MastersMend => 7,
            Action::MuscleMemory => 54,
            Action::Observe => 13,
            Action::PreciseTouch => 53,
            Action::PreparatoryTouch => 71,
            Action::PrudentSynthesis => 88,
            Action::PrudentTouch => 66,
            Action::RapidSynthesis => 9,
            Action::Reflect => 69,
            Action::StandardTouch => 18,
            Action::TrainedEye => 80,
            Action::TrainedFinesse => 90,
            Action::TricksOfTheTrade => 13,
            Action::Veneration => 15,
            Action::WasteNot => 15,
            Action::WasteNot2 => 47,
        }
    }

    /// Whether the action is a synthesis: one that advances the progress.
    pub open spec fn spec_increases_progress(self) -> bool {
        self == Action::BasicSynthesis || self == Action::CarefulSynthesis || self
            == Action::DelicateSynthesis || self == Action::FocusedSynthesis || self
            == Action::Groundwork || self == Action::IntensiveSynthesis || self
            == Action::MuscleMemory || self == Action::PrudentSynthesis || self
            == Action::RapidSynthesis
    }

    /// Whether the action is a synthesis: one that advances the progress.
    pub fn increases_progress(self) -> (r: bool)
        ensures
            r == self.spec_increases_progress(),
    {
        match self {
            Action::BasicSynthesis
            | Action::CarefulSynthesis
            | Action::DelicateSynthesis
            | Action::FocusedSynthesis
            | Action::Groundwork
            | Action::IntensiveSynthesis
            | Action::MuscleMemory
            | Action::PrudentSynthesis
            | Action::RapidSynthesis => true,
            _ => false,
        }
    }

    /// Whether the action is a touch: one that advances the quality.
    pub open spec fn spec_increases_quality(self) -> bool {
        self == Action::AdvancedTouch || self == Action::BasicTouch || self
            == Action::ByregotsBlessing || self == Action::DelicateSynthesis || self
            == Action::FocusedTouch || self == Action::HastyTouch || self == Action::PreciseTouch
            || self == Action::PreparatoryTouch || self == Action::PrudentTouch || self
            == Action::Reflect || self == Action::StandardTouch || self == Action::TrainedEye
            || self == Action::TrainedFinesse
    }

    /// Whether the action is a touch: one that advances the quality.
    pub fn increases_quality(self) -> (r: bool)
        ensures
            r == self.spec_increases_quality(),
    {
        match self {
            Action::AdvancedTouch
            | Action::BasicTouch
            | Action::ByregotsBlessing
            | Action::DelicateSynthesis
            | Action::FocusedTouch
            | Action::HastyTouch
            | Action::PreciseTouch
            | Action::PreparatoryTouch
            | Action::PrudentTouch
            | Action::Reflect
            | Action::StandardTouch
            | Action::TrainedEye
            | Action::TrainedFinesse => true,
            _ => false,
        }
    }

    /// What the action takes from the durability before buffs and condition
    /// are counted in: nothing for buffs and the like, 5 for the prudent
    /// actions, 20 for the heavy ones, and 10 for the rest.
    pub open spec fn spec_durability_cost(self) -> i8 {
        match self {
            Action::CarefulObservation
            | Action::FinalAppraisal
            | Action::GreatStrides
            | Action::HeartAndSoul
            | Action::Innovation
            | Action::Manipulation
            | Action::MastersMend
            | Action::Observe
            | Action::TrainedFinesse
            | Action::TricksOfTheTrade
            | Action::Veneration
            | Action::WasteNot
            | Action::WasteNot2 => 0,
            Action::PrudentSynthesis | Action::PrudentTouch => 5,
            Action::Groundwork | Action::PreparatoryTouch => 20,
            _ => 10,
        }
    }

    /// What the action takes from the durability before buffs and condition
    /// are counted in.
    pub fn durability_cost(self) -> (r: i8)
        ensures
            r == self.spec_durability_cost(),
            r == 0 || r == 5 || r == 10 || r == 20,
    {
        match self {
            Action::Groundwork | Action::PreparatoryTouch => 20,
            Action::PrudentSynthesis | Action::PrudentTouch => 5,
            Action::AdvancedTouch
            | Action::BasicSynthesis
            | Action::BasicTouch
            | Action::ByregotsBlessing
            | Action::CarefulSynthesis
            | Action::DelicateSynthesis
            | Action::FocusedSynthesis
            | Action::FocusedTouch
            | Action::HastyTouch
            | Action::IntensiveSynthesis
            | Action::MuscleMemory
            | Action::PreciseTouch
            | Action::RapidSynthesis
            | Action::Reflect
            | Action::StandardTouch
            | Action::TrainedEye => 10,
            _ => 0,
        }
    }

    /// Whether the action counts as a step of the craft.
    pub open spec fn spec_increases_step_count(self) -> bool {
        !(self == Action::CarefulObservation || self == Action::FinalAppraisal || self
            == Action::HeartAndSoul)
    }

    /// Whether the action counts as a step of the craft.
    pub fn increases_step_count(self) -> (r: bool)
        ensures
            r == self.spec_increases_step_count(),
    {
        match self {
            Action::CarefulObservation | Action::FinalAppraisal | Action::HeartAndSoul => false,
            _ => true,
        }
    }

    /// What the action takes from the CP before the condition is counted in.
    /// The second touch of the combo costs 18 right after the first, and the
    /// third costs 18 right after the second.
    pub open spec fn spec_cp_cost(self, state: State) -> u32 {
        match self {
            Action::BasicSynthesis
            | Action::CarefulObservation
            | Action::HastyTouch
            | Action::HeartAndSoul
            | Action::RapidSynthesis
            | Action::TricksOfTheTrade => 0,
            Action::FinalAppraisal => 1,
            Action::FocusedSynthesis => 5,
            Action::IntensiveSynthesis | Action::MuscleMemory | Action::Reflect => 6,
            Action::CarefulSynthesis | Action::Observe => 7,
            Action::BasicTouch
            | Action::FocusedTouch
            | Action::Groundwork
            | Action::Innovation
            | Action::PreciseTouch
            | Action::PrudentSynthesis
            | Action::Veneration => 18,
            Action::ByregotsBlessing => 24,
            Action::PrudentTouch => 25,
            Action::DelicateSynthesis | Action::GreatStrides | Action::TrainedFinesse => 32,
            Action::PreparatoryTouch => 40,
            Action::WasteNot => 56,
            Action::MastersMend => 88,
            Action::Manipulation => 96,
            Action::WasteNot2 => 98,
            Action::TrainedEye => 250,
            Action::StandardTouch => if state.action_states.touch_combo_step == 1 {
                18
            } else {
                32
            },
            Action::AdvancedTouch => if state.action_states.touch_combo_step == 2 {
                18
            } else {
                46
            },
        }
    }

    /// What the action takes from the CP before the condition is counted in.
    pub fn cp_cost(self, state: &State) -> (r: u32)
        ensures
            r == self.spec_cp_cost(*state),
            r <= 250,
    {
        match self {
            Action::AdvancedTouch => {
                if state.action_states.touch_combo_step == 2 {
                    18
                } else {
                    46
                }
            },
            Action::BasicSynthesis => 0,
            Action::BasicTouch => 18,
            Action::ByregotsBlessing => 24,
            Action::CarefulObservation => 0,
            Action::CarefulSynthesis => 7,
            Action::DelicateSynthesis => 32,
            Action::FinalAppraisal => 1,
            Action::FocusedSynthesis => 5,
            Action::FocusedTouch => 18,
            Action::GreatStrides => 32,
            Action::Groundwork => 18,
            Action::HastyTouch => 0,
            Action::HeartAndSoul => 0,
            Action::Innovation => 18,
            Action::IntensiveSynthesis => 6,
            Action::Manipulation => 96,
            Action::MastersMend => 88,
            Action::MuscleMemory => 6,
            Action::Observe => 7,
            Action::PreciseTouch => 18,
            Action::PreparatoryTouch => 40,
            Action::PrudentSynthesis => 18,
            Action::PrudentTouch => 25,
            Action::RapidSynthesis => 0,
            Action::Reflect => 6,
            Action::StandardTouch => {
                if state.action_states.touch_combo_step == 1 {
                    18
                } else {
                    32
                }
            },
            Action::TrainedEye => 250,
            Action::TrainedFinesse => 32,
            Action::TricksOfTheTrade => 0,
            Action::Veneration => 18,
            Action::WasteNot => 56,
            Action::WasteNot2 => 98,
        }
    }

    /// The efficiency of the action in percent, by which the progress or the
    /// quality factor is multiplied; zero for an action that has none.
    pub open spec fn spec_efficiency(self, input: Input, state: State) -> u32 {
        match self {
            Action::BasicSynthesis => if spec_at_crafter_level(input, 31) {
                120
            } else {
                100
            },
            Action::CarefulSynthesis => if spec_at_crafter_level(input, 82) {
                180
            } else {
                150
            },
            Action::RapidSynthesis => if spec_at_crafter_level(input, 63) {
                500
            } else {
                250
            },
            Action::Groundwork => {
                let full: u32 = if spec_at_crafter_level(input, 86) {
                    360
                } else {
                    300
                };
                if state.durability < crate::simulator::spec_durability_cost(state, 20) {
                    full / 2
                } else {
                    full
                }
            },
            Action::ByregotsBlessing => (100 + 20 * state.effects.inner_quiet) as u32,
            Action::BasicTouch
            | Action::DelicateSynthesis
            | Action::HastyTouch
            | Action::PrudentTouch
            | Action::Reflect
            | Action::TrainedFinesse => 100,
            Action::StandardTouch => 125,
            Action::AdvancedTouch | Action::FocusedTouch | Action::PreciseTouch => 150,
            Action::PrudentSynthesis => 180,
            Action::FocusedSynthesis | Action::PreparatoryTouch => 200,
            Action::MuscleMemory => 300,
            Action::IntensiveSynthesis => 400,
            _ => 0,
        }
    }

    /// The efficiency of the action in percent.
    pub fn efficiency(self, input: &Input, state: &State) -> (r: u32)
        ensures
            r == self.spec_efficiency(*input, *state),
    {
        let level = input.player_job_level;
        match self {
            Action::AdvancedTouch => 150,
            Action::BasicSynthesis => {
                if level >= 31 {
                    120
                } else {
                    100
                }
            },
            Action::BasicTouch => 100,
            Action::ByregotsBlessing => 100 + 20 * (state.effects.inner_quiet as u32),
            Action::CarefulSynthesis => {
                if level >= 82 {
                    180
                } else {
                    150
                }
            },
            Action::DelicateSynthesis => 100,
            Action::FocusedSynthesis => 200,
            Action::FocusedTouch => 150,
            Action::Groundwork => {
                let full: u32 = if level >= 86 {
                    360
                } else {
                    300
                };
                if state.durability < calculate_durability_cost(state, self.durability_cost()) {
                    full / 2
                } else {
                    full
                }
            },
            Action::HastyTouch => 100,
            Action::IntensiveSynthesis => 400,
            Action::MuscleMemory => 300,
            Action::PreciseTouch => 150,
            Action::PreparatoryTouch => 200,
            Action::PrudentSynthesis => 180,
            Action::PrudentTouch => 100,
            Action::RapidSynthesis => {
                if level >= 63 {
                    500
                } else {
                    250
                }
            },
            Action::Reflect => 100,
            Action::StandardTouch => 125,
            Action::TrainedFinesse => 100,
            _ => 0,
        }
    }

    /// The chance in percent that the action succeeds, before the condition is
    /// counted in. The focused actions are certain right after an observation.
    pub open spec fn spec_success_rate(self, state: State) -> u8 {
        match self {
            Action::FocusedSynthesis | Action::FocusedTouch => if state.action_states.has_observed {
                100
            } else {
                50
            },
            Action::HastyTouch => 60,
            Action::RapidSynthesis => 50,
            _ => 100,
        }
    }

    /// The chance in percent that the action succeeds, before the condition is
    /// counted in.
    pub fn success_rate(self, state: &State) -> (r: u8)
        ensures
            r == self.spec_success_rate(*state),
            r <= 100,
    {
        match self {
            Action::FocusedSynthesis | Action::FocusedTouch => {
                if state.action_states.has_observed {
                    100
                } else {
                    50
                }
            },
            Action::HastyTouch => 60,
            Action::RapidSynthesis => 50,
            _ => 100,
        }
    }

    /// What an action of base cost `base_cost` takes from the durability in
    /// `state`: half of it, rounded up, under a conservation buff, and half of
    /// that again, rounded up, under the sturdy condition.
    pub fn calc_durability_cost(state: &State, base_cost: i8) -> (r: i8)
        ensures
            r == crate::simulator::spec_durability_cost(*state, base_cost),
    {
        calculate_durability_cost(state, base_cost)
    }

    /// What an action of base cost `base_cost` takes from the CP in `state`:
    /// half of it, rounded up, under the pliant condition, and all of it
    /// otherwise.
    pub fn calc_cp_cost(state: &State, base_cost: u32) -> (r: u32)
        ensures
            r == crate::simulator::spec_cp_cost(*state, base_cost),
    {
        calculate_cp_cost(state, base_cost)
    }
}

} // verus!
