//! The names of the actions, and the line of a game macro that uses one.

use crate::actions::action_type::Action;
use vstd::prelude::*;
use vstd::string::*;

verus! {

/// Whether two texts are the same.
fn same_text(a: &str, b: &str) -> (r: bool)
    ensures
        r == (a@ == b@),
{
    let n = a.unicode_len();
    if n != b.unicode_len() {
        return false;
    }
    let mut i: usize = 0;
    while i < n
        invariant
            n == a@.len(),
            n == b@.len(),
            i <= n,
            forall|j: int| 0 <= j < i ==> a@[j] == b@[j],
        decreases n - i,
    {
        if a.get_char(i) != b.get_char(i) {
            return false;
        }
        i += 1;
    }
    assert(a@ =~= b@);
    true
}

/// Whether a text holds a space.
fn has_space(text: &str) -> (r: bool)
    ensures
        r == text@.contains(' '),
{
    let n = text.unicode_len();
    let mut i: usize = 0;
    while i < n
        invariant
            n == text@.len(),
            i <= n,
            forall|j: int| 0 <= j < i ==> text@[j] != ' ',
        decreases n - i,
    {
        if text.get_char(i) == ' ' {
            return true;
        }
        i += 1;
    }
    false
}

/// A text that is the name of no action.
#[derive(Copy, Clone, Debug, PartialEq, Eq)]
pub struct ActionParseError;

impl Action {
    /// The name of the action as it is written in code.
    pub open spec fn spec_name(self) -> Seq<char> {
        match self {
            Action::AdvancedTouch => "AdvancedTouch"@,
            Action::BasicSynthesis => "BasicSynthesis"@,
            Action::BasicTouch => "BasicTouch"@,
            Action::ByregotsBlessing => "ByregotsBlessing"@,
            Action::CarefulObservation => "CarefulObservation"@,
            Action::CarefulSynthesis => "CarefulSynthesis"@,
            Action::DelicateSynthesis => "DelicateSynthesis"@,
            Action::FinalAppraisal => "FinalAppraisal"@,
            Action::FocusedSynthesis => "FocusedSynthesis"@,
            Action::FocusedTouch => "FocusedTouch"@,
            Action::GreatStrides => "GreatStrides"@,
            Action::Groundwork => "Groundwork"@,
            Action::HastyTouch => "HastyTouch"@,
            Action::HeartAndSoul => "HeartAndSoul"@,
            Action::Innovation => "Innovation"@,
            Action::IntensiveSynthesis => "IntensiveSynthesis"@,
            Action::Manipulation => "Manipulation"@,
            Action::MastersMend => "MastersMend"@,
            Action::MuscleMemory => "MuscleMemory"@,
            Action::Observe => "Observe"@,
            Action::PreciseTouch => "PreciseTouch"@,
            Action::PreparatoryTouch => "PreparatoryTouch"@,
            Action::PrudentSynthesis => "PrudentSynthesis"@,
            Action::PrudentTouch => "PrudentTouch"@,
            Action::RapidSynthesis => "RapidSynthesis"@,
            Action::Reflect => "Reflect"@,
            Action::StandardTouch => "StandardTouch"@,
            Action::TrainedEye => "TrainedEye"@,
            Action::TrainedFinesse => "TrainedFinesse"@,
            Action::TricksOfTheTrade => "TricksOfTheTrade"@,
            Action::Veneration => "Veneration"@,
            Action::WasteNot => "WasteNot"@,
            Action::WasteNot2 => "WasteNot2"@,
        }
    }

    /// The name of the action as it is written in code.
    pub fn name(self) -> (r: &'static str)
        ensures
            r@ == self.spec_name(),
    {
        match self {
            Action::AdvancedTouch => "AdvancedTouch",
            Action::BasicSynthesis => "BasicSynthesis",
            Action::BasicTouch => "BasicTouch",
            Action::ByregotsBlessing => "ByregotsBlessing",
            Action::CarefulObservation => "CarefulObservation",
            Action::CarefulSynthesis => "CarefulSynthesis",
            Action::DelicateSynthesis => "DelicateSynthesis",
            Action::FinalAppraisal => "FinalAppraisal",
            Action::FocusedSynthesis => "FocusedSynthesis",
            Action::FocusedTouch => "FocusedTouch",
            Action::GreatStrides => "GreatStrides",
            Action::Groundwork => "Groundwork",
            Action::HastyTouch => "HastyTouch",
            Action::HeartAndSoul => "HeartAndSoul",
            Action::Innovation => "Innovation",
            Action::IntensiveSynthesis => "IntensiveSynthesis",
            Action::Manipulation => "Manipulation",
            Action::MastersMend => "MastersMend",
            Action::MuscleMemory => "MuscleMemory",
            Action::Observe => "Observe",
            Action::PreciseTouch => "PreciseTouch",
            Action::PreparatoryTouch => "PreparatoryTouch",
            Action::PrudentSynthesis => "PrudentSynthesis",
            Action::PrudentTouch => "PrudentTouch",
            Action::RapidSynthesis => "RapidSynthesis",
            Action::Reflect => "Reflect",
            Action::StandardTouch => "StandardTouch",
            Action::TrainedEye => "TrainedEye",
            Action::TrainedFinesse => "TrainedFinesse",
            Action::TricksOfTheTrade => "TricksOfTheTrade",
            Action::Veneration => "Veneration",
            Action::WasteNot => "WasteNot",
            Action::WasteNot2 => "WasteNot2",
        }
    }

    /// The name of the action as the game shows it.
    pub open spec fn spec_label(self) -> Seq<char> {
        match self {
            Action::AdvancedTouch => "Advanced Touch"@,
            Action::BasicSynthesis => "Basic Synthesis"@,
            Action::BasicTouch => "Basic Touch"@,
            Action::ByregotsBlessing => "Byregot's Blessing"@,
            Action::CarefulObservation => "Careful Observation"@,
            Action::CarefulSynthesis => "Careful Synthesis"@,
            Action::DelicateSynthesis => "Delicate Synthesis"@,
            Action::FinalAppraisal => "Final Appraisal"@,
            Action::FocusedSynthesis => "Focused Synthesis"@,
            Action::FocusedTouch => "Focused Touch"@,
            Action::GreatStrides => "Great Strides"@,
            Action::Groundwork => "Groundwork"@,
            Action::HastyTouch => "Hasty Touch"@,
            Action::HeartAndSoul => "Heart and Soul"@,
            Action::Innovation => "Innovation"@,
            Action::IntensiveSynthesis => "Intensive Synthesis"@,
            Action::Manipulation => "Manipulation"@,
            Action::MastersMend => "Master's Mend"@,
            Action::MuscleMemory => "Muscle Memory"@,
            Action::Observe => "Observe"@,
            Action::PreciseTouch => "Precise Touch"@,
            Action::PreparatoryTouch => "Preparatory Touch"@,
            Action::PrudentSynthesis => "Prudent Synthesis"@,
            Action::PrudentTouch => "Prudent Touch"@,
            Action::RapidSynthesis => "Rapid Synthesis"@,
            Action::Reflect => "Reflect"@,
            Action::StandardTouch => "Standard Touch"@,
            Action::TrainedEye => "Trained Eye"@,
            Action::TrainedFinesse => "Trained Finesse"@,
            Action::TricksOfTheTrade => "Tricks of the Trade"@,
            Action::Veneration => "Veneration"@,
            Action::WasteNot => "Waste Not"@,
            Action::WasteNot2 => "Waste Not II"@,
        }
    }

    /// The name of the action as the game shows it.
    pub fn label(self) -> (r: &'static str)
        ensures
            r@ == self.spec_label(),
    {
        match self {
            Action::AdvancedTouch => "Advanced Touch",
            Action::BasicSynthesis => "Basic Synthesis",
            Action::BasicTouch => "Basic Touch",
            Action::ByregotsBlessing => "Byregot's Blessing",
            Action::CarefulObservation => "Careful Observation",
            Action::CarefulSynthesis => "Careful Synthesis",
            Action::DelicateSynthesis => "Delicate Synthesis",
            Action::FinalAppraisal => "Final Appraisal",
            Action::FocusedSynthesis => "Focused Synthesis",
            Action::FocusedTouch => "Focused Touch",
            Action::GreatStrides => "Great Strides",
            Action::Groundwork => "Groundwork",
            Action::HastyTouch => "Hasty Touch",
            Action::HeartAndSoul => "Heart and Soul",
            Action::Innovation => "Innovation",
            Action::IntensiveSynthesis => "Intensive Synthesis",
            Action::Manipulation => "Manipulation",
            Action::MastersMend => "Master's Mend",
            Action::MuscleMemory => "Muscle Memory",
            Action::Observe => "Observe",
            Action::PreciseTouch => "Precise Touch",
            Action::PreparatoryTouch => "Preparatory Touch",
            Action::PrudentSynthesis => "Prudent Synthesis",
            Action::PrudentTouch => "Prudent Touch",
            Action::RapidSynthesis => "Rapid Synthesis",
            Action::Reflect => "Reflect",
            Action::StandardTouch => "Standard Touch",
            Action::TrainedEye => "Trained Eye",
            Action::TrainedFinesse => "Trained Finesse",
            Action::TricksOfTheTrade => "Tricks of the Trade",
            Action::Veneration => "Veneration",
            Action::WasteNot => "Waste Not",
            Action::WasteNot2 => "Waste Not II",
        }
    }

    /// Whether the action only starts a timed buff. The game animates such an
    /// action for a shorter time.
    pub open spec fn spec_is_buff(self) -> bool {
        self == Action::FinalAppraisal || self == Action::GreatStrides || self
            == Action::Innovation || self == Action::Manipulation || self == Action::Veneration
            || self == Action::WasteNot || self == Action::WasteNot2
    }

    /// Whether the action only starts a timed buff.
    pub fn is_buff(self) -> (r: bool)
        ensures
            r == self.spec_is_buff(),
    {
        match self {
            Action::FinalAppraisal
            | Action::GreatStrides
            | Action::Innovation
            | Action::Manipulation
            | Action::Veneration
            | Action::WasteNot
            | Action::WasteNot2 => true,
            _ => false,
        }
    }

    /// The line of a game macro that uses the action: the command, the label
    /// of the action, in quotes where it holds a space, and the time to wait
    /// for the animation, which is two seconds for a buff and three for
    /// anything else.
    pub open spec fn spec_macro_text(self) -> Seq<char> {
        let label = self.spec_label();
        let named = if label.contains(' ') {
            "/ac "@ + "\""@ + label + "\""@
        } else {
            "/ac "@ + label
        };
        named + " <wait."@ + (if self.spec_is_buff() {
            "2"@
        } else {
            "3"@
        }) + ">"@
    }

    /// The line of a game macro that uses the action.
    pub fn macro_text(&self) -> (r: String)
        ensures
            r@ == self.spec_macro_text(),
    {
        let label = self.label();
        let mut text = String::from_str("/ac ");
        if has_space(label) {
            text.append("\"");
            text.append(label);
            text.append("\"");
        } else {
            text.append(label);
        }
        text.append(" <wait.");
        if self.is_buff() {
            text.append("2");
        } else {
            text.append("3");
        }
        text.append(">");
        text
    }

    /// The first action of the catalog that has the given name, if there is
    /// one.
    pub fn from_name(name: &str) -> (r: Option<Action>)
        ensures
            match r {
                Some(found) => found.spec_name() == name@ && forall|other: Action|
                    other.spec_index() < found.spec_index() ==> #[trigger] other.spec_name()
                        != name@,
                None => forall|other: Action| #[trigger] other.spec_name() != name@,
            },
    {
        let mut i: u32 = 0;
        while i < 33
            invariant
                i <= 33,
                forall|other: Action|
                    other.spec_index() < i ==> #[trigger] other.spec_name() != name@,
            decreases 33 - i,
        {
            let action = Action::from_index(i).unwrap();
            if same_text(name, action.name()) {
                return Some(action);
            }
            proof {
                assert forall|other: Action| other.spec_index() < i + 1 implies #[trigger]
                    other.spec_name() != name@ by {
                    other.lemma_index_roundtrip();
                }
            }
            i += 1;
        }
        proof {
            assert forall|other: Action| #[trigger] other.spec_name() != name@ by {
                other.lemma_index_roundtrip();
            }
        }
        None
    }
}

impl core::str::FromStr for Action {
    type Err = ActionParseError;

    /// The action that `s` names: the first of the catalog whose name in code
    /// is `s`. A text that names no action is an error.
    fn from_str(s: &str) -> (r: Result<Action, ActionParseError>)
        ensures
            match r {
                Ok(found) => found.spec_name() == s@ && forall|other: Action|
                    other.spec_index() < found.spec_index() ==> #[trigger] other.spec_name()
                        != s@,
                Err(_) => forall|other: Action| #[trigger] other.spec_name() != s@,
            },
    {
        match Action::from_name(s) {
            Some(action) => Ok(action),
            None => Err(ActionParseError),
        }
    }
}

} // verus!
