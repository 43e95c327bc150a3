use crafty::actions::{ActionParseError, ACTION_COUNT};
use crafty::Action;

#[test]
fn names_are_the_names_in_code() {
    assert_eq!(Action::BasicSynthesis.name(), "BasicSynthesis");
    assert_eq!(Action::ByregotsBlessing.name(), "ByregotsBlessing");
    assert_eq!(Action::WasteNot2.name(), "WasteNot2");
    assert_eq!(Action::TricksOfTheTrade.name(), "TricksOfTheTrade");
}

#[test]
fn labels_are_the_names_in_the_game() {
    assert_eq!(Action::BasicSynthesis.label(), "Basic Synthesis");
    assert_eq!(Action::ByregotsBlessing.label(), "Byregot's Blessing");
    assert_eq!(Action::MastersMend.label(), "Master's Mend");
    assert_eq!(Action::WasteNot2.label(), "Waste Not II");
    assert_eq!(Action::HeartAndSoul.label(), "Heart and Soul");
    assert_eq!(Action::TricksOfTheTrade.label(), "Tricks of the Trade");
    assert_eq!(Action::Observe.label(), "Observe");
}

#[test]
fn macro_text_quotes_labels_with_a_space() {
    assert_eq!(Action::BasicSynthesis.macro_text(), "/ac \"Basic Synthesis\" <wait.3>");
    assert_eq!(Action::ByregotsBlessing.macro_text(), "/ac \"Byregot's Blessing\" <wait.3>");
    assert_eq!(Action::Observe.macro_text(), "/ac Observe <wait.3>");
    assert_eq!(Action::Groundwork.macro_text(), "/ac Groundwork <wait.3>");
    assert_eq!(Action::MastersMend.macro_text(), "/ac \"Master's Mend\" <wait.3>");
}

#[test]
fn macro_text_waits_less_for_a_buff() {
    assert_eq!(Action::Veneration.macro_text(), "/ac Veneration <wait.2>");
    assert_eq!(Action::Innovation.macro_text(), "/ac Innovation <wait.2>");
    assert_eq!(Action::Manipulation.macro_text(), "/ac Manipulation <wait.2>");
    assert_eq!(Action::WasteNot.macro_text(), "/ac \"Waste Not\" <wait.2>");
    assert_eq!(Action::WasteNot2.macro_text(), "/ac \"Waste Not II\" <wait.2>");
    assert_eq!(Action::GreatStrides.macro_text(), "/ac \"Great Strides\" <wait.2>");
    assert_eq!(Action::FinalAppraisal.macro_text(), "/ac \"Final Appraisal\" <wait.2>");
    assert!(Action::GreatStrides.is_buff());
    assert!(!Action::MastersMend.is_buff());
    assert!(!Action::HeartAndSoul.is_buff());
}

#[test]
fn every_name_is_found_again() {
    for i in 0..ACTION_COUNT {
        let action = Action::from_index(i).unwrap();
        assert_eq!(Action::from_name(action.name()), Some(action));
        assert_eq!(action.name().parse::<Action>(), Ok(action));
        let text = action.macro_text();
        assert!(text.starts_with("/ac "));
        assert!(text.contains(action.label()));
        assert_eq!(text.contains('"'), action.label().contains(' '));
    }
}

#[test]
fn an_unknown_name_is_no_action() {
    assert_eq!(Action::from_name("Basic Synthesis"), None);
    assert_eq!(Action::from_name(""), None);
    assert_eq!(Action::from_name("basicsynthesis"), None);
    assert_eq!(Action::from_name("BasicSynthesisX"), None);
    assert_eq!(Action::from_name("WasteNot"), Some(Action::WasteNot));
    assert_eq!("WasteNotII".parse::<Action>(), Err(ActionParseError));
}
