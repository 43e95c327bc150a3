use crafty::action_set::{ActionSet, BitFlagExt, BitFlagNth};
use crafty::Action;
use crafty::Action::{BasicSynthesis, BasicTouch, GreatStrides, MuscleMemory, TrainedFinesse};
use rand::rngs::SmallRng;
use rand::SeedableRng;

#[test]
fn set_and_unset_works() {
    let mut set = ActionSet::default();

    set.insert(BasicTouch);
    set.insert(BasicSynthesis);
    assert_eq!(set.len(), 2);

    set.remove(BasicTouch);
    set.remove(BasicSynthesis);
    assert!(set.is_empty());
}

#[test]
fn keep_works() {
    let mut set = ActionSet::default();
    set.insert(BasicTouch);
    set.insert(BasicSynthesis);
    set.insert(GreatStrides);
    set.insert(MuscleMemory);

    set.keep(|action| action != BasicTouch && action != GreatStrides);
    assert_eq!(set.len(), 2);
    assert!(set.contains(BasicSynthesis));
    assert!(set.contains(MuscleMemory));
}

#[test]
fn random_index_works() {
    let mut set = ActionSet::default();
    set.insert(BasicTouch);
    set.insert(BasicSynthesis);
    set.insert(GreatStrides);
    set.insert(TrainedFinesse);

    let mut counts = vec![0; crafty::actions::ACTION_COUNT as usize];
    let mut rng = SmallRng::seed_from_u64(1);
    for _ in 0..100 {
        let random_action = set.sample(&mut rng);

        assert!(
            [BasicTouch, BasicSynthesis, GreatStrides, TrainedFinesse].contains(&random_action)
        );

        counts[random_action.index() as usize] += 1;
    }

    assert!(counts[BasicTouch.index() as usize] > 0);
    assert!(counts[BasicSynthesis.index() as usize] > 0);
    assert!(counts[GreatStrides.index() as usize] > 0);
    assert!(counts[TrainedFinesse.index() as usize] > 0);
}

#[test]
fn sample_leaves_the_set_as_it_was() {
    let mut set = ActionSet::new();
    set.insert(Action::Observe);
    set.insert(Action::Veneration);
    let before = set;
    let mut rng = SmallRng::seed_from_u64(7);
    for _ in 0..20 {
        let got = set.sample(&mut rng);
        assert!(got == Action::Observe || got == Action::Veneration);
    }
    assert_eq!(set, before);
}

#[test]
fn pick_removes_what_it_returns() {
    let mut set = ActionSet::new();
    set.insert(Action::Reflect);
    set.insert(Action::WasteNot2);
    set.insert(Action::AdvancedTouch);
    let mut rng = SmallRng::seed_from_u64(3);
    let mut seen = Vec::new();
    while !set.is_empty() {
        let before = set.len();
        let got = set.pick(&mut rng);
        assert!(!set.contains(got));
        assert_eq!(set.len(), before - 1);
        assert!(!seen.contains(&got));
        seen.push(got);
    }
    assert_eq!(seen.len(), 3);
    assert!(seen.contains(&Action::Reflect));
    assert!(seen.contains(&Action::WasteNot2));
    assert!(seen.contains(&Action::AdvancedTouch));
}

#[test]
fn pick_visits_every_member_first_over_many_seeds() {
    let members = [Action::BasicTouch, Action::Manipulation, Action::WasteNot2];
    let mut first = vec![0; 3];
    for seed in 0..200u64 {
        let mut set = ActionSet::new();
        for m in members {
            set.insert(m);
        }
        let mut rng = SmallRng::seed_from_u64(seed);
        let got = set.pick(&mut rng);
        let at = members.iter().position(|m| *m == got);
        assert!(at.is_some());
        first[at.unwrap()] += 1;
    }
    assert!(first[0] > 0);
    assert!(first[1] > 0);
    assert!(first[2] > 0);
}

#[test]
fn nth_walks_the_members_in_catalog_order() {
    let mut set = ActionSet::new();
    set.insert(Action::WasteNot2);
    set.insert(Action::BasicTouch);
    set.insert(Action::Observe);
    set.insert(Action::AdvancedTouch);
    assert_eq!(set.nth(0), Action::AdvancedTouch);
    assert_eq!(set.nth(1), Action::BasicTouch);
    assert_eq!(set.nth(2), Action::Observe);
    assert_eq!(set.nth(3), Action::WasteNot2);
}

#[test]
fn insert_twice_and_remove_absent_change_nothing() {
    let mut set = ActionSet::new();
    set.insert(Action::Innovation);
    set.insert(Action::Innovation);
    assert_eq!(set.len(), 1);
    set.remove(Action::Veneration);
    assert_eq!(set.len(), 1);
    assert!(set.contains(Action::Innovation));
    assert!(!set.contains(Action::Veneration));
}

#[test]
fn the_whole_catalog_fits() {
    let mut set = ActionSet::new();
    for i in 0..crafty::actions::ACTION_COUNT {
        let action = Action::from_index(i).unwrap();
        assert_eq!(action.index(), i);
        set.insert(action);
    }
    assert_eq!(set.len(), 33);
    assert_eq!(set.nth(32), Action::WasteNot2);
    assert_eq!(Action::from_index(33), None);
    set.keep(|_| false);
    assert!(set.is_empty());
}
