use trnm_campaign_core::catalog::{CampaignFaction, SkirmishVictoryMode};
use trnm_campaign_core::error::CampaignError;
use trnm_campaign_core::skirmish::SkirmishSetup;

fn enabled() -> SkirmishSetup {
    SkirmishSetup { enabled: true, ..SkirmishSetup::default() }
}

fn message(result: Result<(), CampaignError>) -> String {
    match result {
        Err(CampaignError::InvalidContract(message)) => message,
        other => panic!("unexpected {other:?}"),
    }
}

#[test]
fn disabled_setup_is_accepted_anywhere() {
    let setup = SkirmishSetup::default();
    assert!(!setup.enabled);
    assert_eq!(setup.starting_resources, 300);
    assert_eq!(setup.score_target, 800);
    assert_eq!(setup.victory_mode, SkirmishVictoryMode::Objective);
    assert_eq!(setup.simulation_seed, 1);
    assert!(setup.validate("first_contact").is_ok());
}

#[test]
fn enabled_setup_needs_a_skirmish_map() {
    assert!(enabled().validate("glass_basin").is_ok());
    assert_eq!(message(enabled().validate("first_contact")), "skirmish setup requires an authored skirmish map");
}

#[test]
fn enabled_setup_bounds_are_inclusive() {
    let mirror = SkirmishSetup { enemy_faction: CampaignFaction::MirrorCoalition, ..enabled() };
    assert_eq!(message(mirror.validate("salt_marsh")), "skirmish factions, resources or score target are invalid");
    assert!(SkirmishSetup { starting_resources: 100, ..enabled() }.validate("salt_marsh").is_ok());
    assert!(SkirmishSetup { starting_resources: 1000, score_target: 5000, ..enabled() }.validate("salt_marsh").is_ok());
    assert!(SkirmishSetup { starting_resources: 99, ..enabled() }.validate("salt_marsh").is_err());
    assert!(SkirmishSetup { score_target: 39, ..enabled() }.validate("salt_marsh").is_err());
    assert!(SkirmishSetup { score_target: 5001, ..enabled() }.validate("salt_marsh").is_err());
}

#[test]
fn skirmish_menu_cycles_stay_valid() {
    let mut setup = enabled();
    assert_eq!(setup.cycle_resources().unwrap(), 500);
    assert_eq!(setup.cycle_resources().unwrap(), 200);
    assert_eq!(setup.cycle_resources().unwrap(), 300);
    assert_eq!(setup.cycle_faction().unwrap(), CampaignFaction::AshenCompact);
    assert_eq!(setup.enemy_faction, CampaignFaction::MirrorCoalition);
    assert_eq!(setup.cycle_victory_mode().unwrap(), SkirmishVictoryMode::Score);
    assert_eq!(setup.cycle_simulation_seed().unwrap(), 2);
    assert_eq!(setup.cycle_simulation_seed().unwrap(), 3);
    assert_eq!(setup.cycle_simulation_seed().unwrap(), 1);
    assert!(setup.validate("cinder_crown").is_ok());
    let mut odd = SkirmishSetup { starting_resources: 1000, simulation_seed: 99, ..enabled() };
    assert_eq!(odd.cycle_resources().unwrap(), 200);
    assert_eq!(odd.cycle_simulation_seed().unwrap(), 1);
}

#[test]
fn skirmish_menu_refuses_a_disabled_setup() {
    let mut setup = SkirmishSetup::default();
    let before = setup.clone();
    match setup.cycle_faction() {
        Err(CampaignError::InvalidState(m)) => {
            assert_eq!(m, "select an endgame skirmish map before configuring factions")
        }
        other => panic!("unexpected {other:?}"),
    }
    assert!(setup.cycle_resources().is_err());
    assert!(setup.cycle_victory_mode().is_err());
    match setup.cycle_simulation_seed() {
        Err(CampaignError::InvalidState(m)) => {
            assert_eq!(m, "select an endgame skirmish map before configuring the seed")
        }
        other => panic!("unexpected {other:?}"),
    }
    assert_eq!(setup, before);
}
