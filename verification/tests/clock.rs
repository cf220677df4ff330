use trnm_campaign_core::catalog::ExpeditionPreparation;
use trnm_campaign_core::clock::{
    default_expedition_readiness, require_supplies, ExpeditionSupplyState, WorldClock,
};
use trnm_campaign_core::error::CampaignError;

#[test]
fn clock_rolls_minutes_into_days() {
    let mut clock = WorldClock::default();
    assert_eq!(clock.label(), "Day 1 08:00");
    clock.advance(15 * 60 + 59);
    assert_eq!(clock.label(), "Day 1 23:59");
    clock.advance(1);
    assert_eq!(clock, WorldClock { day: 2, minute_of_day: 0 });
    assert_eq!(clock.label(), "Day 2 00:00");
    clock.advance(3 * 1440 + 125);
    assert_eq!(clock.label(), "Day 5 02:05");
}

#[test]
fn clock_advances_compose() {
    let mut split = WorldClock { day: 7, minute_of_day: 1000 };
    split.advance(700);
    split.advance(2000);
    let mut whole = WorldClock { day: 7, minute_of_day: 1000 };
    whole.advance(2700);
    assert_eq!(split, whole);
    assert_eq!(whole.day as u64 * 1440 + whole.minute_of_day as u64, 7 * 1440 + 1000 + 2700);
}

#[test]
fn clock_saturates_instead_of_wrapping() {
    let mut clock = WorldClock { day: u32::MAX, minute_of_day: 1439 };
    clock.advance(u32::MAX);
    assert_eq!(clock.day, u32::MAX);
    assert_eq!(clock.minute_of_day as u32, u32::MAX % 1440);
    let late = WorldClock { day: 12, minute_of_day: 2000 };
    assert_eq!(late.label(), "Day 12 33:20");
}

#[test]
fn supplies_gate_expeditions() {
    let supplies = ExpeditionSupplyState::default();
    assert_eq!((supplies.stamina, supplies.rations, supplies.water), (100, 4, 6));
    assert!(require_supplies(&supplies, 4, 6).is_ok());
    match require_supplies(&supplies, 5, 1) {
        Err(CampaignError::InvalidState(message)) => {
            assert_eq!(message, "expedition requires 5 ration(s) and 1 water")
        }
        other => panic!("unexpected {other:?}"),
    }
    assert!(require_supplies(&supplies, 0, 7).is_err());
}

#[test]
fn legacy_readiness_is_an_immediate_march() {
    let readiness = default_expedition_readiness();
    assert_eq!(readiness.preparation, ExpeditionPreparation::Immediate);
    assert_eq!((readiness.stamina, readiness.rations, readiness.water), (100, 4, 6));
    assert_eq!(readiness.starting_resources, 0);
    assert_eq!(readiness.travel_minutes, 20);
}

#[test]
fn victories_restock_supplies_up_to_the_caps() {
    let mut supplies = ExpeditionSupplyState { stamina: 60, rations: 3, water: 5 };
    supplies.restock_after_victory();
    assert_eq!((supplies.stamina, supplies.rations, supplies.water), (85, 4, 7));
    let mut full = ExpeditionSupplyState { stamina: 90, rations: 12, water: 15 };
    full.restock_after_victory();
    assert_eq!((full.stamina, full.rations, full.water), (100, 12, 16));
}
