use trnm_campaign_core::catalog::ExpeditionPreparation;
use trnm_campaign_core::clock::ExpeditionReadiness;
use trnm_campaign_core::stats::{
    add_signed, apply_campaign_growth, apply_expedition_readiness, typed_equipment_modifier,
    RtsUnitStats,
};

fn base() -> RtsUnitStats {
    RtsUnitStats {
        max_hp: 200,
        damage: 20,
        armor: 4,
        move_speed_milli: 1000,
        attack_interval_ticks: 18,
        evasion_permille: 490,
        energy: 60,
        ability_range: 3,
        skill_power_permille: 1000,
    }
}

#[test]
fn equipment_modifiers_are_typed() {
    let staff = typed_equipment_modifier("route-guard-staff");
    assert_eq!(staff.item_id, "route-guard-staff");
    assert_eq!((staff.damage, staff.armor, staff.ability_range), (4, 1, 1));
    assert_eq!(staff.max_hp, 0);
    let coat = typed_equipment_modifier("compass-thread-coat");
    assert_eq!((coat.armor, coat.move_speed_milli, coat.evasion_permille), (2, 140, 50));
    let blade = typed_equipment_modifier("market-wind-sword");
    assert_eq!(blade.damage, 7);
    let unknown = typed_equipment_modifier("salvaged-alloy");
    assert_eq!(unknown.item_id, "salvaged-alloy");
    assert_eq!(
        (unknown.max_hp, unknown.damage, unknown.armor, unknown.energy, unknown.ability_range),
        (0, 0, 0, 0, 0)
    );
}

#[test]
fn signed_modifiers_respect_minimums() {
    assert_eq!(add_signed(10, 5, 1), 15);
    assert_eq!(add_signed(10, -50, 1), 1);
    assert_eq!(add_signed(10, -10, 0), 0);
    assert_eq!(add_signed(u32::MAX, 1, 0), 0);
}

#[test]
fn campaign_growth_scales_with_level_and_reputation() {
    let mut stats = base();
    apply_campaign_growth(&mut stats, 4, 30);
    assert_eq!(stats.max_hp, 200 + 3 * 14 + 15);
    assert_eq!(stats.damage, 26);
    assert_eq!(stats.armor, 5);
    assert_eq!(stats.energy, 60 + 12 + 15);
    let mut capped = base();
    apply_campaign_growth(&mut capped, 100, 500);
    assert_eq!(capped.max_hp, 200 + 12 * 14 + 20);
    assert_eq!(capped.armor, 10);
    let mut fresh = base();
    apply_campaign_growth(&mut fresh, 1, -20);
    assert_eq!(fresh, base());
}

#[test]
fn readiness_scales_health_speed_and_preparation() {
    let readiness = ExpeditionReadiness {
        preparation: ExpeditionPreparation::Shortcut,
        stamina: 50,
        rations: 3,
        water: 3,
        starting_resources: 0,
        travel_minutes: 10,
    };
    let mut stats = base();
    apply_expedition_readiness(&mut stats, &readiness);
    assert_eq!(stats.max_hp, 200 * 850 / 1000);
    assert_eq!(stats.move_speed_milli, 850 + 120);
    assert_eq!(stats.evasion_permille, 500);
    let supplied = ExpeditionReadiness { preparation: ExpeditionPreparation::Supplied, stamina: 100, ..readiness };
    let mut stocked = base();
    apply_expedition_readiness(&mut stocked, &supplied);
    assert_eq!(stocked.max_hp, 200);
    assert_eq!(stocked.energy, 90);
    let mut frail = RtsUnitStats { max_hp: 1, move_speed_milli: 10, ..base() };
    apply_expedition_readiness(&mut frail, &ExpeditionReadiness { stamina: 0, ..supplied });
    assert_eq!(frail.max_hp, 1);
    assert_eq!(frail.move_speed_milli, 100);
}
