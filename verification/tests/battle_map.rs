use trnm_campaign_core::battle_map::{
    BattleGridPoint, BattleMapNodeV1, BattleMapSeedV1, MissionDefinition, ObjectiveKind,
};
use trnm_campaign_core::catalog::CampaignMission;
use trnm_campaign_core::error::CampaignError;

fn node(id: &str, x: i16, y: i16) -> BattleMapNodeV1 {
    BattleMapNodeV1 { id: id.to_string(), position: BattleGridPoint::new(x, y) }
}

fn map() -> BattleMapSeedV1 {
    BattleMapSeedV1 {
        width: 12,
        height: 8,
        terrain_rows: vec![
            "gggggggggggg".to_string(),
            "gggrrrrrgggg".to_string(),
            "ggggwwgggggg".to_string(),
            "gggggggggggg".to_string(),
            "ggggggggrrrr".to_string(),
            "gggggggggggg".to_string(),
            "ggggggwwgggg".to_string(),
            "gggggggggggg".to_string(),
        ],
        party_start: BattleGridPoint::new(1, 6),
        approach_point: BattleGridPoint::new(4, 1),
        objective: BattleGridPoint::new(10, 4),
        resource_nodes: vec![node("cyan", 2, 5)],
        enemy_spawns: vec![node("north", 10, 1), node("east", 11, 3), node("south", 9, 7)],
    }
}

fn contract_message(result: Result<(), CampaignError>) -> String {
    match result {
        Err(CampaignError::InvalidContract(message)) => message,
        other => panic!("expected a contract error, got {other:?}"),
    }
}

#[test]
fn authored_map_validates() {
    assert!(map().validate().is_ok());
}

#[test]
fn map_dimensions_and_rows_are_checked() {
    let mut small = map();
    small.width = 11;
    assert_eq!(contract_message(small.validate()), "battle map dimensions/rows are invalid");
    let mut missing_row = map();
    missing_row.terrain_rows.pop();
    assert_eq!(contract_message(missing_row.validate()), "battle map dimensions/rows are invalid");
    let mut ragged = map();
    ragged.terrain_rows[3] = "ggggg".to_string();
    assert_eq!(contract_message(ragged.validate()), "battle map row width mismatch");
}

#[test]
fn map_nodes_and_anchors_are_checked() {
    let mut few = map();
    few.enemy_spawns.pop();
    assert_eq!(contract_message(few.validate()), "battle map requires resources and enemy spawns");
    let mut outside = map();
    outside.resource_nodes.push(node("far", 12, 0));
    assert_eq!(contract_message(outside.validate()), "battle map anchor is outside map bounds");
    let mut blocked = map();
    blocked.objective = BattleGridPoint::new(4, 2);
    assert_eq!(contract_message(blocked.validate()), "battle map route anchors must be passable");
}

#[test]
fn passability_reads_the_terrain_byte() {
    let m = map();
    assert!(m.passable(BattleGridPoint::new(4, 1)));
    assert!(!m.passable(BattleGridPoint::new(4, 2)));
    assert!(!m.passable(BattleGridPoint::new(-1, 0)));
    assert!(!m.in_bounds(BattleGridPoint::new(0, 8)));
    assert!(m.in_bounds(BattleGridPoint::new(11, 7)));
}

#[test]
fn every_authored_mission_fits_a_valid_map() {
    let m = map();
    for mission in [
        CampaignMission::FirstContact,
        CampaignMission::AftershockPatrol,
        CampaignMission::ConvoyExodus,
        CampaignMission::MirrorSiege,
        CampaignMission::IronDeltaSkirmish,
        CampaignMission::NightWatchCrossingSkirmish,
        CampaignMission::GlassBasinSkirmish,
        CampaignMission::EmberOrchardSkirmish,
        CampaignMission::SaltMarshSkirmish,
        CampaignMission::CinderCrownSkirmish,
    ] {
        let definition = MissionDefinition::for_mission(mission, &m);
        assert_eq!(definition.map_id, mission.map_id());
        assert_eq!(definition.objectives.len(), 3);
        assert!(definition.validate(&m).is_ok());
    }
}

#[test]
fn convoy_objectives_are_placed_on_the_anchors() {
    let m = map();
    let definition = MissionDefinition::for_mission(CampaignMission::ConvoyExodus, &m);
    assert_eq!(definition.title, "Signal Convoy Exodus");
    assert_eq!(definition.objectives[1].id, "hold_signal_generator");
    assert_eq!(definition.objectives[1].kind, ObjectiveKind::Defend);
    assert_eq!(definition.objectives[1].target, m.approach_point);
    assert_eq!(definition.objectives[1].duration_ticks, 260);
    assert_eq!(definition.objectives[2].target, m.objective);
}

#[test]
fn mission_definition_defects_are_refused() {
    let m = map();
    let mut wrong_map = MissionDefinition::for_mission(CampaignMission::FirstContact, &m);
    wrong_map.map_id = "mirror_siege".to_string();
    assert_eq!(contract_message(wrong_map.validate(&m)), "mission definition identity/objectives are invalid");
    let mut duplicate = MissionDefinition::for_mission(CampaignMission::FirstContact, &m);
    duplicate.objectives[2].id = duplicate.objectives[0].id.clone();
    assert_eq!(contract_message(duplicate.validate(&m)), "mission objective is invalid");
    let mut blank = MissionDefinition::for_mission(CampaignMission::FirstContact, &m);
    blank.objectives[0].id = " \t\u{3000}".to_string();
    assert_eq!(contract_message(blank.validate(&m)), "mission objective is invalid");
    let mut instant = MissionDefinition::for_mission(CampaignMission::FirstContact, &m);
    instant.objectives[2].duration_ticks = 0;
    assert_eq!(contract_message(instant.validate(&m)), "mission objective is invalid");
    let mut walled = MissionDefinition::for_mission(CampaignMission::FirstContact, &m);
    walled.objectives[1].target = BattleGridPoint::new(5, 2);
    assert_eq!(contract_message(walled.validate(&m)), "mission objective is invalid");
}
