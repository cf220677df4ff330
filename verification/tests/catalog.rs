use trnm_campaign_core::catalog::{
    CampaignDifficulty, CampaignFaction, CampaignGuideStep, CampaignMission, CampaignRoom,
    CharacterIdentity, CharacterNamePreset, ExpeditionPreparation, LoadoutPreset,
    SkirmishVictoryMode, TrainingPath,
};

#[test]
fn training_paths_rotate_with_skill_ids() {
    let path = TrainingPath::default();
    assert_eq!(path, TrainingPath::IronGuard);
    assert_eq!(path.skill_id(), "iron_guard");
    assert_eq!(path.next().skill_id(), "wind_step");
    assert_eq!(path.next().next().display_name(), "Inner Flame");
    assert_eq!(path.next().next().next(), path);
}

#[test]
fn loadouts_name_their_two_items() {
    assert_eq!(LoadoutPreset::Guard.item_ids(), vec!["route-guard-staff", "street-compass-bracer"]);
    assert_eq!(LoadoutPreset::Raider.item_ids(), vec!["iron-workshop-blade", "night-watch-cloak"]);
    assert_eq!(LoadoutPreset::Mystic.display_name(), "Relay Mystic");
    assert_eq!(LoadoutPreset::Mystic.next(), LoadoutPreset::Guard);
}

#[test]
fn missions_map_to_their_battle_maps() {
    assert_eq!(CampaignMission::default().map_id(), "first_contact");
    assert_eq!(CampaignMission::NightWatchCrossingSkirmish.map_id(), "night_watch_crossing");
    assert_eq!(CampaignMission::MirrorSiege.display_name(), "Mirror Siege Counterstrike");
    assert_eq!(CampaignMission::CinderCrownSkirmish.display_name(), "Cinder Crown Siege");
}

#[test]
fn difficulty_factions_and_presets_cycle() {
    assert_eq!(CampaignDifficulty::default(), CampaignDifficulty::Standard);
    assert_eq!(CampaignDifficulty::Veteran.next(), CampaignDifficulty::Story);
    assert_eq!(CampaignDifficulty::Story.display_name(), "Story");
    assert_eq!(CampaignFaction::MirrorCoalition.opponent(), CampaignFaction::AshenCompact);
    assert_eq!(CampaignFaction::AshenCompact.opponent().opponent(), CampaignFaction::AshenCompact);
    assert_eq!(CampaignFaction::AshenCompact.display_name(), "Ashen Compact");
    assert_eq!(SkirmishVictoryMode::Annihilation.next(), SkirmishVictoryMode::Objective);
    assert_eq!(CharacterNamePreset::SignalRook.display_name(), "Signal Rook");
    assert_eq!(CharacterNamePreset::EmberVale.next(), CharacterNamePreset::MirrorRanger);
    let identity = CharacterIdentity::default();
    assert_eq!(identity.name, CharacterNamePreset::MirrorRanger);
    assert!(identity.confirmed);
}

#[test]
fn expedition_preparations_cycle_through_four() {
    let mut preparation = ExpeditionPreparation::default();
    let mut names = Vec::new();
    for _ in 0..4 {
        names.push(preparation.display_name());
        preparation = preparation.next();
    }
    assert_eq!(preparation, ExpeditionPreparation::Immediate);
    assert_eq!(
        names,
        vec!["Immediate March", "Rest Before Departure", "Stocked Expedition", "Signal-road Shortcut"]
    );
}

#[test]
fn rooms_and_guide_prompts_are_authored() {
    assert_eq!(CampaignRoom::MirrorSquare.title(), "镜城广场");
    assert_eq!(CampaignRoom::ExpeditionGate.title(), "First Contact 出征口");
    assert_eq!(CampaignRoom::CinderRefuge.title(), "余烬避难所");
    assert_eq!(CampaignGuideStep::TrainWithMentor.prompt(), "Press K to complete mentor training");
    assert_eq!(CampaignGuideStep::ReadJournal.prompt(), "Press F4 to review active, completed and locked goals");
}
