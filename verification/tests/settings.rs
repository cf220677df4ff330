use trnm_campaign_core::catalog::{CampaignMission, CampaignPhase};
use trnm_campaign_core::error::CampaignError;
use trnm_campaign_core::settings::{
    migrated_settings_contract_version, ControlScheme, InputMode, PlayerSettings, SaveSlotId,
    SaveSlotMeta, SaveSlotProbe, PLAYER_SETTINGS_CONTRACT,
};

#[test]
fn slots_map_to_digits_and_files() {
    assert_eq!(SaveSlotId::all(), [SaveSlotId::A, SaveSlotId::B, SaveSlotId::C]);
    assert_eq!(SaveSlotId::from_digit(2), Some(SaveSlotId::B));
    assert_eq!(SaveSlotId::from_digit(0), None);
    assert_eq!(SaveSlotId::from_digit(4), None);
    assert_eq!(SaveSlotId::C.label(), "C");
    assert_eq!(SaveSlotId::A.save_file_name(), "campaign.json");
    assert_eq!(SaveSlotId::B.checkpoint_file_name(), "campaign-b-battle.json");
    assert_eq!(SaveSlotId::A.checkpoint_file_name(), "first-contact-battle.json");
}

#[test]
fn slot_metadata_reports_what_was_found() {
    let missing = SaveSlotMeta::describe(SaveSlotId::B, SaveSlotProbe::Missing);
    assert!(!missing.exists && !missing.valid && missing.error.is_none());
    let loaded = SaveSlotMeta::describe(
        SaveSlotId::A,
        SaveSlotProbe::Loaded {
            campaign_id: "local-campaign-slot-a".to_string(),
            revision: 9,
            phase: CampaignPhase::Town,
            mission: CampaignMission::ConvoyExodus,
        },
    );
    assert!(loaded.exists && loaded.valid);
    assert_eq!(loaded.campaign_id.as_deref(), Some("local-campaign-slot-a"));
    assert_eq!(loaded.revision, Some(9));
    assert_eq!(loaded.mission, Some(CampaignMission::ConvoyExodus));
    let broken = SaveSlotMeta::describe(SaveSlotId::C, SaveSlotProbe::Invalid { error: "bad".to_string() });
    assert!(broken.exists && !broken.valid);
    assert_eq!(broken.error.as_deref(), Some("bad"));
}

#[test]
fn settings_defaults_and_rotations() {
    let settings = PlayerSettings::default();
    assert_eq!(settings.contract_version, PLAYER_SETTINGS_CONTRACT);
    assert!(settings.subtitles);
    assert_eq!(settings.master_volume_percent, 80);
    assert!(settings.check_contract().is_ok());
    assert_eq!(InputMode::MouseOnly.next(), InputMode::Hybrid);
    assert_eq!(ControlScheme::Classic.next(), ControlScheme::LeftHanded);
    assert_eq!(ControlScheme::ArrowGrid.next(), ControlScheme::Classic);
}

#[test]
fn settings_contract_is_enforced() {
    let loud = PlayerSettings { master_volume_percent: 101, ..PlayerSettings::default() };
    match loud.check_contract() {
        Err(CampaignError::InvalidContract(version)) => assert_eq!(version, PLAYER_SETTINGS_CONTRACT),
        other => panic!("unexpected {other:?}"),
    }
    let old = PlayerSettings { contract_version: "trnm_player_settings_v1".to_string(), ..PlayerSettings::default() };
    assert!(old.check_contract().is_err());
    assert_eq!(migrated_settings_contract_version("trnm_player_settings_v1"), PLAYER_SETTINGS_CONTRACT);
    assert_eq!(migrated_settings_contract_version("something_else"), "something_else");
}
