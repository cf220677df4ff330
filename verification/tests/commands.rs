use trnm_campaign_core::battle_map::{BattleGridPoint, BattleMapNodeV1, BattleMapSeedV1};
use trnm_campaign_core::campaign::CampaignState;
use trnm_campaign_core::catalog::{CampaignFaction, CampaignMission, CampaignRoom, ExpeditionPreparation, QuestState, SkirmishVictoryMode};
use trnm_campaign_core::settings::SaveSlotId;
use trnm_campaign_core::skirmish::SkirmishSetup;
use trnm_campaign_core::deployment::MemberLoadout;
use trnm_campaign_core::error::CampaignError;
use trnm_campaign_core::market::MarketCatalogItem;
use trnm_campaign_core::quests::{QuestBranch, QuestChainNodeId, StoryStepId};
use trnm_campaign_core::stats::RtsUnitStats;
use trnm_campaign_core::social::NpcSocialEvent;
use trnm_campaign_core::loot::LootStack;

fn catalog() -> Vec<MarketCatalogItem> {
    vec![MarketCatalogItem { id: "iron_ore".to_string(), material: true }]
}

fn fresh() -> CampaignState {
    CampaignState::new_campaign("local-player", 1, &catalog())
}

fn flag(state: &mut CampaignState, name: &str) {
    state.world_flags.push(name.to_string());
}

fn ready_campaign() -> CampaignState {
    let mut state = fresh();
    state.room = CampaignRoom::MentorHall;
    state.talk_to_mentor().expect("talked");
    state.train_with_mentor(0).expect("trained");
    state.room = CampaignRoom::ExpeditionGate;
    state.accept_first_contact_quest(true).expect("accepted");
    state
}

fn node(id: &str, x: i16, y: i16) -> BattleMapNodeV1 {
    BattleMapNodeV1 { id: id.to_string(), position: BattleGridPoint::new(x, y) }
}

fn map() -> BattleMapSeedV1 {
    BattleMapSeedV1 {
        width: 12,
        height: 8,
        terrain_rows: vec!["gggggggggggg".to_string(); 8],
        party_start: BattleGridPoint::new(1, 6),
        approach_point: BattleGridPoint::new(4, 1),
        objective: BattleGridPoint::new(10, 4),
        resource_nodes: vec![node("cyan", 2, 5)],
        enemy_spawns: vec![node("north", 10, 1), node("east", 11, 3), node("south", 9, 7)],
    }
}

fn loadouts(state: &CampaignState) -> Vec<MemberLoadout> {
    state
        .active_party_ids
        .iter()
        .map(|id| MemberLoadout {
            display_name: id.clone(),
            role: "line".to_string(),
            skill_ids: vec![],
            equipment_ids: vec![],
            base_stats: RtsUnitStats {
                max_hp: 120,
                damage: 14,
                armor: 3,
                move_speed_milli: 1000,
                attack_interval_ticks: 10,
                evasion_permille: 50,
                energy: 100,
                ability_range: 4,
                skill_power_permille: 1000,
            },
        })
        .collect()
}

#[test]
fn talking_to_the_mentor_opens_the_gate_and_the_quest() {
    let mut state = fresh();
    assert!(state.talk_to_mentor().is_err());
    assert_eq!(state, fresh());
    state.room = CampaignRoom::MentorHall;
    state.talk_to_mentor().expect("talked");
    assert!(state.mentor_met);
    assert_eq!(state.quest_state, QuestState::Available);
    assert_eq!(state.story.current_step, StoryStepId::SecureFirstContact);
    assert!(state.world_flags.contains(&"expedition_gate_open".to_string()));
    assert!(state.story.unlocked_rooms.contains(&CampaignRoom::ExpeditionGate));
    assert_eq!(state.revision, 1);
}

#[test]
fn training_is_paid_capped_and_paths_are_real_choices() {
    let mut state = fresh();
    state.room = CampaignRoom::MentorHall;
    assert_eq!(
        state.train_with_mentor(0),
        Err(CampaignError::InvalidState("talk to the mentor before training".to_string()))
    );
    state.talk_to_mentor().expect("talked");
    let initial_credits = state.credits;
    state.train_with_mentor(0).expect("first session");
    assert_eq!(state.credits, initial_credits - 50);
    state.train_with_mentor(1).expect("second session on a new path");
    assert_eq!(state.credits, initial_credits - 50 - 90);
    assert_eq!(state.mentor_training_sessions, 2);
    assert!(state.credits < initial_credits);
    let capped = state.clone();
    assert_eq!(
        state.train_with_mentor(0),
        Err(CampaignError::InvalidState("mentor training cap reached; commit to the skills already learned".to_string()))
    );
    assert_eq!(state, capped);
    assert_eq!(state.skills.len(), 2);
    assert_eq!(state.skills[0].experience, 125);
    assert_eq!(state.skills[0].rank, 1);
    assert_eq!(state.skills[1].experience, 125);
    assert!(state.trained_with_mentor);
}

#[test]
fn unaffordable_training_is_refused() {
    let mut state = fresh();
    state.room = CampaignRoom::MentorHall;
    state.talk_to_mentor().expect("talked");
    state.credits = 49;
    assert_eq!(
        state.train_with_mentor(0),
        Err(CampaignError::InvalidState("mentor training costs 50 credits".to_string()))
    );
}

#[test]
fn accepting_needs_mentor_training_and_a_weapon() {
    let mut state = fresh();
    state.room = CampaignRoom::ExpeditionGate;
    assert_eq!(
        state.accept_first_contact_quest(true),
        Err(CampaignError::InvalidState("mentor dialogue and training are required before deployment".to_string()))
    );
    state.room = CampaignRoom::MentorHall;
    state.talk_to_mentor().expect("talked");
    state.train_with_mentor(0).expect("trained");
    state.room = CampaignRoom::ExpeditionGate;
    assert_eq!(
        state.accept_first_contact_quest(false),
        Err(CampaignError::InvalidState("equip a weapon before deployment".to_string()))
    );
    state.accept_first_contact_quest(true).expect("accepted");
    assert_eq!(state.quest_state, QuestState::Accepted);
    assert_eq!(state.active_mission, CampaignMission::FirstContact);
}

#[test]
fn expedition_preparation_changes_seed_time_supplies_and_battle_stats() {
    let immediate_campaign = ready_campaign();
    let mut supplied_campaign = immediate_campaign.clone();
    assert_eq!(supplied_campaign.cycle_expedition_preparation(), Ok(ExpeditionPreparation::Rested));
    assert_eq!(supplied_campaign.cycle_expedition_preparation(), Ok(ExpeditionPreparation::Supplied));
    let mut immediate_campaign = immediate_campaign;
    let immediate_loadouts = loadouts(&immediate_campaign);
    immediate_campaign.start_first_contact_battle(map(), immediate_loadouts, false, 0).expect("immediate");
    let supplied_loadouts = loadouts(&supplied_campaign);
    supplied_campaign.start_first_contact_battle(map(), supplied_loadouts, false, 0).expect("supplied");
    let immediate = immediate_campaign.pending_seed().expect("seed").clone();
    let supplied = supplied_campaign.pending_seed().expect("seed").clone();
    assert_eq!(immediate.expedition_readiness.preparation, ExpeditionPreparation::Immediate);
    assert_eq!(supplied.expedition_readiness.preparation, ExpeditionPreparation::Supplied);
    assert_eq!(supplied.expedition_readiness.starting_resources, 50);
    assert!(supplied.party[0].stats.energy > immediate.party[0].stats.energy);
    assert_ne!(supplied.seed_hash, immediate.seed_hash);
    assert_ne!(supplied_campaign.world_clock, immediate_campaign.world_clock);
    assert_ne!(supplied_campaign.expedition_supplies, immediate_campaign.expedition_supplies);
}

#[test]
fn cistern_relief_is_a_typed_branching_persistent_quest_chain() {
    let mut campaign = fresh();
    flag(&mut campaign, "outer_signal_road_open");
    flag(&mut campaign, "signal_road_secured");
    flag(&mut campaign, "expedition_gate_open");
    assert!(campaign.start_cistern_relief().is_err());
    campaign.room = CampaignRoom::RelayQuarter;
    campaign.start_cistern_relief().expect("started");
    assert_eq!(campaign.quest_chain.as_ref().unwrap().current_node, QuestChainNodeId::SurveyDamage);
    assert_eq!(campaign.advance_cistern_relief(), Ok(QuestChainNodeId::GatherSupplies));
    assert!(campaign.advance_cistern_relief().is_err());
    campaign.room = CampaignRoom::ExpeditionGate;
    let credits_before = campaign.credits;
    assert_eq!(campaign.advance_cistern_relief(), Ok(QuestChainNodeId::ChooseReliefPlan));
    assert_eq!(campaign.credits, credits_before - 40);
    campaign.room = CampaignRoom::RelayQuarter;
    let waiting = campaign.clone();
    assert_eq!(
        campaign.advance_cistern_relief(),
        Err(CampaignError::InvalidState("choose reinforce or evacuate to complete cistern relief".to_string()))
    );
    assert_eq!(campaign, waiting);

    let mut reinforce = campaign.clone();
    let mut evacuate = campaign;
    reinforce.choose_cistern_relief_branch(QuestBranch::ReinforceCistern).expect("reinforced");
    evacuate.choose_cistern_relief_branch(QuestBranch::EvacuateFamilies).expect("evacuated");
    assert!(reinforce.world_flags.contains(&"cistern_reinforced".to_string()));
    assert!(evacuate.world_flags.contains(&"cistern_families_evacuated".to_string()));
    assert!(evacuate.credits > reinforce.credits);
    assert!(reinforce.reputation > evacuate.reputation);
    let chain = reinforce.quest_chain.as_ref().unwrap();
    assert!(chain.complete);
    assert_eq!(chain.chosen_branch, Some(QuestBranch::ReinforceCistern));
    assert!(reinforce.choose_cistern_relief_branch(QuestBranch::EvacuateFamilies).is_err());
    assert_eq!(reinforce.validate(&catalog()), Ok(()));
}

#[test]
fn a_skirmish_seed_carries_the_campaigns_own_setup() {
    let mut state = ready_campaign();
    state.active_mission = CampaignMission::IronDeltaSkirmish;
    state.skirmish_setup.player_faction = CampaignFaction::AshenCompact;
    state.skirmish_setup.enemy_faction = CampaignFaction::MirrorCoalition;
    state.skirmish_setup.starting_resources = 450;
    state.skirmish_setup.victory_mode = SkirmishVictoryMode::Score;
    state.skirmish_setup.score_target = 1200;
    state.skirmish_setup.simulation_seed = 77;
    let chosen = state.skirmish_setup.clone();
    let party = loadouts(&state);
    state.start_first_contact_battle(map(), party, false, 0).expect("skirmish deployment");
    let seed = state.pending_seed().expect("seed");
    assert_eq!(seed.skirmish, SkirmishSetup { enabled: true, ..chosen });
    assert_eq!(seed.map_id, "iron_delta");
    let mut campaign = ready_campaign();
    let party = loadouts(&campaign);
    campaign.start_first_contact_battle(map(), party, false, 0).expect("campaign deployment");
    assert_eq!(campaign.pending_seed().expect("seed").skirmish, SkirmishSetup::default());
}

#[test]
fn a_new_slot_campaign_starts_locked_under_its_slot_id() {
    let slot = CampaignState::new_slot_campaign(SaveSlotId::B, "local-player", 1, &catalog());
    assert_eq!(slot.campaign_id, "local-campaign-slot-b");
    let mut expected = fresh();
    expected.campaign_id = "local-campaign-slot-b".to_string();
    assert_eq!(slot, expected);
    assert!(!slot.mentor_met);
    assert!(slot.world_flags.is_empty());
    assert_eq!(slot.quest_state, QuestState::Locked);
    assert_eq!(slot.reputation, 0);
    assert_eq!(slot.validate(&catalog()), Ok(()));
}

fn evening_event() -> NpcSocialEvent {
    NpcSocialEvent {
        id: "evening-chat".to_string(),
        first_npc_id: "street-compass-sifu".to_string(),
        second_npc_id: "archive-keeper".to_string(),
        room_id: "archive_steps".to_string(),
        text: "They trade notes.".to_string(),
        region_id: "mirror_city".to_string(),
        market_item_id: "iron_ore".to_string(),
        migration_room_id: "relay_quarter".to_string(),
    }
}

#[test]
fn waiting_in_town_moves_the_clock_restores_stamina_and_lets_npcs_meet() {
    let mut state = fresh();
    state.expedition_supplies.stamina = 90;
    assert_eq!(
        state.wait_in_town(20, &evening_event()),
        Err(CampaignError::InvalidState("town waiting must be between 30 minutes and 6 hours".to_string()))
    );
    state.wait_in_town(360, &evening_event()).expect("waited");
    assert_eq!(state.world_clock.minute_of_day, 840);
    assert_eq!(state.expedition_supplies.stamina, 100);
    assert_eq!(state.social_event_history.len(), 1);
    assert_eq!(state.social_event_history[0].minute_of_day, 840);
    assert_eq!(state.npc_memory.len(), 2);
    assert_eq!(state.revision, 1);
}

#[test]
fn healing_uses_a_tonic_or_pays_the_clinic() {
    let mut state = fresh();
    assert_eq!(
        state.heal_party(),
        Err(CampaignError::InvalidState("the active roster has no injuries to treat".to_string()))
    );
    state.party[1].injury_level = 4;
    state.party[1].available = false;
    state.heal_party().expect("clinic");
    assert_eq!(state.credits, 220);
    assert_eq!(state.party[1].injury_level, 3);
    assert!(state.party[1].available);
    state.inventory.push(LootStack { item_id: "field-tonic-kit".to_string(), quantity: 1 });
    state.heal_party().expect("tonic");
    assert_eq!(state.credits, 220);
    assert!(state.inventory.is_empty());
    state.credits = 10;
    assert_eq!(
        state.heal_party(),
        Err(CampaignError::InvalidState("field clinic costs 40 credits".to_string()))
    );
}
