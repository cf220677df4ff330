use trnm_campaign_core::battle_map::{BattleGridPoint, BattleMapNodeV1, BattleMapSeedV1};
use trnm_campaign_core::campaign::CampaignState;
use trnm_campaign_core::catalog::{
    CampaignDifficulty, CampaignMission, CampaignPhase, CampaignRoom, ExpeditionPreparation, QuestState,
};
use trnm_campaign_core::clock::{ExpeditionSupplyState, WorldClock};
use trnm_campaign_core::economy::{EconomicOutbox, EconomyMode};
use trnm_campaign_core::error::CampaignError;
use trnm_campaign_core::hashing::canonical_json_hash;
use trnm_campaign_core::loot::LootStack;
use trnm_campaign_core::market::MarketCatalogItem;
use trnm_campaign_core::party::{LevelProgress, PartyBattleState};
use trnm_campaign_core::quests::{StoryProgress, StoryStepId};
use trnm_campaign_core::settlement::{BattleOutcome, BattleResultV1, SkillProgress, UnitBattleReportV1, UnitBattleStatus};
use trnm_campaign_core::skirmish::SkirmishSetup;
use trnm_campaign_core::stats::RtsUnitStats;
use trnm_campaign_core::deployment::MemberLoadout;
use trnm_campaign_core::economy::{ExecutionOutcome, ReceiptProgressionClass};
use trnm_campaign_core::story::MainStoryChapter;

const MEMBERS: [&str; 4] = ["hero", "warden", "scout", "medic"];

fn catalog() -> Vec<MarketCatalogItem> {
    vec![
        MarketCatalogItem { id: "iron_ore".to_string(), material: true },
        MarketCatalogItem { id: "field_ration".to_string(), material: false },
    ]
}

fn member(id: &str) -> PartyBattleState {
    PartyBattleState {
        unit_id: id.to_string(),
        persistent: id == "hero",
        available: true,
        experience: 0,
        veteran_rank: 0,
        confirmed_kills: 0,
        injury_level: 0,
    }
}

fn campaign() -> CampaignState {
    CampaignState {
        contract_version: "trnm_campaign_save_v1".to_string(),
        schema_revision: 10,
        campaign_id: "campaign-1".to_string(),
        character_id: "hero-character".to_string(),
        revision: 0,
        room: CampaignRoom::ExpeditionGate,
        phase: CampaignPhase::Town,
        difficulty: CampaignDifficulty::Standard,
        reputation: 0,
        progress: LevelProgress { experience: 0, level: 1, growth_points_available: 1, growth_points_awarded: 1 },
        growth_points_spent: 0,
        pending_growth: false,
        credits: 260,
        mentor_training_sessions: 0,
        aftershock_completions: 0,
        inventory: vec![],
        world_flags: vec!["expedition_gate_open".to_string()],
        skills: vec![SkillProgress { rank: 1, experience: 0 }],
        party: MEMBERS.iter().map(|id| member(id)).collect(),
        active_party_ids: MEMBERS.iter().map(|id| id.to_string()).collect(),
        active_mission: CampaignMission::FirstContact,
        skirmish_setup: SkirmishSetup::default(),
        story: StoryProgress::default(),
        quest_state: QuestState::Accepted,
        mentor_met: true,
        trained_with_mentor: false,
        shortcut_unlocked: false,
        forge_master: false,
        main_story_chapter: MainStoryChapter::MirrorCityOaths,
        main_story_decisions: vec![],
        main_story_ending: None,
        ending_epilogue_progress: 0,
        ending_epilogue_complete: false,
        world_clock: WorldClock::default(),
        expedition_supplies: ExpeditionSupplyState::default(),
        selected_expedition_preparation: ExpeditionPreparation::Immediate,
        quest_chain: None,
        market_stock: vec![("iron_ore".to_string(), 12), ("field_ration".to_string(), 4)],
        market_demand: vec![("iron_ore".to_string(), 0), ("field_ration".to_string(), 0)],
        social_event_history: vec![],
        conversation_history: vec![],
        npc_memory: vec![],
        npc_work_output: vec![],
        npc_autonomous_goals: vec![],
        npc_goal_rooms: vec![],
        npc_bonds: vec![],
        economy_mode: EconomyMode::OfflineLocal,
        economy_account_binding: None,
        outbox: EconomicOutbox::new(),
        settled_battle_ids: vec![],
        settlement_receipts: vec![],
        verified_economic_receipts: vec![],
        pending_battle: None,
    }
}

fn node(id: &str, x: i16, y: i16) -> BattleMapNodeV1 {
    BattleMapNodeV1 { id: id.to_string(), position: BattleGridPoint::new(x, y) }
}

fn map() -> BattleMapSeedV1 {
    BattleMapSeedV1 {
        width: 12,
        height: 8,
        terrain_rows: vec![
            "gggggggggggg".to_string(),
            "gggrrrrrgggg".to_string(),
            "ggggwwgggggg".to_string(),
            "gggggggggggg".to_string(),
            "ggggggggrrrr".to_string(),
            "gggggggggggg".to_string(),
            "ggggggwwgggg".to_string(),
            "gggggggggggg".to_string(),
        ],
        party_start: BattleGridPoint::new(1, 6),
        approach_point: BattleGridPoint::new(4, 1),
        objective: BattleGridPoint::new(10, 4),
        resource_nodes: vec![node("cyan", 2, 5)],
        enemy_spawns: vec![node("north", 10, 1), node("east", 11, 3), node("south", 9, 7)],
    }
}

fn loadouts() -> Vec<MemberLoadout> {
    MEMBERS
        .iter()
        .map(|id| MemberLoadout {
            display_name: id.to_string(),
            role: "line".to_string(),
            skill_ids: vec![],
            equipment_ids: if *id == "hero" { vec!["route-guard-staff".to_string()] } else { vec![] },
            base_stats: RtsUnitStats {
                max_hp: 120,
                damage: 14,
                armor: 3,
                move_speed_milli: 1000,
                attack_interval_ticks: 10,
                evasion_permille: 50,
                energy: 100,
                ability_range: 4,
                skill_power_permille: 1000,
            },
        })
        .collect()
}

fn offline_outcomes() -> Vec<ExecutionOutcome> {
    vec![ExecutionOutcome::Verified { class: ReceiptProgressionClass::ProgressionAllowed, reason: None }]
}

fn deployed() -> CampaignState {
    let mut state = campaign();
    state.start_first_contact_battle(map(), loadouts(), false, 0).expect("deployment");
    state
}

fn result_for(state: &CampaignState, outcome: BattleOutcome) -> BattleResultV1 {
    let seed = state.pending_seed().expect("pending seed");
    BattleResultV1 {
        contract_version: "trnm_battle_result_v2".to_string(),
        battle_id: seed.battle_id.clone(),
        seed_hash: seed.seed_hash.clone(),
        outcome,
        units: MEMBERS
            .iter()
            .map(|id| UnitBattleReportV1 {
                unit_id: id.to_string(),
                status: if *id == "warden" { UnitBattleStatus::Wounded } else { UnitBattleStatus::Healthy },
                remaining_hp: 80,
                experience_gained: 30,
                veteran_rank: 1,
                confirmed_kills: 2,
            })
            .collect(),
        loot: vec![LootStack { item_id: "iron_ore".to_string(), quantity: 2 }],
        resource_delta: 40,
        reputation_delta: 3,
        world_flags: vec!["first_contact_secured".to_string()],
        elapsed_ticks: 1200,
        final_snapshot_hash: "f".repeat(64),
    }
}

fn state_message(result: Result<(), CampaignError>) -> String {
    match result {
        Err(CampaignError::InvalidState(message)) => message,
        other => panic!("expected a state error, got {other:?}"),
    }
}

#[test]
fn a_fresh_campaign_is_consistent() {
    assert_eq!(campaign().validate(&catalog()), Ok(()));
}

#[test]
fn validation_reports_the_first_broken_rule() {
    let mut old_schema = campaign();
    old_schema.schema_revision = 9;
    assert_eq!(
        old_schema.validate(&catalog()),
        Err(CampaignError::InvalidContract("unsupported campaign schema revision 9".to_string()))
    );
    let mut short_party = campaign();
    short_party.active_party_ids.pop();
    assert_eq!(state_message(short_party.validate(&catalog())), "exactly four active party members are required");
    let mut unpriced = campaign();
    unpriced.market_demand.pop();
    assert_eq!(
        state_message(unpriced.validate(&catalog())),
        "market stock/demand state is incomplete or out of bounds"
    );
    let mut unknown_member = campaign();
    unknown_member.active_party_ids[3] = "stranger".to_string();
    assert_eq!(
        state_message(unknown_member.validate(&catalog())),
        "party ids must be unique and active ids must exist"
    );
    let mut orphaned = campaign();
    orphaned.phase = CampaignPhase::BattlePending;
    assert_eq!(state_message(orphaned.validate(&catalog())), "campaign phase and pending battle disagree");
}

#[test]
fn deployment_issues_a_sealed_seed_and_waits_for_the_battle() {
    let state = deployed();
    assert_eq!(state.phase, CampaignPhase::BattlePending);
    assert_eq!(state.revision, 1);
    let seed = state.pending_seed().expect("pending seed");
    assert_eq!(seed.battle_id, "first_contact-00000001");
    assert_eq!(seed.campaign_revision, 1);
    assert_eq!(seed.party[2].spawn_slot, "party_2");
    assert_eq!(seed.field_build_cost_permille, 1000);
    assert_eq!(seed.expedition_readiness.travel_minutes, 20);
    assert_eq!(seed.seed_hash.len(), 64);
    assert_eq!(state.expedition_supplies.rations, 3);
    assert_eq!(state.world_clock.minute_of_day, 500);
    assert_eq!(state.validate(&catalog()), Ok(()));
}

#[test]
fn refused_deployments_leave_the_campaign_unchanged() {
    let mut wrong_room = campaign();
    wrong_room.room = CampaignRoom::MirrorSquare;
    let before = wrong_room.clone();
    assert!(wrong_room.start_first_contact_battle(map(), loadouts(), false, 0).is_err());
    assert_eq!(wrong_room, before);
    let mut not_accepted = campaign();
    not_accepted.quest_state = QuestState::Available;
    let before = not_accepted.clone();
    assert_eq!(
        not_accepted.start_first_contact_battle(map(), loadouts(), false, 0),
        Err(CampaignError::InvalidState("accept the First Contact quest before deployment".to_string()))
    );
    assert_eq!(not_accepted, before);
    let mut state = campaign();
    let mut broken = map();
    broken.width = 11;
    let before = state.clone();
    assert_eq!(
        state.start_first_contact_battle(broken, loadouts(), false, 0),
        Err(CampaignError::InvalidContract("battle map dimensions/rows are invalid".to_string()))
    );
    assert_eq!(state, before);
}

#[test]
fn staging_checks_the_result_against_its_seed() {
    let mut state = deployed();
    let mut foreign = result_for(&state, BattleOutcome::Victory);
    foreign.seed_hash = "0".repeat(64);
    let before = state.clone();
    assert_eq!(
        state.stage_battle_result(foreign),
        Err(CampaignError::Integrity("BattleResult does not belong to the pending seed".to_string()))
    );
    assert_eq!(state, before);
    let result = result_for(&state, BattleOutcome::Victory);
    assert_eq!(state.stage_battle_result(result), Ok(()));
    assert_eq!(state.phase, CampaignPhase::PostBattlePending);
    assert_eq!(state.revision, 2);
    assert_eq!(state.validate(&catalog()), Ok(()));
    let again = result_for(&deployed(), BattleOutcome::Victory);
    assert_eq!(
        state.stage_battle_result(again),
        Err(CampaignError::InvalidState("no battle is awaiting a result".to_string()))
    );
}

#[test]
fn settlement_applies_the_battle_once_and_returns_to_town() {
    let mut state = deployed();
    let result = result_for(&state, BattleOutcome::Victory);
    let battle_id = result.battle_id.clone();
    state.stage_battle_result(result).expect("staged");
    let receipt = state.apply_pending_settlement(Ok(()), &offline_outcomes(), &catalog()).expect("settled");
    assert_eq!(receipt.battle_id, battle_id);
    assert_eq!(receipt.experience_delta, 120);
    assert_eq!(receipt.credit_delta, 40);
    assert_eq!(receipt.campaign_revision_before, 2);
    assert_eq!(receipt.campaign_revision_after, 3);
    assert_eq!(receipt.economic_intent_id, Some(format!("battle-reward:{battle_id}")));
    assert_eq!(receipt.injury_delta_by_unit.get("warden"), Some(&1));
    assert!(!receipt.duplicate);
    assert_eq!(state.phase, CampaignPhase::Town);
    assert_eq!(state.room, CampaignRoom::MirrorSquare);
    assert_eq!(state.progress.experience, 120);
    assert_eq!(state.credits, 300);
    assert_eq!(state.reputation, 3);
    assert_eq!(state.quest_state, QuestState::Completed);
    assert_eq!(state.story.current_step, StoryStepId::BreakAftershock);
    assert_eq!(state.party[1].injury_level, 1);
    assert_eq!(state.inventory, vec![LootStack { item_id: "iron_ore".to_string(), quantity: 2 }]);
    assert_eq!(state.settled_battle_ids, vec![battle_id]);
    assert!(state.outbox.pending.is_empty());
    assert_eq!(state.verified_economic_receipts.len(), 1);
    assert!(state.pending_battle.is_none());
    assert_eq!(state.validate(&catalog()), Ok(()));
    assert_eq!(
        state.apply_pending_settlement(Ok(()), &offline_outcomes(), &catalog()),
        Err(CampaignError::InvalidState("no staged battle result is ready for settlement".to_string()))
    );
}

#[test]
fn a_submitted_result_is_settled_exactly_once() {
    let mut state = deployed();
    let result = result_for(&state, BattleOutcome::Victory);
    let first = state.submit_battle_result(result.clone(), Ok(()), &offline_outcomes(), &catalog()).expect("settled");
    assert!(!first.duplicate);
    let settled = state.clone();
    let replay = state.submit_battle_result(result.clone(), Ok(()), &offline_outcomes(), &catalog()).expect("replayed");
    assert!(replay.duplicate);
    assert_eq!(replay.experience_delta, 0);
    assert_eq!(replay.credit_delta, 0);
    assert_eq!(replay.campaign_revision_before, settled.revision);
    assert_eq!(replay.result_hash, first.result_hash);
    assert_eq!(first.result_hash, result.computed_hash());
    let mut altered = result.clone();
    altered.elapsed_ticks += 1;
    assert_eq!(state, settled);
    assert_eq!(
        state.submit_battle_result(altered, Ok(()), &offline_outcomes(), &catalog()),
        Err(CampaignError::Integrity("replayed battle id carries a different result payload".to_string()))
    );
    assert_eq!(state, settled);
}

#[test]
fn a_defeat_without_wounds_injures_the_first_persistent_member() {
    let mut state = deployed();
    let mut result = result_for(&state, BattleOutcome::Defeat);
    for unit in &mut result.units {
        unit.status = UnitBattleStatus::Healthy;
    }
    let receipt = state.submit_battle_result(result, Ok(()), &offline_outcomes(), &catalog()).expect("settled");
    assert_eq!(receipt.credit_delta, 0);
    assert_eq!(receipt.economic_intent_id, None);
    assert_eq!(receipt.injury_delta_by_unit.get("hero"), Some(&1));
    assert_eq!(state.party[0].injury_level, 1);
    assert_eq!(state.quest_state, QuestState::Failed);
    assert!(state.outbox.pending.is_empty());
}

#[test]
fn deployment_builds_the_seed_party_from_the_active_members() {
    let state = deployed();
    let seed = state.pending_seed().expect("pending seed");
    let ids: Vec<&str> = seed.party.iter().map(|unit| unit.unit_id.as_str()).collect();
    assert_eq!(ids, MEMBERS.to_vec());
    assert!(seed.party[0].persistent);
    assert_eq!(seed.party[0].spawn_slot, "party_0");
    assert!(seed.party[0].equipment_ids.iter().any(|item| item == "route-guard-staff"));
    assert_eq!(seed.validate(), Ok(()));
}

#[test]
fn mentor_training_and_loadout_are_required_before_battle() {
    let mut state = campaign();
    assert!(state.can_deploy(&loadouts()));
    assert!(!state.can_deploy(&loadouts()[..3]));
    state.start_first_contact_battle(map(), loadouts(), false, 0).expect("deployment");
    let seed = state.pending_seed().expect("pending seed");
    assert_eq!(seed.party.len(), 4);
    assert!(seed.party[0].equipment_ids.iter().any(|item| item == "route-guard-staff"));
    seed.validate().unwrap();
    assert_eq!(seed.battle_id, format!("first_contact-{:08}", seed.campaign_revision));
    assert_eq!(state.revision, seed.campaign_revision);
}

#[test]
fn seed_hash_rejects_tampered_rpg_stats() {
    let state = deployed();
    let mut seed = state.pending_seed().expect("pending seed").clone();
    seed.party[0].stats.damage += 999;
    assert!(matches!(seed.validate(), Err(CampaignError::Integrity(_))));
}

#[test]
fn a_seed_is_sealed_by_the_hash_of_its_own_payload() {
    let state = deployed();
    let seed = state.pending_seed().expect("pending seed").clone();
    assert_eq!(seed.validate(), Ok(()));
    let mut renamed = seed.clone();
    renamed.party[1].display_name = "impostor".to_string();
    assert_eq!(
        renamed.validate(),
        Err(CampaignError::Integrity("BattleSeed hash does not match its payload".to_string()))
    );
    let mut short = seed.clone();
    short.party.pop();
    assert!(short.validate().is_err());
    let mut tampered = deployed();
    if let Some(pending) = tampered.pending_battle.as_mut() {
        pending.seed.party[2].stats.armor += 1;
    }
    assert_eq!(
        tampered.validate(&catalog()),
        Err(CampaignError::Integrity("BattleSeed hash does not match its payload".to_string()))
    );
}

#[test]
fn result_is_staged_before_settlement_and_duplicate_is_zero_delta() {
    let mut state = deployed();
    let mut result = result_for(&state, BattleOutcome::Victory);
    result.resource_delta = 80;
    result.units[0].veteran_rank = 1;
    result.units[0].confirmed_kills = 2;
    state.stage_battle_result(result.clone()).expect("staged");
    assert_eq!(state.phase, CampaignPhase::PostBattlePending);
    assert_eq!(state.progress.experience, 0);
    let receipt = state.apply_pending_settlement(Ok(()), &offline_outcomes(), &catalog()).expect("settled");
    assert!(!receipt.duplicate);
    assert_eq!(receipt.experience_delta, 120);
    assert_eq!(receipt.credit_delta, 80);
    let expected_economic_intent_id = format!("battle-reward:{}", receipt.battle_id);
    assert_eq!(receipt.economic_intent_id.as_deref(), Some(expected_economic_intent_id.as_str()));
    let economic_receipt_id = receipt.economic_receipt_id.as_deref().expect("offline battle reward receipt is linked");
    assert_eq!(economic_receipt_id, format!("offline-receipt:{expected_economic_intent_id}"));
    assert!(state.verified_economic_receipts.iter().any(|economic| {
        economic.receipt_id == economic_receipt_id && economic.intent_id == expected_economic_intent_id
    }));
    assert_eq!(state.quest_state, QuestState::Completed);
    assert_eq!(state.party[0].veteran_rank, 1);
    assert_eq!(state.party[0].confirmed_kills, 2);
    assert_eq!(state.room, CampaignRoom::MirrorSquare);
    assert_eq!(state.validate(&catalog()), Ok(()));
    let before = state.clone();
    let duplicate = state.submit_battle_result(result, Ok(()), &offline_outcomes(), &catalog()).unwrap();
    assert!(duplicate.duplicate);
    assert_eq!(duplicate.experience_delta, 0);
    assert_eq!(state, before);
}

#[test]
fn a_refused_settlement_leaves_the_campaign_unchanged() {
    let mut state = deployed();
    let result = result_for(&state, BattleOutcome::Victory);
    state.stage_battle_result(result).expect("staged");
    let before = state.clone();
    assert!(state
        .apply_pending_settlement(Err("reward refused".to_string()), &offline_outcomes(), &catalog())
        .is_err());
    assert_eq!(state, before);
}

#[test]
fn a_settlement_without_a_reconcile_answer_keeps_the_reward_queued() {
    let mut state = deployed();
    let result = result_for(&state, BattleOutcome::Victory);
    let receipt = state.submit_battle_result(result, Ok(()), &[], &catalog()).expect("settled");
    assert_eq!(receipt.economic_receipt_id, None);
    assert_eq!(state.outbox.pending.len(), 1);
    assert!(state.verified_economic_receipts.is_empty());
}

#[test]
fn the_seed_hash_is_taken_over_its_canonical_payload() {
    let state = deployed();
    let seed = state.pending_seed().expect("pending seed").clone();
    let payload = String::from_utf8(seed.payload_json()).expect("utf-8");
    assert!(payload.starts_with("{\"contract_version\":\""));
    assert!(payload.contains("\"battle_id\":\"first_contact-00000001\",\"campaign_revision\":1,"));
    assert!(payload.ends_with("\"seed_hash\":\"\"}"));
    assert_eq!(seed.seed_hash, canonical_json_hash(seed.payload_json().as_slice()));
    let issued = String::from_utf8(seed.canonical_json()).expect("utf-8");
    assert!(issued.ends_with(&format!("\"seed_hash\":\"{}\"}}", seed.seed_hash)));
    let mut quoted = seed.clone();
    quoted.party[0].display_name = "the \"hero\"".to_string();
    let quoted_json = String::from_utf8(quoted.payload_json()).expect("utf-8");
    assert!(quoted_json.contains("\"display_name\":\"the \\\"hero\\\"\""));
}

#[test]
fn the_battle_result_has_a_canonical_form_and_content_hash() {
    let state = deployed();
    let mut result = result_for(&state, BattleOutcome::Withdrawal);
    result.resource_delta = -5;
    result.reputation_delta = -2;
    let json = String::from_utf8(result.canonical_json()).expect("utf-8");
    assert!(json.starts_with("{\"contract_version\":\"trnm_battle_result_v2\",\"battle_id\":\"first_contact-00000001\","));
    assert!(json.contains("\"outcome\":\"withdrawal\",\"units\":[{\"unit_id\":\"hero\",\"status\":\"healthy\",\"remaining_hp\":80,"));
    assert!(json.contains("\"loot\":[{\"item_id\":\"iron_ore\",\"quantity\":2}],\"resource_delta\":-5,\"reputation_delta\":-2,"));
    assert!(json.ends_with(&format!("\"final_snapshot_hash\":\"{}\"}}", "f".repeat(64))));
    assert_eq!(result.computed_hash(), canonical_json_hash(json.as_bytes()));
}
