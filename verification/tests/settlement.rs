use std::collections::BTreeMap;
use trnm_campaign_core::loot::LootStack;
use trnm_campaign_core::settlement::{BattleOutcome, SettlementReceiptV1};

fn receipt() -> SettlementReceiptV1 {
    SettlementReceiptV1 {
        contract_version: "trnm_settlement_receipt_v1".to_string(),
        battle_id: "battle-1".to_string(),
        seed_hash: "seed".to_string(),
        result_hash: "result".to_string(),
        campaign_revision_before: 4,
        campaign_revision_after: 5,
        outcome: BattleOutcome::Victory,
        experience_delta: 120,
        reputation_delta: 3,
        credit_delta: 80,
        loot_delta: vec![LootStack { item_id: "relay-core-fragment".to_string(), quantity: 1 }],
        injury_delta_by_unit: BTreeMap::from([("aya".to_string(), 1u8)]),
        economic_intent_id: Some("battle-reward:battle-1".to_string()),
        economic_receipt_id: None,
        duplicate: false,
    }
}

#[test]
fn duplicate_receipts_are_zero_delta() {
    let original = receipt();
    let duplicate = SettlementReceiptV1::duplicate_from(&original, 9);
    assert!(duplicate.duplicate);
    assert_eq!(duplicate.battle_id, original.battle_id);
    assert_eq!(duplicate.result_hash, original.result_hash);
    assert_eq!(duplicate.outcome, BattleOutcome::Victory);
    assert_eq!((duplicate.campaign_revision_before, duplicate.campaign_revision_after), (9, 9));
    assert_eq!((duplicate.experience_delta, duplicate.reputation_delta, duplicate.credit_delta), (0, 0, 0));
    assert!(duplicate.loot_delta.is_empty());
    assert!(duplicate.injury_delta_by_unit.is_empty());
    assert_eq!(duplicate.economic_intent_id.as_deref(), Some("battle-reward:battle-1"));
    assert_eq!(SettlementReceiptV1::duplicate_from(&duplicate, 12), SettlementReceiptV1::duplicate_from(&original, 12));
}

use trnm_campaign_core::catalog::QuestState;
use trnm_campaign_core::error::CampaignError;
use trnm_campaign_core::settlement::{
    battle_settlement_effects, injury_delta, level_for_experience, receipt_for, replay_battle_result,
    BattleResultV1, UnitBattleReportV1, UnitBattleStatus,
};

#[test]
fn replays_of_settled_battles_are_duplicates_or_refused() {
    let receipts = vec![receipt()];
    assert!(receipt_for(&receipts, "battle-1").is_some());
    assert!(receipt_for(&receipts, "battle-2").is_none());
    assert!(replay_battle_result(&receipts, "battle-2", "seed", "result", 7).is_none());
    match replay_battle_result(&receipts, "battle-1", "seed", "result", 7) {
        Some(Ok(duplicate)) => {
            assert!(duplicate.duplicate);
            assert_eq!(duplicate.credit_delta, 0);
            assert_eq!(duplicate.campaign_revision_after, 7);
        }
        other => panic!("unexpected {other:?}"),
    }
    match replay_battle_result(&receipts, "battle-1", "seed", "tampered", 7) {
        Some(Err(CampaignError::Integrity(message))) => {
            assert_eq!(message, "replayed battle id carries a different result payload")
        }
        other => panic!("unexpected {other:?}"),
    }
}

fn unit(id: &str, status: UnitBattleStatus, experience: u64) -> UnitBattleReportV1 {
    UnitBattleReportV1 {
        unit_id: id.to_string(),
        status,
        remaining_hp: 10,
        experience_gained: experience,
        veteran_rank: 0,
        confirmed_kills: 0,
    }
}

fn result(outcome: BattleOutcome, resource_delta: i64, elapsed_ticks: u64) -> BattleResultV1 {
    BattleResultV1 {
        contract_version: "trnm_battle_result_v2".to_string(),
        battle_id: "battle-9".to_string(),
        seed_hash: "seed".to_string(),
        outcome,
        units: vec![
            unit("hero", UnitBattleStatus::Healthy, 40),
            unit("aya", UnitBattleStatus::Wounded, 30),
            unit("nia", UnitBattleStatus::Lost, 0),
            unit("sol", UnitBattleStatus::Incapacitated, 50),
        ],
        loot: vec![],
        resource_delta,
        reputation_delta: 2,
        world_flags: vec![],
        elapsed_ticks,
        final_snapshot_hash: "0".repeat(64),
    }
}

#[test]
fn victory_settlement_pays_credits_and_records_injuries() {
    let effects = battle_settlement_effects(&result(BattleOutcome::Victory, 80, 1201));
    assert_eq!(effects.experience_delta, 120);
    assert_eq!(effects.credit_delta, 80);
    assert_eq!(
        effects.injury_deltas,
        vec![("aya".to_string(), 1), ("nia".to_string(), 2), ("sol".to_string(), 2)]
    );
    assert_eq!(effects.quest_state, QuestState::Completed);
    assert_eq!(effects.elapsed_minutes, 3);
    assert_eq!(effects.economic_intent_id.as_deref(), Some("battle-reward:battle-9"));
}

#[test]
fn defeat_and_withdrawal_pay_nothing() {
    let defeat = battle_settlement_effects(&result(BattleOutcome::Defeat, 80, 600));
    assert_eq!(defeat.credit_delta, 0);
    assert_eq!(defeat.quest_state, QuestState::Failed);
    assert_eq!(defeat.elapsed_minutes, 1);
    assert_eq!(defeat.economic_intent_id, None);
    let withdrawal = battle_settlement_effects(&result(BattleOutcome::Withdrawal, -20, 0));
    assert_eq!(withdrawal.quest_state, QuestState::Withdrawn);
    assert_eq!(withdrawal.elapsed_minutes, 1);
    let negative = battle_settlement_effects(&result(BattleOutcome::Victory, -5, 60));
    assert_eq!(negative.credit_delta, 0);
    assert_eq!(negative.economic_intent_id, None);
}

#[test]
fn levels_and_injuries_follow_the_tables() {
    assert_eq!(level_for_experience(0), 1);
    assert_eq!(level_for_experience(499), 1);
    assert_eq!(level_for_experience(500), 2);
    assert_eq!(level_for_experience(1250), 3);
    assert_eq!(injury_delta(UnitBattleStatus::Healthy), 0);
    assert_eq!(injury_delta(UnitBattleStatus::Wounded), 1);
    assert_eq!(injury_delta(UnitBattleStatus::Lost), 2);
}

#[test]
fn results_are_checked_against_their_seed() {
    let ids = |v: &[&str]| v.iter().map(|s| s.to_string()).collect::<Vec<_>>();
    let mut r = result(BattleOutcome::Victory, 10, 1200);
    r.contract_version = trnm_campaign_core::BATTLE_RESULT_CONTRACT.to_string();
    r.final_snapshot_hash = "a".repeat(64);
    r.units = vec![unit("hero", UnitBattleStatus::Healthy, 1), unit("scout", UnitBattleStatus::Wounded, 1)];
    let seed_id = r.battle_id.clone();
    let seed_hash = r.seed_hash.clone();
    assert!(r.validate_against(&seed_id, &seed_hash, &ids(&["hero", "scout"])).is_ok());
    assert!(r.validate_against(&seed_id, &seed_hash, &ids(&["scout", "hero"])).is_ok());
    match r.validate_against(&seed_id, &seed_hash, &ids(&["hero", "scout", "medic"])) {
        Err(CampaignError::InvalidContract(m)) => assert_eq!(m, "BattleResult must report every seeded party unit exactly once"),
        other => panic!("unexpected {other:?}"),
    }
    match r.validate_against("other-battle", &seed_hash, &ids(&["hero", "scout"])) {
        Err(CampaignError::Integrity(m)) => assert_eq!(m, "BattleResult does not belong to the pending seed"),
        other => panic!("unexpected {other:?}"),
    }
    let mut doubled = r.clone();
    doubled.units.push(unit("hero", UnitBattleStatus::Healthy, 1));
    assert!(doubled.validate_against(&seed_id, &seed_hash, &ids(&["hero", "scout"])).is_err());
    let mut short = r.clone();
    short.final_snapshot_hash = "abc".to_string();
    match short.validate_against(&seed_id, &seed_hash, &ids(&["hero", "scout"])) {
        Err(CampaignError::InvalidContract(m)) => assert_eq!(m, "BattleResult requires a terminal snapshot hash and elapsed ticks"),
        other => panic!("unexpected {other:?}"),
    }
    let mut old = r;
    old.contract_version = "trnm_battle_result_v1".to_string();
    match old.validate_against(&seed_id, &seed_hash, &ids(&["hero", "scout"])) {
        Err(CampaignError::InvalidContract(m)) => assert_eq!(m, "trnm_battle_result_v1"),
        other => panic!("unexpected {other:?}"),
    }
}
