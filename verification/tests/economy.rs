use std::collections::BTreeMap;

use trnm_campaign_core::economy::{
    apply_receipt_to_wallet, battle_reward_intent, begin_tradeable_purchase, bind_cex_account,
    economic_idempotency_key, effective_economy_binding, intent_epoch, link_reward_receipt,
    seller_account_id, EconomicIntentKind, EconomicOutbox, EconomyAccountBinding, EconomyMode,
    ExecutionOutcome, PurchaseStep, ReceiptProgressionClass, ReceiptStatus, ReconcileAction,
    WalletBalances,
};
use trnm_campaign_core::error::CampaignError;
use trnm_campaign_core::loot::LootStack;
use trnm_campaign_core::settlement::{
    ValueEventRecord, ValueEventSource, ValueSettlementPolicy,
    BattleOutcome, EconomyReconciliationReport, OfflineLocalEconomyBackend, SettlementReceiptV1,
    TradeablePurchaseStage,
};
use trnm_campaign_core::SETTLEMENT_RECEIPT_CONTRACT;

fn reward_receipt(duplicate: bool, credit_delta: i64) -> SettlementReceiptV1 {
    SettlementReceiptV1 {
        contract_version: SETTLEMENT_RECEIPT_CONTRACT.to_string(),
        battle_id: "battle-economy-1".to_string(),
        seed_hash: "seed".to_string(),
        result_hash: "result".to_string(),
        campaign_revision_before: 1,
        campaign_revision_after: 2,
        outcome: BattleOutcome::Victory,
        experience_delta: 10,
        reputation_delta: 1,
        credit_delta,
        loot_delta: Vec::new(),
        injury_delta_by_unit: BTreeMap::new(),
        economic_intent_id: Some("battle-reward:battle-economy-1".to_string()),
        economic_receipt_id: None,
        duplicate,
    }
}

fn player() -> EconomyAccountBinding {
    bind_cex_account("player-one".to_string(), "account-one".to_string(), 1).unwrap()
}

#[test]
fn reward_outbox_is_exactly_once_and_fail_closed() {
    let mut outbox = EconomicOutbox::new();
    let receipt = reward_receipt(false, 80);
    let draft = battle_reward_intent(&receipt, player()).unwrap();
    assert_eq!(draft.intent_id, "battle-reward:battle-economy-1");
    assert_eq!(draft.kind, EconomicIntentKind::ReleaseReward);
    assert_eq!(outbox.queue("campaign", draft.clone(), intent_epoch(1, 480), Ok(())).unwrap(), true);
    assert_eq!(outbox.queue("campaign", draft.clone(), intent_epoch(1, 490), Ok(())).unwrap(), false);
    assert_eq!(outbox.pending.len(), 1);
    assert_eq!(outbox.pending[0].idempotency_key, "campaign:battle-reward:battle-economy-1");
    assert_eq!(outbox.pending[0].created_at_epoch, 86_400 + 480 * 60);

    // The backend is unreachable: the intent stays pending and the wallet untouched.
    let mut report = EconomyReconciliationReport::default();
    let action = report.record(ExecutionOutcome::BackendError("simulated transport outage".to_string()));
    assert_eq!(action, ReconcileAction::Hold);
    assert_eq!(report.recoverable_holds, 1);
    assert_eq!(report.last_error.as_deref(), Some("simulated transport outage"));
    assert_eq!(outbox.pending.len(), 1);

    // Later the receipt arrives and is applied once.
    let mut wallet = WalletBalances::default();
    let mut report = EconomyReconciliationReport::default();
    let action = report.record(ExecutionOutcome::Verified { class: ReceiptProgressionClass::ProgressionAllowed, reason: None });
    assert_eq!(action, ReconcileAction::Apply);
    let intent = outbox.complete_front();
    apply_receipt_to_wallet(&mut wallet, &intent, "account-one", true);
    assert_eq!(report.applied, 1);
    assert_eq!(wallet.available_credits, 80);
    assert!(outbox.pending.is_empty());

    let mut settlements = vec![reward_receipt(false, 80)];
    link_reward_receipt(&mut settlements, &intent, "offline-receipt:battle-reward:battle-economy-1", true);
    assert_eq!(settlements[0].economic_receipt_id.as_deref(), Some("offline-receipt:battle-reward:battle-economy-1"));

    // Queueing the settled reward again is a no-op.
    assert_eq!(outbox.queue("campaign", draft, intent_epoch(2, 0), Ok(())).unwrap(), false);
    assert!(outbox.pending.is_empty());
}

#[test]
fn no_reward_intent_for_duplicates_or_empty_rewards() {
    assert!(battle_reward_intent(&reward_receipt(true, 80), player()).is_none());
    assert!(battle_reward_intent(&reward_receipt(false, 0), player()).is_none());
}

#[test]
fn refused_and_overflowing_intents_are_not_queued() {
    let mut outbox = EconomicOutbox::new();
    let draft = battle_reward_intent(&reward_receipt(false, 5), player()).unwrap();
    match outbox.queue("campaign", draft.clone(), 0, Err("intent amount is invalid".to_string())) {
        Err(CampaignError::InvalidState(message)) => assert_eq!(message, "intent amount is invalid"),
        other => panic!("unexpected {other:?}"),
    }
    assert!(outbox.pending.is_empty() && outbox.idempotency_keys.is_empty());
    for n in 0..128 {
        let mut next = draft.clone();
        next.intent_id = format!("intent-{n}");
        assert_eq!(outbox.queue("campaign", next, 0, Ok(())).unwrap(), true);
    }
    let mut overflow = draft;
    overflow.intent_id = "intent-128".to_string();
    match outbox.queue("campaign", overflow, 0, Ok(())) {
        Err(CampaignError::InvalidState(message)) => assert_eq!(message, "economic outbox reached its bounded capacity"),
        other => panic!("unexpected {other:?}"),
    }
    assert_eq!(outbox.pending.len(), 128);
}

#[test]
fn corrupt_receipts_dead_letter_their_intent() {
    let mut outbox = EconomicOutbox::new();
    let draft = battle_reward_intent(&reward_receipt(false, 1), player()).unwrap();
    outbox.queue("campaign", draft, 0, Ok(())).unwrap();
    let mut report = EconomyReconciliationReport::default();
    let action = report.record(ExecutionOutcome::InvalidReceipt("receipt intent_id mismatch".to_string()));
    assert_eq!(action, ReconcileAction::DeadLetter);
    outbox.dead_letter_front();
    assert_eq!(report.hard_failures, 1);
    assert_eq!(outbox.dead_letters.len(), 1);
    assert!(outbox.pending.is_empty());
    assert_eq!(outbox.idempotency_keys.len(), 1);
    let action = report.record(ExecutionOutcome::Verified { class: ReceiptProgressionClass::HardFail, reason: None });
    assert_eq!(action, ReconcileAction::DeadLetterAndApply);
    assert_eq!(report.hard_failures, 2);
    assert_eq!(report.attempted, 2);
}

#[test]
fn tradeable_purchase_runs_reserve_settle_consume() {
    let buyer = effective_economy_binding(&None, "hero", 7);
    assert_eq!(buyer.account_id, "trnm-offline-local-account");
    let seller = seller_account_id(EconomyMode::OfflineLocal, None, "mirror_city").unwrap();
    assert_eq!(seller, "offline-market:mirror_city");
    let (mut purchase, reserve) =
        begin_tradeable_purchase("campaign", "salvaged-alloy", 3, 42, buyer, seller, "mirror_city", 7);
    assert_eq!(purchase.purchase_id, "trade:campaign:salvaged-alloy:3");
    assert_eq!(reserve.intent_id, "trade:campaign:salvaged-alloy:3:reserve");
    assert_eq!(reserve.kind, EconomicIntentKind::Reserve);
    assert_eq!(purchase.seller.actor_id, "trnm-market:mirror_city");

    let settle = match purchase.after_receipt(&reserve.intent_id, true, false) {
        PurchaseStep::Queue(d) => d,
        other => panic!("unexpected {other:?}"),
    };
    assert_eq!(purchase.stage, TradeablePurchaseStage::SellerSettlementPending);
    assert_eq!(settle.intent_id, "trade:campaign:salvaged-alloy:3:settle");
    assert_eq!(settle.binding.account_id, "offline-market:mirror_city");
    let consume = match purchase.after_receipt(&settle.intent_id, true, false) {
        PurchaseStep::Queue(d) => d,
        other => panic!("unexpected {other:?}"),
    };
    assert_eq!(purchase.stage, TradeablePurchaseStage::BuyerConsumePending);
    assert_eq!(consume.kind, EconomicIntentKind::Consume);
    assert_eq!(
        purchase.after_receipt(&consume.intent_id, true, false),
        PurchaseStep::Deliver(LootStack { item_id: "salvaged-alloy".to_string(), quantity: 1 })
    );
    assert_eq!(purchase.stage, TradeablePurchaseStage::Consumed);

    let recovery = purchase.cancel();
    assert_eq!(recovery.kind, EconomicIntentKind::Chargeback);
    assert_eq!(recovery.intent_id, "trade:campaign:salvaged-alloy:3:recovery");
    assert_eq!(purchase.stage, TradeablePurchaseStage::RefundPending);
    assert_eq!(purchase.after_receipt(&recovery.intent_id, true, false), PurchaseStep::Nothing);
    assert_eq!(purchase.stage, TradeablePurchaseStage::Refunded);
}

#[test]
fn hard_failed_and_foreign_receipts() {
    let buyer = effective_economy_binding(&Some(player()), "hero", 7);
    assert_eq!(buyer.account_id, "account-one");
    let (mut purchase, reserve) =
        begin_tradeable_purchase("campaign", "salvaged-alloy", 0, 42, buyer, "market".to_string(), "signal_road", 7);
    assert_eq!(purchase.after_receipt("someone-else", true, true), PurchaseStep::Nothing);
    assert_eq!(purchase.stage, TradeablePurchaseStage::ReservePending);
    assert_eq!(purchase.after_receipt(&reserve.intent_id, false, false), PurchaseStep::Nothing);
    assert_eq!(purchase.stage, TradeablePurchaseStage::ReservePending);
    assert_eq!(purchase.after_receipt(&reserve.intent_id, false, true), PurchaseStep::Nothing);
    assert_eq!(purchase.stage, TradeablePurchaseStage::HardFailed);
    let refund = purchase.cancel();
    assert_eq!(refund.kind, EconomicIntentKind::Refund);
    assert_eq!(refund.binding.account_id, "account-one");
}

#[test]
fn connected_seller_accounts_must_be_named() {
    assert!(seller_account_id(EconomyMode::CexConnected, None, "mirror_city").is_err());
    assert!(seller_account_id(EconomyMode::CexConnected, Some("  "), "mirror_city").is_err());
    assert_eq!(
        seller_account_id(EconomyMode::CexConnected, Some("22222222-2222-2222-2222-222222222222"), "mirror_city").unwrap(),
        "22222222-2222-2222-2222-222222222222"
    );
    assert!(bind_cex_account(" ".to_string(), "account".to_string(), 0).is_err());
}

#[test]
fn wallet_follows_reserve_consume_and_refund() {
    let buyer = player();
    let (_, reserve) = begin_tradeable_purchase("c", "salvaged-alloy", 0, 30, buyer.clone(), "m".to_string(), "r", 0);
    let mut outbox = EconomicOutbox::new();
    outbox.queue("c", reserve, 0, Ok(())).unwrap();
    let intent = outbox.complete_front();
    let mut wallet = WalletBalances { available_credits: 100, reserved_credits: 0 };
    apply_receipt_to_wallet(&mut wallet, &intent, "account-one", true);
    assert_eq!(wallet, WalletBalances { available_credits: 70, reserved_credits: 30 });
    // A receipt for another account's intent, or one that does not allow progression, moves nothing.
    apply_receipt_to_wallet(&mut wallet, &intent, "account-two", true);
    apply_receipt_to_wallet(&mut wallet, &intent, "account-one", false);
    assert_eq!(wallet, WalletBalances { available_credits: 70, reserved_credits: 30 });
    let mut refund = intent.clone();
    refund.draft.kind = EconomicIntentKind::Refund;
    apply_receipt_to_wallet(&mut wallet, &refund, "account-one", true);
    assert_eq!(wallet, WalletBalances { available_credits: 100, reserved_credits: 0 });
    let mut saturating = WalletBalances { available_credits: i64::MAX - 1, reserved_credits: 0 };
    let mut reward = intent;
    reward.draft.kind = EconomicIntentKind::ReleaseReward;
    apply_receipt_to_wallet(&mut saturating, &reward, "account-one", true);
    assert_eq!(saturating.available_credits, i64::MAX);
}

#[test]
fn offline_backend_grants_what_each_kind_asks() {
    let backend = OfflineLocalEconomyBackend;
    assert_eq!(backend.receipt_status(EconomicIntentKind::Reserve), ReceiptStatus::Reserved);
    assert_eq!(backend.receipt_status(EconomicIntentKind::Chargeback), ReceiptStatus::SellerChargebackConsumed);
    assert_eq!(backend.receipt_status(EconomicIntentKind::CompleteContract), ReceiptStatus::ApprovedRelease);
    assert_eq!(backend.receipt_status(EconomicIntentKind::Quote), ReceiptStatus::SkippedZeroPrice);
    assert_eq!(backend.receipt_id("x"), "offline-receipt:x");
    assert_eq!(economic_idempotency_key("a", "b"), "a:b");
}

#[test]
fn purchases_are_well_formed_through_their_life() {
    let (mut purchase, reserve) =
        begin_tradeable_purchase("c", "salvaged-alloy", 0, 30, player(), "market".to_string(), "r", 0);
    assert!(purchase.is_well_formed());
    let _ = purchase.after_receipt(&reserve.intent_id, true, false);
    assert!(purchase.is_well_formed());
    let _ = purchase.cancel();
    assert!(purchase.is_well_formed());
    let (free, _) = begin_tradeable_purchase("c", "salvaged-alloy", 0, 0, player(), "market".to_string(), "r", 0);
    assert!(!free.is_well_formed());
    let (unnamed, _) = begin_tradeable_purchase("c", " ", 0, 5, player(), "market".to_string(), "r", 0);
    assert!(!unnamed.is_well_formed());
}

#[test]
fn value_events_must_match_their_settlement_policy() {
    let event = |policy, local: i64, wallet: i64| ValueEventRecord {
        event_id: "chapter:mirror".to_string(),
        source: ValueEventSource::Chapter,
        policy,
        local_soft_credit_delta: local,
        wallet_credit_delta: wallet,
        economic_intent_id: "chapter-contract:mirror".to_string(),
        economic_receipt_id: None,
    };
    assert!(event(ValueSettlementPolicy::LocalSoftOnly, 35, 0).is_well_formed(50));
    assert!(!event(ValueSettlementPolicy::LocalSoftOnly, 35, 1).is_well_formed(50));
    assert!(event(ValueSettlementPolicy::WalletOnly, 0, 10).is_well_formed(50));
    assert!(!event(ValueSettlementPolicy::WalletOnly, 1, 10).is_well_formed(50));
    assert!(event(ValueSettlementPolicy::DualTrack, 40, 40).is_well_formed(50));
    assert!(!event(ValueSettlementPolicy::DualTrack, 40, 41).is_well_formed(50));
    assert!(!event(ValueSettlementPolicy::DualTrack, 80, 60).is_well_formed(50));
    assert!(!event(ValueSettlementPolicy::LocalSoftOnly, -1, 0).is_well_formed(50));
}

#[test]
fn economy_outbox_is_exactly_once_and_fail_closed_across_reload() {
    let mut outbox = EconomicOutbox::new();
    let receipt = reward_receipt(false, 80);
    let draft = battle_reward_intent(&receipt, player()).unwrap();
    assert_eq!(outbox.queue("campaign", draft.clone(), intent_epoch(1, 480), Ok(())).unwrap(), true);
    assert_eq!(outbox.queue("campaign", draft.clone(), intent_epoch(1, 480), Ok(())).unwrap(), false);
    assert_eq!(outbox.pending.len(), 1);

    // A recoverable hold keeps the intent pending and verifies nothing that progresses.
    let mut verified = Vec::new();
    let mut settlements = vec![receipt.clone()];
    let hold = vec![ExecutionOutcome::Verified { class: ReceiptProgressionClass::RecoverableHold, reason: None }];
    OfflineLocalEconomyBackend.reconcile(&mut outbox, &mut verified, &mut settlements, &hold, 4);
    assert_eq!(outbox.pending.len(), 1);
    assert_eq!(settlements[0].economic_receipt_id, None);

    // After a reload the offline backend settles it once.
    let mut loaded = outbox.clone();
    let allowed = vec![ExecutionOutcome::Verified { class: ReceiptProgressionClass::ProgressionAllowed, reason: None }];
    OfflineLocalEconomyBackend.reconcile(&mut loaded, &mut verified, &mut settlements, &allowed, 4);
    assert!(loaded.pending.is_empty());
    assert_eq!(verified.len(), 1);
    assert_eq!(verified[0].receipt_id, "offline-receipt:battle-reward:battle-economy-1");
    assert_eq!(settlements[0].economic_receipt_id.as_deref(), Some("offline-receipt:battle-reward:battle-economy-1"));
    assert_eq!(loaded.queue("campaign", draft, intent_epoch(2, 0), Ok(())).unwrap(), false);
    assert!(loaded.pending.is_empty());
}
