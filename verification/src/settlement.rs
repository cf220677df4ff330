//! Battle results reported by the RTS client and the settlement receipts
//! that the campaign issues for them.

use vstd::prelude::*;
use std::collections::BTreeMap;
use crate::catalog::QuestState;
use crate::error::CampaignError;
use crate::loot::{LootStack, LootView, stacks_view};
use crate::text::str_eq;
use crate::BATTLE_RESULT_CONTRACT;
use vstd::utf8::encode_utf8;
use vstd::string::*;

verus! {

/// How a battle ended.
#[derive(Debug, Clone, Copy, PartialEq, Eq, Hash, Structural)]
pub enum BattleOutcome {
    Victory,
    Defeat,
    Withdrawal,
}

/// The condition a unit left the battle in.
#[derive(Debug, Clone, Copy, PartialEq, Eq, Hash, Structural)]
pub enum UnitBattleStatus {
    Healthy,
    Wounded,
    Incapacitated,
    Lost,
}

/// Rank and experience of one skill.
#[derive(Debug, Clone, PartialEq, Eq, Structural)]
pub struct SkillProgress {
    pub rank: u16,
    pub experience: u64,
}

/// What happened to one seeded unit.
#[derive(Debug, Clone, PartialEq, Eq)]
pub struct UnitBattleReportV1 {
    pub unit_id: String,
    pub status: UnitBattleStatus,
    pub remaining_hp: u32,
    pub experience_gained: u64,
    pub veteran_rank: u8,
    pub confirmed_kills: u32,
}

/// The terminal report of one battle, as submitted by the RTS client.
#[derive(Debug, Clone, PartialEq, Eq)]
pub struct BattleResultV1 {
    pub contract_version: String,
    pub battle_id: String,
    pub seed_hash: String,
    pub outcome: BattleOutcome,
    pub units: Vec<UnitBattleReportV1>,
    pub loot: Vec<LootStack>,
    pub resource_delta: i64,
    pub reputation_delta: i32,
    pub world_flags: Vec<String>,
    pub elapsed_ticks: u64,
    pub final_snapshot_hash: String,
}

/// The campaign's record of one settled battle.
#[derive(Debug, Clone, PartialEq, Eq)]
pub struct SettlementReceiptV1 {
    pub contract_version: String,
    pub battle_id: String,
    pub seed_hash: String,
    pub result_hash: String,
    pub campaign_revision_before: u64,
    pub campaign_revision_after: u64,
    pub outcome: BattleOutcome,
    pub experience_delta: u64,
    pub reputation_delta: i32,
    pub credit_delta: i64,
    pub loot_delta: Vec<LootStack>,
    pub injury_delta_by_unit: BTreeMap<String, u8>,
    pub economic_intent_id: Option<String>,
    pub economic_receipt_id: Option<String>,
    pub duplicate: bool,
}

pub open spec fn opt_text(o: Option<String>) -> Option<Seq<char>> {
    match o {
        Some(s) => Some(s@),
        None => None,
    }
}

pub struct SettlementReceiptView {
    pub contract_version: Seq<char>,
    pub battle_id: Seq<char>,
    pub seed_hash: Seq<char>,
    pub result_hash: Seq<char>,
    pub campaign_revision_before: u64,
    pub campaign_revision_after: u64,
    pub outcome: BattleOutcome,
    pub experience_delta: u64,
    pub reputation_delta: i32,
    pub credit_delta: i64,
    pub loot_delta: Seq<LootView>,
    pub injury_delta_by_unit: Map<String, u8>,
    pub economic_intent_id: Option<Seq<char>>,
    pub economic_receipt_id: Option<Seq<char>>,
    pub duplicate: bool,
}

impl View for SettlementReceiptV1 {
    type V = SettlementReceiptView;

    open spec fn view(&self) -> SettlementReceiptView {
        SettlementReceiptView {
            contract_version: self.contract_version@,
            battle_id: self.battle_id@,
            seed_hash: self.seed_hash@,
            result_hash: self.result_hash@,
            campaign_revision_before: self.campaign_revision_before,
            campaign_revision_after: self.campaign_revision_after,
            outcome: self.outcome,
            experience_delta: self.experience_delta,
            reputation_delta: self.reputation_delta,
            credit_delta: self.credit_delta,
            loot_delta: stacks_view(self.loot_delta@),
            injury_delta_by_unit: self.injury_delta_by_unit@,
            economic_intent_id: opt_text(self.economic_intent_id),
            economic_receipt_id: opt_text(self.economic_receipt_id),
            duplicate: self.duplicate,
        }
    }
}

/// The receipt answered for a replayed battle: the identity of the first
/// settlement with every delta zero, stamped at `revision`.
pub open spec fn spec_duplicate(existing: SettlementReceiptView, revision: u64) -> SettlementReceiptView {
    SettlementReceiptView {
        campaign_revision_before: revision,
        campaign_revision_after: revision,
        experience_delta: 0,
        reputation_delta: 0,
        credit_delta: 0,
        loot_delta: Seq::empty(),
        injury_delta_by_unit: Map::empty(),
        duplicate: true,
        ..existing
    }
}

fn clone_text(o: &Option<String>) -> (r: Option<String>)
    ensures
        opt_text(r) == opt_text(*o),
{
    match o {
        Some(s) => Some(s.clone()),
        None => None,
    }
}

impl SettlementReceiptV1 {
    pub fn duplicate_from(existing: &Self, revision: u64) -> (r: Self)
        ensures
            r@ == spec_duplicate(existing@, revision),
    {
        let r = Self {
            contract_version: existing.contract_version.clone(),
            battle_id: existing.battle_id.clone(),
            seed_hash: existing.seed_hash.clone(),
            result_hash: existing.result_hash.clone(),
            campaign_revision_before: revision,
            campaign_revision_after: revision,
            outcome: existing.outcome,
            experience_delta: 0,
            reputation_delta: 0,
            credit_delta: 0,
            loot_delta: Vec::new(),
            injury_delta_by_unit: BTreeMap::new(),
            economic_intent_id: clone_text(&existing.economic_intent_id),
            economic_receipt_id: clone_text(&existing.economic_receipt_id),
            duplicate: true,
        };
        assert(r@.loot_delta =~= Seq::<LootView>::empty());
        r
    }
}

/// Replaying a settled battle changes nothing: the duplicate receipt keeps
/// the battle's identity and outcome, carries no delta and no revision
/// change, and answering a replay of a duplicate gives the same receipt as
/// answering a replay of the original settlement.
pub proof fn lemma_duplicate_receipts_are_zero_delta(existing: SettlementReceiptView, a: u64, b: u64)
    ensures
        spec_duplicate(existing, a).battle_id == existing.battle_id,
        spec_duplicate(existing, a).seed_hash == existing.seed_hash,
        spec_duplicate(existing, a).result_hash == existing.result_hash,
        spec_duplicate(existing, a).outcome == existing.outcome,
        spec_duplicate(existing, a).campaign_revision_before == spec_duplicate(existing, a).campaign_revision_after,
        spec_duplicate(existing, a).experience_delta == 0,
        spec_duplicate(existing, a).credit_delta == 0,
        spec_duplicate(existing, a).reputation_delta == 0,
        spec_duplicate(existing, a).loot_delta.len() == 0,
        spec_duplicate(existing, a).injury_delta_by_unit.dom().len() == 0,
        spec_duplicate(spec_duplicate(existing, a), b) == spec_duplicate(existing, b),
{
    assert(Map::<String, u8>::empty().dom() =~= Set::empty());
}

/// The stages of a tradeable-item purchase between two wallets.
#[derive(Debug, Clone, Copy, PartialEq, Eq, Hash, Structural)]
pub enum TradeablePurchaseStage {
    ReservePending,
    Reserved,
    SellerSettlementPending,
    SellerSettled,
    BuyerConsumePending,
    Consumed,
    RefundPending,
    Refunded,
    HardFailed,
}

/// Where a value-bearing campaign event came from.
#[derive(Debug, Clone, Copy, PartialEq, Eq, Hash, Structural)]
pub enum ValueEventSource {
    RegionalQuest,
    Chapter,
    Ending,
    Battle,
    PlayerTrade,
}

/// Which ledgers a value event settles on.
#[derive(Debug, Clone, Copy, PartialEq, Eq, Hash, Structural)]
pub enum ValueSettlementPolicy {
    LocalSoftOnly,
    WalletOnly,
    DualTrack,
}

/// A value-bearing event and the economic intent issued for it.
#[derive(Debug, Clone, PartialEq, Eq)]
pub struct ValueEventRecord {
    pub event_id: String,
    pub source: ValueEventSource,
    pub policy: ValueSettlementPolicy,
    pub local_soft_credit_delta: i64,
    pub wallet_credit_delta: i64,
    pub economic_intent_id: String,
    pub economic_receipt_id: Option<String>,
}

/// Counters of one economy reconciliation pass.
#[derive(Debug, Clone, Default, PartialEq, Eq)]
pub struct EconomyReconciliationReport {
    pub attempted: u16,
    pub applied: u16,
    pub recoverable_holds: u16,
    pub hard_failures: u16,
    pub remaining: usize,
    pub last_error: Option<String>,
}

/// The economy backend that settles every intent locally, without a wallet.
#[derive(Debug, Clone, Copy, Default)]
pub struct OfflineLocalEconomyBackend;

pub open spec fn msg_foreign_result() -> Seq<char> {
    "BattleResult does not belong to the pending seed"@
}

pub open spec fn msg_unterminated_result() -> Seq<char> {
    "BattleResult requires a terminal snapshot hash and elapsed ticks"@
}

pub open spec fn msg_unit_roster() -> Seq<char> {
    "BattleResult must report every seeded party unit exactly once"@
}

/// Whether some unit of `units` has the id `id`.
pub open spec fn reports_unit(units: Seq<UnitBattleReportV1>, id: Seq<char>) -> bool {
    exists|i: int| 0 <= i < units.len() && #[trigger] units[i].unit_id@ == id
}

/// Whether some id of `ids` is `id`.
pub open spec fn lists_id(ids: Seq<String>, id: Seq<char>) -> bool {
    exists|i: int| 0 <= i < ids.len() && #[trigger] ids[i]@ == id
}

/// The result reports each seeded unit exactly once and nothing else.
pub open spec fn reports_roster_exactly(units: Seq<UnitBattleReportV1>, party: Seq<String>) -> bool {
    &&& forall|i: int, j: int| 0 <= i < j < units.len() ==> #[trigger] units[i].unit_id@ != #[trigger] units[j].unit_id@
    &&& forall|i: int| 0 <= i < units.len() ==> lists_id(party, #[trigger] units[i].unit_id@)
    &&& forall|j: int| 0 <= j < party.len() ==> reports_unit(units, #[trigger] party[j]@)
}

pub(crate) fn lists_id_exec(ids: &[String], id: &str) -> (r: bool)
    ensures
        r == lists_id(ids@, id@),
{
    let mut k: usize = 0;
    while k < ids.len()
        invariant
            k <= ids@.len(),
            forall|j: int| 0 <= j < k ==> ids@[j]@ != id@,
        decreases ids@.len() - k,
    {
        if str_eq(ids[k].as_str(), id) {
            return true;
        }
        k = k + 1;
    }
    false
}

fn reports_unit_exec(units: &[UnitBattleReportV1], id: &str) -> (r: bool)
    ensures
        r == reports_unit(units@, id@),
{
    let mut k: usize = 0;
    while k < units.len()
        invariant
            k <= units@.len(),
            forall|j: int| 0 <= j < k ==> units@[j].unit_id@ != id@,
        decreases units@.len() - k,
    {
        if str_eq(units[k].unit_id.as_str(), id) {
            return true;
        }
        k = k + 1;
    }
    false
}

fn roster_matches(units: &[UnitBattleReportV1], party: &[String]) -> (r: bool)
    ensures
        r == reports_roster_exactly(units@, party@),
{
    let mut ok = true;
    let mut i: usize = 0;
    while i < units.len()
        invariant
            i <= units@.len(),
            ok <==> (forall|a: int, b: int| 0 <= a < b < i ==> #[trigger] units@[a].unit_id@ != #[trigger] units@[b].unit_id@)
                && (forall|a: int| 0 <= a < i ==> lists_id(party@, #[trigger] units@[a].unit_id@)),
        decreases units@.len() - i,
    {
        let listed = lists_id_exec(party, units[i].unit_id.as_str());
        let mut fresh = true;
        let mut j: usize = 0;
        while j < i
            invariant
                j <= i < units@.len(),
                fresh <==> forall|a: int| 0 <= a < j ==> units@[a].unit_id@ != units@[i as int].unit_id@,
            decreases i - j,
        {
            if str_eq(units[j].unit_id.as_str(), units[i].unit_id.as_str()) {
                fresh = false;
            }
            j = j + 1;
        }
        ok = ok && listed && fresh;
        i = i + 1;
    }
    let mut covered = true;
    let mut k: usize = 0;
    while k < party.len()
        invariant
            k <= party@.len(),
            covered <==> forall|b: int| 0 <= b < k ==> reports_unit(units@, #[trigger] party@[b]@),
        decreases party@.len() - k,
    {
        let found = reports_unit_exec(units, party[k].as_str());
        covered = covered && found;
        k = k + 1;
    }
    ok && covered
}

impl BattleResultV1 {
    /// Checks the result against the battle it answers, given the seed's
    /// battle id, seed hash and party unit ids (the seed itself is validated
    /// where it is held): the result contract version, the battle and seed
    /// it belongs to, a 64-byte terminal snapshot hash and some elapsed
    /// time, and a report for every seeded unit exactly once.
    pub fn validate_against(&self, seed_battle_id: &str, seed_hash: &str, seed_party_unit_ids: &[String]) -> (r: Result<(), CampaignError>)
        ensures
            self.contract_version@ != BATTLE_RESULT_CONTRACT@ ==> (r matches Err(e) && e.is_contract(self.contract_version@)),
            self.contract_version@ == BATTLE_RESULT_CONTRACT@ && (self.battle_id@ != seed_battle_id@ || self.seed_hash@ != seed_hash@)
                ==> (r matches Err(e) && e.is_integrity(msg_foreign_result())),
            self.contract_version@ == BATTLE_RESULT_CONTRACT@ && self.battle_id@ == seed_battle_id@ && self.seed_hash@ == seed_hash@
                && (encode_utf8(self.final_snapshot_hash@).len() as usize != 64 || self.elapsed_ticks == 0)
                ==> (r matches Err(e) && e.is_contract(msg_unterminated_result())),
            self.contract_version@ == BATTLE_RESULT_CONTRACT@ && self.battle_id@ == seed_battle_id@ && self.seed_hash@ == seed_hash@
                && encode_utf8(self.final_snapshot_hash@).len() as usize == 64 && self.elapsed_ticks != 0
                ==> (r is Ok <==> reports_roster_exactly(self.units@, seed_party_unit_ids@))
                    && (r matches Err(e) ==> e.is_contract(msg_unit_roster())),
    {
        if !str_eq(self.contract_version.as_str(), BATTLE_RESULT_CONTRACT) {
            return Err(CampaignError::InvalidContract(self.contract_version.clone()));
        }
        if !str_eq(self.battle_id.as_str(), seed_battle_id) || !str_eq(self.seed_hash.as_str(), seed_hash) {
            return Err(CampaignError::Integrity("BattleResult does not belong to the pending seed".to_owned()));
        }
        if self.final_snapshot_hash.as_str().len() != 64 || self.elapsed_ticks == 0 {
            return Err(CampaignError::InvalidContract("BattleResult requires a terminal snapshot hash and elapsed ticks".to_owned()));
        }
        if !roster_matches(self.units.as_slice(), seed_party_unit_ids) {
            return Err(CampaignError::InvalidContract("BattleResult must report every seeded party unit exactly once".to_owned()));
        }
        Ok(())
    }
}

/// The first receipt issued for `battle_id`, if any.
pub open spec fn find_receipt_from(receipts: Seq<SettlementReceiptV1>, battle_id: Seq<char>, start: int) -> int
    decreases receipts.len() - start,
{
    if start < 0 || start >= receipts.len() {
        -1
    } else if receipts[start].battle_id@ == battle_id {
        start
    } else {
        find_receipt_from(receipts, battle_id, start + 1)
    }
}

/// The receipt of an already settled battle.
pub fn receipt_for<'a>(receipts: &'a [SettlementReceiptV1], battle_id: &str) -> (r: Option<&'a SettlementReceiptV1>)
    ensures
        match r {
            Some(receipt) => {
                let k = find_receipt_from(receipts@, battle_id@, 0);
                0 <= k < receipts@.len() && *receipt == receipts@[k]
            },
            None => find_receipt_from(receipts@, battle_id@, 0) == -1,
        },
{
    let mut i: usize = 0;
    while i < receipts.len()
        invariant
            i <= receipts@.len(),
            find_receipt_from(receipts@, battle_id@, 0) == find_receipt_from(receipts@, battle_id@, i as int),
        decreases receipts@.len() - i,
    {
        if str_eq(receipts[i].battle_id.as_str(), battle_id) {
            return Some(&receipts[i]);
        }
        i = i + 1;
    }
    None
}

pub open spec fn msg_replay_mismatch() -> Seq<char> {
    "replayed battle id carries a different result payload"@
}

/// How a resubmitted battle result is answered. A battle that was never
/// settled needs settlement (`None`). A settled battle is answered with a
/// zero-delta duplicate of its receipt when the seed and result hashes
/// match, and refused as an integrity failure when they do not.
pub open spec fn spec_replay(
    receipts: Seq<SettlementReceiptV1>,
    battle_id: Seq<char>,
    seed_hash: Seq<char>,
    result_hash: Seq<char>,
    revision: u64,
) -> Option<Result<SettlementReceiptView, Seq<char>>> {
    let k = find_receipt_from(receipts, battle_id, 0);
    if k < 0 {
        None
    } else if receipts[k].seed_hash@ != seed_hash || receipts[k].result_hash@ != result_hash {
        Some(Err(msg_replay_mismatch()))
    } else {
        Some(Ok(spec_duplicate(receipts[k]@, revision)))
    }
}

/// Answers a result submitted for a battle that may already be settled.
pub fn replay_battle_result(
    receipts: &[SettlementReceiptV1],
    battle_id: &str,
    seed_hash: &str,
    result_hash: &str,
    revision: u64,
) -> (r: Option<Result<SettlementReceiptV1, CampaignError>>)
    ensures
        match spec_replay(receipts@, battle_id@, seed_hash@, result_hash@, revision) {
            None => r is None,
            Some(Err(message)) => r matches Some(Err(e)) && e.is_integrity(message),
            Some(Ok(duplicate)) => r matches Some(Ok(receipt)) && receipt@ == duplicate,
        },
{
    match receipt_for(receipts, battle_id) {
        None => None,
        Some(existing) => {
            if !str_eq(existing.seed_hash.as_str(), seed_hash) || !str_eq(existing.result_hash.as_str(), result_hash) {
                Some(Err(CampaignError::Integrity("replayed battle id carries a different result payload".to_owned())))
            } else {
                Some(Ok(SettlementReceiptV1::duplicate_from(existing, revision)))
            }
        },
    }
}

/// A battle is settled at most once: replaying a settled battle with the
/// same payload yields a duplicate receipt with no delta, at the current
/// revision, and every such replay at the same revision yields the same
/// receipt.
pub proof fn lemma_replays_never_settle_twice(
    receipts: Seq<SettlementReceiptV1>,
    battle_id: Seq<char>,
    seed_hash: Seq<char>,
    result_hash: Seq<char>,
    revision: u64,
)
    requires
        find_receipt_from(receipts, battle_id, 0) >= 0,
        receipts[find_receipt_from(receipts, battle_id, 0)].seed_hash@ == seed_hash,
        receipts[find_receipt_from(receipts, battle_id, 0)].result_hash@ == result_hash,
    ensures
        spec_replay(receipts, battle_id, seed_hash, result_hash, revision) matches Some(Ok(d))
            && d.duplicate && d.experience_delta == 0 && d.credit_delta == 0 && d.reputation_delta == 0
            && d.loot_delta.len() == 0 && d.campaign_revision_before == revision
            && d.campaign_revision_after == revision,
{
}

/// The injury a unit carries out of a battle in the given condition.
pub open spec fn spec_injury_delta(status: UnitBattleStatus) -> u8 {
    match status {
        UnitBattleStatus::Healthy => 0,
        UnitBattleStatus::Wounded => 1,
        UnitBattleStatus::Incapacitated => 2,
        UnitBattleStatus::Lost => 2,
    }
}

pub fn injury_delta(status: UnitBattleStatus) -> (r: u8)
    ensures
        r == spec_injury_delta(status),
{
    match status {
        UnitBattleStatus::Healthy => 0,
        UnitBattleStatus::Wounded => 1,
        UnitBattleStatus::Incapacitated | UnitBattleStatus::Lost => 2,
    }
}

/// Credits paid out for a battle: the reported resource gain of a victory,
/// never negative; nothing for a defeat or withdrawal.
pub open spec fn spec_credit_delta(outcome: BattleOutcome, resource_delta: i64) -> i64 {
    if outcome == BattleOutcome::Victory && resource_delta > 0 { resource_delta } else { 0 }
}

/// The state the campaign quest is left in by a battle's outcome.
pub open spec fn spec_quest_state_after(outcome: BattleOutcome) -> QuestState {
    match outcome {
        BattleOutcome::Victory => QuestState::Completed,
        BattleOutcome::Defeat => QuestState::Failed,
        BattleOutcome::Withdrawal => QuestState::Withdrawn,
    }
}

/// In-game minutes a battle takes: ten RTS ticks per second, rounded up to
/// whole minutes, at least one minute and at most `u32::MAX`.
pub open spec fn spec_battle_minutes(elapsed_ticks: u64) -> u32 {
    let minutes = (elapsed_ticks as int + 599) / 600;
    (if minutes < 1 { 1 } else if minutes > u32::MAX { u32::MAX as int } else { minutes }) as u32
}

/// The campaign level reached with `experience` points: one level per 500.
pub open spec fn spec_level_for(experience: u64) -> u32 {
    (1 + (experience / 500) as u32) as u32
}

pub open spec fn total_experience(units: Seq<UnitBattleReportV1>) -> int
    decreases units.len(),
{
    if units.len() == 0 { 0 } else { total_experience(units.drop_last()) + units.last().experience_gained }
}

/// The units that leave the battle injured, with the injury each carries,
/// in report order.
pub open spec fn injured_units(units: Seq<UnitBattleReportV1>) -> Seq<(Seq<char>, u8)>
    decreases units.len(),
{
    if units.len() == 0 {
        Seq::empty()
    } else if spec_injury_delta(units.last().status) > 0 {
        injured_units(units.drop_last()).push((units.last().unit_id@, spec_injury_delta(units.last().status)))
    } else {
        injured_units(units.drop_last())
    }
}

/// What a validated battle result does to the campaign, independent of the
/// party's RPG state.
#[derive(Debug, Clone, PartialEq, Eq)]
pub struct BattleSettlementEffects {
    pub experience_delta: u64,
    pub credit_delta: i64,
    pub injury_deltas: Vec<(String, u8)>,
    pub quest_state: QuestState,
    pub elapsed_minutes: u32,
    pub economic_intent_id: Option<String>,
}

/// The experience, credits, injuries, quest state, clock advance and reward
/// intent that settling `result` applies.
pub fn battle_settlement_effects(result: &BattleResultV1) -> (r: BattleSettlementEffects)
    requires
        total_experience(result.units@) <= u64::MAX,
    ensures
        r.experience_delta == total_experience(result.units@),
        r.credit_delta == spec_credit_delta(result.outcome, result.resource_delta),
        r.injury_deltas@.map_values(|p: (String, u8)| (p.0@, p.1)) == injured_units(result.units@),
        r.quest_state == spec_quest_state_after(result.outcome),
        r.elapsed_minutes == spec_battle_minutes(result.elapsed_ticks),
        r.economic_intent_id matches Some(id) ==> r.credit_delta > 0 && id@ == "battle-reward:"@ + result.battle_id@,
        r.credit_delta > 0 ==> r.economic_intent_id is Some,
{
    let mut experience: u64 = 0;
    let mut injuries: Vec<(String, u8)> = Vec::new();
    let mut i: usize = 0;
    while i < result.units.len()
        invariant
            i <= result.units@.len(),
            total_experience(result.units@) <= u64::MAX,
            experience == total_experience(result.units@.take(i as int)),
            injuries@.map_values(|p: (String, u8)| (p.0@, p.1)) == injured_units(result.units@.take(i as int)),
        decreases result.units@.len() - i,
    {
        let report = &result.units[i];
        let ghost prefix = result.units@.take(i + 1);
        assert(prefix.drop_last() =~= result.units@.take(i as int));
        assert(prefix.last() == *report);
        proof {
            lemma_total_experience_prefix(result.units@, i + 1);
        }
        experience = experience + report.experience_gained;
        let delta = injury_delta(report.status);
        if delta > 0 {
            let ghost before = injuries@;
            injuries.push((report.unit_id.clone(), delta));
            assert(injuries@.map_values(|p: (String, u8)| (p.0@, p.1)) =~= before.map_values(|p: (String, u8)| (p.0@, p.1)).push((report.unit_id@, delta)));
        }
        i = i + 1;
    }
    assert(result.units@.take(result.units@.len() as int) =~= result.units@);
    let credit_delta: i64 = if result.outcome == BattleOutcome::Victory && result.resource_delta > 0 {
        result.resource_delta
    } else {
        0
    };
    let quest_state = match result.outcome {
        BattleOutcome::Victory => QuestState::Completed,
        BattleOutcome::Defeat => QuestState::Failed,
        BattleOutcome::Withdrawal => QuestState::Withdrawn,
    };
    let minutes: u64 = result.elapsed_ticks / 600 + if result.elapsed_ticks % 600 == 0 { 0 } else { 1 };
    assert(minutes as int == (result.elapsed_ticks as int + 599) / 600) by (nonlinear_arith)
        requires
            minutes == result.elapsed_ticks / 600 + if result.elapsed_ticks % 600 == 0 { 0u64 } else { 1u64 },
    ;
    let elapsed_minutes: u32 = if minutes < 1 { 1 } else if minutes > u32::MAX as u64 { u32::MAX } else { minutes as u32 };
    let economic_intent_id = if credit_delta > 0 {
        Some("battle-reward:".to_owned().concat(result.battle_id.as_str()))
    } else {
        None
    };
    BattleSettlementEffects {
        experience_delta: experience,
        credit_delta,
        injury_deltas: injuries,
        quest_state,
        elapsed_minutes,
        economic_intent_id,
    }
}

proof fn lemma_total_experience_prefix(units: Seq<UnitBattleReportV1>, n: int)
    requires
        0 <= n <= units.len(),
    ensures
        total_experience(units.take(n)) <= total_experience(units),
    decreases units.len() - n,
{
    if n < units.len() {
        lemma_total_experience_prefix(units, n + 1);
        assert(units.take(n + 1).drop_last() =~= units.take(n));
    } else {
        assert(units.take(n) =~= units);
    }
}

/// The campaign level reached with a total of `experience` points.
pub fn level_for_experience(experience: u64) -> (r: u32)
    requires
        ((experience / 500) as u32) < u32::MAX,
    ensures
        r == spec_level_for(experience),
{
    1 + (experience / 500) as u32
}

} // verus!
