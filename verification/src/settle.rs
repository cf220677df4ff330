//! Settling a staged battle result: the experience, credits, loot, party,
//! story and economy it changes, applied all at once or not at all, and
//! the battle recorded as settled exactly once.

use vstd::prelude::*;
use std::collections::BTreeMap;
use crate::campaign::{answer_failure, check_answer, msg_nothing_awaited, msg_pending_missing, CampaignState};
use crate::catalog::{CampaignPhase, CampaignRoom, QuestState};
use crate::clock::{spec_advance, ExpeditionSupplyState, WorldClock};
use crate::economy::{
    battle_reward_intent, effective_economy_binding, intent_epoch, spec_queue, BindingView, DraftView, EconomicIntentDraft,
    EconomicIntentKind, EconomicOutbox, EconomyMode, ExecutionOutcome, OutboxView, QueuedIntent, BATTLE_REWARD_TERM_ID,
    ECONOMIC_OUTBOX_CAPACITY, OFFLINE_LOCAL_ACCOUNT_ID, WALLET_CREDIT_ASSET_ID,
};
use crate::error::CampaignError;
use crate::loot::{merge_loot, spec_merge_loot, stacks_view, LootStack};
use crate::market::MarketCatalogItem;
use crate::party::{party_view, settle_party, share_skill_experience, spec_settle_party, LevelProgress, PartyBattleState, sat_add_u16};
use crate::quest_graph::texts_view;
use crate::quests::{reward_flags, reward_rooms, spec_condition_met, spec_signal_road_quest, spec_step_index, StoryProgress, StoryStepId};
use crate::reconcile::{find_link, receipts_view, reconcile_step, spec_reconcile, verified_view, LedgerView, VerifiedEconomicReceipt};
use crate::seed::PendingBattleV1;
use crate::settlement::{
    battle_settlement_effects, find_receipt_from, lists_id, lists_id_exec, msg_replay_mismatch, receipt_for,
    replay_battle_result, spec_battle_minutes, spec_credit_delta, spec_duplicate, spec_level_for, spec_quest_state_after,
    spec_replay, total_experience, BattleOutcome, BattleResultV1, OfflineLocalEconomyBackend, SettlementReceiptV1,
    SettlementReceiptView, SkillProgress,
};
use crate::text::str_eq;
use crate::defaults::last_n;
use crate::canonical::result_content_hash;

verus! {

pub open spec fn msg_nothing_staged() -> Seq<char> {
    "no staged battle result is ready for settlement"@
}

pub open spec fn msg_settlement_payload_missing() -> Seq<char> {
    "pending settlement payload is missing"@
}

pub open spec fn msg_settlement_result_missing() -> Seq<char> {
    "pending settlement result is missing"@
}

pub open spec fn msg_receipt_missing() -> Seq<char> {
    "settled battle is missing its receipt"@
}

pub open spec fn sat_add_i32(a: i32, b: i32) -> i32 {
    if a + b > i32::MAX { i32::MAX } else if a + b < i32::MIN { i32::MIN } else { (a + b) as i32 }
}

pub open spec fn sat_add_i64(a: i64, b: i64) -> i64 {
    if a + b > i64::MAX { i64::MAX } else if a + b < i64::MIN { i64::MIN } else { (a + b) as i64 }
}

/// The maps whose victories count as aftershock patrols.
pub open spec fn is_aftershock_map(map_id: Seq<char>) -> bool {
    map_id == "aftershock_patrol"@ || map_id == "first_contact_aftershock"@
}

/// The story step a victory on `map_id` completes, and the step it opens.
pub open spec fn story_step_for(outcome: BattleOutcome, map_id: Seq<char>) -> Option<(StoryStepId, StoryStepId)> {
    if outcome != BattleOutcome::Victory {
        None
    } else if map_id == "first_contact"@ {
        Some((StoryStepId::SecureFirstContact, StoryStepId::BreakAftershock))
    } else if is_aftershock_map(map_id) {
        Some((StoryStepId::BreakAftershock, StoryStepId::EvacuateConvoy))
    } else if map_id == "convoy_exodus"@ {
        Some((StoryStepId::EvacuateConvoy, StoryStepId::SignalRoadComplete))
    } else {
        None
    }
}

/// Settling the staged result stays within the machine's counters: the
/// revision, the campaign's experience and level, and every skill's
/// experience have room for the battle's experience.
pub open spec fn settlement_fits(s: CampaignState) -> bool {
    &&& s.revision < u64::MAX
    &&& match s.pending_battle {
        Some(p) => match p.result {
            Some(res) => answer_fits(s, res),
            None => true,
        },
        None => true,
    }
}

/// The campaign's experience, level and every skill's experience have room
/// for the experience `res` reports.
pub open spec fn answer_fits(s: CampaignState, res: BattleResultV1) -> bool {
    let gained = total_experience(res.units@);
    &&& s.progress.experience + gained <= u64::MAX
    &&& (((s.progress.experience + gained) / 500) as u32) < u32::MAX
    &&& forall|i: int| 0 <= i < s.skills@.len() ==> #[trigger] s.skills@[i].experience + gained <= u64::MAX
}

/// The story step `step` is defined and its conditions hold for a campaign
/// whose mentor is met or not, with world flags `flags` and `aftershock`
/// aftershock victories.
pub open spec fn step_ready(step: StoryStepId, mentor_met: bool, flags: Seq<Seq<char>>, aftershock: u32) -> bool {
    let k = spec_step_index(step);
    &&& k >= 0
    &&& forall|i: int| 0 <= i < spec_signal_road_quest().steps[k].conditions.len() ==> spec_condition_met(
        #[trigger] spec_signal_road_quest().steps[k].conditions[i], mentor_met, flags, aftershock)
}

/// The only reasons settling a result that answers its seed can fail (and
/// then nothing changes): the story step its victory completes is not
/// ready, the reward intent cannot be queued (the protocol refused it, or
/// the outbox is malformed or full), an offline campaign's outbox is
/// malformed, or a campaign settled as `settled_as` says would not be
/// consistent.
pub open spec fn settlement_may_fail(
    before: CampaignState,
    res: BattleResultV1,
    map_id: Seq<char>,
    result_hash: Seq<char>,
    reward_verdict: Result<(), Seq<char>>,
    outcomes: Seq<ExecutionOutcome>,
    catalog: Seq<MarketCatalogItem>,
) -> bool {
    ||| (story_step_for(res.outcome, map_id) matches Some((step, _)) && !step_ready(step, before.mentor_met,
        texts_view(before.world_flags@ + res.world_flags@), aftershock_after(before, res, map_id)))
    ||| (spec_credit_delta(res.outcome, res.resource_delta) > 0 && (reward_verdict is Err || !before.outbox@.well_formed()
        || before.outbox@.pending.len() >= ECONOMIC_OUTBOX_CAPACITY))
    ||| (before.economy_mode == EconomyMode::OfflineLocal && !before.outbox@.well_formed())
    ||| exists|after: CampaignState| #[trigger] settled_as(before, after, res, map_id, result_hash, reward_verdict, outcomes)
        && !after.consistent(catalog)
}

/// The aftershock victories after settling `res` on `map_id`.
pub open spec fn aftershock_after(old: CampaignState, res: BattleResultV1, map_id: Seq<char>) -> u32 {
    if res.outcome == BattleOutcome::Victory && is_aftershock_map(map_id) && old.aftershock_completions < u32::MAX {
        (old.aftershock_completions + 1) as u32
    } else {
        old.aftershock_completions
    }
}

/// The receipt issued for settling `res` at revision `old.revision + 1`,
/// before any economic receipt is linked to it (its injury map aside).
pub open spec fn issued_as(old: CampaignState, res: BattleResultV1, result_hash: Seq<char>, issued: SettlementReceiptView) -> bool {
    let credit = spec_credit_delta(res.outcome, res.resource_delta);
    &&& issued.contract_version == crate::SETTLEMENT_RECEIPT_CONTRACT@
    &&& issued.battle_id == res.battle_id@
    &&& issued.seed_hash == res.seed_hash@
    &&& issued.result_hash == result_hash
    &&& issued.campaign_revision_before == old.revision
    &&& issued.campaign_revision_after == old.revision + 1
    &&& issued.outcome == res.outcome
    &&& issued.experience_delta == total_experience(res.units@)
    &&& issued.reputation_delta == res.reputation_delta
    &&& issued.credit_delta == credit
    &&& issued.loot_delta == stacks_view(res.loot@)
    &&& (credit > 0 ==> issued.economic_intent_id == Some("battle-reward:"@ + res.battle_id@))
    &&& (credit <= 0 ==> issued.economic_intent_id is None)
    &&& issued.economic_receipt_id is None
    &&& !issued.duplicate
}

/// The reward intent a battle that earned credits issues.
pub open spec fn reward_draft(old: CampaignState, res: BattleResultV1, revision: u64) -> DraftView {
    let credit = spec_credit_delta(res.outcome, res.resource_delta);
    DraftView {
        kind: EconomicIntentKind::ReleaseReward,
        term_id: BATTLE_REWARD_TERM_ID@,
        intent_id: "battle-reward:"@ + res.battle_id@,
        binding: match old.economy_account_binding {
            Some(b) => b@,
            None => BindingView { actor_id: old.character_id@, account_id: OFFLINE_LOCAL_ACCOUNT_ID@, binding_revision: revision },
        },
        asset_id: WALLET_CREDIT_ASSET_ID@,
        quantity: credit,
        amount_credits: credit,
    }
}

/// The outbox, verified receipts and settlement receipts after settling:
/// the issued receipt appended, the reward intent (if credits were earned)
/// queued with the protocol's `reward_verdict` at the settled time, and,
/// for an offline campaign, a reconciliation pass over at most eight
/// intents with the protocol's `outcomes`, keeping the last 256 verified
/// receipts.
pub open spec fn ledger_after(
    old: CampaignState,
    clock: WorldClock,
    res: BattleResultV1,
    issued: SettlementReceiptView,
    revision: u64,
    reward_verdict: Result<(), Seq<char>>,
    outcomes: Seq<ExecutionOutcome>,
) -> LedgerView {
    let credit = spec_credit_delta(res.outcome, res.resource_delta);
    let epoch = (clock.day * 86_400 + clock.minute_of_day * 60) as i64;
    let queued = if credit > 0 {
        spec_queue(old.outbox@, old.campaign_id@, reward_draft(old, res, revision), epoch, reward_verdict).0
    } else {
        old.outbox@
    };
    let pre = LedgerView {
        outbox: queued,
        verified: verified_view(old.verified_economic_receipts@),
        settlements: receipts_view(old.settlement_receipts@).push(issued),
    };
    if old.economy_mode == EconomyMode::OfflineLocal {
        let passed = spec_reconcile(pre, outcomes, 0, 8);
        LedgerView { verified: last_n(passed.verified, 256), ..passed }
    } else {
        pre
    }
}

/// What settling `res`, the staged answer to a battle on `map_id`, did to
/// the campaign `old`, giving `new`: experience, level and growth points,
/// reputation, credits, loot, clock, supplies, party, skills, quest and
/// story state, the phase back in town at the square, one more revision,
/// the battle recorded as settled with its receipt, the economy ledger as
/// `ledger_after` says, and nothing else changed.
pub open spec fn settled_as(
    old: CampaignState,
    new: CampaignState,
    res: BattleResultV1,
    map_id: Seq<char>,
    result_hash: Seq<char>,
    reward_verdict: Result<(), Seq<char>>,
    outcomes: Seq<ExecutionOutcome>,
) -> bool {
    let gained = total_experience(res.units@);
    let credit = spec_credit_delta(res.outcome, res.resource_delta);
    let victory = res.outcome == BattleOutcome::Victory;
    let levels = (if new.progress.level > old.progress.level { new.progress.level - old.progress.level } else { 0 }) as u16;
    let n = old.settlement_receipts@.len() as int;
    &&& new.progress.experience == old.progress.experience + gained
    &&& new.progress.level == spec_level_for(new.progress.experience)
    &&& new.progress.growth_points_available == sat_add_u16(old.progress.growth_points_available, levels)
    &&& new.progress.growth_points_awarded == sat_add_u16(old.progress.growth_points_awarded, levels)
    &&& new.reputation == sat_add_i32(old.reputation, res.reputation_delta)
    &&& new.credits == sat_add_i64(old.credits, credit)
    &&& stacks_view(new.inventory@) == spec_merge_loot(stacks_view(old.inventory@), stacks_view(res.loot@))
    &&& new.world_clock == spec_advance(old.world_clock, spec_battle_minutes(res.elapsed_ticks))
    &&& (victory ==> new.expedition_supplies.stamina == (if old.expedition_supplies.stamina + 25 > 100 { 100 } else { old.expedition_supplies.stamina + 25 })
        && new.expedition_supplies.rations == (if old.expedition_supplies.rations + 1 > 12 { 12 } else { old.expedition_supplies.rations + 1 })
        && new.expedition_supplies.water == (if old.expedition_supplies.water + 2 > 16 { 16 } else { old.expedition_supplies.water + 2 }))
    &&& (!victory ==> new.expedition_supplies == old.expedition_supplies)
    &&& party_view(new.party@) == spec_settle_party(party_view(old.party@), res.units@, res.outcome)
    &&& new.skills@.len() == old.skills@.len()
    &&& forall|i: int| 0 <= i < old.skills@.len() ==> #[trigger] new.skills@[i].experience == old.skills@[i].experience + gained / old.skills@.len() as int
        && new.skills@[i].rank == (1 + new.skills@[i].experience / 250) as u16
    &&& new.quest_state == spec_quest_state_after(res.outcome)
    &&& new.aftershock_completions == aftershock_after(old, res, map_id)
    &&& match story_step_for(res.outcome, map_id) {
        None => new.world_flags@ == old.world_flags@ + res.world_flags@ && new.story == old.story,
        Some((step, next)) => {
            let rewards = spec_signal_road_quest().steps[spec_step_index(step)].rewards;
            &&& new.story.current_step == next
            &&& new.story.quest_id == old.story.quest_id
            &&& new.story.completed_steps@.to_set() == old.story.completed_steps@.to_set().insert(step)
            &&& new.story.unlocked_rooms@.to_set() == old.story.unlocked_rooms@.to_set() + reward_rooms(rewards)
            &&& texts_view(new.world_flags@).to_set() == texts_view(old.world_flags@ + res.world_flags@).to_set() + reward_flags(rewards)
        },
    }
    &&& new.phase == CampaignPhase::Town
    &&& new.room == CampaignRoom::MirrorSquare
    &&& new.revision == old.revision + 1
    &&& new.pending_battle is None
    &&& new.settled_battle_ids@ == old.settled_battle_ids@.push(res.battle_id)
    &&& exists|issued: SettlementReceiptView| #[trigger] issued_as(old, res, result_hash, issued) && {
        let l = ledger_after(old, new.world_clock, res, issued, new.revision, reward_verdict, outcomes);
        &&& new.outbox@ == l.outbox
        &&& verified_view(new.verified_economic_receipts@) == l.verified
        &&& receipts_view(new.settlement_receipts@) == l.settlements
        &&& receipts_view(new.settlement_receipts@)[n] == (SettlementReceiptView {
            economic_receipt_id: receipts_view(new.settlement_receipts@)[n].economic_receipt_id,
            ..issued
        })
    }
    &&& receipts_view(new.settlement_receipts@).len() == n + 1
    &&& forall|j: int| 0 <= j < n ==> (#[trigger] receipts_view(new.settlement_receipts@)[j]).battle_id == old.settlement_receipts@[j].battle_id@
    &&& new == (CampaignState {
        progress: new.progress,
        reputation: new.reputation,
        credits: new.credits,
        inventory: new.inventory,
        world_flags: new.world_flags,
        world_clock: new.world_clock,
        expedition_supplies: new.expedition_supplies,
        party: new.party,
        skills: new.skills,
        quest_state: new.quest_state,
        aftershock_completions: new.aftershock_completions,
        story: new.story,
        phase: new.phase,
        room: new.room,
        revision: new.revision,
        settled_battle_ids: new.settled_battle_ids,
        settlement_receipts: new.settlement_receipts,
        outbox: new.outbox,
        verified_economic_receipts: new.verified_economic_receipts,
        pending_battle: new.pending_battle,
        ..old
    })
}

/// A reconciliation pass changes only which economic receipt settlements
/// record: their number and everything else about them stay.
proof fn lemma_reconcile_keeps_settlements(l: LedgerView, outcomes: Seq<ExecutionOutcome>, i: int, max: int)
    ensures
        spec_reconcile(l, outcomes, i, max).settlements.len() == l.settlements.len(),
        forall|j: int| 0 <= j < l.settlements.len() ==> #[trigger] spec_reconcile(l, outcomes, i, max).settlements[j]
            == (SettlementReceiptView { economic_receipt_id: spec_reconcile(l, outcomes, i, max).settlements[j].economic_receipt_id, ..l.settlements[j] }),
    decreases max - i,
{
    if !(i < 0 || i >= max || i >= outcomes.len() || l.outbox.pending.len() == 0) {
        let (next, go) = reconcile_step(l, outcomes[i]);
        let q = l.outbox.pending[0];
        lemma_find_link_bound(l.settlements, q.draft.intent_id, 0);
        assert(next.settlements.len() == l.settlements.len());
        assert forall|j: int| 0 <= j < l.settlements.len() implies #[trigger] next.settlements[j]
            == (SettlementReceiptView { economic_receipt_id: next.settlements[j].economic_receipt_id, ..l.settlements[j] }) by {
        }
        if go {
            lemma_reconcile_keeps_settlements(next, outcomes, i + 1, max);
            assert forall|j: int| 0 <= j < l.settlements.len() implies #[trigger] spec_reconcile(l, outcomes, i, max).settlements[j]
                == (SettlementReceiptView { economic_receipt_id: spec_reconcile(l, outcomes, i, max).settlements[j].economic_receipt_id, ..l.settlements[j] }) by {
                assert(next.settlements[j] == (SettlementReceiptView { economic_receipt_id: next.settlements[j].economic_receipt_id, ..l.settlements[j] }));
            }
        }
    }
}

proof fn lemma_find_link_bound(s: Seq<SettlementReceiptView>, id: Seq<char>, start: int)
    requires
        0 <= start,
    ensures
        find_link(s, id, start) < s.len(),
    decreases s.len() - start,
{
    if start < s.len() {
        lemma_find_link_bound(s, id, start + 1);
    }
}

/// The values settlement gives the fields it changes; `story` is set only
/// when a story step was completed.
struct SettledFields {
    progress: LevelProgress,
    reputation: i32,
    credits: i64,
    inventory: Vec<LootStack>,
    world_flags: Vec<String>,
    world_clock: WorldClock,
    expedition_supplies: ExpeditionSupplyState,
    party: Vec<PartyBattleState>,
    skills: Vec<SkillProgress>,
    quest_state: QuestState,
    aftershock_completions: u32,
    story: Option<StoryProgress>,
    phase: CampaignPhase,
    room: CampaignRoom,
    revision: u64,
    settled_battle_ids: Vec<String>,
    settlement_receipts: Vec<SettlementReceiptV1>,
    outbox: EconomicOutbox,
    verified_economic_receipts: Vec<VerifiedEconomicReceipt>,
}

spec fn installed(s: CampaignState, f: SettledFields) -> CampaignState {
    CampaignState {
        progress: f.progress,
        reputation: f.reputation,
        credits: f.credits,
        inventory: f.inventory,
        world_flags: f.world_flags,
        world_clock: f.world_clock,
        expedition_supplies: f.expedition_supplies,
        party: f.party,
        skills: f.skills,
        quest_state: f.quest_state,
        aftershock_completions: f.aftershock_completions,
        story: match f.story { Some(st) => st, None => s.story },
        phase: f.phase,
        room: f.room,
        revision: f.revision,
        settled_battle_ids: f.settled_battle_ids,
        settlement_receipts: f.settlement_receipts,
        outbox: f.outbox,
        verified_economic_receipts: f.verified_economic_receipts,
        ..s
    }
}

spec fn taken_from(s: CampaignState, f: SettledFields) -> SettledFields {
    SettledFields {
        progress: s.progress,
        reputation: s.reputation,
        credits: s.credits,
        inventory: s.inventory,
        world_flags: s.world_flags,
        world_clock: s.world_clock,
        expedition_supplies: s.expedition_supplies,
        party: s.party,
        skills: s.skills,
        quest_state: s.quest_state,
        aftershock_completions: s.aftershock_completions,
        story: match f.story { Some(_) => Some(s.story), None => None },
        phase: s.phase,
        room: s.room,
        revision: s.revision,
        settled_battle_ids: s.settled_battle_ids,
        settlement_receipts: s.settlement_receipts,
        outbox: s.outbox,
        verified_economic_receipts: s.verified_economic_receipts,
    }
}

/// The reasons settling can fail before anything is settled.
pub open spec fn settlement_may_fail_early(before: CampaignState, res: BattleResultV1, map_id: Seq<char>, refused: bool) -> bool {
    ||| (story_step_for(res.outcome, map_id) matches Some((step, _)) && !step_ready(step, before.mentor_met,
        texts_view(before.world_flags@ + res.world_flags@), aftershock_after(before, res, map_id)))
    ||| (spec_credit_delta(res.outcome, res.resource_delta) > 0 && (refused || !before.outbox@.well_formed()
        || before.outbox@.pending.len() >= ECONOMIC_OUTBOX_CAPACITY))
    ||| (before.economy_mode == EconomyMode::OfflineLocal && !before.outbox@.well_formed())
}

pub(crate) fn copy_texts(v: &Vec<String>) -> (r: Vec<String>)
    ensures
        r@ == v@,
{
    let mut out: Vec<String> = Vec::new();
    let mut i: usize = 0;
    while i < v.len()
        invariant
            i <= v@.len(),
            out@ == v@.take(i as int),
        decreases v@.len() - i,
    {
        out.push(v[i].clone());
        assert(v@.take(i + 1) =~= v@.take(i as int).push(v@[i as int]));
        i = i + 1;
    }
    assert(v@.take(v@.len() as int) =~= v@);
    out
}

fn copy_party(v: &Vec<PartyBattleState>) -> (r: Vec<PartyBattleState>)
    ensures
        r@ == v@,
{
    let mut out: Vec<PartyBattleState> = Vec::new();
    let mut i: usize = 0;
    while i < v.len()
        invariant
            i <= v@.len(),
            out@ == v@.take(i as int),
        decreases v@.len() - i,
    {
        let m = &v[i];
        out.push(PartyBattleState {
            unit_id: m.unit_id.clone(),
            persistent: m.persistent,
            available: m.available,
            experience: m.experience,
            veteran_rank: m.veteran_rank,
            confirmed_kills: m.confirmed_kills,
            injury_level: m.injury_level,
        });
        assert(v@.take(i + 1) =~= v@.take(i as int).push(v@[i as int]));
        i = i + 1;
    }
    assert(v@.take(v@.len() as int) =~= v@);
    out
}

fn copy_skills(v: &Vec<SkillProgress>) -> (r: Vec<SkillProgress>)
    ensures
        r@ == v@,
{
    let mut out: Vec<SkillProgress> = Vec::new();
    let mut i: usize = 0;
    while i < v.len()
        invariant
            i <= v@.len(),
            out@ == v@.take(i as int),
        decreases v@.len() - i,
    {
        out.push(SkillProgress { rank: v[i].rank, experience: v[i].experience });
        assert(v@.take(i + 1) =~= v@.take(i as int).push(v@[i as int]));
        i = i + 1;
    }
    assert(v@.take(v@.len() as int) =~= v@);
    out
}

fn copy_steps<T: Copy>(v: &Vec<T>) -> (r: Vec<T>)
    ensures
        r@ == v@,
{
    let mut out: Vec<T> = Vec::new();
    let mut i: usize = 0;
    while i < v.len()
        invariant
            i <= v@.len(),
            out@ == v@.take(i as int),
        decreases v@.len() - i,
    {
        out.push(v[i]);
        assert(v@.take(i + 1) =~= v@.take(i as int).push(v@[i as int]));
        i = i + 1;
    }
    assert(v@.take(v@.len() as int) =~= v@);
    out
}

pub(crate) fn copy_story(s: &StoryProgress) -> (r: StoryProgress)
    ensures
        r.quest_id == s.quest_id,
        r.current_step == s.current_step,
        r.completed_steps@ == s.completed_steps@,
        r.unlocked_rooms@ == s.unlocked_rooms@,
{
    StoryProgress {
        quest_id: s.quest_id,
        current_step: s.current_step,
        completed_steps: copy_steps(&s.completed_steps),
        unlocked_rooms: copy_steps(&s.unlocked_rooms),
    }
}

fn copy_verified(v: &Vec<VerifiedEconomicReceipt>) -> (r: Vec<VerifiedEconomicReceipt>)
    ensures
        r@ == v@,
{
    let mut out: Vec<VerifiedEconomicReceipt> = Vec::new();
    let mut i: usize = 0;
    while i < v.len()
        invariant
            i <= v@.len(),
            out@ == v@.take(i as int),
        decreases v@.len() - i,
    {
        out.push(VerifiedEconomicReceipt { receipt_id: v[i].receipt_id.clone(), intent_id: v[i].intent_id.clone(), status: v[i].status });
        assert(v@.take(i + 1) =~= v@.take(i as int).push(v@[i as int]));
        i = i + 1;
    }
    assert(v@.take(v@.len() as int) =~= v@);
    out
}

fn copy_draft(d: &EconomicIntentDraft) -> (r: EconomicIntentDraft)
    ensures
        r@ == d@,
{
    EconomicIntentDraft {
        kind: d.kind,
        term_id: d.term_id.clone(),
        intent_id: d.intent_id.clone(),
        binding: crate::economy::EconomyAccountBinding {
            actor_id: d.binding.actor_id.clone(),
            account_id: d.binding.account_id.clone(),
            binding_revision: d.binding.binding_revision,
        },
        asset_id: d.asset_id.clone(),
        quantity: d.quantity,
        amount_credits: d.amount_credits,
    }
}

fn copy_intents(v: &Vec<QueuedIntent>) -> (r: Vec<QueuedIntent>)
    ensures
        r@.map_values(|q: QueuedIntent| q@) == v@.map_values(|q: QueuedIntent| q@),
{
    let mut out: Vec<QueuedIntent> = Vec::new();
    let mut i: usize = 0;
    while i < v.len()
        invariant
            i <= v@.len(),
            out@.len() == i,
            forall|j: int| 0 <= j < i ==> #[trigger] out@[j]@ == v@[j]@,
        decreases v@.len() - i,
    {
        let q = &v[i];
        out.push(QueuedIntent { draft: copy_draft(&q.draft), idempotency_key: q.idempotency_key.clone(), created_at_epoch: q.created_at_epoch });
        i = i + 1;
    }
    assert(out@.map_values(|q: QueuedIntent| q@) =~= v@.map_values(|q: QueuedIntent| q@));
    out
}

fn copy_outbox(o: &EconomicOutbox) -> (r: EconomicOutbox)
    ensures
        r@ == o@,
{
    let r = EconomicOutbox {
        idempotency_keys: copy_texts(&o.idempotency_keys),
        pending: copy_intents(&o.pending),
        dead_letters: copy_intents(&o.dead_letters),
    };
    assert(r@.keys =~= o@.keys);
    r
}

fn copy_receipts(v: &Vec<SettlementReceiptV1>) -> (r: Vec<SettlementReceiptV1>)
    ensures
        receipts_view(r@) == receipts_view(v@),
{
    let mut out: Vec<SettlementReceiptV1> = Vec::new();
    let mut i: usize = 0;
    while i < v.len()
        invariant
            i <= v@.len(),
            out@.len() == i,
            forall|j: int| 0 <= j < i ==> #[trigger] out@[j]@ == v@[j]@,
        decreases v@.len() - i,
    {
        out.push(copy_receipt(&v[i]));
        i = i + 1;
    }
    assert(receipts_view(out@) =~= receipts_view(v@));
    out
}

proof fn lemma_install_twice(s: CampaignState, f: SettledFields)
    ensures
        installed(installed(s, f), taken_from(s, f)) == s,
{
}

impl CampaignState {
    /// Puts the settled values in place and hands back the ones they replace.
    fn install(&mut self, f: &mut SettledFields)
        ensures
            *final(self) == installed(*old(self), *old(f)),
            *final(f) == taken_from(*old(self), *old(f)),
    {
        std::mem::swap(&mut self.progress, &mut f.progress);
        std::mem::swap(&mut self.reputation, &mut f.reputation);
        std::mem::swap(&mut self.credits, &mut f.credits);
        std::mem::swap(&mut self.inventory, &mut f.inventory);
        std::mem::swap(&mut self.world_flags, &mut f.world_flags);
        std::mem::swap(&mut self.world_clock, &mut f.world_clock);
        std::mem::swap(&mut self.expedition_supplies, &mut f.expedition_supplies);
        std::mem::swap(&mut self.party, &mut f.party);
        std::mem::swap(&mut self.skills, &mut f.skills);
        std::mem::swap(&mut self.quest_state, &mut f.quest_state);
        std::mem::swap(&mut self.aftershock_completions, &mut f.aftershock_completions);
        if f.story.is_some() {
            let mut story = f.story.take().unwrap();
            std::mem::swap(&mut self.story, &mut story);
            f.story = Some(story);
        }
        std::mem::swap(&mut self.phase, &mut f.phase);
        std::mem::swap(&mut self.room, &mut f.room);
        std::mem::swap(&mut self.revision, &mut f.revision);
        std::mem::swap(&mut self.settled_battle_ids, &mut f.settled_battle_ids);
        std::mem::swap(&mut self.settlement_receipts, &mut f.settlement_receipts);
        std::mem::swap(&mut self.outbox, &mut f.outbox);
        std::mem::swap(&mut self.verified_economic_receipts, &mut f.verified_economic_receipts);
    }

    /// Computes what settling `res` makes of the changed fields, without
    /// changing the campaign.
    #[verifier::spinoff_prover]
    #[verifier::rlimit(100)]
    fn compute_settlement(
        &self,
        res: &BattleResultV1,
        map_id: &str,
        result_hash: &str,
        reward_verdict: Result<(), String>,
        outcomes: &[ExecutionOutcome],
    ) -> (r: Result<SettledFields, CampaignError>)
        requires
            self.revision < u64::MAX,
            self.pending_battle is None,
            answer_fits(*self, *res),
        ensures
            r matches Ok(f) ==> settled_as(*self, installed(*self, f), *res, map_id@, result_hash@,
                match reward_verdict { Ok(_) => Ok(()), Err(m) => Err(m@) }, outcomes@),
            r is Err ==> settlement_may_fail_early(*self, *res, map_id@, reward_verdict is Err),
    {
        let ghost verdict = match &reward_verdict { Ok(_) => Ok::<(), Seq<char>>(()), Err(m) => Err(m@) };
        let revision_before = self.revision;
        let revision = revision_before + 1;
        let effects = battle_settlement_effects(res);
        let mut progress = self.progress;
        progress.gain_experience(effects.experience_delta);
        let reputation_sum = self.reputation as i64 + res.reputation_delta as i64;
        let reputation: i32 = if reputation_sum > i32::MAX as i64 {
            i32::MAX
        } else if reputation_sum < i32::MIN as i64 {
            i32::MIN
        } else {
            reputation_sum as i32
        };
        let credits = match self.credits.checked_add(effects.credit_delta) {
            Some(v) => v,
            None => if effects.credit_delta > 0 { i64::MAX } else { i64::MIN },
        };
        let mut inventory = copy_stacks(&self.inventory);
        merge_loot(&mut inventory, res.loot.as_slice());
        let mut flags = copy_texts(&self.world_flags);
        append_texts(&mut flags, &res.world_flags);
        let mut clock = WorldClock { day: self.world_clock.day, minute_of_day: self.world_clock.minute_of_day };
        clock.advance(effects.elapsed_minutes);
        let victory = res.outcome == BattleOutcome::Victory;
        let mut supplies = ExpeditionSupplyState {
            stamina: self.expedition_supplies.stamina,
            rations: self.expedition_supplies.rations,
            water: self.expedition_supplies.water,
        };
        if victory {
            supplies.restock_after_victory();
        }
        let mut party = copy_party(&self.party);
        let bearer = settle_party(&mut party, res.units.as_slice(), res.outcome);
        let injuries = injury_map(&effects.injury_deltas, bearer);
        let mut skills = copy_skills(&self.skills);
        share_skill_experience(&mut skills, effects.experience_delta);
        let aftershock = str_eq(map_id, "aftershock_patrol") || str_eq(map_id, "first_contact_aftershock");
        let aftershock_completions = if victory && aftershock && self.aftershock_completions < u32::MAX {
            self.aftershock_completions + 1
        } else {
            self.aftershock_completions
        };
        let mut story: Option<StoryProgress> = None;
        if victory {
            let step = if str_eq(map_id, "first_contact") {
                Some((StoryStepId::SecureFirstContact, StoryStepId::BreakAftershock))
            } else if aftershock {
                Some((StoryStepId::BreakAftershock, StoryStepId::EvacuateConvoy))
            } else if str_eq(map_id, "convoy_exodus") {
                Some((StoryStepId::EvacuateConvoy, StoryStepId::SignalRoadComplete))
            } else {
                None
            };
            if let Some((done, next)) = step {
                let mut progressed = copy_story(&self.story);
                progressed.complete_step(done, next, self.mentor_met, &mut flags, aftershock_completions)?;
                proof {
                    assert(progressed.completed_steps@.to_set().contains(done));
                }
                story = Some(progressed);
            }
        }
        let receipt = SettlementReceiptV1 {
            contract_version: crate::SETTLEMENT_RECEIPT_CONTRACT.to_owned(),
            battle_id: res.battle_id.clone(),
            seed_hash: res.seed_hash.clone(),
            result_hash: result_hash.to_owned(),
            campaign_revision_before: revision_before,
            campaign_revision_after: revision,
            outcome: res.outcome,
            experience_delta: effects.experience_delta,
            reputation_delta: res.reputation_delta,
            credit_delta: effects.credit_delta,
            loot_delta: copy_stacks(&res.loot),
            injury_delta_by_unit: injuries,
            economic_intent_id: effects.economic_intent_id,
            economic_receipt_id: None,
            duplicate: false,
        };
        let ghost issued = receipt@;
        let mut settled_ids = copy_texts(&self.settled_battle_ids);
        settled_ids.push(res.battle_id.clone());
        let binding = effective_economy_binding(&self.economy_account_binding, self.character_id.as_str(), revision);
        let draft = battle_reward_intent(&receipt, binding);
        let mut receipts = copy_receipts(&self.settlement_receipts);
        receipts.push(receipt);
        assert(receipts_view(receipts@) =~= receipts_view(self.settlement_receipts@).push(issued));
        let mut outbox = copy_outbox(&self.outbox);
        if let Some(d) = draft {
            if !outbox.is_well_formed() {
                return Err(CampaignError::InvalidState("economy outbox, account binding or receipt state is invalid".to_owned()));
            }
            let epoch = intent_epoch(clock.day, clock.minute_of_day);
            outbox.queue(self.campaign_id.as_str(), d, epoch, reward_verdict)?;
        }
        let mut verified = copy_verified(&self.verified_economic_receipts);
        let ghost pre = LedgerView { outbox: outbox@, verified: verified_view(verified@), settlements: receipts_view(receipts@) };
        if self.economy_mode == EconomyMode::OfflineLocal {
            if !outbox.is_well_formed() {
                return Err(CampaignError::InvalidState("economy outbox, account binding or receipt state is invalid".to_owned()));
            }
            OfflineLocalEconomyBackend.reconcile(&mut outbox, &mut verified, &mut receipts, outcomes, 8);
            let ghost untrimmed = verified@;
            crate::defaults::keep_last(&mut verified, 256);
            assert(verified_view(verified@) =~= last_n(verified_view(untrimmed), 256));
            proof {
                lemma_reconcile_keeps_settlements(pre, outcomes@, 0, 8);
            }
        }
        let f = SettledFields {
            progress,
            reputation,
            credits,
            inventory,
            world_flags: flags,
            world_clock: clock,
            expedition_supplies: supplies,
            party,
            skills,
            quest_state: effects.quest_state,
            aftershock_completions,
            story,
            phase: CampaignPhase::Town,
            room: CampaignRoom::MirrorSquare,
            revision,
            settled_battle_ids: settled_ids,
            settlement_receipts: receipts,
            outbox,
            verified_economic_receipts: verified,
        };
        proof {
            let new = installed(*self, f);
            let n = self.settlement_receipts@.len() as int;
            assert(issued_as(*self, *res, result_hash@, issued));
            let l = ledger_after(*self, new.world_clock, *res, issued, new.revision, verdict, outcomes@);
            assert(new.outbox@ == l.outbox);
            assert(verified_view(new.verified_economic_receipts@) == l.verified);
            assert(receipts_view(new.settlement_receipts@) == l.settlements);
            assert(receipts_view(new.settlement_receipts@)[n] == (SettlementReceiptView {
                economic_receipt_id: receipts_view(new.settlement_receipts@)[n].economic_receipt_id,
                ..issued
            }));
        }
        Ok(f)
    }

    /// Settles `res` all at once or not at all: on any refusal the campaign
    /// is unchanged.
    #[verifier::spinoff_prover]
    fn settle_answer(
        &mut self,
        res: &BattleResultV1,
        map_id: &str,
        result_hash: &str,
        reward_verdict: Result<(), String>,
        outcomes: &[ExecutionOutcome],
        catalog: &[MarketCatalogItem],
    ) -> (r: Result<SettlementReceiptV1, CampaignError>)
        requires
            old(self).revision < u64::MAX,
            old(self).pending_battle is None,
            answer_fits(*old(self), *res),
        ensures
            r is Err ==> *final(self) == *old(self),
            r is Err ==> settlement_may_fail(*old(self), *res, map_id@, result_hash@,
                match reward_verdict { Ok(_) => Ok(()), Err(m) => Err(m@) }, outcomes@, catalog@),
            r matches Ok(receipt) ==> settled_as(*old(self), *final(self), *res, map_id@, result_hash@,
                match reward_verdict { Ok(_) => Ok(()), Err(m) => Err(m@) }, outcomes@)
                && final(self).consistent(catalog@)
                && receipt@ == receipts_view(final(self).settlement_receipts@)[old(self).settlement_receipts@.len() as int],
    {
        let ghost verdict = match &reward_verdict { Ok(_) => Ok::<(), Seq<char>>(()), Err(m) => Err(m@) };
        let ghost s0 = *self;
        let n = self.settlement_receipts.len();
        let mut f = self.compute_settlement(res, map_id, result_hash, reward_verdict, outcomes)?;
        let ghost f0 = f;
        self.install(&mut f);
        match self.validate(catalog) {
            Ok(()) => {
                let answer = copy_receipt(&self.settlement_receipts[n]);
                Ok(answer)
            },
            Err(e) => {
                proof {
                    assert(settled_as(s0, *self, *res, map_id@, result_hash@, verdict, outcomes@));
                }
                self.install(&mut f);
                proof {
                    lemma_install_twice(s0, f0);
                }
                Err(e)
            },
        }
    }
    /// Takes a result submitted by the RTS client. A result for a battle
    /// that was already settled is answered from its receipt: a zero-delta
    /// duplicate when the seed and result hashes match, an integrity refusal
    /// when they do not, and nothing changes either way. Otherwise the
    /// result is staged and settled.
    pub fn submit_battle_result(
        &mut self,
        result: BattleResultV1,
        reward_verdict: Result<(), String>,
        reconcile_outcomes: &[ExecutionOutcome],
        catalog: &[MarketCatalogItem],
    ) -> (r: Result<SettlementReceiptV1, CampaignError>)
        requires
            spec_replay(old(self).settlement_receipts@, result.battle_id@, result.seed_hash@, result_content_hash(result), old(self).revision) is None
                ==> old(self).revision < u64::MAX - 1 && answer_fits(*old(self), result) && settlement_fits(*old(self)),
        ensures
            match spec_replay(old(self).settlement_receipts@, result.battle_id@, result.seed_hash@, result_content_hash(result), old(self).revision) {
                Some(Err(m)) => (r matches Err(e) && e.is_integrity(m)) && *final(self) == *old(self),
                Some(Ok(d)) => (r matches Ok(receipt) && receipt@ == d) && *final(self) == *old(self),
                None => if lists_id(old(self).settled_battle_ids@, result.battle_id@) {
                    old(self).phase != CampaignPhase::PostBattlePending ==> (r matches Err(e) && e.is_state(msg_nothing_staged()))
                        && *final(self) == *old(self)
                } else {
                    match (old(self).phase, old(self).pending_battle) {
                        (CampaignPhase::BattlePending, Some(p)) => match answer_failure(result, p) {
                            Some(f) => (r matches Err(e) && e.is_failure(f)) && *final(self) == *old(self),
                            None => {
                                let staged = CampaignState {
                                    phase: CampaignPhase::PostBattlePending,
                                    revision: (old(self).revision + 1) as u64,
                                    pending_battle: None,
                                    ..*old(self)
                                };
                                let verdict = match reward_verdict { Ok(_) => Ok(()), Err(m) => Err(m@) };
                                &&& r is Ok ==> settled_as(staged, *final(self), result, p.seed.map_id@, result_content_hash(result), verdict, reconcile_outcomes@)
                                    && final(self).consistent(catalog@)
                                &&& r is Err ==> *final(self) == (CampaignState {
                                        pending_battle: Some(PendingBattleV1 { result: Some(result), ..p }),
                                        ..staged
                                    })
                                    && settlement_may_fail(staged, result, p.seed.map_id@, result_content_hash(result), verdict, reconcile_outcomes@, catalog@)
                            },
                        },
                        (CampaignPhase::BattlePending, None) => (r matches Err(e) && e.is_state(msg_pending_missing()))
                            && *final(self) == *old(self),
                        _ => (r matches Err(e) && e.is_state(msg_nothing_awaited())) && *final(self) == *old(self),
                    }
                },
            },
    {
        let result_hash = result.computed_hash();
        match replay_battle_result(
            self.settlement_receipts.as_slice(),
            result.battle_id.as_str(),
            result.seed_hash.as_str(),
            result_hash.as_str(),
            self.revision,
        ) {
            Some(answer) => answer,
            None => {
                self.stage_battle_result(result)?;
                self.apply_pending_settlement(reward_verdict, reconcile_outcomes, catalog)
            },
        }
    }

    /// Settles the staged battle result. Outside `PostBattlePending`, or
    /// with the pending battle or its result missing, nothing changes and
    /// the command is refused. A battle already settled is answered with a
    /// zero-delta duplicate of its receipt and changes nothing. A result
    /// that does not answer its seed is refused and changes nothing.
    /// Otherwise the result is applied (see `settled_as`), the reward intent
    /// is queued with the protocol's `reward_verdict` on it, an offline
    /// campaign reconciles its outbox with the protocol's
    /// `reconcile_outcomes` on the offline receipts (linking the reward to
    /// its receipt), and the campaign is checked against `catalog`;
    /// The receipt records the result's content hash (`result_content_hash`). The
    /// settlement is applied all at once or not at all: any refusal leaves
    /// the campaign unchanged.
    pub fn apply_pending_settlement(
        &mut self,
        reward_verdict: Result<(), String>,
        reconcile_outcomes: &[ExecutionOutcome],
        catalog: &[MarketCatalogItem],
    ) -> (r: Result<SettlementReceiptV1, CampaignError>)
        requires
            settlement_fits(*old(self)),
        ensures
            old(self).phase != CampaignPhase::PostBattlePending ==> (r matches Err(e) && e.is_state(msg_nothing_staged()))
                && *final(self) == *old(self),
            old(self).phase == CampaignPhase::PostBattlePending ==> match old(self).pending_battle {
                None => (r matches Err(e) && e.is_state(msg_settlement_payload_missing())) && *final(self) == *old(self),
                Some(p) => match p.result {
                    None => (r matches Err(e) && e.is_state(msg_settlement_result_missing())) && *final(self) == *old(self),
                    Some(res) => if lists_id(old(self).settled_battle_ids@, res.battle_id@) {
                        &&& *final(self) == *old(self)
                        &&& {
                            let k = find_receipt_from(old(self).settlement_receipts@, res.battle_id@, 0);
                            if k < 0 {
                                r matches Err(e) && e.is_integrity(msg_receipt_missing())
                            } else {
                                r matches Ok(receipt) && receipt@ == spec_duplicate(old(self).settlement_receipts@[k]@, old(self).revision)
                            }
                        }
                    } else {
                        match answer_failure(res, p) {
                            Some(f) => (r matches Err(e) && e.is_failure(f)) && *final(self) == *old(self),
                            None => {
                                let base = CampaignState { pending_battle: None, ..*old(self) };
                                let verdict = match reward_verdict { Ok(_) => Ok(()), Err(m) => Err(m@) };
                                &&& r matches Ok(receipt) ==> settled_as(base, *final(self), res, p.seed.map_id@, result_content_hash(res), verdict, reconcile_outcomes@)
                                    && final(self).consistent(catalog@)
                                    && receipt@ == receipts_view(final(self).settlement_receipts@)[old(self).settlement_receipts@.len() as int]
                                &&& r is Err ==> *final(self) == *old(self)
                                    && settlement_may_fail(base, res, p.seed.map_id@, result_content_hash(res), verdict, reconcile_outcomes@, catalog@)
                            },
                        }
                    },
                },
            },
    {
        if self.phase != CampaignPhase::PostBattlePending {
            return Err(CampaignError::InvalidState("no staged battle result is ready for settlement".to_owned()));
        }
        let taken = self.pending_battle.take();
        let p = match taken {
            None => {
                return Err(CampaignError::InvalidState("pending settlement payload is missing".to_owned()));
            },
            Some(p) => p,
        };
        let res = match &p.result {
            None => {
                self.pending_battle = Some(p);
                return Err(CampaignError::InvalidState("pending settlement result is missing".to_owned()));
            },
            Some(res) => res,
        };
        if lists_id_exec(self.settled_battle_ids.as_slice(), res.battle_id.as_str()) {
            let answer = match receipt_for(self.settlement_receipts.as_slice(), res.battle_id.as_str()) {
                None => Err(CampaignError::Integrity("settled battle is missing its receipt".to_owned())),
                Some(existing) => Ok(SettlementReceiptV1::duplicate_from(existing, self.revision)),
            };
            self.pending_battle = Some(p);
            return answer;
        }
        if let Err(e) = check_answer(res, &p) {
            self.pending_battle = Some(p);
            return Err(e);
        }
        let result_hash = res.computed_hash();
        match self.settle_answer(res, p.seed.map_id.as_str(), result_hash.as_str(), reward_verdict, reconcile_outcomes, catalog) {
            Ok(receipt) => Ok(receipt),
            Err(e) => {
                self.pending_battle = Some(p);
                Err(e)
            },
        }
    }
}


fn append_texts(into: &mut Vec<String>, more: &Vec<String>)
    ensures
        final(into)@ == old(into)@ + more@,
{
    let mut i: usize = 0;
    while i < more.len()
        invariant
            i <= more@.len(),
            into@ == old(into)@ + more@.take(i as int),
        decreases more@.len() - i,
    {
        into.push(more[i].clone());
        assert(more@.take(i + 1) =~= more@.take(i as int).push(more@[i as int]));
        i = i + 1;
    }
    assert(more@.take(more@.len() as int) =~= more@);
}

fn injury_map(deltas: &Vec<(String, u8)>, bearer: Option<String>) -> (r: BTreeMap<String, u8>) {
    let mut map: BTreeMap<String, u8> = BTreeMap::new();
    let mut i: usize = 0;
    while i < deltas.len()
        decreases deltas@.len() - i,
    {
        map.insert(deltas[i].0.clone(), deltas[i].1);
        i = i + 1;
    }
    if let Some(id) = bearer {
        map.insert(id, 1);
    }
    map
}

pub(crate) fn copy_stacks(stacks: &Vec<LootStack>) -> (r: Vec<LootStack>)
    ensures
        stacks_view(r@) == stacks_view(stacks@),
{
    let mut out: Vec<LootStack> = Vec::new();
    let mut i: usize = 0;
    while i < stacks.len()
        invariant
            i <= stacks@.len(),
            out@.len() == i,
            forall|j: int| 0 <= j < i ==> #[trigger] out@[j]@ == stacks@[j]@,
        decreases stacks@.len() - i,
    {
        out.push(LootStack { item_id: stacks[i].item_id.clone(), quantity: stacks[i].quantity });
        i = i + 1;
    }
    assert(stacks_view(out@) =~= stacks_view(stacks@));
    out
}

fn copy_text(o: &Option<String>) -> (r: Option<String>)
    ensures
        r == *o,
{
    match o {
        Some(s) => Some(s.clone()),
        None => None,
    }
}

fn copy_receipt(r: &SettlementReceiptV1) -> (c: SettlementReceiptV1)
    ensures
        c@ == r@,
{
    SettlementReceiptV1 {
        contract_version: r.contract_version.clone(),
        battle_id: r.battle_id.clone(),
        seed_hash: r.seed_hash.clone(),
        result_hash: r.result_hash.clone(),
        campaign_revision_before: r.campaign_revision_before,
        campaign_revision_after: r.campaign_revision_after,
        outcome: r.outcome,
        experience_delta: r.experience_delta,
        reputation_delta: r.reputation_delta,
        credit_delta: r.credit_delta,
        loot_delta: copy_stacks(&r.loot_delta),
        injury_delta_by_unit: r.injury_delta_by_unit.clone(),
        economic_intent_id: copy_text(&r.economic_intent_id),
        economic_receipt_id: copy_text(&r.economic_receipt_id),
        duplicate: r.duplicate,
    }
}


/// Settling a battle puts it on the settled list and leaves nothing staged,
/// so the same battle is never settled twice: staging its result again
/// changes nothing, and a second settlement is refused.
pub proof fn lemma_settled_battles_stay_settled(
    before: CampaignState,
    after: CampaignState,
    res: BattleResultV1,
    map_id: Seq<char>,
    result_hash: Seq<char>,
    reward_verdict: Result<(), Seq<char>>,
    outcomes: Seq<ExecutionOutcome>,
)
    requires
        settled_as(before, after, res, map_id, result_hash, reward_verdict, outcomes),
    ensures
        lists_id(after.settled_battle_ids@, res.battle_id@),
        after.phase == CampaignPhase::Town,
        after.pending_battle is None,
{
    let k = before.settled_battle_ids@.len() as int;
    assert(after.settled_battle_ids@[k] == res.battle_id);
}

proof fn lemma_find_appended_receipt(s: Seq<SettlementReceiptV1>, t: Seq<SettlementReceiptV1>, id: Seq<char>, start: int)
    requires
        t.len() == s.len() + 1,
        forall|j: int| 0 <= j < s.len() ==> (#[trigger] receipts_view(t)[j]).battle_id == s[j].battle_id@,
        t[s.len() as int].battle_id@ == id,
        0 <= start <= s.len(),
        find_receipt_from(s, id, start) == -1,
    ensures
        find_receipt_from(t, id, start) == s.len(),
    decreases s.len() - start,
{
    if start < s.len() {
        assert(receipts_view(t)[start].battle_id == t[start].battle_id@);
        lemma_find_appended_receipt(s, t, id, start + 1);
    }
}

/// A battle is settled exactly once: after a result is settled, submitting
/// it again with the same seed and result hashes is answered with a
/// zero-delta duplicate of its receipt at whatever revision the campaign is
/// then at, and submitting it with another result hash is refused.
pub proof fn lemma_settled_battles_replay_as_duplicates(
    before: CampaignState,
    after: CampaignState,
    res: BattleResultV1,
    map_id: Seq<char>,
    result_hash: Seq<char>,
    reward_verdict: Result<(), Seq<char>>,
    outcomes: Seq<ExecutionOutcome>,
    revision: u64,
    other_hash: Seq<char>,
)
    requires
        settled_as(before, after, res, map_id, result_hash, reward_verdict, outcomes),
        find_receipt_from(before.settlement_receipts@, res.battle_id@, 0) == -1,
    ensures
        spec_replay(after.settlement_receipts@, res.battle_id@, res.seed_hash@, result_hash, revision)
            == Some(Ok::<SettlementReceiptView, Seq<char>>(spec_duplicate(
                receipts_view(after.settlement_receipts@)[before.settlement_receipts@.len() as int], revision))),
        other_hash != result_hash ==> spec_replay(after.settlement_receipts@, res.battle_id@, res.seed_hash@, other_hash, revision)
            == Some(Err::<SettlementReceiptView, Seq<char>>(msg_replay_mismatch())),
{
    let n = before.settlement_receipts@.len() as int;
    let issued = choose|issued: SettlementReceiptView| #[trigger] issued_as(before, res, result_hash, issued) && {
        let l = ledger_after(before, after.world_clock, res, issued, after.revision, reward_verdict, outcomes);
        &&& after.outbox@ == l.outbox
        &&& verified_view(after.verified_economic_receipts@) == l.verified
        &&& receipts_view(after.settlement_receipts@) == l.settlements
        &&& receipts_view(after.settlement_receipts@)[n] == (SettlementReceiptView {
            economic_receipt_id: receipts_view(after.settlement_receipts@)[n].economic_receipt_id,
            ..issued
        })
    };
    assert(receipts_view(after.settlement_receipts@)[n] == after.settlement_receipts@[n]@);
    lemma_find_appended_receipt(before.settlement_receipts@, after.settlement_receipts@, res.battle_id@, 0);
}

} // verus!
