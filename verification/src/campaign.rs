//! The campaign state: the one record that holds persistent progression,
//! the checks that keep it consistent, and the battle handoff through which
//! alone a battle changes it: a seed is issued, a result is staged, and the
//! staged result is settled exactly once.
//!
//! What the character sheet, item catalog and NPC catalog of the RPG layer
//! would supply is held here as plain values or passed in as arguments.

use vstd::prelude::*;
use crate::catalog::{CampaignDifficulty, CampaignMission, CampaignPhase, CampaignRoom, ExpeditionPreparation, QuestState};
use crate::clock::{ExpeditionSupplyState, WorldClock};
use crate::economy::{EconomicOutbox, EconomyAccountBinding, EconomyMode};
use crate::error::{CampaignError, Failure};
use crate::loot::LootStack;
use crate::market::MarketCatalogItem;
use crate::party::{LevelProgress, PartyBattleState};
use crate::quests::{NpcAutonomousGoal, NpcConversationRecord, NpcMemory, NpcSocialEventRecord, QuestChainNodeId, QuestChainProgress, StoryProgress};
use crate::seed::{seed_failure, seed_unit_ids, PendingBattleV1};
use crate::settlement::{lists_id, lists_id_exec, reports_roster_exactly, BattleResultV1, SettlementReceiptV1, SkillProgress};
use crate::skirmish::SkirmishSetup;
use crate::story::{decision_choices, resolve_main_story_ending, spec_resolve_ending, MainStoryChapter, MainStoryDecisionRecord, MainStoryEnding};
use crate::clock::{decimal, push_decimal};
use crate::text::str_eq;
use crate::CAMPAIGN_SAVE_CONTRACT;
use crate::reconcile::VerifiedEconomicReceipt;

verus! {

/// The persistent campaign.
#[derive(Debug, Clone, PartialEq, Eq)]
pub struct CampaignState {
    pub contract_version: String,
    pub schema_revision: u16,
    pub campaign_id: String,
    pub character_id: String,
    pub revision: u64,
    pub room: CampaignRoom,
    pub phase: CampaignPhase,
    pub difficulty: CampaignDifficulty,
    pub reputation: i32,
    pub progress: LevelProgress,
    pub growth_points_spent: u16,
    pub pending_growth: bool,
    pub credits: i64,
    pub mentor_training_sessions: u8,
    pub aftershock_completions: u32,
    pub inventory: Vec<LootStack>,
    pub world_flags: Vec<String>,
    pub skills: Vec<SkillProgress>,
    pub party: Vec<PartyBattleState>,
    pub active_party_ids: Vec<String>,
    pub active_mission: CampaignMission,
    pub skirmish_setup: SkirmishSetup,
    pub story: StoryProgress,
    pub quest_state: QuestState,
    pub mentor_met: bool,
    pub trained_with_mentor: bool,
    pub shortcut_unlocked: bool,
    pub forge_master: bool,
    pub main_story_chapter: MainStoryChapter,
    pub main_story_decisions: Vec<MainStoryDecisionRecord>,
    pub main_story_ending: Option<MainStoryEnding>,
    pub ending_epilogue_progress: u8,
    pub ending_epilogue_complete: bool,
    pub world_clock: WorldClock,
    pub expedition_supplies: ExpeditionSupplyState,
    pub selected_expedition_preparation: ExpeditionPreparation,
    pub quest_chain: Option<QuestChainProgress>,
    pub market_stock: Vec<(String, u16)>,
    pub market_demand: Vec<(String, i16)>,
    pub social_event_history: Vec<NpcSocialEventRecord>,
    pub conversation_history: Vec<NpcConversationRecord>,
    pub npc_memory: Vec<NpcMemory>,
    pub npc_work_output: Vec<(String, u32)>,
    pub npc_autonomous_goals: Vec<(String, NpcAutonomousGoal)>,
    pub npc_goal_rooms: Vec<(String, String)>,
    pub npc_bonds: Vec<(String, i16)>,
    pub economy_mode: EconomyMode,
    pub economy_account_binding: Option<EconomyAccountBinding>,
    pub outbox: EconomicOutbox,
    pub settled_battle_ids: Vec<String>,
    pub settlement_receipts: Vec<SettlementReceiptV1>,
    pub verified_economic_receipts: Vec<VerifiedEconomicReceipt>,
    pub pending_battle: Option<PendingBattleV1>,
}

/// The schema revision of this campaign format.
pub const CAMPAIGN_SCHEMA_REVISION: u16 = 10;

/// Every NPC bond lies within -100..=100.
pub open spec fn bonds_in_bounds(bonds: Seq<(String, i16)>) -> bool {
    forall|i: int| 0 <= i < bonds.len() ==> -100 <= #[trigger] bonds[i].1 <= 100
}

/// No chapter is decided twice.
pub open spec fn chapters_distinct(decisions: Seq<MainStoryDecisionRecord>) -> bool {
    forall|i: int, j: int| 0 <= i < j < decisions.len() ==> #[trigger] decisions[i].chapter != #[trigger] decisions[j].chapter
}

/// The main story and social history are within bounds and consistent:
/// at most 16 social events, bonds within ±100, at most one decision per
/// chapter, the ending the decisions resolve to, and an epilogue that is
/// complete exactly at its third recorded beat.
pub open spec fn story_history_ok(s: CampaignState) -> bool {
    &&& s.social_event_history@.len() <= 16
    &&& forall|i: int| 0 <= i < s.npc_memory@.len() ==> (#[trigger] s.npc_memory@[i]).lines@.len() <= 8
    &&& bonds_in_bounds(s.npc_bonds@)
    &&& s.main_story_decisions@.len() <= 3
    &&& chapters_distinct(s.main_story_decisions@)
    &&& s.main_story_ending == spec_resolve_ending(decision_choices(s.main_story_decisions@))
    &&& s.ending_epilogue_progress <= 3
    &&& s.ending_epilogue_complete == (s.ending_epilogue_progress >= 3)
}

/// The first entry of `entries` for `id`; -1 if none.
pub open spec fn find_entry<T>(entries: Seq<(String, T)>, id: Seq<char>, start: int) -> int
    decreases entries.len() - start,
{
    if start < 0 || start >= entries.len() {
        -1
    } else if entries[start].0@ == id {
        start
    } else {
        find_entry(entries, id, start + 1)
    }
}

/// Every catalog item has a stock entry and a demand entry of at most 20
/// either way.
pub open spec fn market_complete(stock: Seq<(String, u16)>, demand: Seq<(String, i16)>, catalog: Seq<MarketCatalogItem>) -> bool {
    forall|c: int| 0 <= c < catalog.len() ==> {
        &&& find_entry(stock, #[trigger] catalog[c].id@, 0) >= 0
        &&& find_entry(demand, catalog[c].id@, 0) >= 0
        &&& -20 <= demand[find_entry(demand, catalog[c].id@, 0)].1 <= 20
    }
}

/// Every settlement that records an economic receipt names the intent it
/// issued, and a verified receipt with that id answers that intent.
pub open spec fn receipt_links_verified(settlements: Seq<SettlementReceiptV1>, verified: Seq<VerifiedEconomicReceipt>) -> bool {
    forall|i: int| 0 <= i < settlements.len() && (#[trigger] settlements[i]).economic_receipt_id is Some ==> {
        &&& settlements[i].economic_intent_id is Some
        &&& verified_answers(verified, settlements[i].economic_receipt_id->Some_0@, settlements[i].economic_intent_id->Some_0@)
    }
}

/// Some verified receipt has the id `receipt_id` and answers `intent_id`.
pub open spec fn verified_answers(verified: Seq<VerifiedEconomicReceipt>, receipt_id: Seq<char>, intent_id: Seq<char>) -> bool {
    exists|j: int| 0 <= j < verified.len() && #[trigger] verified[j].receipt_id@ == receipt_id && verified[j].intent_id@ == intent_id
}

/// No two settlement receipts issued the same economic intent.
pub open spec fn intent_links_distinct(receipts: Seq<SettlementReceiptV1>) -> bool {
    forall|i: int, j: int| 0 <= i < j < receipts.len() && #[trigger] receipts[i].economic_intent_id is Some
        && #[trigger] receipts[j].economic_intent_id is Some
        ==> receipts[i].economic_intent_id->Some_0@ != receipts[j].economic_intent_id->Some_0@
}

/// Party unit ids are unique, active ids are unique, and every active id
/// names an available party member.
pub open spec fn party_consistent(party: Seq<PartyBattleState>, active: Seq<String>) -> bool {
    &&& forall|i: int, j: int| 0 <= i < j < party.len() ==> #[trigger] party[i].unit_id@ != #[trigger] party[j].unit_id@
    &&& forall|i: int, j: int| 0 <= i < j < active.len() ==> #[trigger] active[i]@ != #[trigger] active[j]@
    &&& forall|i: int| 0 <= i < active.len() ==> available_member(party, #[trigger] active[i]@)
}

/// Some available party member has the unit id `id`.
pub open spec fn available_member(party: Seq<PartyBattleState>, id: Seq<char>) -> bool {
    exists|k: int| 0 <= k < party.len() && #[trigger] party[k].unit_id@ == id && party[k].available
}

pub open spec fn sat_add_u16(a: u16, b: u16) -> u16 {
    if a + b > u16::MAX { u16::MAX } else { (a + b) as u16 }
}

/// The first check a staged result fails against the pending battle it
/// answers; `None` for a result that belongs to it.
pub open spec fn result_failure(result: BattleResultV1, pending: PendingBattleV1) -> Option<Failure> {
    let seed = pending.seed;
    if result.contract_version@ != crate::BATTLE_RESULT_CONTRACT@ {
        Some(Failure::Contract(result.contract_version@))
    } else if result.battle_id@ != seed.battle_id@ || result.seed_hash@ != seed.seed_hash@ {
        Some(Failure::Integrity(crate::settlement::msg_foreign_result()))
    } else if vstd::utf8::encode_utf8(result.final_snapshot_hash@).len() as usize != 64 || result.elapsed_ticks == 0 {
        Some(Failure::Contract(crate::settlement::msg_unterminated_result()))
    } else if !reports_roster_exactly(result.units@, seed_unit_ids(seed)) {
        Some(Failure::Contract(crate::settlement::msg_unit_roster()))
    } else {
        None
    }
}

/// The first check a result fails as the answer to the pending battle: the
/// pending seed itself, then the result against it.
pub open spec fn answer_failure(result: BattleResultV1, pending: PendingBattleV1) -> Option<Failure> {
    if seed_failure(pending.seed) is Some {
        seed_failure(pending.seed)
    } else {
        result_failure(result, pending)
    }
}

pub open spec fn msg_phase_disagrees() -> Seq<char> {
    "campaign phase and pending battle disagree"@
}

/// The pending battle agrees with the phase: none in town, an unanswered
/// valid seed while the battle is pending, and a valid seed with a result
/// that belongs to it after the battle.
pub open spec fn pending_failure(phase: CampaignPhase, pending: Option<PendingBattleV1>) -> Option<Failure> {
    match pending {
        None => if phase == CampaignPhase::Town { None } else { Some(Failure::State(msg_phase_disagrees())) },
        Some(p) => if !((phase == CampaignPhase::BattlePending && p.result is None)
            || (phase == CampaignPhase::PostBattlePending && p.result is Some)) {
            Some(Failure::State(msg_phase_disagrees()))
        } else {
            match p.result {
                None => seed_failure(p.seed),
                Some(res) => answer_failure(res, p),
            }
        },
    }
}

pub(crate) fn check_answer(result: &BattleResultV1, pending: &PendingBattleV1) -> (r: Result<(), CampaignError>)
    ensures
        match answer_failure(*result, *pending) {
            None => r is Ok,
            Some(f) => r matches Err(e) && e.is_failure(f),
        },
{
    pending.seed.validate()?;
    let ids = pending.seed.party_unit_ids();
    result.validate_against(pending.seed.battle_id.as_str(), pending.seed.seed_hash.as_str(), ids.as_slice())
}

fn check_pending(phase: CampaignPhase, pending: &Option<PendingBattleV1>) -> (r: Result<(), CampaignError>)
    ensures
        match pending_failure(phase, *pending) {
            None => r is Ok,
            Some(f) => r matches Err(e) && e.is_failure(f),
        },
{
    match pending {
        None => {
            if phase == CampaignPhase::Town {
                Ok(())
            } else {
                Err(CampaignError::InvalidState("campaign phase and pending battle disagree".to_owned()))
            }
        },
        Some(p) => {
            let fits = (phase == CampaignPhase::BattlePending && p.result.is_none())
                || (phase == CampaignPhase::PostBattlePending && p.result.is_some());
            if !fits {
                return Err(CampaignError::InvalidState("campaign phase and pending battle disagree".to_owned()));
            }
            match &p.result {
                None => p.seed.validate(),
                Some(res) => check_answer(res, p),
            }
        },
    }
}

impl CampaignState {
    /// The first check the campaign fails, in the order they are made;
    /// `None` for a consistent campaign. `catalog` is the economy item
    /// catalog whose items every market must price.
    pub open spec fn failure(self, catalog: Seq<MarketCatalogItem>) -> Option<Failure> {
        if self.contract_version@ != CAMPAIGN_SAVE_CONTRACT@ {
            Some(Failure::Contract(self.contract_version@))
        } else if self.schema_revision != CAMPAIGN_SCHEMA_REVISION {
            Some(Failure::Contract("unsupported campaign schema revision "@ + decimal(self.schema_revision as nat)))
        } else if self.conversation_history@.len() > 24 {
            Some(Failure::State("NPC conversation history exceeds its bounded save budget"@))
        } else if !story_history_ok(self) {
            Some(Failure::State("NPC social or main-story history is inconsistent or exceeds its bound"@))
        } else if !market_complete(self.market_stock@, self.market_demand@, catalog) {
            Some(Failure::State("market stock/demand state is incomplete or out of bounds"@))
        } else if !self.outbox@.well_formed() || self.outbox@.dead_letters.len() > 64
            || self.verified_economic_receipts@.len() > 256
            || !receipt_links_verified(self.settlement_receipts@, self.verified_economic_receipts@)
            || (self.economy_mode == EconomyMode::CexConnected && self.economy_account_binding is None) {
            Some(Failure::State("economy outbox, account binding or receipt state is invalid"@))
        } else if !intent_links_distinct(self.settlement_receipts@) {
            Some(Failure::State("battle settlement economic intent links must be one-to-one"@))
        } else if self.active_party_ids@.len() != 4 {
            Some(Failure::State("exactly four active party members are required"@))
        } else if self.credits < 0 || self.mentor_training_sessions > crate::MAX_MENTOR_TRAINING_SESSIONS {
            Some(Failure::State("campaign credits or mentor training count is invalid"@))
        } else if self.world_clock.day == 0 || self.world_clock.minute_of_day >= 1440 || self.expedition_supplies.stamina > 100
            || self.expedition_supplies.rations > 12 || self.expedition_supplies.water > 16 {
            Some(Failure::State("world clock or expedition supplies are invalid"@))
        } else if self.quest_chain matches Some(c) && c.complete && c.current_node != QuestChainNodeId::ReliefComplete {
            Some(Failure::State("completed quest chain is not at its terminal node"@))
        } else if self.quest_chain matches Some(c) && c.chosen_branch is Some && c.current_node != QuestChainNodeId::ReliefComplete {
            Some(Failure::State("quest branch is set before the terminal decision"@))
        } else if sat_add_u16(self.growth_points_spent, self.progress.growth_points_available) != self.progress.growth_points_awarded
            || (self.pending_growth && self.progress.growth_points_available == 0) {
            Some(Failure::State("growth point accounting is inconsistent"@))
        } else if !party_consistent(self.party@, self.active_party_ids@) {
            Some(Failure::State("party ids must be unique and active ids must exist"@))
        } else {
            pending_failure(self.phase, self.pending_battle)
        }
    }

    /// The campaign is consistent.
    pub open spec fn consistent(self, catalog: Seq<MarketCatalogItem>) -> bool {
        self.failure(catalog) is None
    }
}

fn memories_bounded(m: &Vec<NpcMemory>) -> (r: bool)
    ensures
        r == forall|i: int| 0 <= i < m@.len() ==> (#[trigger] m@[i]).lines@.len() <= 8,
{
    let mut i: usize = 0;
    while i < m.len()
        invariant
            i <= m@.len(),
            forall|j: int| 0 <= j < i ==> (#[trigger] m@[j]).lines@.len() <= 8,
        decreases m@.len() - i,
    {
        if m[i].lines.len() > 8 {
            return false;
        }
        i = i + 1;
    }
    true
}

fn ending_matches(a: Option<MainStoryEnding>, b: Option<MainStoryEnding>) -> (r: bool)
    ensures
        r == (a == b),
{
    match (a, b) {
        (None, None) => true,
        (Some(x), Some(y)) => x == y,
        _ => false,
    }
}

impl CampaignState {
    fn story_history_is_ok(&self) -> (r: bool)
        ensures
            r == story_history_ok(*self),
    {
        self.social_event_history.len() <= 16 && memories_bounded(&self.npc_memory) && bonds_ok(&self.npc_bonds) && self.main_story_decisions.len() <= 3
            && chapters_are_distinct(&self.main_story_decisions)
            && ending_matches(self.main_story_ending, resolve_main_story_ending(self.main_story_decisions.as_slice()))
            && self.ending_epilogue_progress <= 3
            && self.ending_epilogue_complete == (self.ending_epilogue_progress >= 3)
    }

    fn economy_is_ok(&self) -> (r: bool)
        ensures
            r == (self.outbox@.well_formed() && self.outbox@.dead_letters.len() <= 64
                && self.verified_economic_receipts@.len() <= 256
                && receipt_links_verified(self.settlement_receipts@, self.verified_economic_receipts@)
                && !(self.economy_mode == EconomyMode::CexConnected && self.economy_account_binding is None)),
    {
        self.outbox.is_well_formed() && self.outbox.dead_letters.len() <= 64
            && self.verified_economic_receipts.len() <= 256
            && links_are_verified(&self.settlement_receipts, &self.verified_economic_receipts)
            && !(self.economy_mode == EconomyMode::CexConnected && self.economy_account_binding.is_none())
    }

    /// Checks that the campaign is consistent: its contract and schema, its
    /// story and social history, every catalog item priced by the market,
    /// the economy outbox and binding, one-to-one intent links, four active
    /// party members, credits, mentor training, clock and supplies, the
    /// quest chain, growth accounting, the party roster, and the pending
    /// battle against the phase. Each refusal names the first check failed.
    pub fn validate(&self, catalog: &[MarketCatalogItem]) -> (r: Result<(), CampaignError>)
        ensures
            r is Ok <==> self.consistent(catalog@),
            match self.failure(catalog@) {
                None => r is Ok,
                Some(f) => r matches Err(e) && e.is_failure(f),
            },
    {
        if !str_eq(self.contract_version.as_str(), CAMPAIGN_SAVE_CONTRACT) {
            return Err(CampaignError::InvalidContract(self.contract_version.clone()));
        }
        if self.schema_revision != CAMPAIGN_SCHEMA_REVISION {
            let mut message = "unsupported campaign schema revision ".to_owned();
            push_decimal(&mut message, self.schema_revision as u64);
            proof {
                reveal_strlit("unsupported campaign schema revision ");
            }
            return Err(CampaignError::InvalidContract(message));
        }
        if self.conversation_history.len() > 24 {
            return Err(CampaignError::InvalidState("NPC conversation history exceeds its bounded save budget".to_owned()));
        }
        if !self.story_history_is_ok() {
            return Err(CampaignError::InvalidState(
                "NPC social or main-story history is inconsistent or exceeds its bound".to_owned(),
            ));
        }
        if !market_is_complete(&self.market_stock, &self.market_demand, catalog) {
            return Err(CampaignError::InvalidState("market stock/demand state is incomplete or out of bounds".to_owned()));
        }
        if !self.economy_is_ok() {
            return Err(CampaignError::InvalidState("economy outbox, account binding or receipt state is invalid".to_owned()));
        }
        if !links_are_distinct(&self.settlement_receipts) {
            return Err(CampaignError::InvalidState("battle settlement economic intent links must be one-to-one".to_owned()));
        }
        if self.active_party_ids.len() != 4 {
            return Err(CampaignError::InvalidState("exactly four active party members are required".to_owned()));
        }
        if self.credits < 0 || self.mentor_training_sessions > crate::MAX_MENTOR_TRAINING_SESSIONS {
            return Err(CampaignError::InvalidState("campaign credits or mentor training count is invalid".to_owned()));
        }
        if self.world_clock.day == 0 || self.world_clock.minute_of_day >= 1440 || self.expedition_supplies.stamina > 100
            || self.expedition_supplies.rations > 12 || self.expedition_supplies.water > 16 {
            return Err(CampaignError::InvalidState("world clock or expedition supplies are invalid".to_owned()));
        }
        if let Some(chain) = &self.quest_chain {
            if chain.complete && chain.current_node != QuestChainNodeId::ReliefComplete {
                return Err(CampaignError::InvalidState("completed quest chain is not at its terminal node".to_owned()));
            }
            if chain.chosen_branch.is_some() && chain.current_node != QuestChainNodeId::ReliefComplete {
                return Err(CampaignError::InvalidState("quest branch is set before the terminal decision".to_owned()));
            }
        }
        let spent = self.growth_points_spent;
        let available = self.progress.growth_points_available;
        let total: u16 = if spent as u32 + available as u32 > u16::MAX as u32 { u16::MAX } else { spent + available };
        if total != self.progress.growth_points_awarded || (self.pending_growth && available == 0) {
            return Err(CampaignError::InvalidState("growth point accounting is inconsistent".to_owned()));
        }
        if !party_is_consistent(&self.party, &self.active_party_ids) {
            return Err(CampaignError::InvalidState("party ids must be unique and active ids must exist".to_owned()));
        }
        check_pending(self.phase, &self.pending_battle)
    }
}

pub open spec fn msg_nothing_awaited() -> Seq<char> {
    "no battle is awaiting a result"@
}

pub open spec fn msg_pending_missing() -> Seq<char> {
    "pending battle payload is missing"@
}

impl CampaignState {
    /// Stages the RTS client's result for the pending battle. A result for a
    /// battle already settled is accepted and changes nothing. Otherwise a
    /// battle must be pending, and the result must answer its seed; then it
    /// is stored, the phase moves to `PostBattlePending`, and the revision
    /// rises by one. A refused result changes nothing.
    pub fn stage_battle_result(&mut self, result: BattleResultV1) -> (r: Result<(), CampaignError>)
        requires
            old(self).revision < u64::MAX,
        ensures
            lists_id(old(self).settled_battle_ids@, result.battle_id@) ==> r is Ok && *final(self) == *old(self),
            !lists_id(old(self).settled_battle_ids@, result.battle_id@) ==> match (old(self).phase, old(self).pending_battle) {
                (CampaignPhase::BattlePending, Some(p)) => match answer_failure(result, p) {
                    Some(f) => (r matches Err(e) && e.is_failure(f)) && *final(self) == *old(self),
                    None => r is Ok && *final(self) == (CampaignState {
                        phase: CampaignPhase::PostBattlePending,
                        revision: (old(self).revision + 1) as u64,
                        pending_battle: Some(PendingBattleV1 { result: Some(result), ..p }),
                        ..*old(self)
                    }),
                },
                (CampaignPhase::BattlePending, None) => (r matches Err(e) && e.is_state(msg_pending_missing()))
                    && *final(self) == *old(self),
                _ => (r matches Err(e) && e.is_state(msg_nothing_awaited())) && *final(self) == *old(self),
            },
    {
        if lists_id_exec(self.settled_battle_ids.as_slice(), result.battle_id.as_str()) {
            return Ok(());
        }
        if self.phase != CampaignPhase::BattlePending {
            return Err(CampaignError::InvalidState("no battle is awaiting a result".to_owned()));
        }
        let taken = self.pending_battle.take();
        match taken {
            None => Err(CampaignError::InvalidState("pending battle payload is missing".to_owned())),
            Some(p) => {
                match check_answer(&result, &p) {
                    Err(e) => {
                        self.pending_battle = Some(p);
                        Err(e)
                    },
                    Ok(()) => {
                        self.pending_battle = Some(PendingBattleV1 { seed: p.seed, result: Some(result) });
                        self.phase = CampaignPhase::PostBattlePending;
                        self.revision = self.revision + 1;
                        Ok(())
                    },
                }
            },
        }
    }
}

/// Staging a result that answers the pending battle keeps a consistent
/// campaign consistent.
pub proof fn lemma_staging_keeps_consistency(s: CampaignState, catalog: Seq<MarketCatalogItem>, result: BattleResultV1)
    requires
        s.consistent(catalog),
        s.phase == CampaignPhase::BattlePending,
        s.pending_battle is Some,
        answer_failure(result, s.pending_battle->Some_0) is None,
        s.revision < u64::MAX,
    ensures
        (CampaignState {
            phase: CampaignPhase::PostBattlePending,
            revision: (s.revision + 1) as u64,
            pending_battle: Some(PendingBattleV1 { result: Some(result), ..s.pending_battle->Some_0 }),
            ..s
        }).consistent(catalog),
{
}

fn bonds_ok(bonds: &Vec<(String, i16)>) -> (r: bool)
    ensures
        r == bonds_in_bounds(bonds@),
{
    let mut i: usize = 0;
    while i < bonds.len()
        invariant
            i <= bonds@.len(),
            forall|j: int| 0 <= j < i ==> -100 <= #[trigger] bonds@[j].1 <= 100,
        decreases bonds@.len() - i,
    {
        if bonds[i].1 < -100 || bonds[i].1 > 100 {
            return false;
        }
        i = i + 1;
    }
    true
}

fn chapters_are_distinct(decisions: &Vec<MainStoryDecisionRecord>) -> (r: bool)
    ensures
        r == chapters_distinct(decisions@),
{
    let n = decisions.len();
    let mut i: usize = 0;
    while i < n
        invariant
            n == decisions@.len(),
            i <= n,
            forall|a: int, b: int| 0 <= a < b < n && a < i ==> #[trigger] decisions@[a].chapter != #[trigger] decisions@[b].chapter,
        decreases n - i,
    {
        let mut j: usize = i + 1;
        while j < n
            invariant
                n == decisions@.len(),
                i < n,
                i + 1 <= j <= n,
                forall|a: int, b: int| 0 <= a < b < n && a < i ==> #[trigger] decisions@[a].chapter != #[trigger] decisions@[b].chapter,
                forall|b: int| i < b < j ==> decisions@[i as int].chapter != #[trigger] decisions@[b].chapter,
            decreases n - j,
        {
            if decisions[i].chapter == decisions[j].chapter {
                return false;
            }
            j = j + 1;
        }
        i = i + 1;
    }
    true
}

pub(crate) fn find_entry_index<T>(entries: &Vec<(String, T)>, id: &str) -> (r: Option<usize>)
    ensures
        match r {
            Some(k) => k < entries@.len() && find_entry(entries@, id@, 0) == k as int,
            None => find_entry(entries@, id@, 0) == -1,
        },
{
    let mut i: usize = 0;
    while i < entries.len()
        invariant
            i <= entries@.len(),
            find_entry(entries@, id@, 0) == find_entry(entries@, id@, i as int),
        decreases entries@.len() - i,
    {
        if str_eq(entries[i].0.as_str(), id) {
            return Some(i);
        }
        i = i + 1;
    }
    None
}

#[verifier::spinoff_prover]
fn market_is_complete(stock: &Vec<(String, u16)>, demand: &Vec<(String, i16)>, catalog: &[MarketCatalogItem]) -> (r: bool)
    ensures
        r == market_complete(stock@, demand@, catalog@),
{
    let mut c: usize = 0;
    while c < catalog.len()
        invariant
            c <= catalog@.len(),
            forall|j: int| 0 <= j < c ==> {
                &&& find_entry(stock@, #[trigger] catalog@[j].id@, 0) >= 0
                &&& find_entry(demand@, catalog@[j].id@, 0) >= 0
                &&& -20 <= demand@[find_entry(demand@, catalog@[j].id@, 0)].1 <= 20
            },
        decreases catalog@.len() - c,
    {
        let id = catalog[c].id.as_str();
        if find_entry_index(stock, id).is_none() {
            assert(find_entry(stock@, catalog@[c as int].id@, 0) < 0);
            return false;
        }
        match find_entry_index(demand, id) {
            None => {
                assert(find_entry(demand@, catalog@[c as int].id@, 0) < 0);
                return false;
            },
            Some(k) => {
                if demand[k].1 < -20 || demand[k].1 > 20 {
                    assert(!(-20 <= demand@[find_entry(demand@, catalog@[c as int].id@, 0)].1 <= 20));
                    return false;
                }
            },
        }
        c = c + 1;
    }
    true
}

fn answers_exec(verified: &Vec<VerifiedEconomicReceipt>, receipt_id: &str, intent_id: &str) -> (r: bool)
    ensures
        r == verified_answers(verified@, receipt_id@, intent_id@),
{
    let mut j: usize = 0;
    while j < verified.len()
        invariant
            j <= verified@.len(),
            forall|q: int| 0 <= q < j ==> !(#[trigger] verified@[q].receipt_id@ == receipt_id@ && verified@[q].intent_id@ == intent_id@),
        decreases verified@.len() - j,
    {
        if str_eq(verified[j].receipt_id.as_str(), receipt_id) && str_eq(verified[j].intent_id.as_str(), intent_id) {
            return true;
        }
        j = j + 1;
    }
    false
}

fn links_are_verified(settlements: &Vec<SettlementReceiptV1>, verified: &Vec<VerifiedEconomicReceipt>) -> (r: bool)
    ensures
        r == receipt_links_verified(settlements@, verified@),
{
    let mut i: usize = 0;
    while i < settlements.len()
        invariant
            i <= settlements@.len(),
            forall|q: int| 0 <= q < i && (#[trigger] settlements@[q]).economic_receipt_id is Some ==> {
                &&& settlements@[q].economic_intent_id is Some
                &&& verified_answers(verified@, settlements@[q].economic_receipt_id->Some_0@, settlements@[q].economic_intent_id->Some_0@)
            },
        decreases settlements@.len() - i,
    {
        let s = &settlements[i];
        match (&s.economic_receipt_id, &s.economic_intent_id) {
            (Some(rid), Some(iid)) => {
                if !answers_exec(verified, rid.as_str(), iid.as_str()) {
                    return false;
                }
            },
            (Some(_), None) => {
                return false;
            },
            _ => {},
        }
        i = i + 1;
    }
    true
}

fn opt_same(a: &Option<String>, b: &Option<String>) -> (r: bool)
    ensures
        r == (a is Some && b is Some && a->Some_0@ == b->Some_0@),
{
    match (a, b) {
        (Some(x), Some(y)) => str_eq(x.as_str(), y.as_str()),
        _ => false,
    }
}

fn links_are_distinct(receipts: &Vec<SettlementReceiptV1>) -> (r: bool)
    ensures
        r == intent_links_distinct(receipts@),
{
    let n = receipts.len();
    let mut i: usize = 0;
    while i < n
        invariant
            n == receipts@.len(),
            i <= n,
            forall|a: int, b: int| 0 <= a < b < n && a < i && #[trigger] receipts@[a].economic_intent_id is Some
                && #[trigger] receipts@[b].economic_intent_id is Some
                ==> receipts@[a].economic_intent_id->Some_0@ != receipts@[b].economic_intent_id->Some_0@,
        decreases n - i,
    {
        let mut j: usize = i + 1;
        while j < n
            invariant
                n == receipts@.len(),
                i < n,
                i + 1 <= j <= n,
                forall|a: int, b: int| 0 <= a < b < n && a < i && #[trigger] receipts@[a].economic_intent_id is Some
                    && #[trigger] receipts@[b].economic_intent_id is Some
                    ==> receipts@[a].economic_intent_id->Some_0@ != receipts@[b].economic_intent_id->Some_0@,
                forall|b: int| i < b < j && receipts@[i as int].economic_intent_id is Some
                    && #[trigger] receipts@[b].economic_intent_id is Some
                    ==> receipts@[i as int].economic_intent_id->Some_0@ != receipts@[b].economic_intent_id->Some_0@,
            decreases n - j,
        {
            if opt_same(&receipts[i].economic_intent_id, &receipts[j].economic_intent_id) {
                return false;
            }
            j = j + 1;
        }
        i = i + 1;
    }
    true
}

fn party_is_consistent(party: &Vec<PartyBattleState>, active: &Vec<String>) -> (r: bool)
    ensures
        r == party_consistent(party@, active@),
{
    let n = party.len();
    let mut i: usize = 0;
    while i < n
        invariant
            n == party@.len(),
            i <= n,
            forall|a: int, b: int| 0 <= a < b < n && a < i ==> #[trigger] party@[a].unit_id@ != #[trigger] party@[b].unit_id@,
        decreases n - i,
    {
        let mut j: usize = i + 1;
        while j < n
            invariant
                n == party@.len(),
                i < n,
                i + 1 <= j <= n,
                forall|a: int, b: int| 0 <= a < b < n && a < i ==> #[trigger] party@[a].unit_id@ != #[trigger] party@[b].unit_id@,
                forall|b: int| i < b < j ==> party@[i as int].unit_id@ != #[trigger] party@[b].unit_id@,
            decreases n - j,
        {
            if str_eq(party[i].unit_id.as_str(), party[j].unit_id.as_str()) {
                return false;
            }
            j = j + 1;
        }
        i = i + 1;
    }
    let m = active.len();
    let mut i: usize = 0;
    while i < m
        invariant
            m == active@.len(),
            n == party@.len(),
            i <= m,
            forall|a: int, b: int| 0 <= a < b < n ==> #[trigger] party@[a].unit_id@ != #[trigger] party@[b].unit_id@,
            forall|a: int, b: int| 0 <= a < b < m && a < i ==> #[trigger] active@[a]@ != #[trigger] active@[b]@,
            forall|a: int| 0 <= a < i ==> available_member(party@, #[trigger] active@[a]@),
        decreases m - i,
    {
        let mut j: usize = i + 1;
        while j < m
            invariant
                m == active@.len(),
                i < m,
                i + 1 <= j <= m,
                forall|a: int, b: int| 0 <= a < b < m && a < i ==> #[trigger] active@[a]@ != #[trigger] active@[b]@,
                forall|b: int| i < b < j ==> active@[i as int]@ != #[trigger] active@[b]@,
            decreases m - j,
        {
            if str_eq(active[i].as_str(), active[j].as_str()) {
                return false;
            }
            j = j + 1;
        }
        let mut found = false;
        let mut k: usize = 0;
        while k < party.len()
            invariant
                k <= party@.len(),
                m == active@.len(),
                i < m,
                found ==> available_member(party@, active@[i as int]@),
                !found ==> forall|q: int| 0 <= q < k ==> !(#[trigger] party@[q].unit_id@ == active@[i as int]@ && party@[q].available),
            decreases party@.len() - k,
        {
            if !found && str_eq(party[k].unit_id.as_str(), active[i].as_str()) && party[k].available {
                found = true;
            }
            k = k + 1;
        }
        if !found {
            assert(!available_member(party@, active@[i as int]@));
            return false;
        }
        i = i + 1;
    }
    true
}

} // verus!
