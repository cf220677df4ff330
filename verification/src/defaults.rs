//! Bringing a loaded campaign up to the current schema: bounded histories
//! trimmed, the main story normalised, the market filled in for every
//! catalog item, and the rooms and flags the story has earned restored.

use vstd::prelude::*;
use crate::campaign::{find_entry, find_entry_index, CampaignState, CAMPAIGN_SCHEMA_REVISION};
use crate::catalog::{CampaignDifficulty, CampaignMission, CampaignPhase, CampaignRoom, ExpeditionPreparation, QuestState};
use crate::clock::{ExpeditionSupplyState, WorldClock};
use crate::economy::EconomicOutbox;
use crate::party::{party_view, LevelProgress, MemberView, PartyBattleState};
use crate::quests::{memories_view, MemoryView, NpcMemory, StoryProgress};
use crate::settle::copy_texts;
use crate::settlement::SkillProgress;
use crate::skirmish::{idle_skirmish, SkirmishSetup};
use crate::settings::SaveSlotId;
use crate::economy::EconomyMode;
use crate::market::MarketCatalogItem;
use crate::quest_graph::texts_view;
use crate::quests::{has_flag, insert_flag, insert_room, StoryQuestId, StoryStepId};
use crate::upkeep::{lemma_filled_demand_bounded, lemma_find_entry_range, lemma_filled_demand_covers, lemma_filled_demand_fixed, lemma_filled_stock_covers, lemma_filled_stock_fixed};
use crate::story::{decision_choices, next_main_story_chapter, resolve_main_story_ending, spec_next_chapter, spec_resolve_ending, MainStoryChapter, MainStoryDecisionRecord};

verus! {

/// The first decision at or after `start` that settles `chapter`; -1 if none.
pub open spec fn first_decision(d: Seq<MainStoryDecisionRecord>, chapter: MainStoryChapter, start: int) -> int
    decreases d.len() - start,
{
    if start < 0 || start >= d.len() {
        -1
    } else if d[start].chapter == chapter {
        start
    } else {
        first_decision(d, chapter, start + 1)
    }
}

pub open spec fn chapter_part(d: Seq<MainStoryDecisionRecord>, chapter: MainStoryChapter) -> Seq<MainStoryDecisionRecord> {
    let k = first_decision(d, chapter, 0);
    if k >= 0 { seq![d[k]] } else { Seq::empty() }
}

/// The decisions in chapter order, keeping the first decision of each
/// chapter (a stable sort by chapter followed by dropping repeats).
pub open spec fn spec_normalized(d: Seq<MainStoryDecisionRecord>) -> Seq<MainStoryDecisionRecord> {
    chapter_part(d, MainStoryChapter::MirrorCityOaths) + chapter_part(d, MainStoryChapter::SignalRoadReckoning)
        + chapter_part(d, MainStoryChapter::AshenFringeCountermarch) + chapter_part(d, MainStoryChapter::ChapterComplete)
}

/// The last `cap` elements of `s`, or all of them.
pub open spec fn last_n<T>(s: Seq<T>, cap: nat) -> Seq<T> {
    if s.len() > cap { s.subrange(s.len() - cap, s.len() as int) } else { s }
}

/// The memories with each NPC's lines cut to its last 8.
pub open spec fn capped_memories(m: Seq<MemoryView>) -> Seq<MemoryView> {
    m.map_values(|v: MemoryView| MemoryView { npc_id: v.npc_id, lines: last_n(v.lines, 8) })
}

/// The stock entries after every catalog item without one gets its opening
/// stock: 12 of a material, 4 of anything else.
pub open spec fn spec_filled_stock(stock: Seq<(String, u16)>, catalog: Seq<MarketCatalogItem>) -> Seq<(String, u16)>
    decreases catalog.len(),
{
    if catalog.len() == 0 {
        stock
    } else {
        let s = spec_filled_stock(stock, catalog.drop_last());
        let c = catalog.last();
        if find_entry(s, c.id@, 0) >= 0 { s } else { s.push((c.id, if c.material { 12u16 } else { 4u16 })) }
    }
}

/// The demand entries after every catalog item without one gets demand 0.
pub open spec fn spec_filled_demand(demand: Seq<(String, i16)>, catalog: Seq<MarketCatalogItem>) -> Seq<(String, i16)>
    decreases catalog.len(),
{
    if catalog.len() == 0 {
        demand
    } else {
        let s = spec_filled_demand(demand, catalog.drop_last());
        let c = catalog.last();
        if find_entry(s, c.id@, 0) >= 0 { s } else { s.push((c.id, 0i16)) }
    }
}

/// The nine town rooms that are always open.
pub open spec fn town_rooms() -> Set<CampaignRoom> {
    set![
        CampaignRoom::MirrorSquare,
        CampaignRoom::MentorHall,
        CampaignRoom::CisternWard,
        CampaignRoom::NightWatchPost,
        CampaignRoom::WorkshopGate,
        CampaignRoom::MarketWindPavilion,
        CampaignRoom::LanternInfirmary,
        CampaignRoom::ArchiveSteps,
        CampaignRoom::CaravanYard
    ]
}

/// The rooms the story has earned given the mentor and the world flags:
/// the expedition gate once the mentor is met, the relay quarter once the
/// signal road is secured, the Glass Basin rooms once its wayhouse is open,
/// and the Ashen Fringe rooms once the fringe is open.
pub open spec fn earned_rooms(mentor_met: bool, flags: Set<Seq<char>>) -> Set<CampaignRoom> {
    (if mentor_met { set![CampaignRoom::ExpeditionGate] } else { Set::empty() })
        + (if flags.contains("signal_road_secured"@) { set![CampaignRoom::RelayQuarter] } else { Set::empty() })
        + (if flags.contains("glass_basin_wayhouse_open"@) {
            set![CampaignRoom::GlassBasinWayhouse, CampaignRoom::DeepRelay, CampaignRoom::GlassReedMarsh, CampaignRoom::BasinObservatory]
        } else {
            Set::empty()
        })
        + (if flags.contains("ashen_fringe_open"@) {
            set![CampaignRoom::MoonBridge, CampaignRoom::EmberOrchardEdge, CampaignRoom::AshBeaconField, CampaignRoom::CinderRefuge]
        } else {
            Set::empty()
        })
}

/// What restoring the story's access does: the expedition gate's flag
/// appended (if missing) once the mentor is met; the town rooms and the
/// rooms the story earned appended where missing, so that a campaign that
/// has them all keeps its rooms as they were; the current step moved to the
/// end of the Signal Road once the road is secured; nothing else of the
/// story changed.
pub open spec fn restored(old: CampaignState, new: CampaignState) -> bool {
    let gate = "expedition_gate_open"@;
    let earned = town_rooms() + earned_rooms(old.mentor_met, texts_view(new.world_flags@).to_set());
    &&& if old.mentor_met && !texts_view(old.world_flags@).contains(gate) {
        new.world_flags@ == old.world_flags@.push(new.world_flags@.last()) && new.world_flags@.last()@ == gate
    } else {
        new.world_flags@ == old.world_flags@
    }
    &&& texts_view(new.world_flags@).to_set() == if old.mentor_met {
        texts_view(old.world_flags@).to_set().insert(gate)
    } else {
        texts_view(old.world_flags@).to_set()
    }
    &&& new.story.unlocked_rooms@.to_set() == old.story.unlocked_rooms@.to_set() + earned
    &&& (earned <= old.story.unlocked_rooms@.to_set() ==> new.story.unlocked_rooms@ == old.story.unlocked_rooms@)
    &&& new.story.current_step == if texts_view(new.world_flags@).to_set().contains("signal_road_secured"@) {
        StoryStepId::SignalRoadComplete
    } else {
        old.story.current_step
    }
    &&& new.story.quest_id == old.story.quest_id
    &&& new.story.completed_steps == old.story.completed_steps
}

/// What upkeep makes of the campaign `old`, giving `new`, for the economy
/// item catalog `catalog`; every field not named keeps its value.
pub open spec fn upkept(old: CampaignState, new: CampaignState, catalog: Seq<MarketCatalogItem>) -> bool {
    let fresh = old.progress.growth_points_awarded == 0 && old.growth_points_spent == 0;
    &&& new.schema_revision == CAMPAIGN_SCHEMA_REVISION
    &&& new.social_event_history@ == last_n(old.social_event_history@, 16)
    &&& new.conversation_history@ == last_n(old.conversation_history@, 24)
    &&& memories_view(new.npc_memory@) == capped_memories(memories_view(old.npc_memory@))
    &&& new.main_story_decisions@ == spec_normalized(old.main_story_decisions@)
    &&& new.main_story_ending == spec_resolve_ending(decision_choices(new.main_story_decisions@))
    &&& new.main_story_chapter == spec_next_chapter(new.main_story_decisions@)
    &&& new.progress == if fresh {
        LevelProgress { growth_points_available: 1, growth_points_awarded: 1, ..old.progress }
    } else {
        old.progress
    }
    &&& new.market_stock@ == spec_filled_stock(old.market_stock@, catalog)
    &&& new.market_demand@ == spec_filled_demand(old.market_demand@, catalog)
    &&& new.economy_mode == if old.economy_mode == EconomyMode::CexConnected && old.economy_account_binding is None {
        EconomyMode::OfflineLocal
    } else {
        old.economy_mode
    }
    &&& new.outbox.dead_letters@ == last_n(old.outbox.dead_letters@, 64)
    &&& new.outbox.pending == old.outbox.pending
    &&& new.outbox.idempotency_keys == old.outbox.idempotency_keys
    &&& restored(old, new)
    &&& new == (CampaignState {
        schema_revision: new.schema_revision,
        social_event_history: new.social_event_history,
        conversation_history: new.conversation_history,
        npc_memory: new.npc_memory,
        main_story_decisions: new.main_story_decisions,
        main_story_ending: new.main_story_ending,
        main_story_chapter: new.main_story_chapter,
        progress: new.progress,
        market_stock: new.market_stock,
        market_demand: new.market_demand,
        economy_mode: new.economy_mode,
        outbox: new.outbox,
        world_flags: new.world_flags,
        story: new.story,
        ..old
    })
}

pub(crate) fn keep_last<T>(v: &mut Vec<T>, cap: usize)
    ensures
        final(v)@ == last_n(old(v)@, cap as nat),
{
    if v.len() > cap {
        let at = v.len() - cap;
        let kept = v.split_off(at);
        *v = kept;
    }
}

fn cap_memories(m: &mut Vec<NpcMemory>)
    ensures
        memories_view(final(m)@) == capped_memories(memories_view(old(m)@)),
{
    let mut out: Vec<NpcMemory> = Vec::new();
    let mut i: usize = 0;
    while i < m.len()
        invariant
            i <= m@.len(),
            memories_view(out@) == capped_memories(memories_view(m@)).take(i as int),
        decreases m@.len() - i,
    {
        let mut lines = copy_texts(&m[i].lines);
        keep_last(&mut lines, 8);
        assert(texts_view(lines@) =~= last_n(texts_view(m@[i as int].lines@), 8));
        let ghost before = out@;
        out.push(NpcMemory { npc_id: m[i].npc_id.clone(), lines });
        assert(memories_view(out@) =~= capped_memories(memories_view(m@)).take(i + 1)) by {
            assert(memories_view(out@) =~= memories_view(before).push(out@[i as int]@));
        }
        i = i + 1;
    }
    assert(capped_memories(memories_view(m@)).take(m@.len() as int) =~= capped_memories(memories_view(m@)));
    *m = out;
}

fn copy_decision(d: &MainStoryDecisionRecord) -> (r: MainStoryDecisionRecord)
    ensures
        r == *d,
{
    MainStoryDecisionRecord { chapter: d.chapter, choice: d.choice, outcome_flag: d.outcome_flag.clone(), day: d.day }
}

fn first_decision_index(d: &Vec<MainStoryDecisionRecord>, chapter: MainStoryChapter) -> (r: Option<usize>)
    ensures
        match r {
            Some(k) => k < d@.len() && first_decision(d@, chapter, 0) == k as int,
            None => first_decision(d@, chapter, 0) == -1,
        },
{
    let mut i: usize = 0;
    while i < d.len()
        invariant
            i <= d@.len(),
            first_decision(d@, chapter, 0) == first_decision(d@, chapter, i as int),
        decreases d@.len() - i,
    {
        if d[i].chapter == chapter {
            return Some(i);
        }
        i = i + 1;
    }
    None
}

fn push_chapter(out: &mut Vec<MainStoryDecisionRecord>, d: &Vec<MainStoryDecisionRecord>, chapter: MainStoryChapter)
    ensures
        final(out)@ == old(out)@ + chapter_part(d@, chapter),
{
    match first_decision_index(d, chapter) {
        Some(k) => {
            out.push(copy_decision(&d[k]));
            assert(out@ =~= old(out)@ + chapter_part(d@, chapter));
        },
        None => {
            assert(out@ =~= old(out)@ + chapter_part(d@, chapter));
        },
    }
}

fn normalized_decisions(d: &Vec<MainStoryDecisionRecord>) -> (r: Vec<MainStoryDecisionRecord>)
    ensures
        r@ == spec_normalized(d@),
{
    let mut out: Vec<MainStoryDecisionRecord> = Vec::new();
    push_chapter(&mut out, d, MainStoryChapter::MirrorCityOaths);
    push_chapter(&mut out, d, MainStoryChapter::SignalRoadReckoning);
    push_chapter(&mut out, d, MainStoryChapter::AshenFringeCountermarch);
    push_chapter(&mut out, d, MainStoryChapter::ChapterComplete);
    assert(out@ =~= spec_normalized(d@));
    out
}

fn fill_market(stock: &mut Vec<(String, u16)>, demand: &mut Vec<(String, i16)>, catalog: &[MarketCatalogItem])
    ensures
        final(stock)@ == spec_filled_stock(old(stock)@, catalog@),
        final(demand)@ == spec_filled_demand(old(demand)@, catalog@),
{
    let mut i: usize = 0;
    while i < catalog.len()
        invariant
            i <= catalog@.len(),
            stock@ == spec_filled_stock(old(stock)@, catalog@.take(i as int)),
            demand@ == spec_filled_demand(old(demand)@, catalog@.take(i as int)),
        decreases catalog@.len() - i,
    {
        let item = &catalog[i];
        assert(catalog@.take(i + 1).drop_last() =~= catalog@.take(i as int));
        assert(catalog@.take(i + 1).last() == *item);
        if find_entry_index(stock, item.id.as_str()).is_none() {
            stock.push((item.id.clone(), if item.material { 12 } else { 4 }));
        }
        if find_entry_index(demand, item.id.as_str()).is_none() {
            demand.push((item.id.clone(), 0));
        }
        i = i + 1;
    }
    assert(catalog@.take(catalog@.len() as int) =~= catalog@);
}

impl CampaignState {
    /// Brings a loaded campaign up to the current schema, as `upkept` says:
    /// the schema revision is set; the social history keeps its last 16
    /// events; the main-story decisions keep the first decision of each
    /// chapter, in chapter order, and the ending and current chapter follow
    /// from them; a campaign that never awarded nor spent a growth point
    /// gets its first; every item of `catalog` gets a market stock and
    /// demand entry if it had none; a connected economy without an account
    /// falls back to offline; the outbox keeps its last 64 dead letters; and
    /// the town rooms and the rooms and flags the story earned are restored.
    /// Nothing else changes.
    #[verifier::spinoff_prover]
    #[verifier::rlimit(100)]
    pub fn ensure_gameplay_defaults(&mut self, catalog: &[MarketCatalogItem])
        ensures
            upkept(*old(self), *final(self), catalog@),
    {
        self.schema_revision = CAMPAIGN_SCHEMA_REVISION;
        keep_last(&mut self.social_event_history, 16);
        keep_last(&mut self.conversation_history, 24);
        cap_memories(&mut self.npc_memory);
        let decisions = normalized_decisions(&self.main_story_decisions);
        self.main_story_decisions = decisions;
        self.main_story_ending = resolve_main_story_ending(self.main_story_decisions.as_slice());
        self.main_story_chapter = next_main_story_chapter(self.main_story_decisions.as_slice());
        if self.progress.growth_points_awarded == 0 && self.growth_points_spent == 0 {
            self.progress.growth_points_available = 1;
            self.progress.growth_points_awarded = 1;
        }
        fill_market(&mut self.market_stock, &mut self.market_demand, catalog);
        if self.economy_mode == EconomyMode::CexConnected && self.economy_account_binding.is_none() {
            self.economy_mode = EconomyMode::OfflineLocal;
        }
        keep_last(&mut self.outbox.dead_letters, 64);
        self.restore_story_access();
    }

    fn restore_story_access(&mut self)
        ensures
            restored(*old(self), *final(self)),
            *final(self) == (CampaignState { world_flags: final(self).world_flags, story: final(self).story, ..*old(self) }),
    {
        if self.mentor_met {
            insert_flag(&mut self.world_flags, "expedition_gate_open".to_owned());
        }
        let signal = has_flag(self.world_flags.as_slice(), "signal_road_secured");
        let glass = has_flag(self.world_flags.as_slice(), "glass_basin_wayhouse_open");
        let ashen = has_flag(self.world_flags.as_slice(), "ashen_fringe_open");
        add_story_rooms(&mut self.story.unlocked_rooms, self.mentor_met, signal, glass, ashen);
        if signal {
            self.story.current_step = StoryStepId::SignalRoadComplete;
        }
        proof {
            let flags = texts_view(self.world_flags@).to_set();
            assert(flags.contains("signal_road_secured"@) == signal);
            assert(flags.contains("glass_basin_wayhouse_open"@) == glass);
            assert(flags.contains("ashen_fringe_open"@) == ashen);
            assert(earned_rooms(old(self).mentor_met, flags) == rooms_for(old(self).mentor_met, signal, glass, ashen));
            let earned = town_rooms() + earned_rooms(old(self).mentor_met, flags);
            assert(self.story.unlocked_rooms@.to_set() =~= old(self).story.unlocked_rooms@.to_set() + earned);
            assert(earned <= old(self).story.unlocked_rooms@.to_set() ==> self.story.unlocked_rooms@ == old(self).story.unlocked_rooms@);
            let gate = "expedition_gate_open"@;
            assert(if old(self).mentor_met && !texts_view(old(self).world_flags@).contains(gate) {
                self.world_flags@ == old(self).world_flags@.push(self.world_flags@.last()) && self.world_flags@.last()@ == gate
            } else {
                self.world_flags@ == old(self).world_flags@
            });
            assert(texts_view(self.world_flags@).to_set() == if old(self).mentor_met {
                texts_view(old(self).world_flags@).to_set().insert(gate)
            } else {
                texts_view(old(self).world_flags@).to_set()
            });
        }
    }
}

/// The rooms the story opens given whether the mentor was met and whether
/// the signal road, the Glass Basin wayhouse and the Ashen Fringe are open.
pub open spec fn rooms_for(mentor_met: bool, signal: bool, glass: bool, ashen: bool) -> Set<CampaignRoom> {
    (if mentor_met { set![CampaignRoom::ExpeditionGate] } else { Set::empty() })
        + (if signal { set![CampaignRoom::RelayQuarter] } else { Set::empty() })
        + (if glass {
            set![CampaignRoom::GlassBasinWayhouse, CampaignRoom::DeepRelay, CampaignRoom::GlassReedMarsh, CampaignRoom::BasinObservatory]
        } else {
            Set::empty()
        })
        + (if ashen {
            set![CampaignRoom::MoonBridge, CampaignRoom::EmberOrchardEdge, CampaignRoom::AshBeaconField, CampaignRoom::CinderRefuge]
        } else {
            Set::empty()
        })
}

fn add_room(rooms: &mut Vec<CampaignRoom>, room: CampaignRoom)
    ensures
        final(rooms)@.to_set() == old(rooms)@.to_set().insert(room),
        old(rooms)@.to_set().contains(room) ==> final(rooms)@ == old(rooms)@,
{
    insert_room(rooms, room);
}

#[verifier::rlimit(50)]
fn add_story_rooms(rooms: &mut Vec<CampaignRoom>, mentor_met: bool, signal: bool, glass: bool, ashen: bool)
    ensures
        final(rooms)@.to_set() == old(rooms)@.to_set() + town_rooms() + rooms_for(mentor_met, signal, glass, ashen),
        town_rooms() + rooms_for(mentor_met, signal, glass, ashen) <= old(rooms)@.to_set() ==> final(rooms)@ == old(rooms)@,
{
    let ghost start = rooms@.to_set();
    add_room(rooms, CampaignRoom::MirrorSquare);
    add_room(rooms, CampaignRoom::MentorHall);
    add_room(rooms, CampaignRoom::CisternWard);
    add_room(rooms, CampaignRoom::NightWatchPost);
    add_room(rooms, CampaignRoom::WorkshopGate);
    add_room(rooms, CampaignRoom::MarketWindPavilion);
    add_room(rooms, CampaignRoom::LanternInfirmary);
    add_room(rooms, CampaignRoom::ArchiveSteps);
    add_room(rooms, CampaignRoom::CaravanYard);
    if mentor_met {
        add_room(rooms, CampaignRoom::ExpeditionGate);
    }
    if signal {
        add_room(rooms, CampaignRoom::RelayQuarter);
    }
    if glass {
        add_room(rooms, CampaignRoom::GlassBasinWayhouse);
        add_room(rooms, CampaignRoom::DeepRelay);
        add_room(rooms, CampaignRoom::GlassReedMarsh);
        add_room(rooms, CampaignRoom::BasinObservatory);
    }
    if ashen {
        add_room(rooms, CampaignRoom::MoonBridge);
        add_room(rooms, CampaignRoom::EmberOrchardEdge);
        add_room(rooms, CampaignRoom::AshBeaconField);
        add_room(rooms, CampaignRoom::CinderRefuge);
    }
    assert(rooms@.to_set() =~= start + town_rooms() + rooms_for(mentor_met, signal, glass, ashen));
}

impl CampaignState {
    /// A new campaign for a save slot: the new campaign of `new_campaign`,
    /// under the slot's own id (`local-campaign-slot-a` for slot A).
    pub fn new_slot_campaign(slot: SaveSlotId, character_id: &str, character_skill_count: usize, catalog: &[MarketCatalogItem]) -> (r: Self)
        ensures
            starts_fresh(r, character_id@, character_skill_count as nat, catalog@),
            r.campaign_id@ == slot_campaign_id(slot),
            upkept(r, r, catalog@),
            r.consistent(catalog@),
    {
        let mut r = CampaignState::new_campaign(character_id, character_skill_count, catalog);
        let id = match slot {
            SaveSlotId::A => "local-campaign-slot-a",
            SaveSlotId::B => "local-campaign-slot-b",
            SaveSlotId::C => "local-campaign-slot-c",
        };
        proof {
            reveal_strlit("local-campaign-slot-a");
            reveal_strlit("local-campaign-slot-b");
            reveal_strlit("local-campaign-slot-c");
            reveal_strlit("local-campaign-slot-");
            reveal_strlit("a");
            reveal_strlit("b");
            reveal_strlit("c");
            assert(id@ =~= slot_campaign_id(slot));
        }
        r.campaign_id = id.to_owned();
        r
    }
}

fn roster_member(unit_id: &str, available: bool) -> (r: PartyBattleState)
    ensures
        r@ == (MemberView {
            unit_id: unit_id@,
            persistent: true,
            available,
            experience: 0,
            veteran_rank: 0,
            confirmed_kills: 0,
            injury_level: 0,
        }),
{
    PartyBattleState {
        unit_id: unit_id.to_owned(),
        persistent: true,
        available,
        experience: 0,
        veteran_rank: 0,
        confirmed_kills: 0,
        injury_level: 0,
    }
}

/// The starting roster: the hero, Aya, Mako, Tess, Nia, Brann (not yet
/// available) and Sol, all persistent and unhurt.
pub open spec fn starting_roster() -> Seq<MemberView> {
    seq![
        MemberView { unit_id: "hero"@, persistent: true, available: true, experience: 0, veteran_rank: 0, confirmed_kills: 0, injury_level: 0 },
        MemberView { unit_id: "aya"@, persistent: true, available: true, experience: 0, veteran_rank: 0, confirmed_kills: 0, injury_level: 0 },
        MemberView { unit_id: "mako"@, persistent: true, available: true, experience: 0, veteran_rank: 0, confirmed_kills: 0, injury_level: 0 },
        MemberView { unit_id: "tess"@, persistent: true, available: true, experience: 0, veteran_rank: 0, confirmed_kills: 0, injury_level: 0 },
        MemberView { unit_id: "nia"@, persistent: true, available: true, experience: 0, veteran_rank: 0, confirmed_kills: 0, injury_level: 0 },
        MemberView { unit_id: "brann"@, persistent: true, available: false, experience: 0, veteran_rank: 0, confirmed_kills: 0, injury_level: 0 },
        MemberView { unit_id: "sol"@, persistent: true, available: true, experience: 0, veteran_rank: 0, confirmed_kills: 0, injury_level: 0 },
    ]
}

/// The id of a new campaign created in a save slot: `local-campaign-slot-`
/// followed by the slot's label in lower case.
pub open spec fn slot_campaign_id(slot: SaveSlotId) -> Seq<char> {
    "local-campaign-slot-"@ + match slot {
        SaveSlotId::A => "a"@,
        SaveSlotId::B => "b"@,
        SaveSlotId::C => "c"@,
    }
}

/// The nine rooms a new story opens, in order.
pub open spec fn starting_rooms() -> Seq<CampaignRoom> {
    seq![
        CampaignRoom::MirrorSquare,
        CampaignRoom::MentorHall,
        CampaignRoom::CisternWard,
        CampaignRoom::NightWatchPost,
        CampaignRoom::WorkshopGate,
        CampaignRoom::MarketWindPavilion,
        CampaignRoom::LanternInfirmary,
        CampaignRoom::ArchiveSteps,
        CampaignRoom::CaravanYard,
    ]
}

/// `r` is a campaign at its very start, apart from its id: the current
/// contract and schema; the character `character_id` with
/// `character_skill_count` skills at rank 1; in town at Mirror Square at
/// revision 0 on standard difficulty; reputation 0, level 1 with one growth
/// point, 260 credits, an empty inventory and no world flags; the starting
/// roster with the hero, Aya, Mako and Tess active; First Contact as the
/// mission with its quest locked and the idle skirmish setup; the story at
/// the mentor with the nine town rooms open; the mentor not yet met nor
/// trained with, no shortcut, no forge master; the first main-story
/// chapter with no decision, ending or epilogue; day 1 at 08:00 with full
/// stamina, 4 rations and 6 water and an immediate departure; no quest
/// chain; every catalog item stocked (12 of a material, 4 of anything
/// else) at demand 0; no social history or bonds; the offline economy with
/// no account, an empty outbox, and nothing settled, verified or pending.
pub open spec fn starts_fresh(r: CampaignState, character_id: Seq<char>, character_skill_count: nat, catalog: Seq<MarketCatalogItem>) -> bool {
    &&& r.contract_version@ == crate::CAMPAIGN_SAVE_CONTRACT@
    &&& r.schema_revision == CAMPAIGN_SCHEMA_REVISION
    &&& r.character_id@ == character_id
    &&& r.revision == 0
    &&& r.room == CampaignRoom::MirrorSquare
    &&& r.phase == CampaignPhase::Town
    &&& r.difficulty == CampaignDifficulty::Standard
    &&& r.reputation == 0
    &&& r.progress == (LevelProgress { experience: 0, level: 1, growth_points_available: 1, growth_points_awarded: 1 })
    &&& r.growth_points_spent == 0
    &&& !r.pending_growth
    &&& r.credits == 260
    &&& r.mentor_training_sessions == 0
    &&& r.aftershock_completions == 0
    &&& r.inventory@.len() == 0
    &&& r.world_flags@.len() == 0
    &&& r.skills@.len() == character_skill_count
    &&& forall|i: int| 0 <= i < character_skill_count ==> #[trigger] r.skills@[i] == (SkillProgress { rank: 1, experience: 0 })
    &&& party_view(r.party@) == starting_roster()
    &&& texts_view(r.active_party_ids@) == seq!["hero"@, "aya"@, "mako"@, "tess"@]
    &&& r.active_mission == CampaignMission::FirstContact
    &&& r.skirmish_setup == idle_skirmish()
    &&& r.story.quest_id == StoryQuestId::SignalRoad
    &&& r.story.current_step == StoryStepId::MeetMentor
    &&& r.story.completed_steps@.len() == 0
    &&& r.story.unlocked_rooms@ == starting_rooms()
    &&& r.quest_state == QuestState::Locked
    &&& !r.mentor_met
    &&& !r.trained_with_mentor
    &&& !r.shortcut_unlocked
    &&& !r.forge_master
    &&& r.main_story_chapter == MainStoryChapter::MirrorCityOaths
    &&& r.main_story_decisions@.len() == 0
    &&& r.main_story_ending is None
    &&& r.ending_epilogue_progress == 0
    &&& !r.ending_epilogue_complete
    &&& r.world_clock == (WorldClock { day: 1, minute_of_day: 480 })
    &&& r.expedition_supplies == (ExpeditionSupplyState { stamina: 100, rations: 4, water: 6 })
    &&& r.selected_expedition_preparation == ExpeditionPreparation::Immediate
    &&& r.quest_chain is None
    &&& r.market_stock@ == spec_filled_stock(Seq::empty(), catalog)
    &&& r.market_demand@ == spec_filled_demand(Seq::empty(), catalog)
    &&& r.social_event_history@.len() == 0
    &&& r.conversation_history@.len() == 0
    &&& r.npc_memory@.len() == 0
    &&& r.npc_work_output@.len() == 0
    &&& r.npc_autonomous_goals@.len() == 0
    &&& r.npc_goal_rooms@.len() == 0
    &&& r.npc_bonds@.len() == 0
    &&& r.economy_mode == EconomyMode::OfflineLocal
    &&& r.economy_account_binding is None
    &&& r.outbox@.pending.len() == 0
    &&& r.outbox@.keys.len() == 0
    &&& r.outbox@.dead_letters.len() == 0
    &&& r.settled_battle_ids@.len() == 0
    &&& r.settlement_receipts@.len() == 0
    &&& r.verified_economic_receipts@.len() == 0
    &&& r.pending_battle is None
}

impl CampaignState {
    /// A new campaign for the character `character_id`, who starts with
    /// `character_skill_count` skills, as `starts_fresh` says, under the id
    /// `local-campaign`. It is consistent, and upkeep keeps it as it is.
    pub fn new_campaign(character_id: &str, character_skill_count: usize, catalog: &[MarketCatalogItem]) -> (r: Self)
        ensures
            starts_fresh(r, character_id@, character_skill_count as nat, catalog@),
            r.campaign_id@ == "local-campaign"@,
            upkept(r, r, catalog@),
            r.consistent(catalog@),
    {
        let mut skills: Vec<SkillProgress> = Vec::new();
        let mut i: usize = 0;
        while i < character_skill_count
            invariant
                i <= character_skill_count,
                skills@.len() == i,
                forall|j: int| 0 <= j < i ==> #[trigger] skills@[j] == (SkillProgress { rank: 1, experience: 0 }),
            decreases character_skill_count - i,
        {
            skills.push(SkillProgress { rank: 1, experience: 0 });
            i = i + 1;
        }
        let party = vec![
            roster_member("hero", true),
            roster_member("aya", true),
            roster_member("mako", true),
            roster_member("tess", true),
            roster_member("nia", true),
            roster_member("brann", false),
            roster_member("sol", true),
        ];
        assert(party_view(party@) =~= starting_roster());
        let active = vec!["hero".to_owned(), "aya".to_owned(), "mako".to_owned(), "tess".to_owned()];
        assert(texts_view(active@) =~= seq!["hero"@, "aya"@, "mako"@, "tess"@]);
        let mut market_stock: Vec<(String, u16)> = Vec::new();
        let mut market_demand: Vec<(String, i16)> = Vec::new();
        fill_market(&mut market_stock, &mut market_demand, catalog);
        proof {
            lemma_filled_stock_covers(Seq::empty(), catalog@);
            lemma_filled_stock_fixed(market_stock@, catalog@);
            lemma_filled_demand_covers(Seq::empty(), catalog@);
            lemma_filled_demand_fixed(market_demand@, catalog@);
        }
        let r = CampaignState {
            contract_version: crate::CAMPAIGN_SAVE_CONTRACT.to_owned(),
            schema_revision: CAMPAIGN_SCHEMA_REVISION,
            campaign_id: "local-campaign".to_owned(),
            character_id: character_id.to_owned(),
            revision: 0,
            room: CampaignRoom::MirrorSquare,
            phase: CampaignPhase::Town,
            difficulty: CampaignDifficulty::Standard,
            reputation: 0,
            progress: LevelProgress { experience: 0, level: 1, growth_points_available: 1, growth_points_awarded: 1 },
            growth_points_spent: 0,
            pending_growth: false,
            credits: crate::default_campaign_credits(),
            mentor_training_sessions: 0,
            aftershock_completions: 0,
            inventory: Vec::new(),
            world_flags: Vec::new(),
            skills,
            party,
            active_party_ids: active,
            active_mission: CampaignMission::FirstContact,
            skirmish_setup: SkirmishSetup::default(),
            story: StoryProgress::default(),
            quest_state: QuestState::Locked,
            mentor_met: false,
            trained_with_mentor: false,
            shortcut_unlocked: false,
            forge_master: false,
            main_story_chapter: MainStoryChapter::MirrorCityOaths,
            main_story_decisions: Vec::new(),
            main_story_ending: None,
            ending_epilogue_progress: 0,
            ending_epilogue_complete: false,
            world_clock: WorldClock::default(),
            expedition_supplies: ExpeditionSupplyState::default(),
            selected_expedition_preparation: ExpeditionPreparation::Immediate,
            quest_chain: None,
            market_stock,
            market_demand,
            social_event_history: Vec::new(),
            conversation_history: Vec::new(),
            npc_memory: Vec::new(),
            npc_work_output: Vec::new(),
            npc_autonomous_goals: Vec::new(),
            npc_goal_rooms: Vec::new(),
            npc_bonds: Vec::new(),
            economy_mode: EconomyMode::OfflineLocal,
            economy_account_binding: None,
            outbox: EconomicOutbox::new(),
            settled_battle_ids: Vec::new(),
            settlement_receipts: Vec::new(),
            verified_economic_receipts: Vec::new(),
            pending_battle: None,
        };
        proof {
            let none: Seq<MainStoryDecisionRecord> = Seq::empty();
            assert(capped_memories(memories_view(r.npc_memory@)) =~= memories_view(r.npc_memory@));
            assert(spec_normalized(none) =~= none);
            assert(decision_choices(none) =~= Seq::empty());
            assert(texts_view(r.world_flags@) =~= Seq::empty());
            assert(texts_view(r.world_flags@).to_set() =~= Set::empty());
            assert(town_rooms() + earned_rooms(false, Set::empty()) =~= r.story.unlocked_rooms@.to_set()) by {
                assert forall|x: CampaignRoom| r.story.unlocked_rooms@.to_set().contains(x) implies town_rooms().contains(x) by {
                    assert(r.story.unlocked_rooms@.contains(x));
                }
                assert forall|x: CampaignRoom| town_rooms().contains(x) implies r.story.unlocked_rooms@.to_set().contains(x) by {
                    if x == CampaignRoom::MirrorSquare { assert(r.story.unlocked_rooms@[0] == x); }
                    if x == CampaignRoom::MentorHall { assert(r.story.unlocked_rooms@[1] == x); }
                    if x == CampaignRoom::CisternWard { assert(r.story.unlocked_rooms@[2] == x); }
                    if x == CampaignRoom::NightWatchPost { assert(r.story.unlocked_rooms@[3] == x); }
                    if x == CampaignRoom::WorkshopGate { assert(r.story.unlocked_rooms@[4] == x); }
                    if x == CampaignRoom::MarketWindPavilion { assert(r.story.unlocked_rooms@[5] == x); }
                    if x == CampaignRoom::LanternInfirmary { assert(r.story.unlocked_rooms@[6] == x); }
                    if x == CampaignRoom::ArchiveSteps { assert(r.story.unlocked_rooms@[7] == x); }
                    if x == CampaignRoom::CaravanYard { assert(r.story.unlocked_rooms@[8] == x); }
                }
            }
            assert(r.story.unlocked_rooms@.to_set() + (town_rooms() + earned_rooms(false, Set::empty())) =~= r.story.unlocked_rooms@.to_set());
            lemma_new_campaign_consistent(r, catalog@);
        }
        r
    }
}

/// A campaign with the starting roster and active party, an empty history,
/// no economy activity and the market filled from `catalog` is consistent.
proof fn lemma_new_campaign_consistent(r: CampaignState, catalog: Seq<MarketCatalogItem>)
    requires
        r.contract_version@ == crate::CAMPAIGN_SAVE_CONTRACT@,
        r.schema_revision == CAMPAIGN_SCHEMA_REVISION,
        r.social_event_history@.len() == 0,
        r.conversation_history@.len() == 0,
        r.npc_memory@.len() == 0,
        r.npc_bonds@.len() == 0,
        r.main_story_decisions@.len() == 0,
        r.main_story_ending is None,
        r.ending_epilogue_progress == 0,
        !r.ending_epilogue_complete,
        r.market_stock@ == spec_filled_stock(Seq::empty(), catalog),
        r.market_demand@ == spec_filled_demand(Seq::empty(), catalog),
        r.outbox@.keys.len() == 0,
        r.outbox@.pending.len() == 0,
        r.outbox@.dead_letters.len() == 0,
        r.verified_economic_receipts@.len() == 0,
        r.settlement_receipts@.len() == 0,
        r.economy_mode == EconomyMode::OfflineLocal,
        texts_view(r.active_party_ids@) == seq!["hero"@, "aya"@, "mako"@, "tess"@],
        party_view(r.party@) == starting_roster(),
        r.credits == 260,
        r.mentor_training_sessions == 0,
        r.world_clock == (WorldClock { day: 1, minute_of_day: 480 }),
        r.expedition_supplies == (ExpeditionSupplyState { stamina: 100, rations: 4, water: 6 }),
        r.quest_chain is None,
        r.growth_points_spent == 0,
        r.progress.growth_points_available == 1,
        r.progress.growth_points_awarded == 1,
        !r.pending_growth,
        r.phase == CampaignPhase::Town,
        r.pending_battle is None,
    ensures
        r.consistent(catalog),
{
    let none: Seq<MainStoryDecisionRecord> = Seq::empty();
    assert(r.main_story_decisions@ =~= none);
    assert(decision_choices(none) =~= Seq::empty());
    lemma_filled_stock_covers(Seq::empty(), catalog);
    lemma_filled_demand_covers(Seq::empty(), catalog);
    lemma_filled_demand_bounded(Seq::empty(), catalog);
    assert forall|c: int| 0 <= c < catalog.len() implies {
        &&& find_entry(r.market_stock@, #[trigger] catalog[c].id@, 0) >= 0
        &&& find_entry(r.market_demand@, catalog[c].id@, 0) >= 0
        &&& -20 <= r.market_demand@[find_entry(r.market_demand@, catalog[c].id@, 0)].1 <= 20
    } by {
        lemma_find_entry_range(r.market_demand@, catalog[c].id@, 0);
    }
    reveal_strlit("hero");
    reveal_strlit("aya");
    reveal_strlit("mako");
    reveal_strlit("tess");
    reveal_strlit("nia");
    reveal_strlit("brann");
    reveal_strlit("sol");
    let p = r.party@;
    let a = r.active_party_ids@;
    assert(starting_roster().len() == 7);
    assert(party_view(p).len() == 7);
    assert(p.len() == 7);
    assert(texts_view(a).len() == 4);
    assert(a.len() == 4);
    assert forall|i: int| 0 <= i < 7 implies #[trigger] p[i].unit_id@ == starting_roster()[i].unit_id
        && p[i].available == starting_roster()[i].available by {
        assert(party_view(p)[i] == starting_roster()[i]);
    }
    assert forall|i: int| 0 <= i < 4 implies #[trigger] a[i]@ == seq!["hero"@, "aya"@, "mako"@, "tess"@][i] by {
        assert(texts_view(a)[i] == a[i]@);
    }
    let firsts = seq!['h', 'a', 'm', 't', 'n', 'b', 's'];
    assert forall|i: int| 0 <= i < 7 implies #[trigger] p[i].unit_id@.len() > 0 && p[i].unit_id@[0] == firsts[i] by {
        assert(p[i].unit_id@ == starting_roster()[i].unit_id);
    }
    assert forall|i: int, j: int| 0 <= i < j < p.len() implies #[trigger] p[i].unit_id@ != #[trigger] p[j].unit_id@ by {
        assert(p[i].unit_id@[0] == firsts[i]);
        assert(p[j].unit_id@[0] == firsts[j]);
        assert(firsts[i] != firsts[j]);
    }
    assert forall|i: int, j: int| 0 <= i < j < a.len() implies #[trigger] a[i]@ != #[trigger] a[j]@ by {
        assert(a[i]@ == seq!["hero"@, "aya"@, "mako"@, "tess"@][i]);
        assert(a[j]@ == seq!["hero"@, "aya"@, "mako"@, "tess"@][j]);
    }
    assert forall|i: int| 0 <= i < a.len() implies crate::campaign::available_member(p, #[trigger] a[i]@) by {
        assert(a[i]@ == seq!["hero"@, "aya"@, "mako"@, "tess"@][i]);
        assert(p[i].unit_id@ == starting_roster()[i].unit_id);
        assert(p[i].available == starting_roster()[i].available);
    }
}

} // verus!
