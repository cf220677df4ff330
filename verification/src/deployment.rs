//! Deploying the party: the checks before a battle, the seed the campaign
//! issues for it, and the move into the battle handoff.
//!
//! The party's RTS units are computed by the RPG layer (attributes,
//! equipment, skills and sect) and handed in; the campaign assembles and
//! seals the seed around them.

use vstd::prelude::*;
use crate::battle_map::{spec_for_mission, BattleMapSeedV1, MissionDefinition};
use crate::campaign::CampaignState;
use crate::market::MarketCatalogItem;
use crate::catalog::{CampaignPhase, CampaignRoom, QuestState};
use crate::clock::{decimal, push_decimal, spec_advance, ExpeditionReadiness, ExpeditionSupplyState, WorldClock};
use crate::error::{CampaignError, Failure};
use crate::hashing::canonical_json_hash;
use crate::seed::{sealing_hash, seed_failure, BattleSeedV1, PendingBattleV1};
use crate::party::{find_member, find_member_index, party_view, MemberView};
use crate::text::str_eq;
use crate::canonical::lemma_json_seed_ignores_stored_hash;
use crate::skirmish::{idle_skirmish, SkirmishSetup};
use crate::stats::{apply_campaign_growth, apply_expedition_readiness, spec_campaign_growth, spec_expedition_readiness, BattleUnitSeedV1, RtsUnitStats};
use crate::town::{commit_expedition_preparation, is_skirmish_mission, msg_not_in_town, msg_wrong_room, require_room, spec_is_skirmish, spec_prepare};
use crate::{BATTLE_SEED_CONTRACT, FIRST_CONTACT_RULES_VERSION};

verus! {

pub open spec fn msg_accept_first() -> Seq<char> {
    "accept the First Contact quest before deployment"@
}

/// The first reason the campaign cannot deploy onto `map`; `None` when it
/// can. `shortcut_allowed` is whether the character may take the shortcut.
pub open spec fn deployment_refusal(s: CampaignState, map: BattleMapSeedV1, shortcut_allowed: bool) -> Option<Failure> {
    if s.phase != CampaignPhase::Town {
        Some(Failure::State(msg_not_in_town()))
    } else if s.room != CampaignRoom::ExpeditionGate {
        Some(Failure::State(msg_wrong_room(CampaignRoom::ExpeditionGate, s.room)))
    } else if s.quest_state != QuestState::Accepted {
        Some(Failure::State(msg_accept_first()))
    } else if map@.failure() is Some {
        Some(Failure::Contract(map@.failure()->Some_0))
    } else if spec_prepare(s.selected_expedition_preparation, shortcut_allowed, s.expedition_supplies, s.credits) is Err {
        Some(Failure::State(spec_prepare(s.selected_expedition_preparation, shortcut_allowed, s.expedition_supplies, s.credits)->Err_0))
    } else {
        None
    }
}

/// `n` in decimal, padded with zeros on the left to at least `width` digits.
pub open spec fn zero_padded(n: nat, width: nat) -> Seq<char> {
    let digits = decimal(n);
    if digits.len() >= width {
        digits
    } else {
        Seq::new((width - digits.len()) as nat, |i: int| '0') + digits
    }
}

/// The battle id of the seed issued at `revision` for `map_id`:
/// `{map_id}-{revision:08}`.
pub open spec fn spec_battle_id(map_id: Seq<char>, revision: u64) -> Seq<char> {
    map_id + "-"@ + zero_padded(revision as nat, 8)
}

fn decimal_len(n: u64) -> (r: u64)
    ensures
        r == decimal(n as nat).len(),
        1 <= r <= n + 1,
    decreases n,
{
    if n < 10 {
        1
    } else {
        let rest = decimal_len(n / 10);
        assert(decimal(n as nat) == decimal((n / 10) as nat) + seq![crate::clock::digit_char((n % 10) as nat)]);
        rest + 1
    }
}

pub fn battle_id_for(map_id: &str, revision: u64) -> (r: String)
    ensures
        r@ == spec_battle_id(map_id@, revision),
{
    proof {
        reveal_strlit("-");
    }
    let mut id = map_id.to_owned();
    id.append("-");
    let digits = decimal_len(revision);
    let ghost base = id@;
    let mut padding: u64 = digits;
    while padding < 8
        invariant
            digits <= padding,
            padding <= 8 || padding == digits,
            id@ == base + Seq::new((padding - digits) as nat, |i: int| '0'),
        decreases 8 - padding,
    {
        proof {
            reveal_strlit("0");
        }
        id.append("0");
        assert(id@ =~= base + Seq::new((padding + 1 - digits) as nat, |i: int| '0'));
        padding = padding + 1;
    }
    push_decimal(&mut id, revision);
    proof {
        if digits >= 8 {
            assert(id@ =~= map_id@ + "-"@ + decimal(revision as nat));
        } else {
            assert(id@ =~= map_id@ + "-"@ + (Seq::new((8 - digits) as nat, |i: int| '0') + decimal(revision as nat)));
        }
    }
    id
}

fn copy_setup(s: &SkirmishSetup) -> (r: SkirmishSetup)
    ensures
        r == *s,
{
    SkirmishSetup {
        enabled: s.enabled,
        player_faction: s.player_faction,
        enemy_faction: s.enemy_faction,
        starting_resources: s.starting_resources,
        victory_mode: s.victory_mode,
        score_target: s.score_target,
        simulation_seed: s.simulation_seed,
    }
}

fn spawn_slot(index: usize) -> (r: String)
    ensures
        r@ == "party_"@ + decimal(index as nat),
{
    proof {
        reveal_strlit("party_");
    }
    let mut slot = "party_".to_owned();
    push_decimal(&mut slot, index as u64);
    slot
}

/// What the RPG layer supplies for one deployed party member: the name and
/// role it shows, its skills and equipment, and the RTS stats its
/// attributes, skill rank, equipment and injuries map to, before campaign
/// growth and expedition readiness are applied.
#[derive(Debug, Clone, PartialEq, Eq)]
pub struct MemberLoadout {
    pub display_name: String,
    pub role: String,
    pub skill_ids: Vec<String>,
    pub equipment_ids: Vec<String>,
    pub base_stats: RtsUnitStats,
}

/// The level a party member fights at: the campaign level for the hero,
/// one level per 120 experience (from 1) for everyone else.
pub open spec fn unit_level(s: CampaignState, m: MemberView) -> u32 {
    if m.unit_id == "hero"@ { s.progress.level } else { (1 + (m.experience / 120) as u32) as u32 }
}

/// The party member an active id names: the first with that unit id.
pub open spec fn active_member(s: CampaignState, i: int) -> MemberView {
    party_view(s.party@)[find_member(party_view(s.party@), s.active_party_ids@[i]@, 0)]
}

/// Every active id names a party member whose level can be counted, and
/// there is one loadout per active member.
pub open spec fn deployable(s: CampaignState, loadouts: Seq<MemberLoadout>) -> bool {
    &&& loadouts.len() == s.active_party_ids@.len()
    &&& forall|i: int| 0 <= i < loadouts.len() ==> {
        let k = #[trigger] find_member(party_view(s.party@), s.active_party_ids@[i]@, 0);
        &&& k >= 0
        &&& ((party_view(s.party@)[k].experience / 120) as u32) < u32::MAX
    }
}

impl CampaignState {
    /// Whether `loadouts` can be deployed from this campaign: one loadout
    /// per active member, and every active id names a party member whose
    /// level can be counted.
    pub fn can_deploy(&self, loadouts: &[MemberLoadout]) -> (r: bool)
        ensures
            r == deployable(*self, loadouts@),
    {
        if loadouts.len() != self.active_party_ids.len() {
            return false;
        }
        let mut i: usize = 0;
        while i < loadouts.len()
            invariant
                i <= loadouts@.len(),
                loadouts@.len() == self.active_party_ids@.len(),
                forall|j: int| 0 <= j < i ==> {
                    let k = #[trigger] find_member(party_view(self.party@), self.active_party_ids@[j]@, 0);
                    &&& k >= 0
                    &&& ((party_view(self.party@)[k].experience / 120) as u32) < u32::MAX
                },
            decreases loadouts@.len() - i,
        {
            match find_member_index(&self.party, self.active_party_ids[i].as_str()) {
                Some(k) => {
                    assert(party_view(self.party@)[k as int].experience == self.party@[k as int].experience);
                    let level_steps: u32 = (self.party[k].experience / 120) as u32;
                    if level_steps == u32::MAX {
                        return false;
                    }
                },
                None => {
                    return false;
                },
            }
            i = i + 1;
        }
        true
    }
}

/// The readiness the selected preparation yields.
pub open spec fn prepared_readiness(s: CampaignState, shortcut_allowed: bool) -> ExpeditionReadiness {
    let p = spec_prepare(s.selected_expedition_preparation, shortcut_allowed, s.expedition_supplies, s.credits)->Ok_0;
    ExpeditionReadiness {
        preparation: s.selected_expedition_preparation,
        stamina: p.0.stamina,
        rations: p.0.rations,
        water: p.0.water,
        starting_resources: p.2,
        travel_minutes: p.3,
    }
}

/// Unit `i` of the seed is built for active member `i` from its loadout:
/// the member's unit id, persistence, injuries and veteran rank; the
/// loadout's name, role, skills and equipment; the spawn slot `party_{i}`;
/// and the loadout's stats grown by the member's level and the campaign's
/// reputation, then shaped by the expedition's readiness.
pub open spec fn unit_built(s: CampaignState, loadouts: Seq<MemberLoadout>, shortcut_allowed: bool, u: BattleUnitSeedV1, i: int) -> bool {
    let m = active_member(s, i);
    let l = loadouts[i];
    &&& u.unit_id@ == s.active_party_ids@[i]@
    &&& u.persistent == m.persistent
    &&& u.injury_level == m.injury_level
    &&& u.veteran_rank == m.veteran_rank
    &&& u.display_name == l.display_name
    &&& u.role == l.role
    &&& u.skill_ids == l.skill_ids
    &&& u.equipment_ids == l.equipment_ids
    &&& u.spawn_slot@ == "party_"@ + decimal(i as nat)
    &&& u.stats == spec_expedition_readiness(spec_campaign_growth(l.base_stats, unit_level(s, m), s.reputation),
        prepared_readiness(s, shortcut_allowed))
}

/// `seed`, apart from its hash, is the seed the campaign `s` issues for a
/// deployment onto `map` with `loadouts` and the regional skill bonus
/// `bonus`: the current contract and rules, the next revision, the active
/// mission's map, battle id and objectives, the campaign's difficulty, the
/// field build cost of a Forge Master (800) or anyone else (1000), the
/// readiness the selected preparation yields, the campaign's own skirmish
/// setup switched on for a skirmish mission (the idle setup otherwise), and one unit per active member, in
/// active order, built as `unit_built` says.
pub open spec fn drafted_seed(
    s: CampaignState,
    map: BattleMapSeedV1,
    loadouts: Seq<MemberLoadout>,
    shortcut_allowed: bool,
    bonus: u16,
    seed: BattleSeedV1,
) -> bool {
    &&& seed.contract_version@ == BATTLE_SEED_CONTRACT@
    &&& seed.rules_version@ == FIRST_CONTACT_RULES_VERSION@
    &&& seed.campaign_revision == s.revision + 1
    &&& seed.map_id@ == s.active_mission.spec_map_id()
    &&& seed.battle_id@ == spec_battle_id(s.active_mission.spec_map_id(), seed.campaign_revision)
    &&& seed.map == map
    &&& seed.mission@ == spec_for_mission(s.active_mission, map@)
    &&& seed.difficulty == s.difficulty
    &&& seed.regional_skill_bonus_permille == bonus
    &&& seed.field_build_cost_permille == (if s.forge_master { 800u16 } else { 1000u16 })
    &&& seed.expedition_readiness == prepared_readiness(s, shortcut_allowed)
    &&& seed.skirmish == if spec_is_skirmish(s.active_mission) {
        SkirmishSetup { enabled: true, ..s.skirmish_setup }
    } else {
        idle_skirmish()
    }
    &&& seed.party@.len() == s.active_party_ids@.len()
    &&& forall|i: int| 0 <= i < seed.party@.len() ==> unit_built(s, loadouts, shortcut_allowed, #[trigger] seed.party@[i], i)
}

/// What a deployment did to the campaign `before`, giving `after`: the
/// preparation committed (supplies, credits and clock as `spec_prepare`
/// says), one more revision, the phase `BattlePending`, and the drafted
/// seed, sealed with the hash of its own canonical JSON and valid, held
/// unanswered as the pending battle; nothing else changed.
pub open spec fn deployed_as(
    before: CampaignState,
    after: CampaignState,
    map: BattleMapSeedV1,
    loadouts: Seq<MemberLoadout>,
    shortcut_allowed: bool,
    bonus: u16,
) -> bool {
    let seed = after.pending_battle->Some_0.seed;
    let prepared = spec_prepare(before.selected_expedition_preparation, shortcut_allowed,
        before.expedition_supplies, before.credits)->Ok_0;
    &&& deployment_refusal(before, map, shortcut_allowed) is None
    &&& drafted_seed(before, map, loadouts, shortcut_allowed, bonus, seed)
    &&& seed.seed_hash@ == sealing_hash(seed)
    &&& seed_failure(seed) is None
    &&& after.expedition_supplies == prepared.0
    &&& after.credits == prepared.1
    &&& after.world_clock == spec_advance(before.world_clock, prepared.3)
    &&& after.revision == before.revision + 1
    &&& after.phase == CampaignPhase::BattlePending
    &&& after.pending_battle is Some
    &&& after.pending_battle->Some_0.result is None
    &&& after == (CampaignState {
        expedition_supplies: after.expedition_supplies,
        credits: after.credits,
        world_clock: after.world_clock,
        revision: after.revision,
        phase: after.phase,
        pending_battle: after.pending_battle,
        ..before
    })
}

/// Every deployed unit is grown for the level its member fights at: the
/// hero at the campaign's level, a companion at one level per 120
/// experience above level 1 (a companion with 240 experience fights at
/// level 3), and then shaped by the expedition's readiness. The unit
/// carries its member's id and the loadout's equipment.
pub proof fn lemma_units_fight_at_their_members_level(
    before: CampaignState,
    after: CampaignState,
    map: BattleMapSeedV1,
    loadouts: Seq<MemberLoadout>,
    shortcut_allowed: bool,
    bonus: u16,
    i: int,
)
    requires
        deployable(before, loadouts),
        deployed_as(before, after, map, loadouts, shortcut_allowed, bonus),
        0 <= i < before.active_party_ids@.len(),
    ensures
        ({
            let member = party_view(before.party@)[find_member(party_view(before.party@), before.active_party_ids@[i]@, 0)];
            let unit = after.pending_battle->Some_0.seed.party@[i];
            let level: u32 = if before.active_party_ids@[i]@ == "hero"@ {
                before.progress.level
            } else {
                (1 + (member.experience / 120) as u32) as u32
            };
            &&& unit.unit_id@ == before.active_party_ids@[i]@
            &&& unit.equipment_ids == loadouts[i].equipment_ids
            &&& unit.stats == spec_expedition_readiness(spec_campaign_growth(loadouts[i].base_stats, level, before.reputation),
                prepared_readiness(before, shortcut_allowed))
        }),
{
    let seed = after.pending_battle->Some_0.seed;
    assert(unit_built(before, loadouts, shortcut_allowed, seed.party@[i], i));
    assert(find_member(party_view(before.party@), before.active_party_ids@[i]@, 0) >= 0);
    lemma_found_member(party_view(before.party@), before.active_party_ids@[i]@, 0);
}

/// A deployment from a consistent campaign leaves it consistent: the
/// committed preparation keeps credits, supplies and clock within their
/// bounds, and the pending battle is a valid, unanswered seed.
pub proof fn lemma_deployment_keeps_consistency(
    before: CampaignState,
    after: CampaignState,
    catalog: Seq<MarketCatalogItem>,
    map: BattleMapSeedV1,
    loadouts: Seq<MemberLoadout>,
    shortcut_allowed: bool,
    bonus: u16,
)
    requires
        before.consistent(catalog),
        deployed_as(before, after, map, loadouts, shortcut_allowed, bonus),
    ensures
        after.consistent(catalog),
{
}

proof fn lemma_found_member(party: Seq<MemberView>, id: Seq<char>, start: int)
    requires
        0 <= start,
    ensures
        find_member(party, id, start) >= 0 ==> find_member(party, id, start) < party.len()
            && party[find_member(party, id, start)].unit_id == id,
    decreases party.len() - start,
{
    if start < party.len() && party[start].unit_id != id {
        lemma_found_member(party, id, start + 1);
    }
}

impl CampaignState {
    fn build_unit(&self, index: usize, loadout: MemberLoadout, readiness: &ExpeditionReadiness, Ghost(all): Ghost<Seq<MemberLoadout>>, Ghost(shortcut_allowed): Ghost<bool>)
        -> (u: BattleUnitSeedV1)
        requires
            deployable(*self, all),
            index < all.len(),
            loadout == all[index as int],
            *readiness == prepared_readiness(*self, shortcut_allowed),
        ensures
            unit_built(*self, all, shortcut_allowed, u, index as int),
    {
        let id = self.active_party_ids[index].as_str();
        let found = find_member_index(&self.party, id);
        proof {
            assert(find_member(party_view(self.party@), self.active_party_ids@[index as int]@, 0) >= 0);
        }
        let k = found.unwrap();
        proof {
            lemma_found_member(party_view(self.party@), self.active_party_ids@[index as int]@, 0);
        }
        let member = &self.party[k];
        let level: u32 = if str_eq(member.unit_id.as_str(), "hero") {
            self.progress.level
        } else {
            1 + (member.experience / 120) as u32
        };
        let mut stats = loadout.base_stats;
        apply_campaign_growth(&mut stats, level, self.reputation);
        apply_expedition_readiness(&mut stats, readiness);
        BattleUnitSeedV1 {
            unit_id: member.unit_id.clone(),
            display_name: loadout.display_name,
            role: loadout.role,
            spawn_slot: spawn_slot(index),
            persistent: member.persistent,
            injury_level: member.injury_level,
            skill_ids: loadout.skill_ids,
            equipment_ids: loadout.equipment_ids,
            veteran_rank: member.veteran_rank,
            stats,
        }
    }

    fn draft_seed(
        &self,
        map: BattleMapSeedV1,
        loadouts: Vec<MemberLoadout>,
        shortcut_allowed: bool,
        regional_skill_bonus_permille: u16,
    ) -> (r: Result<BattleSeedV1, CampaignError>)
        requires
            self.revision < u64::MAX,
            deployable(*self, loadouts@),
        ensures
            deployment_refusal(*self, map, shortcut_allowed) matches Some(f) ==> (r matches Err(e) && e.is_failure(f)),
            deployment_refusal(*self, map, shortcut_allowed) is None ==> (r matches Ok(seed)
                && drafted_seed(*self, map, loadouts@, shortcut_allowed, regional_skill_bonus_permille, seed)),
    {
        require_room(self.phase, self.room, CampaignRoom::ExpeditionGate)?;
        if self.quest_state != QuestState::Accepted {
            return Err(CampaignError::InvalidState("accept the First Contact quest before deployment".to_owned()));
        }
        map.validate()?;
        let mut supplies = ExpeditionSupplyState {
            stamina: self.expedition_supplies.stamina,
            rations: self.expedition_supplies.rations,
            water: self.expedition_supplies.water,
        };
        let mut credits = self.credits;
        let mut clock = WorldClock { day: self.world_clock.day, minute_of_day: self.world_clock.minute_of_day };
        let readiness = commit_expedition_preparation(
            self.selected_expedition_preparation,
            shortcut_allowed,
            &mut supplies,
            &mut credits,
            &mut clock,
        )?;
        let next_revision = self.revision + 1;
        let map_id = self.active_mission.map_id();
        let ghost all = loadouts@;
        let mut party: Vec<BattleUnitSeedV1> = Vec::new();
        let mut loadouts = loadouts;
        let n = loadouts.len();
        let mut index: usize = 0;
        while index < n
            invariant
                n == all.len(),
                deployable(*self, all),
                readiness == prepared_readiness(*self, shortcut_allowed),
                loadouts@.len() == n - index,
                forall|j: int| 0 <= j < n - index ==> #[trigger] loadouts@[j] == all[j + index],
                party@.len() == index,
                forall|i: int| 0 <= i < index ==> unit_built(*self, all, shortcut_allowed, #[trigger] party@[i], i),
            decreases n - index,
        {
            let loadout = loadouts.remove(0);
            let unit = self.build_unit(index, loadout, &readiness, Ghost(all), Ghost(shortcut_allowed));
            party.push(unit);
            index = index + 1;
        }
        let mission = MissionDefinition::for_mission(self.active_mission, &map);
        let skirmish = if is_skirmish_mission(self.active_mission) {
            let mut setup = copy_setup(&self.skirmish_setup);
            setup.enabled = true;
            setup
        } else {
            SkirmishSetup::default()
        };
        Ok(BattleSeedV1 {
            contract_version: BATTLE_SEED_CONTRACT.to_owned(),
            battle_id: battle_id_for(map_id, next_revision),
            campaign_revision: next_revision,
            map_id: map_id.to_owned(),
            rules_version: FIRST_CONTACT_RULES_VERSION.to_owned(),
            map,
            party,
            mission,
            difficulty: self.difficulty,
            regional_skill_bonus_permille,
            field_build_cost_permille: if self.forge_master { 800 } else { 1000 },
            expedition_readiness: readiness,
            skirmish,
            seed_hash: String::new(),
        })
    }

    /// Deploys the active party onto `map` for the active mission. The
    /// campaign must be in town at the expedition gate with the quest
    /// accepted, the map valid, and the selected preparation affordable.
    /// `loadouts` holds, per active member in active order, what the RPG
    /// layer computed for it; the seed's units are built from the party and
    /// the loadouts (see `unit_built`). The seed is sealed with the hash of
    /// its own canonical JSON and must pass its own check. Then the
    /// preparation is committed, the revision rises by one, the phase
    /// becomes `BattlePending` and the seed is held as the pending battle
    /// (see `pending_seed`). Any refusal leaves the campaign unchanged.
    #[verifier::spinoff_prover]
    pub fn start_first_contact_battle(
        &mut self,
        map: BattleMapSeedV1,
        loadouts: Vec<MemberLoadout>,
        shortcut_allowed: bool,
        regional_skill_bonus_permille: u16,
    ) -> (r: Result<(), CampaignError>)
        requires
            old(self).revision < u64::MAX,
            deployable(*old(self), loadouts@),
        ensures
            r is Err ==> *final(self) == *old(self),
            deployment_refusal(*old(self), map, shortcut_allowed) matches Some(f) ==> (r matches Err(e) && e.is_failure(f)),
            r is Ok ==> deployed_as(*old(self), *final(self), map, loadouts@, shortcut_allowed, regional_skill_bonus_permille),
            deployment_refusal(*old(self), map, shortcut_allowed) is None && r is Err ==> (r matches Err(e) && exists|seed: BattleSeedV1|
                #[trigger] drafted_seed(*old(self), map, loadouts@, shortcut_allowed, regional_skill_bonus_permille, seed)
                && seed.seed_hash@ == sealing_hash(seed)
                && seed_failure(seed) is Some && e.is_failure(seed_failure(seed)->Some_0)),
    {
        let ghost all = loadouts@;
        let mut seed = self.draft_seed(map, loadouts, shortcut_allowed, regional_skill_bonus_permille)?;
        let ghost unsealed = seed;
        let payload = seed.payload_json();
        seed.seed_hash = canonical_json_hash(payload.as_slice());
        proof {
            lemma_json_seed_ignores_stored_hash(unsealed, seed.seed_hash, Seq::empty());
            assert(seed == (BattleSeedV1 { seed_hash: seed.seed_hash, ..unsealed }));
            reveal(sealing_hash);
        }
        if let Err(e) = seed.validate() {
            assert(drafted_seed(*old(self), map, all, shortcut_allowed, regional_skill_bonus_permille, seed));
            return Err(e);
        }
        let mut supplies = ExpeditionSupplyState {
            stamina: self.expedition_supplies.stamina,
            rations: self.expedition_supplies.rations,
            water: self.expedition_supplies.water,
        };
        let mut credits = self.credits;
        let mut clock = WorldClock { day: self.world_clock.day, minute_of_day: self.world_clock.minute_of_day };
        commit_expedition_preparation(
            self.selected_expedition_preparation,
            shortcut_allowed,
            &mut supplies,
            &mut credits,
            &mut clock,
        )?;
        self.expedition_supplies = supplies;
        self.credits = credits;
        self.world_clock = clock;
        self.revision = seed.campaign_revision;
        self.phase = CampaignPhase::BattlePending;
        self.pending_battle = Some(PendingBattleV1 { seed, result: None });
        Ok(())
    }

    /// The seed of the battle the campaign waits on, if any.
    pub fn pending_seed(&self) -> (r: Option<&BattleSeedV1>)
        ensures
            match self.pending_battle {
                Some(p) => r == Some(&p.seed),
                None => r is None,
            },
    {
        match &self.pending_battle {
            Some(p) => Some(&p.seed),
            None => None,
        }
    }
}

} // verus!
