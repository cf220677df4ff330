//! Decisions of the town commands: expedition preparation, mentor
//! training, waiting, healing, party selection, the guide and the mission
//! rotations of the expedition gate.

use vstd::prelude::*;
use crate::catalog::{CampaignGuideStep, CampaignPhase, CampaignMission, CampaignRoom, ExpeditionPreparation, QuestState};
use crate::clock::{
    decimal, msg_supplies_required, push_decimal, require_supplies, spec_advance, ExpeditionReadiness,
    ExpeditionSupplyState, WorldClock,
};
use crate::error::CampaignError;
use crate::loot::{consume_loot, drop_empty_stacks, find_consumable, find_consumable_from, keep_nonempty, spec_consume_loot, stacks_view, LootStack};
use crate::text::str_eq;
use crate::settlement::SkillProgress;

verus! {

pub open spec fn sat_sub_u8(a: u8, b: u8) -> u8 {
    if a < b { 0 } else { (a - b) as u8 }
}

pub open spec fn min_u8(a: int, b: int) -> u8 {
    (if a < b { a } else { b }) as u8
}

pub open spec fn msg_rest_cost() -> Seq<char> {
    "resting before departure costs 10 credits"@
}

pub open spec fn msg_stock_cost() -> Seq<char> {
    "stocking the expedition costs 25 credits"@
}

pub open spec fn msg_shortcut_locked() -> Seq<char> {
    "the shortcut requires Scout origin or Relay Runner title"@
}

pub open spec fn msg_not_in_town() -> Seq<char> {
    "town action is unavailable during battle handoff"@
}

/// Town actions are only available between battles.
pub fn require_town(phase: CampaignPhase) -> (r: Result<(), CampaignError>)
    ensures
        phase == CampaignPhase::Town ==> r is Ok,
        phase != CampaignPhase::Town ==> (r matches Err(e) && e.is_state(msg_not_in_town())),
{
    if phase == CampaignPhase::Town {
        Ok(())
    } else {
        Err(CampaignError::InvalidState("town action is unavailable during battle handoff".to_owned()))
    }
}

pub open spec fn msg_wrong_room(required: CampaignRoom, current: CampaignRoom) -> Seq<char> {
    "action requires "@ + required.spec_title() + ", current room is "@ + current.spec_title()
}

/// A room action is available in town, in its own room.
pub fn require_room(phase: CampaignPhase, current: CampaignRoom, required: CampaignRoom) -> (r: Result<(), CampaignError>)
    ensures
        phase != CampaignPhase::Town ==> (r matches Err(e) && e.is_state(msg_not_in_town())),
        phase == CampaignPhase::Town && current != required ==> (r matches Err(e) && e.is_state(msg_wrong_room(required, current))),
        phase == CampaignPhase::Town && current == required ==> r is Ok,
{
    require_town(phase)?;
    if current == required {
        Ok(())
    } else {
        let mut message = "action requires ".to_owned();
        message.append(required.title());
        message.append(", current room is ");
        message.append(current.title());
        Err(CampaignError::InvalidState(message))
    }
}

/// What committing to `preparation` costs and yields: the supplies and
/// credits afterwards, the starting resources of the battle and the travel
/// time, or why the party cannot leave that way.
/// - an immediate march needs a ration and two water and costs 20 stamina;
/// - resting costs 10 credits, a ration and a water and restores stamina;
/// - stocking up costs 25 credits and 5 stamina, adds three rations (at most
///   12) and four water (at most 16), and brings 50 starting resources;
/// - the shortcut needs the Scout origin or the Relay Runner title, a ration
///   and two water, costs 10 stamina and brings 20 starting resources.
pub open spec fn spec_prepare(
    preparation: ExpeditionPreparation,
    shortcut_allowed: bool,
    s: ExpeditionSupplyState,
    credits: i64,
) -> Result<(ExpeditionSupplyState, i64, u32, u32), Seq<char>> {
    match preparation {
        ExpeditionPreparation::Immediate => if s.rations < 1 || s.water < 2 {
            Err(msg_supplies_required(1, 2))
        } else {
            Ok((ExpeditionSupplyState { stamina: sat_sub_u8(s.stamina, 20), rations: (s.rations - 1) as u8, water: (s.water - 2) as u8 },
                credits, 0, 20))
        },
        ExpeditionPreparation::Rested => if credits < 10 {
            Err(msg_rest_cost())
        } else if s.rations < 1 || s.water < 1 {
            Err(msg_supplies_required(1, 1))
        } else {
            Ok((ExpeditionSupplyState { stamina: 100, rations: (s.rations - 1) as u8, water: (s.water - 1) as u8 },
                (credits - 10) as i64, 0, 180))
        },
        ExpeditionPreparation::Supplied => if credits < 25 {
            Err(msg_stock_cost())
        } else {
            Ok((ExpeditionSupplyState {
                stamina: sat_sub_u8(s.stamina, 5),
                rations: min_u8(s.rations + 3, 12),
                water: min_u8(s.water + 4, 16),
            }, (credits - 25) as i64, 50, 35))
        },
        ExpeditionPreparation::Shortcut => if !shortcut_allowed {
            Err(msg_shortcut_locked())
        } else if s.rations < 1 || s.water < 2 {
            Err(msg_supplies_required(1, 2))
        } else {
            Ok((ExpeditionSupplyState { stamina: sat_sub_u8(s.stamina, 10), rations: (s.rations - 1) as u8, water: (s.water - 2) as u8 },
                credits, 20, 10))
        },
    }
}

/// Commits the party to `preparation` before a deployment. On success the
/// supplies and credits are spent as `spec_prepare` says and the clock
/// advances by the travel time; on refusal nothing changes.
/// `shortcut_allowed` is whether the character is a Scout or holds the
/// Relay Runner title.
pub fn commit_expedition_preparation(
    preparation: ExpeditionPreparation,
    shortcut_allowed: bool,
    supplies: &mut ExpeditionSupplyState,
    credits: &mut i64,
    clock: &mut WorldClock,
) -> (r: Result<ExpeditionReadiness, CampaignError>)
    ensures
        match spec_prepare(preparation, shortcut_allowed, *old(supplies), *old(credits)) {
            Err(m) => (r matches Err(e) && e.is_state(m)) && *final(supplies) == *old(supplies)
                && *final(credits) == *old(credits) && *final(clock) == *old(clock),
            Ok((s, c, resources, travel)) => *final(supplies) == s && *final(credits) == c
                && *final(clock) == spec_advance(*old(clock), travel)
                && r == Ok::<ExpeditionReadiness, CampaignError>(ExpeditionReadiness {
                    preparation,
                    stamina: s.stamina,
                    rations: s.rations,
                    water: s.water,
                    starting_resources: resources,
                    travel_minutes: travel,
                }),
        },
{
    let mut starting_resources: u32 = 0;
    let travel_minutes: u32 = match preparation {
        ExpeditionPreparation::Immediate => {
            require_supplies(supplies, 1, 2)?;
            supplies.stamina = supplies.stamina.saturating_sub(20);
            supplies.rations = supplies.rations - 1;
            supplies.water = supplies.water - 2;
            20
        },
        ExpeditionPreparation::Rested => {
            if *credits < 10 {
                return Err(CampaignError::InvalidState("resting before departure costs 10 credits".to_owned()));
            }
            require_supplies(supplies, 1, 1)?;
            *credits = *credits - 10;
            supplies.stamina = 100;
            supplies.rations = supplies.rations - 1;
            supplies.water = supplies.water - 1;
            180
        },
        ExpeditionPreparation::Supplied => {
            if *credits < 25 {
                return Err(CampaignError::InvalidState("stocking the expedition costs 25 credits".to_owned()));
            }
            *credits = *credits - 25;
            let rations = supplies.rations.saturating_add(3);
            supplies.rations = if rations > 12 { 12 } else { rations };
            let water = supplies.water.saturating_add(4);
            supplies.water = if water > 16 { 16 } else { water };
            supplies.stamina = supplies.stamina.saturating_sub(5);
            starting_resources = 50;
            35
        },
        ExpeditionPreparation::Shortcut => {
            if !shortcut_allowed {
                return Err(CampaignError::InvalidState("the shortcut requires Scout origin or Relay Runner title".to_owned()));
            }
            require_supplies(supplies, 1, 2)?;
            supplies.stamina = supplies.stamina.saturating_sub(10);
            supplies.rations = supplies.rations - 1;
            supplies.water = supplies.water - 2;
            starting_resources = 20;
            10
        },
    };
    clock.advance(travel_minutes);
    Ok(ExpeditionReadiness {
        preparation,
        stamina: supplies.stamina,
        rations: supplies.rations,
        water: supplies.water,
        starting_resources,
        travel_minutes,
    })
}

/// The most training sessions the mentor gives.
pub const MENTOR_TRAINING_SESSION_CAP: u8 = 2;

/// The price of the mentor's training session number `session` (from 0):
/// 50 credits, and 40 more for each session already taken.
pub open spec fn spec_training_cost(session: u8) -> int {
    50 + 40 * session
}

pub open spec fn msg_meet_mentor_first() -> Seq<char> {
    "talk to the mentor before training"@
}

pub open spec fn msg_training_cap() -> Seq<char> {
    "mentor training cap reached; commit to the skills already learned"@
}

pub open spec fn msg_training_cost(cost: int) -> Seq<char> {
    "mentor training costs "@ + decimal(cost as nat) + " credits"@
}

/// The price of the next mentor training session, or why there is none: the
/// mentor must have been met, fewer than two sessions taken, and the price
/// affordable.
pub fn plan_mentor_training(mentor_met: bool, sessions: u8, credits: i64) -> (r: Result<i64, CampaignError>)
    ensures
        !mentor_met ==> (r matches Err(e) && e.is_state(msg_meet_mentor_first())),
        mentor_met && sessions >= MENTOR_TRAINING_SESSION_CAP ==> (r matches Err(e) && e.is_state(msg_training_cap())),
        mentor_met && sessions < MENTOR_TRAINING_SESSION_CAP && credits < spec_training_cost(sessions)
            ==> (r matches Err(e) && e.is_state(msg_training_cost(spec_training_cost(sessions)))),
        mentor_met && sessions < MENTOR_TRAINING_SESSION_CAP && credits >= spec_training_cost(sessions)
            ==> r == Ok::<i64, CampaignError>(spec_training_cost(sessions) as i64),
{
    if !mentor_met {
        return Err(CampaignError::InvalidState("talk to the mentor before training".to_owned()));
    }
    if sessions >= MENTOR_TRAINING_SESSION_CAP {
        return Err(CampaignError::InvalidState("mentor training cap reached; commit to the skills already learned".to_owned()));
    }
    let cost: i64 = 50 + 40 * (sessions as i64);
    if credits < cost {
        let mut message = "mentor training costs ".to_owned();
        push_decimal(&mut message, cost as u64);
        message.append(" credits");
        assert(message@ =~= msg_training_cost(spec_training_cost(sessions)));
        return Err(CampaignError::InvalidState(message));
    }
    Ok(cost)
}

/// A training session adds 125 experience to the trained skill, whose rank
/// becomes one plus a rank per 250 experience (kept in 16 bits).
pub fn train_skill(progress: &mut SkillProgress)
    requires
        old(progress).experience + 125 <= u64::MAX,
    ensures
        final(progress).experience == old(progress).experience + 125,
        final(progress).rank == (1 + final(progress).experience / 250) as u16,
{
    progress.experience = progress.experience + 125;
    progress.rank = (1 + progress.experience / 250) as u16;
}

pub open spec fn msg_wait_range() -> Seq<char> {
    "town waiting must be between 30 minutes and 6 hours"@
}

/// The party's stamina after waiting `minutes` in town: waiting is allowed
/// for 30 minutes to 6 hours and restores a point of stamina per half hour,
/// up to 100.
pub fn stamina_after_waiting(minutes: u32, stamina: u8) -> (r: Result<u8, CampaignError>)
    ensures
        !(30 <= minutes <= 360) ==> (r matches Err(e) && e.is_state(msg_wait_range())),
        30 <= minutes <= 360 ==> r == Ok::<u8, CampaignError>(min_u8(stamina + minutes / 30, 100)),
{
    if minutes < 30 || minutes > 360 {
        return Err(CampaignError::InvalidState("town waiting must be between 30 minutes and 6 hours".to_owned()));
    }
    let restored = stamina.saturating_add((minutes / 30) as u8);
    Ok(if restored > 100 { 100 } else { restored })
}

/// How injured a party member is and whether they may deploy.
#[derive(Debug, Clone, Copy, PartialEq, Eq, Hash, Structural)]
pub struct InjuryState {
    pub injury_level: u8,
    pub available: bool,
}

/// A member after treatment: one injury level healed, and fit to deploy
/// again once below level 4.
pub open spec fn spec_treat(m: InjuryState) -> InjuryState {
    let level = sat_sub_u8(m.injury_level, 1);
    InjuryState { injury_level: level, available: if level < 4 { true } else { m.available } }
}

/// The item that treats the party for free.
pub const FIELD_TONIC_ITEM_ID: &'static str = "field-tonic-kit";

/// The field clinic's fee: 40 credits, 15 less for a Forge Master.
pub open spec fn spec_clinic_cost(forge_master: bool) -> int {
    if forge_master { 25 } else { 40 }
}

pub open spec fn msg_no_injuries() -> Seq<char> {
    "the active roster has no injuries to treat"@
}

pub open spec fn msg_clinic_cost(cost: int) -> Seq<char> {
    "field clinic costs "@ + decimal(cost as nat) + " credits"@
}

/// Treats the whole party once: a field tonic kit is used if the inventory
/// holds one, otherwise the clinic is paid. A party without injuries, or an
/// unaffordable clinic, is refused and nothing changes.
pub fn heal_party(
    party: &mut Vec<InjuryState>,
    inventory: &mut Vec<LootStack>,
    credits: &mut i64,
    forge_master: bool,
) -> (r: Result<(), CampaignError>)
    ensures
        ({
            let inv = stacks_view(old(inventory)@);
            let tonic = find_consumable_from(inv, FIELD_TONIC_ITEM_ID@, 1, 0) >= 0;
            let cost = spec_clinic_cost(forge_master);
            if !(exists|i: int| 0 <= i < old(party)@.len() && #[trigger] old(party)@[i].injury_level > 0) {
                &&& r matches Err(e) && e.is_state(msg_no_injuries())
                &&& final(party)@ == old(party)@ && final(inventory)@ == old(inventory)@ && *final(credits) == *old(credits)
            } else if !tonic && *old(credits) < cost {
                &&& r matches Err(e) && e.is_state(msg_clinic_cost(cost))
                &&& final(party)@ == old(party)@ && final(inventory)@ == old(inventory)@ && *final(credits) == *old(credits)
            } else {
                &&& r is Ok
                &&& final(party)@ == old(party)@.map_values(|m: InjuryState| spec_treat(m))
                &&& stacks_view(final(inventory)@) == (if tonic {
                    spec_consume_loot(inv, FIELD_TONIC_ITEM_ID@, 1)->Some_0
                } else {
                    keep_nonempty(inv)
                })
                &&& *final(credits) == (if tonic { *old(credits) } else { (*old(credits) - cost) as i64 })
            }
        }),
{
    let mut injured = false;
    let mut i: usize = 0;
    while i < party.len()
        invariant
            i <= party@.len(),
            injured <==> exists|j: int| 0 <= j < i && #[trigger] party@[j].injury_level > 0,
        decreases party@.len() - i,
    {
        if party[i].injury_level > 0 {
            injured = true;
        }
        i = i + 1;
    }
    if !injured {
        return Err(CampaignError::InvalidState("the active roster has no injuries to treat".to_owned()));
    }
    let tonic = find_consumable(inventory, FIELD_TONIC_ITEM_ID, 1).is_some();
    let cost: i64 = if forge_master { 25 } else { 40 };
    if !tonic && *credits < cost {
        let mut message = "field clinic costs ".to_owned();
        push_decimal(&mut message, cost as u64);
        message.append(" credits");
        assert(message@ =~= msg_clinic_cost(spec_clinic_cost(forge_master)));
        return Err(CampaignError::InvalidState(message));
    }
    if tonic {
        let _ = consume_loot(inventory, FIELD_TONIC_ITEM_ID, 1);
    } else {
        drop_empty_stacks(inventory);
        *credits = *credits - cost;
    }
    let ghost before = party@;
    let mut k: usize = 0;
    while k < party.len()
        invariant
            party@.len() == before.len(),
            k <= before.len(),
            forall|j: int| 0 <= j < k ==> party@[j] == spec_treat(before[j]),
            forall|j: int| k <= j < before.len() ==> party@[j] == before[j],
        decreases before.len() - k,
    {
        let m = party[k];
        let level = m.injury_level.saturating_sub(1);
        let treated = InjuryState { injury_level: level, available: if level < 4 { true } else { m.available } };
        party.set(k, treated);
        k = k + 1;
    }
    assert(party@ =~= before.map_values(|m: InjuryState| spec_treat(m)));
    Ok(())
}

pub open spec fn msg_party_shape() -> Seq<char> {
    "party must contain the hero plus exactly three companions"@
}

pub open spec fn msg_party_members() -> Seq<char> {
    "selected party contains duplicates or unavailable members"@
}

/// Whether the ids of `ids` are pairwise different.
pub open spec fn ids_distinct(ids: Seq<String>) -> bool {
    forall|i: int, j: int| 0 <= i < j < ids.len() ==> #[trigger] ids[i]@ != #[trigger] ids[j]@
}

/// Whether `id` is one of `ids`.
pub open spec fn ids_contain(ids: Seq<String>, id: Seq<char>) -> bool {
    exists|k: int| 0 <= k < ids.len() && #[trigger] ids[k]@ == id
}

fn contains_id(ids: &[String], id: &str) -> (r: bool)
    ensures
        r == ids_contain(ids@, id@),
{
    let mut k: usize = 0;
    while k < ids.len()
        invariant
            k <= ids@.len(),
            forall|j: int| 0 <= j < k ==> ids@[j]@ != id@,
        decreases ids@.len() - k,
    {
        if str_eq(ids[k].as_str(), id) {
            return true;
        }
        k = k + 1;
    }
    false
}

/// Checks a deployment party: the hero first and exactly three companions,
/// no one twice and everyone available.
pub fn check_party_selection(party_ids: &[String], available_ids: &[String]) -> (r: Result<(), CampaignError>)
    ensures
        party_ids@.len() != 4 || party_ids@[0]@ != "hero"@ ==> (r matches Err(e) && e.is_state(msg_party_shape())),
        party_ids@.len() == 4 && party_ids@[0]@ == "hero"@ && !(ids_distinct(party_ids@)
            && forall|i: int| 0 <= i < 4 ==> ids_contain(available_ids@, #[trigger] party_ids@[i]@))
            ==> (r matches Err(e) && e.is_state(msg_party_members())),
        party_ids@.len() == 4 && party_ids@[0]@ == "hero"@ && ids_distinct(party_ids@)
            && (forall|i: int| 0 <= i < 4 ==> ids_contain(available_ids@, #[trigger] party_ids@[i]@)) ==> r is Ok,
{
    proof {
        reveal_strlit("hero");
    }
    if party_ids.len() != 4 || !str_eq(party_ids[0].as_str(), "hero") {
        return Err(CampaignError::InvalidState("party must contain the hero plus exactly three companions".to_owned()));
    }
    let mut i: usize = 0;
    while i < 4
        invariant
            party_ids@.len() == 4,
            party_ids@[0]@ == "hero"@,
            i <= 4,
            forall|a: int, b: int| 0 <= a < b < i ==> #[trigger] party_ids@[a]@ != #[trigger] party_ids@[b]@,
            forall|a: int| 0 <= a < i ==> ids_contain(available_ids@, #[trigger] party_ids@[a]@),
        decreases 4 - i,
    {
        if !contains_id(available_ids, party_ids[i].as_str()) {
            return Err(CampaignError::InvalidState("selected party contains duplicates or unavailable members".to_owned()));
        }
        let mut j: usize = 0;
        while j < i
            invariant
                party_ids@.len() == 4,
                party_ids@[0]@ == "hero"@,
                j <= i < 4,
                forall|a: int| 0 <= a < j ==> party_ids@[a]@ != party_ids@[i as int]@,
            decreases i - j,
        {
            if str_eq(party_ids[j].as_str(), party_ids[i].as_str()) {
                return Err(CampaignError::InvalidState("selected party contains duplicates or unavailable members".to_owned()));
            }
            j = j + 1;
        }
        i = i + 1;
    }
    Ok(())
}

/// The guide's order: meeting the mentor, training, equipping a weapon and
/// reaching the expedition gate come first, each pointed to exactly while
/// it is the first one missing. Once all four are done, an accepted
/// mission is always to be deployed, whether or not Mirror Siege is
/// secured; the journal is pointed to only when no mission is accepted and
/// Mirror Siege is secured; otherwise the next mission is to be accepted.
pub proof fn lemma_guide_step_order(
    mentor_met: bool,
    trained_with_mentor: bool,
    weapon_equipped: bool,
    room: CampaignRoom,
    quest_state: QuestState,
    mirror_siege_secured: bool,
)
    ensures
        ({
            let step = spec_guide_step(mentor_met, trained_with_mentor, weapon_equipped, room, quest_state, mirror_siege_secured);
            let ready = mentor_met && trained_with_mentor && weapon_equipped && room == CampaignRoom::ExpeditionGate;
            &&& (step == CampaignGuideStep::MeetMentor) == !mentor_met
            &&& (step == CampaignGuideStep::TrainWithMentor) == (mentor_met && !trained_with_mentor)
            &&& (step == CampaignGuideStep::EquipWeapon) == (mentor_met && trained_with_mentor && !weapon_equipped)
            &&& (step == CampaignGuideStep::ReachExpeditionGate) == (mentor_met && trained_with_mentor && weapon_equipped
                && room != CampaignRoom::ExpeditionGate)
            &&& (step == CampaignGuideStep::DeployMission) == (ready && quest_state == QuestState::Accepted)
            &&& (step == CampaignGuideStep::ReadJournal) == (ready && quest_state != QuestState::Accepted && mirror_siege_secured)
            &&& (step == CampaignGuideStep::AcceptMission) == (ready && quest_state != QuestState::Accepted && !mirror_siege_secured)
            &&& (quest_state == QuestState::Accepted || !ready) ==> step == spec_guide_step(mentor_met, trained_with_mentor,
                weapon_equipped, room, quest_state, !mirror_siege_secured)
        }),
{
}

/// The next step the campaign guide points the player to.
pub open spec fn spec_guide_step(
    mentor_met: bool,
    trained_with_mentor: bool,
    weapon_equipped: bool,
    room: CampaignRoom,
    quest_state: QuestState,
    mirror_siege_secured: bool,
) -> CampaignGuideStep {
    if !mentor_met {
        CampaignGuideStep::MeetMentor
    } else if !trained_with_mentor {
        CampaignGuideStep::TrainWithMentor
    } else if !weapon_equipped {
        CampaignGuideStep::EquipWeapon
    } else if room != CampaignRoom::ExpeditionGate {
        CampaignGuideStep::ReachExpeditionGate
    } else if quest_state == QuestState::Accepted {
        CampaignGuideStep::DeployMission
    } else if mirror_siege_secured {
        CampaignGuideStep::ReadJournal
    } else {
        CampaignGuideStep::AcceptMission
    }
}

/// Meet the mentor, train, equip a weapon, walk to the expedition gate,
/// then deploy an accepted mission, read the journal once Mirror Siege is
/// secured, or accept the next mission.
pub fn current_guide_step(
    mentor_met: bool,
    trained_with_mentor: bool,
    weapon_equipped: bool,
    room: CampaignRoom,
    quest_state: QuestState,
    mirror_siege_secured: bool,
) -> (r: CampaignGuideStep)
    ensures
        r == spec_guide_step(mentor_met, trained_with_mentor, weapon_equipped, room, quest_state, mirror_siege_secured),
        (r == CampaignGuideStep::DeployMission) == (mentor_met && trained_with_mentor && weapon_equipped
            && room == CampaignRoom::ExpeditionGate && quest_state == QuestState::Accepted),
        r == CampaignGuideStep::ReadJournal ==> mirror_siege_secured && quest_state != QuestState::Accepted,
{
    if !mentor_met {
        CampaignGuideStep::MeetMentor
    } else if !trained_with_mentor {
        CampaignGuideStep::TrainWithMentor
    } else if !weapon_equipped {
        CampaignGuideStep::EquipWeapon
    } else if room != CampaignRoom::ExpeditionGate {
        CampaignGuideStep::ReachExpeditionGate
    } else if quest_state == QuestState::Accepted {
        CampaignGuideStep::DeployMission
    } else if mirror_siege_secured {
        CampaignGuideStep::ReadJournal
    } else {
        CampaignGuideStep::AcceptMission
    }
}

/// The six skirmish battlefields.
pub open spec fn spec_is_skirmish(m: CampaignMission) -> bool {
    m == CampaignMission::IronDeltaSkirmish || m == CampaignMission::NightWatchCrossingSkirmish
        || m == CampaignMission::GlassBasinSkirmish || m == CampaignMission::EmberOrchardSkirmish
        || m == CampaignMission::SaltMarshSkirmish || m == CampaignMission::CinderCrownSkirmish
}

pub fn is_skirmish_mission(m: CampaignMission) -> (r: bool)
    ensures
        r == spec_is_skirmish(m),
{
    match m {
        CampaignMission::IronDeltaSkirmish | CampaignMission::NightWatchCrossingSkirmish
        | CampaignMission::GlassBasinSkirmish | CampaignMission::EmberOrchardSkirmish
        | CampaignMission::SaltMarshSkirmish | CampaignMission::CinderCrownSkirmish => true,
        _ => false,
    }
}

/// The skirmish after `m` in the standalone rotation; anything that is not
/// a later skirmish goes back to Iron Delta.
pub open spec fn spec_next_skirmish(m: CampaignMission) -> CampaignMission {
    match m {
        CampaignMission::IronDeltaSkirmish => CampaignMission::NightWatchCrossingSkirmish,
        CampaignMission::NightWatchCrossingSkirmish => CampaignMission::GlassBasinSkirmish,
        CampaignMission::GlassBasinSkirmish => CampaignMission::EmberOrchardSkirmish,
        CampaignMission::EmberOrchardSkirmish => CampaignMission::SaltMarshSkirmish,
        CampaignMission::SaltMarshSkirmish => CampaignMission::CinderCrownSkirmish,
        _ => CampaignMission::IronDeltaSkirmish,
    }
}

/// The endgame rotation of missions that opens when Mirror Siege is won:
/// Aftershock Patrol, the six skirmishes in order, and back to the patrol.
pub open spec fn spec_next_endgame(m: CampaignMission) -> CampaignMission {
    match m {
        CampaignMission::AftershockPatrol => CampaignMission::IronDeltaSkirmish,
        CampaignMission::IronDeltaSkirmish => CampaignMission::NightWatchCrossingSkirmish,
        CampaignMission::NightWatchCrossingSkirmish => CampaignMission::GlassBasinSkirmish,
        CampaignMission::GlassBasinSkirmish => CampaignMission::EmberOrchardSkirmish,
        CampaignMission::EmberOrchardSkirmish => CampaignMission::SaltMarshSkirmish,
        CampaignMission::SaltMarshSkirmish => CampaignMission::CinderCrownSkirmish,
        _ => CampaignMission::AftershockPatrol,
    }
}

pub open spec fn msg_siege_first() -> Seq<char> {
    "secure Mirror Siege before opening skirmish operations"@
}

pub open spec fn msg_skirmish_inactive() -> Seq<char> {
    "standalone skirmish setup is not active"@
}

/// The next endgame operation, and whether it is a skirmish; refused until
/// Mirror Siege is secured.
pub fn cycle_endgame_mission(current: CampaignMission, mirror_siege_secured: bool) -> (r: Result<(CampaignMission, bool), CampaignError>)
    ensures
        !mirror_siege_secured ==> (r matches Err(e) && e.is_state(msg_siege_first())),
        mirror_siege_secured ==> r == Ok::<(CampaignMission, bool), CampaignError>(
            (spec_next_endgame(current), spec_is_skirmish(spec_next_endgame(current)))),
{
    if !mirror_siege_secured {
        return Err(CampaignError::InvalidState("secure Mirror Siege before opening skirmish operations".to_owned()));
    }
    let next = match current {
        CampaignMission::AftershockPatrol => CampaignMission::IronDeltaSkirmish,
        CampaignMission::IronDeltaSkirmish => CampaignMission::NightWatchCrossingSkirmish,
        CampaignMission::NightWatchCrossingSkirmish => CampaignMission::GlassBasinSkirmish,
        CampaignMission::GlassBasinSkirmish => CampaignMission::EmberOrchardSkirmish,
        CampaignMission::EmberOrchardSkirmish => CampaignMission::SaltMarshSkirmish,
        CampaignMission::SaltMarshSkirmish => CampaignMission::CinderCrownSkirmish,
        _ => CampaignMission::AftershockPatrol,
    };
    Ok((next, is_skirmish_mission(next)))
}

/// The next standalone skirmish map; refused unless standalone skirmish
/// setup is enabled and was opened from the town.
pub fn cycle_standalone_skirmish_map(current: CampaignMission, setup_enabled: bool, standalone_accessed: bool) -> (r: Result<CampaignMission, CampaignError>)
    ensures
        !(setup_enabled && standalone_accessed) ==> (r matches Err(e) && e.is_state(msg_skirmish_inactive())),
        setup_enabled && standalone_accessed ==> r == Ok::<CampaignMission, CampaignError>(spec_next_skirmish(current)),
{
    if !setup_enabled || !standalone_accessed {
        return Err(CampaignError::InvalidState("standalone skirmish setup is not active".to_owned()));
    }
    Ok(match current {
        CampaignMission::IronDeltaSkirmish => CampaignMission::NightWatchCrossingSkirmish,
        CampaignMission::NightWatchCrossingSkirmish => CampaignMission::GlassBasinSkirmish,
        CampaignMission::GlassBasinSkirmish => CampaignMission::EmberOrchardSkirmish,
        CampaignMission::EmberOrchardSkirmish => CampaignMission::SaltMarshSkirmish,
        CampaignMission::SaltMarshSkirmish => CampaignMission::CinderCrownSkirmish,
        _ => CampaignMission::IronDeltaSkirmish,
    })
}

/// The standalone rotation never leaves the skirmishes and visits all six
/// before coming back; the endgame rotation lands on the aftershock patrol
/// or a skirmish and comes back to where it started after seven steps.
pub proof fn lemma_mission_rotations_cycle(m: CampaignMission)
    ensures
        spec_is_skirmish(spec_next_skirmish(m)),
        spec_is_skirmish(m) ==> spec_next_skirmish(spec_next_skirmish(spec_next_skirmish(
            spec_next_skirmish(spec_next_skirmish(spec_next_skirmish(m)))))) == m,
        spec_is_skirmish(m) ==> spec_next_skirmish(m) != m,
        spec_next_endgame(m) == CampaignMission::AftershockPatrol || spec_is_skirmish(spec_next_endgame(m)),
        (spec_is_skirmish(m) || m == CampaignMission::AftershockPatrol) ==> spec_next_endgame(spec_next_endgame(
            spec_next_endgame(spec_next_endgame(spec_next_endgame(spec_next_endgame(spec_next_endgame(m))))))) == m,
{
}

pub open spec fn msg_prepare_first() -> Seq<char> {
    "mentor dialogue and training are required before deployment"@
}

pub open spec fn msg_weapon_first() -> Seq<char> {
    "equip a weapon before deployment"@
}

pub open spec fn msg_no_mission() -> Seq<char> {
    "no campaign mission is currently available"@
}

/// The mission accepted at the expedition gate. After a won mission the
/// campaign moves on to the first of Aftershock Patrol, Convoy Exodus and
/// Mirror Siege still open, and afterwards keeps a chosen skirmish or
/// returns to the patrol; an available quest is First Contact; a failed or
/// withdrawn one is retried as it was.
pub open spec fn spec_accepted_mission(
    quest_state: QuestState,
    active_mission: CampaignMission,
    first_contact_secured: bool,
    aftershock_completions: u32,
    convoy_exodus_secured: bool,
    mirror_siege_secured: bool,
) -> Option<CampaignMission> {
    if quest_state == QuestState::Completed && first_contact_secured {
        Some(if aftershock_completions == 0 {
            CampaignMission::AftershockPatrol
        } else if !convoy_exodus_secured {
            CampaignMission::ConvoyExodus
        } else if !mirror_siege_secured {
            CampaignMission::MirrorSiege
        } else if spec_is_skirmish(active_mission) {
            active_mission
        } else {
            CampaignMission::AftershockPatrol
        })
    } else if quest_state == QuestState::Available {
        Some(CampaignMission::FirstContact)
    } else if quest_state == QuestState::Failed || quest_state == QuestState::Withdrawn {
        Some(active_mission)
    } else {
        None
    }
}

/// Accepts the next campaign mission: the mentor must have been met and
/// trained with and a weapon equipped; answers the mission now active
/// (the quest becomes accepted).
pub fn accept_campaign_mission(
    mentor_met: bool,
    trained_with_mentor: bool,
    weapon_equipped: bool,
    quest_state: QuestState,
    active_mission: CampaignMission,
    first_contact_secured: bool,
    aftershock_completions: u32,
    convoy_exodus_secured: bool,
    mirror_siege_secured: bool,
) -> (r: Result<CampaignMission, CampaignError>)
    ensures
        !(mentor_met && trained_with_mentor) ==> (r matches Err(e) && e.is_state(msg_prepare_first())),
        mentor_met && trained_with_mentor && !weapon_equipped ==> (r matches Err(e) && e.is_state(msg_weapon_first())),
        mentor_met && trained_with_mentor && weapon_equipped ==> match spec_accepted_mission(quest_state, active_mission,
            first_contact_secured, aftershock_completions, convoy_exodus_secured, mirror_siege_secured) {
            Some(m) => r == Ok::<CampaignMission, CampaignError>(m),
            None => r matches Err(e) && e.is_state(msg_no_mission()),
        },
{
    if !mentor_met || !trained_with_mentor {
        return Err(CampaignError::InvalidState("mentor dialogue and training are required before deployment".to_owned()));
    }
    if !weapon_equipped {
        return Err(CampaignError::InvalidState("equip a weapon before deployment".to_owned()));
    }
    if quest_state == QuestState::Completed && first_contact_secured {
        Ok(if aftershock_completions == 0 {
            CampaignMission::AftershockPatrol
        } else if !convoy_exodus_secured {
            CampaignMission::ConvoyExodus
        } else if !mirror_siege_secured {
            CampaignMission::MirrorSiege
        } else if is_skirmish_mission(active_mission) {
            active_mission
        } else {
            CampaignMission::AftershockPatrol
        })
    } else if quest_state == QuestState::Available {
        Ok(CampaignMission::FirstContact)
    } else if quest_state == QuestState::Failed || quest_state == QuestState::Withdrawn {
        Ok(active_mission)
    } else {
        Err(CampaignError::InvalidState("no campaign mission is currently available".to_owned()))
    }
}

/// Which mission the expedition gate offers: First Contact while its quest
/// is available; after a won mission, the first of Aftershock Patrol, Convoy
/// Exodus and Mirror Siege still open, then a chosen skirmish is kept and
/// anything else returns to the patrol; a failed or withdrawn mission is
/// retried as it was; and a locked or already accepted quest offers none.
pub proof fn lemma_accepted_mission_order(
    quest_state: QuestState,
    active_mission: CampaignMission,
    first_contact_secured: bool,
    aftershock_completions: u32,
    convoy_exodus_secured: bool,
    mirror_siege_secured: bool,
)
    ensures
        ({
            let r = spec_accepted_mission(quest_state, active_mission, first_contact_secured, aftershock_completions,
                convoy_exodus_secured, mirror_siege_secured);
            let won = quest_state == QuestState::Completed && first_contact_secured;
            &&& (r is None) == (!won && (quest_state == QuestState::Locked || quest_state == QuestState::Accepted
                || quest_state == QuestState::Completed))
            &&& quest_state == QuestState::Available ==> r == Some(CampaignMission::FirstContact)
            &&& (quest_state == QuestState::Failed || quest_state == QuestState::Withdrawn) ==> r == Some(active_mission)
            &&& won && aftershock_completions == 0 ==> r == Some(CampaignMission::AftershockPatrol)
            &&& won && aftershock_completions > 0 && !convoy_exodus_secured ==> r == Some(CampaignMission::ConvoyExodus)
            &&& won && aftershock_completions > 0 && convoy_exodus_secured && !mirror_siege_secured
                ==> r == Some(CampaignMission::MirrorSiege)
            &&& won && aftershock_completions > 0 && convoy_exodus_secured && mirror_siege_secured
                ==> r == Some(if spec_is_skirmish(active_mission) { active_mission } else { CampaignMission::AftershockPatrol })
        }),
{
}

/// The mentor's first session costs 50 credits and each further one 40
/// more; the clinic costs 40 credits, 15 less for a Forge Master.
pub proof fn lemma_town_prices(session: u8)
    ensures
        spec_training_cost(0) == 50,
        session < 255 ==> spec_training_cost((session + 1) as u8) == spec_training_cost(session) + 40,
        spec_clinic_cost(false) == 40,
        spec_clinic_cost(true) == spec_clinic_cost(false) - 15,
{
}

} // verus!
