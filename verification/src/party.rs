//! What a settled battle does to the party: experience, veteran rank,
//! kills, injuries and availability of each reported unit, and the cost of
//! a defeat in which nobody was wounded.

use vstd::prelude::*;
use crate::settlement::{level_for_experience, spec_level_for, SkillProgress, injured_units, spec_injury_delta, BattleOutcome, UnitBattleReportV1, UnitBattleStatus};
use crate::text::str_eq;

verus! {

/// The battle-relevant state of one party member.
#[derive(Debug, Clone, PartialEq, Eq)]
pub struct PartyBattleState {
    pub unit_id: String,
    pub persistent: bool,
    pub available: bool,
    pub experience: u64,
    pub veteran_rank: u8,
    pub confirmed_kills: u32,
    pub injury_level: u8,
}

pub struct MemberView {
    pub unit_id: Seq<char>,
    pub persistent: bool,
    pub available: bool,
    pub experience: u64,
    pub veteran_rank: u8,
    pub confirmed_kills: u32,
    pub injury_level: u8,
}

impl View for PartyBattleState {
    type V = MemberView;

    open spec fn view(&self) -> MemberView {
        MemberView {
            unit_id: self.unit_id@,
            persistent: self.persistent,
            available: self.available,
            experience: self.experience,
            veteran_rank: self.veteran_rank,
            confirmed_kills: self.confirmed_kills,
            injury_level: self.injury_level,
        }
    }
}

pub open spec fn party_view(party: Seq<PartyBattleState>) -> Seq<MemberView> {
    party.map_values(|m: PartyBattleState| m@)
}

/// The most injury levels a member carries.
pub const MAX_INJURY_LEVEL: u8 = 4;

pub open spec fn min_u8(a: int, b: int) -> u8 {
    (if a < b { a } else { b }) as u8
}

pub open spec fn sat_add_u64(a: u64, b: u64) -> u64 {
    if a + b > u64::MAX { u64::MAX } else { (a + b) as u64 }
}

pub open spec fn sat_add_u32(a: u32, b: u32) -> u32 {
    if a + b > u32::MAX { u32::MAX } else { (a + b) as u32 }
}

/// A member after its battle report: experience and kills added (both
/// saturating), the better veteran rank kept, the injury added up to level
/// 4, and a lost member who is not persistent no longer available.
pub open spec fn spec_after_report(m: MemberView, report: UnitBattleReportV1) -> MemberView {
    MemberView {
        experience: sat_add_u64(m.experience, report.experience_gained),
        veteran_rank: if m.veteran_rank < report.veteran_rank { report.veteran_rank } else { m.veteran_rank },
        confirmed_kills: sat_add_u32(m.confirmed_kills, report.confirmed_kills),
        injury_level: min_u8(m.injury_level + spec_injury_delta(report.status), MAX_INJURY_LEVEL as int),
        available: if report.status == UnitBattleStatus::Lost && !m.persistent { false } else { m.available },
        ..m
    }
}

/// The first member, from index `start` on, with the given unit id; -1 if none.
pub open spec fn find_member(party: Seq<MemberView>, unit_id: Seq<char>, start: int) -> int
    decreases party.len() - start,
{
    if start < 0 || start >= party.len() {
        -1
    } else if party[start].unit_id == unit_id {
        start
    } else {
        find_member(party, unit_id, start + 1)
    }
}

/// The party after one report, which applies to the first member with the
/// reported unit id (and to nobody if no member has it).
pub open spec fn spec_apply_report(party: Seq<MemberView>, report: UnitBattleReportV1) -> Seq<MemberView> {
    let k = find_member(party, report.unit_id@, 0);
    if k < 0 { party } else { party.update(k, spec_after_report(party[k], report)) }
}

/// The party after all reports, applied in report order.
pub open spec fn spec_apply_reports(party: Seq<MemberView>, reports: Seq<UnitBattleReportV1>) -> Seq<MemberView>
    decreases reports.len(),
{
    if reports.len() == 0 {
        party
    } else {
        spec_apply_report(spec_apply_reports(party, reports.drop_last()), reports.last())
    }
}

/// The first member, from index `start` on, who is persistent and available; -1 if none.
pub open spec fn find_defeat_bearer(party: Seq<MemberView>, start: int) -> int
    decreases party.len() - start,
{
    if start < 0 || start >= party.len() {
        -1
    } else if party[start].persistent && party[start].available {
        start
    } else {
        find_defeat_bearer(party, start + 1)
    }
}

fn after_report(m: &PartyBattleState, report: &UnitBattleReportV1) -> (r: PartyBattleState)
    ensures
        r@ == spec_after_report(m@, *report),
{
    let delta: u8 = match report.status {
        UnitBattleStatus::Healthy => 0,
        UnitBattleStatus::Wounded => 1,
        UnitBattleStatus::Incapacitated | UnitBattleStatus::Lost => 2,
    };
    let injury = m.injury_level.saturating_add(delta);
    PartyBattleState {
        unit_id: m.unit_id.clone(),
        persistent: m.persistent,
        available: if report.status == UnitBattleStatus::Lost && !m.persistent { false } else { m.available },
        experience: m.experience.saturating_add(report.experience_gained),
        veteran_rank: if m.veteran_rank < report.veteran_rank { report.veteran_rank } else { m.veteran_rank },
        confirmed_kills: m.confirmed_kills.saturating_add(report.confirmed_kills),
        injury_level: if injury > MAX_INJURY_LEVEL { MAX_INJURY_LEVEL } else { injury },
    }
}

pub(crate) fn find_member_index(party: &Vec<PartyBattleState>, unit_id: &str) -> (r: Option<usize>)
    ensures
        match r {
            Some(k) => k < party@.len() && find_member(party_view(party@), unit_id@, 0) == k as int,
            None => find_member(party_view(party@), unit_id@, 0) == -1,
        },
{
    let ghost v = party_view(party@);
    let mut i: usize = 0;
    while i < party.len()
        invariant
            v == party_view(party@),
            i <= party@.len(),
            find_member(v, unit_id@, 0) == find_member(v, unit_id@, i as int),
        decreases party@.len() - i,
    {
        if str_eq(party[i].unit_id.as_str(), unit_id) {
            return Some(i);
        }
        i = i + 1;
    }
    None
}

/// The party after a battle: the unit reports applied, and after a defeat
/// in which no unit was wounded, one more injury level (up to 4) for the
/// first persistent, available member.
pub open spec fn spec_settle_party(party: Seq<MemberView>, reports: Seq<UnitBattleReportV1>, outcome: BattleOutcome) -> Seq<MemberView> {
    let after = spec_apply_reports(party, reports);
    if outcome == BattleOutcome::Defeat && injured_units(reports).len() == 0 && find_defeat_bearer(after, 0) >= 0 {
        let k = find_defeat_bearer(after, 0);
        after.update(k, MemberView { injury_level: min_u8(after[k].injury_level + 1, MAX_INJURY_LEVEL as int), ..after[k] })
    } else {
        after
    }
}

/// Applies a battle's unit reports to the party and, when the battle was a
/// defeat in which no unit was wounded, charges the cost of the lost
/// objective to the first persistent, available member (one more injury
/// level, up to 4). Answers that member's unit id, whose injury of 1 joins
/// the settlement's injuries; `None` when nobody was charged.
pub fn settle_party(party: &mut Vec<PartyBattleState>, reports: &[UnitBattleReportV1], outcome: BattleOutcome) -> (r: Option<String>)
    ensures
        party_view(final(party)@) == spec_settle_party(party_view(old(party)@), reports@, outcome),
        ({
            let after = spec_apply_reports(party_view(old(party)@), reports@);
            let charged = outcome == BattleOutcome::Defeat && injured_units(reports@).len() == 0
                && find_defeat_bearer(after, 0) >= 0;
            if charged {
                let k = find_defeat_bearer(after, 0);
                &&& party_view(final(party)@) == after.update(k, MemberView {
                    injury_level: min_u8(after[k].injury_level + 1, MAX_INJURY_LEVEL as int),
                    ..after[k]
                })
                &&& r matches Some(id) && id@ == after[k].unit_id
            } else {
                &&& party_view(final(party)@) == after
                &&& r is None
            }
        }),
{
    let ghost p0 = party_view(party@);
    let mut i: usize = 0;
    let mut wounded = false;
    while i < reports.len()
        invariant
            i <= reports@.len(),
            party_view(party@) == spec_apply_reports(p0, reports@.take(i as int)),
            wounded <==> injured_units(reports@.take(i as int)).len() > 0,
        decreases reports@.len() - i,
    {
        let report = &reports[i];
        let ghost before = party_view(party@);
        assert(reports@.take(i + 1).drop_last() =~= reports@.take(i as int));
        assert(reports@.take(i + 1).last() == *report);
        if report.status != UnitBattleStatus::Healthy {
            wounded = true;
        }
        match find_member_index(party, report.unit_id.as_str()) {
            Some(k) => {
                let updated = after_report(&party[k], report);
                party.set(k, updated);
                assert(party_view(party@) =~= before.update(k as int, spec_after_report(before[k as int], *report)));
            },
            None => {},
        }
        i = i + 1;
    }
    assert(reports@.take(reports@.len() as int) =~= reports@);
    if outcome != BattleOutcome::Defeat || wounded {
        return None;
    }
    let ghost after = party_view(party@);
    match find_bearer_index(party) {
        None => None,
        Some(k) => {
            let member = &party[k];
            let injury = member.injury_level.saturating_add(1);
            let charged = PartyBattleState {
                unit_id: member.unit_id.clone(),
                persistent: member.persistent,
                available: member.available,
                experience: member.experience,
                veteran_rank: member.veteran_rank,
                confirmed_kills: member.confirmed_kills,
                injury_level: if injury > MAX_INJURY_LEVEL { MAX_INJURY_LEVEL } else { injury },
            };
            let id = member.unit_id.clone();
            party.set(k, charged);
            assert(party_view(party@) =~= after.update(k as int, MemberView {
                injury_level: min_u8(after[k as int].injury_level + 1, MAX_INJURY_LEVEL as int),
                ..after[k as int]
            }));
            Some(id)
        },
    }
}

fn find_bearer_index(party: &Vec<PartyBattleState>) -> (r: Option<usize>)
    ensures
        match r {
            Some(k) => k < party@.len() && find_defeat_bearer(party_view(party@), 0) == k as int,
            None => find_defeat_bearer(party_view(party@), 0) == -1,
        },
{
    let ghost v = party_view(party@);
    let mut k: usize = 0;
    while k < party.len()
        invariant
            v == party_view(party@),
            k <= party@.len(),
            find_defeat_bearer(v, 0) == find_defeat_bearer(v, k as int),
        decreases party@.len() - k,
    {
        if party[k].persistent && party[k].available {
            return Some(k);
        }
        k = k + 1;
    }
    None
}

/// The campaign's experience, level and growth points.
#[derive(Debug, Clone, Copy, PartialEq, Eq, Hash, Structural)]
pub struct LevelProgress {
    pub experience: u64,
    pub level: u32,
    pub growth_points_available: u16,
    pub growth_points_awarded: u16,
}

pub open spec fn sat_add_u16(a: u16, b: u16) -> u16 {
    if a + b > u16::MAX { u16::MAX } else { (a + b) as u16 }
}

impl LevelProgress {
    /// Adds a battle's experience: the level becomes one per 500 points, and
    /// each level gained awards a growth point (counters saturate).
    pub fn gain_experience(&mut self, delta: u64)
        requires
            old(self).experience + delta <= u64::MAX,
            (((old(self).experience + delta) / 500) as u32) < u32::MAX,
        ensures
            final(self).experience == old(self).experience + delta,
            final(self).level == spec_level_for(final(self).experience),
            ({
                let gained = (if final(self).level > old(self).level { final(self).level - old(self).level } else { 0 }) as u16;
                &&& final(self).growth_points_available == sat_add_u16(old(self).growth_points_available, gained)
                &&& final(self).growth_points_awarded == sat_add_u16(old(self).growth_points_awarded, gained)
            }),
    {
        let previous = self.level;
        self.experience = self.experience + delta;
        self.level = level_for_experience(self.experience);
        let gained = self.level.saturating_sub(previous) as u16;
        self.growth_points_available = self.growth_points_available.saturating_add(gained);
        self.growth_points_awarded = self.growth_points_awarded.saturating_add(gained);
    }
}

/// Shares a battle's experience among the character's skills: each gets an
/// equal share (rounded down), and its rank becomes one plus a rank per 250
/// experience (kept in 16 bits).
pub fn share_skill_experience(skills: &mut Vec<SkillProgress>, delta: u64)
    requires
        forall|i: int| 0 <= i < old(skills)@.len() ==> #[trigger] old(skills)@[i].experience + delta <= u64::MAX,
    ensures
        final(skills)@.len() == old(skills)@.len(),
        forall|i: int| 0 <= i < old(skills)@.len() ==> {
            &&& #[trigger] final(skills)@[i].experience == old(skills)@[i].experience + delta as int / old(skills)@.len() as int
            &&& final(skills)@[i].rank == (1 + final(skills)@[i].experience / 250) as u16
        },
{
    let n = skills.len();
    if n == 0 {
        return;
    }
    let share = delta / (n as u64);
    assert(share <= delta) by (nonlinear_arith)
        requires share == delta / (n as u64), n >= 1;
    let ghost before = skills@;
    let mut i: usize = 0;
    while i < n
        invariant
            n == before.len(),
            skills@.len() == n,
            share == delta as int / n as int,
            share <= delta,
            forall|j: int| 0 <= j < n ==> #[trigger] before[j].experience + delta <= u64::MAX,
            forall|j: int| 0 <= j < i ==> {
                &&& #[trigger] skills@[j].experience == before[j].experience + share
                &&& skills@[j].rank == (1 + skills@[j].experience / 250) as u16
            },
            forall|j: int| i <= j < n ==> skills@[j] == before[j],
        decreases n - i,
    {
        assert(skills@[i as int] == before[i as int]);
        assert(before[i as int].experience + delta <= u64::MAX);
        let experience = skills[i].experience + share;
        skills.set(i, SkillProgress { rank: #[verifier::truncate] ((1 + experience / 250) as u16), experience });
        i = i + 1;
    }
}

} // verus!
