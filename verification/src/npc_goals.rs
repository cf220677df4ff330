//! The goals NPCs pursue on their own after meeting: forming an alliance
//! with a close partner, resolving a conflict, migrating after steady work,
//! publishing a task, or producing goods; and the world flags those goals
//! leave behind.

use vstd::prelude::*;
use crate::campaign::{find_entry, find_entry_index, CampaignState};
use crate::quest_graph::texts_view;
use crate::quests::{insert_flag, NpcAutonomousGoal, NpcAutonomousGoalKind};
use crate::social::{find_work, spec_bond_key, bond_key, work_view, NpcSocialEvent};
use crate::text::str_eq;

verus! {

pub struct GoalView {
    pub npc_id: Seq<char>,
    pub kind: NpcAutonomousGoalKind,
    pub target_id: Seq<char>,
    pub region_id: Seq<char>,
    pub progress: u16,
}

/// The goals, keyed by NPC, as plain values.
pub open spec fn goals_view(g: Seq<(String, NpcAutonomousGoal)>) -> Seq<GoalView> {
    g.map_values(|e: (String, NpcAutonomousGoal)| GoalView {
        npc_id: e.0@,
        kind: e.1.kind,
        target_id: e.1.target_id@,
        region_id: e.1.region_id@,
        progress: e.1.progress,
    })
}

pub open spec fn pairs_view(r: Seq<(String, String)>) -> Seq<(Seq<char>, Seq<char>)> {
    r.map_values(|e: (String, String)| (e.0@, e.1@))
}

/// The goal an NPC takes up given the bond of the pair that met and its own
/// work: an alliance from a bond of 12, a conflict below 0, a migration
/// every 7th unit of work, a published task every 5th, and production
/// otherwise.
pub open spec fn spec_goal_kind(bond: i16, work: u32) -> NpcAutonomousGoalKind {
    if bond >= 12 {
        NpcAutonomousGoalKind::FormAlliance
    } else if bond < 0 {
        NpcAutonomousGoalKind::ResolveConflict
    } else if work > 0 && work % 7 == 0 {
        NpcAutonomousGoalKind::Migrate
    } else if work > 0 && work % 5 == 0 {
        NpcAutonomousGoalKind::PublishTask
    } else {
        NpcAutonomousGoalKind::Produce
    }
}

/// What the goal aims at: the partner for an alliance or a conflict, the
/// event's region for a migration, the event's market item otherwise.
pub open spec fn goal_target(kind: NpcAutonomousGoalKind, counterpart: Seq<char>, event: NpcSocialEvent) -> Seq<char> {
    match kind {
        NpcAutonomousGoalKind::FormAlliance => counterpart,
        NpcAutonomousGoalKind::ResolveConflict => counterpart,
        NpcAutonomousGoalKind::Migrate => event.region_id@,
        _ => event.market_item_id@,
    }
}

/// The world flag the goal sets, if any.
pub open spec fn goal_flag(kind: NpcAutonomousGoalKind, npc: Seq<char>, counterpart: Seq<char>, event: NpcSocialEvent) -> Option<Seq<char>> {
    match kind {
        NpcAutonomousGoalKind::Migrate => Some("npc_"@ + npc + "_migrated_to_"@ + event.migration_room_id@),
        NpcAutonomousGoalKind::FormAlliance => Some("npc_alliance_"@ + npc + "_"@ + counterpart),
        NpcAutonomousGoalKind::ResolveConflict => Some("npc_conflict_"@ + npc + "_"@ + counterpart),
        NpcAutonomousGoalKind::PublishTask => Some("npc_dynamic_task_"@ + npc + "_"@ + event.market_item_id@),
        NpcAutonomousGoalKind::Produce => None,
    }
}

pub open spec fn flag_set(f: Option<Seq<char>>) -> Set<Seq<char>> {
    match f {
        Some(x) => set![x],
        None => Set::empty(),
    }
}

/// The first goal of `npc` from `start` on; -1 if none.
pub open spec fn find_goal(g: Seq<GoalView>, npc: Seq<char>, start: int) -> int
    decreases g.len() - start,
{
    if start < 0 || start >= g.len() {
        -1
    } else if g[start].npc_id == npc {
        start
    } else {
        find_goal(g, npc, start + 1)
    }
}

/// The goals after `npc` pursues `kind` aimed at `target` in `region`: its
/// goal replaced and its progress one further (saturating), or a new goal
/// at progress 1.
pub open spec fn pursue(g: Seq<GoalView>, npc: Seq<char>, kind: NpcAutonomousGoalKind, target: Seq<char>, region: Seq<char>) -> Seq<GoalView> {
    let k = find_goal(g, npc, 0);
    if k >= 0 {
        g.update(k, GoalView {
            npc_id: g[k].npc_id,
            kind,
            target_id: target,
            region_id: region,
            progress: if g[k].progress == u16::MAX { u16::MAX } else { (g[k].progress + 1) as u16 },
        })
    } else {
        g.push(GoalView { npc_id: npc, kind, target_id: target, region_id: region, progress: 1 })
    }
}

/// The first room assignment of `npc` from `start` on; -1 if none.
pub open spec fn find_pair(r: Seq<(Seq<char>, Seq<char>)>, npc: Seq<char>, start: int) -> int
    decreases r.len() - start,
{
    if start < 0 || start >= r.len() {
        -1
    } else if r[start].0 == npc {
        start
    } else {
        find_pair(r, npc, start + 1)
    }
}

/// The rooms NPCs head for after `npc` takes up `kind`: a migrating NPC
/// heads for `destination`; nothing changes otherwise.
pub open spec fn headed(r: Seq<(Seq<char>, Seq<char>)>, npc: Seq<char>, kind: NpcAutonomousGoalKind, destination: Seq<char>) -> Seq<(Seq<char>, Seq<char>)> {
    if kind != NpcAutonomousGoalKind::Migrate {
        r
    } else if find_pair(r, npc, 0) >= 0 {
        r.update(find_pair(r, npc, 0), (r[find_pair(r, npc, 0)].0, destination))
    } else {
        r.push((npc, destination))
    }
}

/// The bond recorded under `key`; 0 if none.
pub open spec fn bond_value(bonds: Seq<(String, i16)>, key: Seq<char>) -> i16 {
    if find_entry(bonds, key, 0) >= 0 { bonds[find_entry(bonds, key, 0)].1 } else { 0 }
}

/// The work recorded for `npc`; 0 if none.
pub open spec fn work_of(w: Seq<(Seq<char>, u32)>, npc: Seq<char>) -> u32 {
    if find_work(w, npc, 0) >= 0 { w[find_work(w, npc, 0)].1 } else { 0 }
}

/// After the NPCs of `event` met (their bond and work as `new` records
/// them), each of the two, first then second, takes up the goal
/// `spec_goal_kind` gives, towards its partner, heads for the event's
/// migration room if migrating, and leaves the goal's world flag.
pub open spec fn pursued_goals(old: CampaignState, new: CampaignState, event: NpcSocialEvent) -> bool {
    let a = event.first_npc_id@;
    let b = event.second_npc_id@;
    let bond = bond_value(new.npc_bonds@, spec_bond_key(a, b));
    let w = work_view(new.npc_work_output@);
    let ka = spec_goal_kind(bond, work_of(w, a));
    let kb = spec_goal_kind(bond, work_of(w, b));
    &&& goals_view(new.npc_autonomous_goals@) == pursue(pursue(goals_view(old.npc_autonomous_goals@), a, ka,
        goal_target(ka, b, event), event.region_id@), b, kb, goal_target(kb, a, event), event.region_id@)
    &&& pairs_view(new.npc_goal_rooms@) == headed(headed(pairs_view(old.npc_goal_rooms@), a, ka, event.migration_room_id@),
        b, kb, event.migration_room_id@)
    &&& texts_view(new.world_flags@).to_set() == texts_view(old.world_flags@).to_set()
        + flag_set(goal_flag(ka, a, b, event)) + flag_set(goal_flag(kb, b, a, event))
}

fn goal_kind(bond: i16, work: u32) -> (r: NpcAutonomousGoalKind)
    ensures
        r == spec_goal_kind(bond, work),
{
    if bond >= 12 {
        NpcAutonomousGoalKind::FormAlliance
    } else if bond < 0 {
        NpcAutonomousGoalKind::ResolveConflict
    } else if work > 0 && work % 7 == 0 {
        NpcAutonomousGoalKind::Migrate
    } else if work > 0 && work % 5 == 0 {
        NpcAutonomousGoalKind::PublishTask
    } else {
        NpcAutonomousGoalKind::Produce
    }
}

fn goal_flag_text(kind: NpcAutonomousGoalKind, npc: &str, counterpart: &str, event: &NpcSocialEvent) -> (r: Option<String>)
    ensures
        match goal_flag(kind, npc@, counterpart@, *event) {
            Some(f) => r matches Some(t) && t@ == f,
            None => r is None,
        },
{
    let mut out = String::new();
    match kind {
        NpcAutonomousGoalKind::Migrate => {
            out.append("npc_");
            out.append(npc);
            out.append("_migrated_to_");
            out.append(event.migration_room_id.as_str());
        },
        NpcAutonomousGoalKind::FormAlliance => {
            out.append("npc_alliance_");
            out.append(npc);
            out.append("_");
            out.append(counterpart);
        },
        NpcAutonomousGoalKind::ResolveConflict => {
            out.append("npc_conflict_");
            out.append(npc);
            out.append("_");
            out.append(counterpart);
        },
        NpcAutonomousGoalKind::PublishTask => {
            out.append("npc_dynamic_task_");
            out.append(npc);
            out.append("_");
            out.append(event.market_item_id.as_str());
        },
        NpcAutonomousGoalKind::Produce => {
            return None;
        },
    }
    proof {
        reveal_strlit("");
        assert(""@ =~= Seq::<char>::empty());
    }
    Some(out)
}

fn goal_index(g: &Vec<(String, NpcAutonomousGoal)>, npc: &str) -> (r: Option<usize>)
    ensures
        match r {
            Some(k) => k < g@.len() && find_goal(goals_view(g@), npc@, 0) == k as int,
            None => find_goal(goals_view(g@), npc@, 0) == -1,
        },
{
    let ghost v = goals_view(g@);
    let mut i: usize = 0;
    while i < g.len()
        invariant
            i <= g@.len(),
            v == goals_view(g@),
            find_goal(v, npc@, 0) == find_goal(v, npc@, i as int),
        decreases g@.len() - i,
    {
        if str_eq(g[i].0.as_str(), npc) {
            return Some(i);
        }
        i = i + 1;
    }
    None
}

fn pursue_goal(g: &mut Vec<(String, NpcAutonomousGoal)>, npc: &str, kind: NpcAutonomousGoalKind, target: String, region: &str)
    ensures
        goals_view(final(g)@) == pursue(goals_view(old(g)@), npc@, kind, target@, region@),
{
    match goal_index(g, npc) {
        Some(k) => {
            let progress = g[k].1.progress;
            let next: u16 = if progress == u16::MAX { u16::MAX } else { progress + 1 };
            let id = g[k].0.clone();
            g.set(k, (id, NpcAutonomousGoal { kind, target_id: target, region_id: region.to_owned(), progress: next }));
            assert(goals_view(g@) =~= pursue(goals_view(old(g)@), npc@, kind, target@, region@));
        },
        None => {
            g.push((npc.to_owned(), NpcAutonomousGoal { kind, target_id: target, region_id: region.to_owned(), progress: 1 }));
            assert(goals_view(g@) =~= pursue(goals_view(old(g)@), npc@, kind, target@, region@));
        },
    }
}

fn head_for(r: &mut Vec<(String, String)>, npc: &str, kind: NpcAutonomousGoalKind, destination: &str)
    ensures
        pairs_view(final(r)@) == headed(pairs_view(old(r)@), npc@, kind, destination@),
{
    if kind != NpcAutonomousGoalKind::Migrate {
        return;
    }
    let ghost v = pairs_view(r@);
    let mut i: usize = 0;
    while i < r.len()
        invariant
            i <= r@.len(),
            r@ == old(r)@,
            kind == NpcAutonomousGoalKind::Migrate,
            v == pairs_view(r@),
            find_pair(v, npc@, 0) == find_pair(v, npc@, i as int),
        decreases r@.len() - i,
    {
        if str_eq(r[i].0.as_str(), npc) {
            assert(v[i as int].0 == npc@);
            assert(find_pair(v, npc@, 0) == i as int);
            let id = r[i].0.clone();
            r.set(i, (id, destination.to_owned()));
            assert(pairs_view(r@) =~= headed(v, npc@, kind, destination@));
            return;
        }
        i = i + 1;
    }
    r.push((npc.to_owned(), destination.to_owned()));
    assert(pairs_view(r@) =~= headed(v, npc@, kind, destination@));
}

fn work_count(w: &Vec<(String, u32)>, npc: &str) -> (r: u32)
    ensures
        r == work_of(work_view(w@), npc@),
{
    let ghost v = work_view(w@);
    let mut i: usize = 0;
    while i < w.len()
        invariant
            i <= w@.len(),
            v == work_view(w@),
            find_work(v, npc@, 0) == find_work(v, npc@, i as int),
        decreases w@.len() - i,
    {
        if str_eq(w[i].0.as_str(), npc) {
            return w[i].1;
        }
        i = i + 1;
    }
    0
}

fn add_goal_flag(flags: &mut Vec<String>, flag: Option<String>)
    ensures
        texts_view(final(flags)@).to_set() == texts_view(old(flags)@).to_set() + flag_set(match flag {
            Some(f) => Some(f@),
            None => None,
        }),
{
    match flag {
        Some(f) => {
            let ghost fv = f@;
            insert_flag(flags, f);
            assert(texts_view(old(flags)@).to_set().insert(fv) =~= texts_view(old(flags)@).to_set() + set![fv]);
        },
        None => {
            assert(texts_view(flags@).to_set() =~= texts_view(flags@).to_set() + Set::empty());
        },
    }
}

impl CampaignState {
    /// Each NPC of `event` takes up its goal, as `pursued_goals` says.
    pub(crate) fn pursue_goals(&mut self, event: &NpcSocialEvent)
        ensures
            pursued_goals(*old(self), *final(self), *event),
            *final(self) == (CampaignState {
                npc_autonomous_goals: final(self).npc_autonomous_goals,
                npc_goal_rooms: final(self).npc_goal_rooms,
                world_flags: final(self).world_flags,
                ..*old(self)
            }),
    {
        let a = event.first_npc_id.as_str();
        let b = event.second_npc_id.as_str();
        let key = bond_key(a, b);
        let bond: i16 = match find_entry_index(&self.npc_bonds, key.as_str()) {
            Some(k) => self.npc_bonds[k].1,
            None => 0,
        };
        let kind_a = goal_kind(bond, work_count(&self.npc_work_output, a));
        let kind_b = goal_kind(bond, work_count(&self.npc_work_output, b));
        let target_a = if kind_a == NpcAutonomousGoalKind::FormAlliance || kind_a == NpcAutonomousGoalKind::ResolveConflict {
            b.to_owned()
        } else if kind_a == NpcAutonomousGoalKind::Migrate {
            event.region_id.clone()
        } else {
            event.market_item_id.clone()
        };
        let target_b = if kind_b == NpcAutonomousGoalKind::FormAlliance || kind_b == NpcAutonomousGoalKind::ResolveConflict {
            a.to_owned()
        } else if kind_b == NpcAutonomousGoalKind::Migrate {
            event.region_id.clone()
        } else {
            event.market_item_id.clone()
        };
        pursue_goal(&mut self.npc_autonomous_goals, a, kind_a, target_a, event.region_id.as_str());
        pursue_goal(&mut self.npc_autonomous_goals, b, kind_b, target_b, event.region_id.as_str());
        head_for(&mut self.npc_goal_rooms, a, kind_a, event.migration_room_id.as_str());
        head_for(&mut self.npc_goal_rooms, b, kind_b, event.migration_room_id.as_str());
        let flag_a = goal_flag_text(kind_a, a, b, event);
        let flag_b = goal_flag_text(kind_b, b, a, event);
        add_goal_flag(&mut self.world_flags, flag_a);
        add_goal_flag(&mut self.world_flags, flag_b);
    }
}

} // verus!
