//! The social step of the town: two NPCs meet at the event of the current
//! time, their bond grows, and the meeting joins the bounded history.

use vstd::prelude::*;
use crate::campaign::{find_entry, CampaignState};
use crate::loot::{lex_le, text_le};
use crate::quests::{memories_view, MemoryView, NpcMemory, NpcSocialEventRecord};
use crate::quest_graph::texts_view;
use crate::settle::copy_texts;
use crate::npc_goals::pursued_goals;
use crate::text::str_eq;

verus! {

/// An authored meeting of two NPCs.
#[derive(Debug, Clone, PartialEq, Eq)]
pub struct NpcSocialEvent {
    pub id: String,
    pub first_npc_id: String,
    pub second_npc_id: String,
    pub room_id: String,
    pub text: String,
    /// The region of the event's room.
    pub region_id: String,
    /// The market item the meeting concerns.
    pub market_item_id: String,
    /// The room an NPC of the event's region migrates to.
    pub migration_room_id: String,
}

/// The most social events the history keeps.
pub const SOCIAL_EVENT_HISTORY_CAP: usize = 16;

/// The key of the bond between two NPCs: their ids in order, joined by `::`.
pub open spec fn spec_bond_key(a: Seq<char>, b: Seq<char>) -> Seq<char> {
    if lex_le(a, b) { a + "::"@ + b } else { b + "::"@ + a }
}

pub fn bond_key(a: &str, b: &str) -> (r: String)
    ensures
        r@ == spec_bond_key(a@, b@),
{
    proof {
        reveal_strlit("::");
    }
    let (low, high) = if text_le(a, b) { (a, b) } else { (b, a) };
    let mut key = low.to_owned();
    key.append("::");
    key.append(high);
    key
}

/// A bond two points warmer, kept within -100..=100.
pub open spec fn warmer(bond: i16) -> i16 {
    if bond + 2 > 100 { 100i16 } else if bond + 2 < -100 { -100i16 } else { (bond + 2) as i16 }
}

/// The record the history keeps of `event` met on `day` at `minute`.
pub open spec fn spec_record(event: NpcSocialEvent, day: u32, minute: u16) -> NpcSocialEventRecord {
    NpcSocialEventRecord {
        event_id: event.id,
        first_npc_id: event.first_npc_id,
        second_npc_id: event.second_npc_id,
        room_id: event.room_id,
        text: event.text,
        day,
        minute_of_day: minute,
    }
}

/// The event already met today as the last one recorded.
pub open spec fn already_met(s: CampaignState, event: NpcSocialEvent) -> bool {
    s.social_event_history@.len() > 0 && s.social_event_history@.last().event_id@ == event.id@
        && s.social_event_history@.last().day == s.world_clock.day
}

/// The most lines an NPC remembers.
pub const NPC_MEMORY_CAP: usize = 8;

/// The first memory of `npc` from `start` on; -1 if none.
pub open spec fn find_memory(m: Seq<MemoryView>, npc: Seq<char>, start: int) -> int
    decreases m.len() - start,
{
    if start < 0 || start >= m.len() {
        -1
    } else if m[start].npc_id == npc {
        start
    } else {
        find_memory(m, npc, start + 1)
    }
}

/// The memories after `npc` remembers `text`: the text joins the end of
/// its lines, the oldest line giving way once there are more than 8; an NPC
/// without a memory gets one holding just the text.
pub open spec fn remember(m: Seq<MemoryView>, npc: Seq<char>, text: Seq<char>) -> Seq<MemoryView> {
    let k = find_memory(m, npc, 0);
    if k >= 0 {
        let pushed = m[k].lines.push(text);
        m.update(k, MemoryView { npc_id: m[k].npc_id, lines: if pushed.len() > 8 { pushed.drop_first() } else { pushed } })
    } else {
        m.push(MemoryView { npc_id: npc, lines: seq![text] })
    }
}

/// The work outputs as plain values.
pub open spec fn work_view(w: Seq<(String, u32)>) -> Seq<(Seq<char>, u32)> {
    w.map_values(|e: (String, u32)| (e.0@, e.1))
}

/// The first work output of `npc` from `start` on; -1 if none.
pub open spec fn find_work(w: Seq<(Seq<char>, u32)>, npc: Seq<char>, start: int) -> int
    decreases w.len() - start,
{
    if start < 0 || start >= w.len() {
        -1
    } else if w[start].0 == npc {
        start
    } else {
        find_work(w, npc, start + 1)
    }
}

/// The work outputs after `npc` did one more unit of work (saturating; a
/// new NPC starts at 1).
pub open spec fn worked(w: Seq<(Seq<char>, u32)>, npc: Seq<char>) -> Seq<(Seq<char>, u32)> {
    let k = find_work(w, npc, 0);
    if k >= 0 {
        w.update(k, (w[k].0, if w[k].1 == u32::MAX { u32::MAX } else { (w[k].1 + 1) as u32 }))
    } else {
        w.push((npc, 1u32))
    }
}

fn memory_index(m: &Vec<NpcMemory>, npc: &str) -> (r: Option<usize>)
    ensures
        match r {
            Some(k) => k < m@.len() && find_memory(memories_view(m@), npc@, 0) == k as int,
            None => find_memory(memories_view(m@), npc@, 0) == -1,
        },
{
    let ghost v = memories_view(m@);
    let mut i: usize = 0;
    while i < m.len()
        invariant
            i <= m@.len(),
            v == memories_view(m@),
            find_memory(v, npc@, 0) == find_memory(v, npc@, i as int),
        decreases m@.len() - i,
    {
        if str_eq(m[i].npc_id.as_str(), npc) {
            return Some(i);
        }
        i = i + 1;
    }
    None
}

fn remember_line(m: &mut Vec<NpcMemory>, npc: &str, text: &str)
    ensures
        memories_view(final(m)@) == remember(memories_view(old(m)@), npc@, text@),
{
    match memory_index(m, npc) {
        Some(k) => {
            let ghost before = texts_view(m@[k as int].lines@);
            let mut lines = copy_texts(&m[k].lines);
            lines.push(text.to_owned());
            assert(texts_view(lines@) =~= before.push(text@));
            if lines.len() > NPC_MEMORY_CAP {
                lines.remove(0);
                assert(texts_view(lines@) =~= before.push(text@).drop_first());
            }
            let id = m[k].npc_id.clone();
            m.set(k, NpcMemory { npc_id: id, lines });
            assert(memories_view(m@) =~= remember(memories_view(old(m)@), npc@, text@));
        },
        None => {
            let line = text.to_owned();
            let lines = vec![line];
            assert(texts_view(lines@) =~= seq![text@]);
            m.push(NpcMemory { npc_id: npc.to_owned(), lines });
            assert(memories_view(m@) =~= remember(memories_view(old(m)@), npc@, text@));
        },
    }
}

fn add_work(w: &mut Vec<(String, u32)>, npc: &str)
    ensures
        work_view(final(w)@) == worked(work_view(old(w)@), npc@),
{
    let ghost v = work_view(w@);
    let mut i: usize = 0;
    while i < w.len()
        invariant
            i <= w@.len(),
            v == work_view(w@),
            w@ == old(w)@,
            find_work(v, npc@, 0) == find_work(v, npc@, i as int),
        decreases w@.len() - i,
    {
        if str_eq(w[i].0.as_str(), npc) {
            let count = w[i].1;
            let next: u32 = if count == u32::MAX { u32::MAX } else { count + 1 };
            let id = w[i].0.clone();
            w.set(i, (id, next));
            assert(work_view(w@) =~= worked(v, npc@));
            return;
        }
        i = i + 1;
    }
    w.push((npc.to_owned(), 1));
    assert(work_view(w@) =~= worked(v, npc@));
}

/// What the meeting of `event`'s NPCs makes of the campaign `old`, giving
/// `new` (see `apply_social_event`).
pub open spec fn socialized(old: CampaignState, new: CampaignState, event: NpcSocialEvent) -> bool {
    &&& already_met(old, event) ==> new == old
    &&& !already_met(old, event) ==> {
        let key = spec_bond_key(event.first_npc_id@, event.second_npc_id@);
        let k = find_entry(old.npc_bonds@, key, 0);
        let record = spec_record(event, old.world_clock.day, old.world_clock.minute_of_day);
        let grown = old.social_event_history@.push(record);
        &&& k >= 0 ==> new.npc_bonds@ == old.npc_bonds@.update(k, (old.npc_bonds@[k].0, warmer(old.npc_bonds@[k].1)))
        &&& k < 0 ==> new.npc_bonds@.len() == old.npc_bonds@.len() + 1
            && new.npc_bonds@.take(old.npc_bonds@.len() as int) == old.npc_bonds@
            && new.npc_bonds@.last().0@ == key
            && new.npc_bonds@.last().1 == 2
        &&& new.social_event_history@ == if grown.len() > SOCIAL_EVENT_HISTORY_CAP { grown.drop_first() } else { grown }
        &&& memories_view(new.npc_memory@) == remember(remember(memories_view(old.npc_memory@),
            event.first_npc_id@, event.text@), event.second_npc_id@, event.text@)
        &&& work_view(new.npc_work_output@) == worked(worked(work_view(old.npc_work_output@),
            event.first_npc_id@), event.second_npc_id@)
        &&& pursued_goals(old, new, event)
        &&& new == (CampaignState {
            npc_bonds: new.npc_bonds,
            npc_memory: new.npc_memory,
            npc_work_output: new.npc_work_output,
            npc_autonomous_goals: new.npc_autonomous_goals,
            npc_goal_rooms: new.npc_goal_rooms,
            world_flags: new.world_flags,
            social_event_history: new.social_event_history,
            ..old
        })
    }
}

impl CampaignState {
    /// Lets the NPCs of `event`, the social event of the current time, meet.
    /// An event already recorded last for today changes nothing. Otherwise
    /// each of the two remembers the event's text (keeping its last 8
    /// lines) and does one more unit of work, the pair's bond (created at 0
    /// if new) grows by two within ±100, each then takes up its own goal
    /// (see `pursued_goals`), and
    /// the meeting is recorded at the current time, the oldest record giving
    /// way once the history holds 16.
    #[verifier::spinoff_prover]
    pub fn apply_social_event(&mut self, event: &NpcSocialEvent)
        ensures
            socialized(*old(self), *final(self), *event),
    {
        let n = self.social_event_history.len();
        if n > 0 {
            let last = &self.social_event_history[n - 1];
            if str_eq(last.event_id.as_str(), event.id.as_str()) && last.day == self.world_clock.day {
                return;
            }
        }
        remember_line(&mut self.npc_memory, event.first_npc_id.as_str(), event.text.as_str());
        remember_line(&mut self.npc_memory, event.second_npc_id.as_str(), event.text.as_str());
        add_work(&mut self.npc_work_output, event.first_npc_id.as_str());
        add_work(&mut self.npc_work_output, event.second_npc_id.as_str());
        let key = bond_key(event.first_npc_id.as_str(), event.second_npc_id.as_str());
        warm_bond(&mut self.npc_bonds, key);
        let record = NpcSocialEventRecord {
            event_id: event.id.clone(),
            first_npc_id: event.first_npc_id.clone(),
            second_npc_id: event.second_npc_id.clone(),
            room_id: event.room_id.clone(),
            text: event.text.clone(),
            day: self.world_clock.day,
            minute_of_day: self.world_clock.minute_of_day,
        };
        record_event(&mut self.social_event_history, record);
        self.pursue_goals(event);
    }
}

fn warm_bond(bonds: &mut Vec<(String, i16)>, key: String)
    ensures
        ({
            let k = find_entry(old(bonds)@, key@, 0);
            &&& k >= 0 ==> final(bonds)@ == old(bonds)@.update(k, (old(bonds)@[k].0, warmer(old(bonds)@[k].1)))
            &&& k < 0 ==> final(bonds)@.len() == old(bonds)@.len() + 1
                && final(bonds)@.take(old(bonds)@.len() as int) == old(bonds)@
                && final(bonds)@.last().0@ == key@
                && final(bonds)@.last().1 == 2
        }),
{
    match crate::campaign::find_entry_index(bonds, key.as_str()) {
        Some(k) => {
            let bond = bonds[k].1;
            let warmed: i16 = if bond as i32 + 2 > 100 { 100 } else if bond as i32 + 2 < -100 { -100 } else { bond + 2 };
            let name = bonds[k].0.clone();
            bonds.set(k, (name, warmed));
        },
        None => {
            let ghost before = bonds@;
            bonds.push((key, 2));
            assert(bonds@.take(before.len() as int) =~= before);
        },
    }
}

fn record_event(history: &mut Vec<NpcSocialEventRecord>, record: NpcSocialEventRecord)
    ensures
        ({
            let grown = old(history)@.push(record);
            final(history)@ == if grown.len() > SOCIAL_EVENT_HISTORY_CAP { grown.drop_first() } else { grown }
        }),
{
    history.push(record);
    if history.len() > SOCIAL_EVENT_HISTORY_CAP {
        let ghost grown = history@;
        history.remove(0);
        assert(history@ =~= grown.drop_first());
    }
}

} // verus!
