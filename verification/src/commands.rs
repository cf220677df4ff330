//! Town commands on the campaign: meeting and training with the mentor,
//! choosing how the expedition prepares, accepting the next mission, and
//! the Cistern Relief quest chain. A refused command leaves the campaign
//! unchanged; an accepted one counts one more revision.

use vstd::prelude::*;
use crate::campaign::CampaignState;
use crate::catalog::{CampaignMission, CampaignPhase, CampaignRoom, ExpeditionPreparation, QuestState};
use crate::error::{CampaignError, Failure};
use crate::quest_graph::texts_view;
use crate::quests::{insert_flag, ChainRewardView, QuestBranch, QuestChainNodeId, QuestChainReward, has_flag, msg_missing_step, msg_step_conditions, reward_flags, reward_rooms, spec_signal_road_quest, spec_step_index, StoryStepId};
use crate::settle::{copy_story, copy_texts, sat_add_i32, sat_add_i64, step_ready};
use crate::cistern::{
    chain_active, msg_branch_chosen, msg_chain_inactive, msg_chain_room, msg_choose_branch, msg_not_awaiting_branch,
    msg_relief_done, msg_road_closed, msg_chain_active, msg_supplies_cost, spec_branch_rewards, spec_node_room, CISTERN_SUPPLIES_COST,
};
use crate::settlement::SkillProgress;
use crate::party::{party_view, MemberView, PartyBattleState};
use crate::loot::{find_consumable_from, keep_nonempty, spec_consume_loot, stacks_view};
use crate::clock::spec_advance;
use crate::social::{socialized, NpcSocialEvent};
use crate::town::{spec_treat, spec_clinic_cost, msg_no_injuries, msg_clinic_cost, InjuryState, FIELD_TONIC_ITEM_ID, min_u8, msg_wait_range, stamina_after_waiting, 
    accept_campaign_mission, msg_no_mission, msg_prepare_first, msg_weapon_first, msg_not_in_town, msg_wrong_room,
    plan_mentor_training, require_room, spec_accepted_mission, spec_training_cost, train_skill, msg_meet_mentor_first,
    msg_training_cap, msg_training_cost, MENTOR_TRAINING_SESSION_CAP,
};

verus! {

/// Why the campaign `s` cannot act in `room` now: it must be in town and in
/// that room.
pub open spec fn room_refusal(s: CampaignState, room: CampaignRoom) -> Option<Failure> {
    if s.phase != CampaignPhase::Town {
        Some(Failure::State(msg_not_in_town()))
    } else if s.room != room {
        Some(Failure::State(msg_wrong_room(room, s.room)))
    } else {
        None
    }
}

/// Why talking to the mentor is refused: outside the mentor hall, or the
/// story's first step cannot be completed.
pub open spec fn mentor_talk_refusal(s: CampaignState) -> Option<Failure> {
    if room_refusal(s, CampaignRoom::MentorHall) is Some {
        room_refusal(s, CampaignRoom::MentorHall)
    } else if spec_step_index(StoryStepId::MeetMentor) < 0 {
        Some(Failure::State(msg_missing_step(StoryStepId::MeetMentor)))
    } else if !step_ready(StoryStepId::MeetMentor, true, texts_view(s.world_flags@), s.aftershock_completions) {
        Some(Failure::State(msg_step_conditions(StoryStepId::MeetMentor)))
    } else {
        None
    }
}

/// The story step `step` completed, moving on to `next`, from `old` to
/// `new`: the step counted, its rewarded rooms opened and its rewarded
/// world flags set.
pub open spec fn story_step_completed(old: CampaignState, new: CampaignState, step: StoryStepId, next: StoryStepId) -> bool {
    let rewards = spec_signal_road_quest().steps[spec_step_index(step)].rewards;
    &&& new.story.current_step == next
    &&& new.story.quest_id == old.story.quest_id
    &&& new.story.completed_steps@.to_set() == old.story.completed_steps@.to_set().insert(step)
    &&& new.story.unlocked_rooms@.to_set() == old.story.unlocked_rooms@.to_set() + reward_rooms(rewards)
    &&& texts_view(new.world_flags@).to_set() == texts_view(old.world_flags@).to_set() + reward_flags(rewards)
}

/// A skill after one training session: 125 more experience, and one rank
/// plus a rank per 250 experience.
pub open spec fn trained(p: SkillProgress) -> SkillProgress {
    SkillProgress { experience: (p.experience + 125) as u64, rank: (1 + (p.experience + 125) / 250) as u16 }
}

/// The skills after training the skill at `skill`, a new one (from rank 0
/// and no experience) when `skill` is one past the last.
pub open spec fn skills_after_training(skills: Seq<SkillProgress>, skill: int) -> Seq<SkillProgress> {
    if skill < skills.len() {
        skills.update(skill, trained(skills[skill]))
    } else {
        skills.push(trained(SkillProgress { rank: 0, experience: 0 }))
    }
}

/// Why mentor training is refused: outside the mentor hall, the mentor not
/// yet met, the two sessions taken, or the session's price not affordable.
pub open spec fn training_refusal(s: CampaignState) -> Option<Failure> {
    if room_refusal(s, CampaignRoom::MentorHall) is Some {
        room_refusal(s, CampaignRoom::MentorHall)
    } else if !s.mentor_met {
        Some(Failure::State(msg_meet_mentor_first()))
    } else if s.mentor_training_sessions >= MENTOR_TRAINING_SESSION_CAP {
        Some(Failure::State(msg_training_cap()))
    } else if s.credits < spec_training_cost(s.mentor_training_sessions) {
        Some(Failure::State(msg_training_cost(spec_training_cost(s.mentor_training_sessions))))
    } else {
        None
    }
}

/// The mission accepting at the expedition gate gives `s`, if any.
pub open spec fn mission_for(s: CampaignState) -> Option<CampaignMission> {
    let flags = texts_view(s.world_flags@);
    spec_accepted_mission(s.quest_state, s.active_mission, flags.contains("first_contact_secured"@),
        s.aftershock_completions, flags.contains("convoy_exodus_secured"@), flags.contains("mirror_siege_secured"@))
}

/// Why accepting the next mission is refused: outside the expedition gate,
/// the mentor not met and trained with, no weapon equipped, or no mission
/// available.
pub open spec fn acceptance_refusal(s: CampaignState, weapon_equipped: bool) -> Option<Failure> {
    if room_refusal(s, CampaignRoom::ExpeditionGate) is Some {
        room_refusal(s, CampaignRoom::ExpeditionGate)
    } else if !(s.mentor_met && s.trained_with_mentor) {
        Some(Failure::State(msg_prepare_first()))
    } else if !weapon_equipped {
        Some(Failure::State(msg_weapon_first()))
    } else if mission_for(s) is None {
        Some(Failure::State(msg_no_mission()))
    } else {
        None
    }
}

/// Why starting Cistern Relief is refused: outside the relay quarter, the
/// outer Signal Road still closed, or a chain already under way.
pub open spec fn relief_start_refusal(s: CampaignState) -> Option<Failure> {
    if room_refusal(s, CampaignRoom::RelayQuarter) is Some {
        room_refusal(s, CampaignRoom::RelayQuarter)
    } else if !texts_view(s.world_flags@).contains("outer_signal_road_open"@) {
        Some(Failure::State(msg_road_closed()))
    } else if chain_active(s.quest_chain) {
        Some(Failure::State(msg_chain_active()))
    } else {
        None
    }
}

/// Why advancing Cistern Relief is refused: not in town, no chain under
/// way, outside the room of its current node, the node awaiting the choice
/// of relief plan or already complete, or the supplies not affordable.
pub open spec fn relief_advance_refusal(s: CampaignState) -> Option<Failure> {
    if s.phase != CampaignPhase::Town {
        Some(Failure::State(msg_not_in_town()))
    } else if !chain_active(s.quest_chain) {
        Some(Failure::State(msg_chain_inactive()))
    } else {
        let node = s.quest_chain->Some_0.current_node;
        if s.room != spec_node_room(node) {
            Some(Failure::State(msg_chain_room(spec_node_room(node))))
        } else if node == QuestChainNodeId::ChooseReliefPlan {
            Some(Failure::State(msg_choose_branch()))
        } else if node == QuestChainNodeId::ReliefComplete {
            Some(Failure::State(msg_relief_done()))
        } else if node == QuestChainNodeId::GatherSupplies && s.credits < CISTERN_SUPPLIES_COST {
            Some(Failure::State(msg_supplies_cost()))
        } else {
            None
        }
    }
}

/// Why choosing the relief plan is refused: outside the relay quarter, the
/// chain not awaiting its plan, or a plan already chosen.
pub open spec fn relief_choice_refusal(s: CampaignState) -> Option<Failure> {
    if room_refusal(s, CampaignRoom::RelayQuarter) is Some {
        room_refusal(s, CampaignRoom::RelayQuarter)
    } else if !(s.quest_chain matches Some(c) && !c.complete && c.current_node == QuestChainNodeId::ChooseReliefPlan) {
        Some(Failure::State(msg_not_awaiting_branch()))
    } else if s.quest_chain->Some_0.chosen_branch is Some {
        Some(Failure::State(msg_branch_chosen()))
    } else {
        None
    }
}

/// The credits after granting `rewards` in order, each credit reward added
/// with saturation.
pub open spec fn credits_after_rewards(credits: i64, rewards: Seq<ChainRewardView>) -> i64
    decreases rewards.len(),
{
    if rewards.len() == 0 {
        credits
    } else {
        let before = credits_after_rewards(credits, rewards.drop_last());
        match rewards.last() {
            ChainRewardView::Credits(amount) => sat_add_i64(before, amount),
            _ => before,
        }
    }
}

/// The reputation after granting `rewards` in order, with saturation.
pub open spec fn reputation_after_rewards(reputation: i32, rewards: Seq<ChainRewardView>) -> i32
    decreases rewards.len(),
{
    if rewards.len() == 0 {
        reputation
    } else {
        let before = reputation_after_rewards(reputation, rewards.drop_last());
        match rewards.last() {
            ChainRewardView::Reputation(amount) => sat_add_i32(before, amount),
            _ => before,
        }
    }
}

/// The world flags `rewards` set.
pub open spec fn chain_reward_flags(rewards: Seq<ChainRewardView>) -> Set<Seq<char>> {
    Set::new(|f: Seq<char>| exists|i: int| 0 <= i < rewards.len() && #[trigger] rewards[i] == ChainRewardView::WorldFlag(f))
}

fn add_sat_i64(a: i64, b: i64) -> (r: i64)
    ensures
        r == sat_add_i64(a, b),
{
    let sum: i128 = a as i128 + b as i128;
    if sum > i64::MAX as i128 {
        i64::MAX
    } else if sum < i64::MIN as i128 {
        i64::MIN
    } else {
        sum as i64
    }
}

fn add_sat_i32(a: i32, b: i32) -> (r: i32)
    ensures
        r == sat_add_i32(a, b),
{
    let sum: i64 = a as i64 + b as i64;
    if sum > i32::MAX as i64 {
        i32::MAX
    } else if sum < i32::MIN as i64 {
        i32::MIN
    } else {
        sum as i32
    }
}

impl CampaignState {
    /// Grants `rewards`: credits and reputation added with saturation, and
    /// world flags set. A trust reward belongs to an NPC relationship, which
    /// the campaign does not keep, so it grants nothing here.
    fn grant_chain_rewards(&mut self, rewards: &Vec<QuestChainReward>)
        ensures
            final(self).credits == credits_after_rewards(old(self).credits, rewards@.map_values(|x: QuestChainReward| x@)),
            final(self).reputation == reputation_after_rewards(old(self).reputation, rewards@.map_values(|x: QuestChainReward| x@)),
            texts_view(final(self).world_flags@).to_set() == texts_view(old(self).world_flags@).to_set()
                + chain_reward_flags(rewards@.map_values(|x: QuestChainReward| x@)),
            *final(self) == (CampaignState {
                credits: final(self).credits,
                reputation: final(self).reputation,
                world_flags: final(self).world_flags,
                ..*old(self)
            }),
    {
        let ghost all = rewards@.map_values(|x: QuestChainReward| x@);
        let mut i: usize = 0;
        while i < rewards.len()
            invariant
                i <= rewards@.len(),
                all == rewards@.map_values(|x: QuestChainReward| x@),
                self.credits == credits_after_rewards(old(self).credits, all.take(i as int)),
                self.reputation == reputation_after_rewards(old(self).reputation, all.take(i as int)),
                texts_view(self.world_flags@).to_set() == texts_view(old(self).world_flags@).to_set() + chain_reward_flags(all.take(i as int)),
                *self == (CampaignState {
                    credits: self.credits,
                    reputation: self.reputation,
                    world_flags: self.world_flags,
                    ..*old(self)
                }),
            decreases rewards@.len() - i,
        {
            let ghost prefix = all.take(i as int);
            let ghost next = all.take(i + 1);
            assert(next.drop_last() =~= prefix);
            assert(next.last() == rewards@[i as int]@);
            match &rewards[i] {
                QuestChainReward::Credits { amount } => {
                    self.credits = add_sat_i64(self.credits, *amount);
                },
                QuestChainReward::Reputation { amount } => {
                    self.reputation = add_sat_i32(self.reputation, *amount);
                },
                QuestChainReward::WorldFlag { flag } => {
                    insert_flag(&mut self.world_flags, flag.clone());
                },
                QuestChainReward::RelationshipTrust { .. } => {},
            }
            assert(chain_reward_flags(next) =~= chain_reward_flags(prefix) + match next.last() {
                ChainRewardView::WorldFlag(f) => set![f],
                _ => Set::empty(),
            }) by {
                assert forall|f: Seq<char>| chain_reward_flags(next).contains(f) implies (chain_reward_flags(prefix) + match next.last() {
                    ChainRewardView::WorldFlag(g) => set![g],
                    _ => Set::empty(),
                }).contains(f) by {
                    let j = choose|j: int| 0 <= j < next.len() && #[trigger] next[j] == ChainRewardView::WorldFlag(f);
                    if j < prefix.len() {
                        assert(prefix[j] == next[j]);
                    }
                }
                assert forall|f: Seq<char>| chain_reward_flags(prefix).contains(f) implies chain_reward_flags(next).contains(f) by {
                    let j = choose|j: int| 0 <= j < prefix.len() && #[trigger] prefix[j] == ChainRewardView::WorldFlag(f);
                    assert(next[j] == prefix[j]);
                }
                if let ChainRewardView::WorldFlag(g) = next.last() {
                    assert(next[next.len() - 1] == ChainRewardView::WorldFlag(g));
                }
            }
            i = i + 1;
        }
        assert(all.take(rewards@.len() as int) =~= all);
    }
}

/// A party member after one treatment (see `spec_treat`).
pub open spec fn treated(m: MemberView) -> MemberView {
    let t = spec_treat(InjuryState { injury_level: m.injury_level, available: m.available });
    MemberView { injury_level: t.injury_level, available: t.available, ..m }
}

fn injuries_of(party: &Vec<PartyBattleState>) -> (r: Vec<InjuryState>)
    ensures
        r@.len() == party@.len(),
        forall|i: int| 0 <= i < party@.len() ==> #[trigger] r@[i] == (InjuryState {
            injury_level: party@[i].injury_level,
            available: party@[i].available,
        }),
{
    let mut out: Vec<InjuryState> = Vec::new();
    let mut i: usize = 0;
    while i < party.len()
        invariant
            i <= party@.len(),
            out@.len() == i,
            forall|j: int| 0 <= j < i ==> #[trigger] out@[j] == (InjuryState {
                injury_level: party@[j].injury_level,
                available: party@[j].available,
            }),
        decreases party@.len() - i,
    {
        out.push(InjuryState { injury_level: party[i].injury_level, available: party[i].available });
        i = i + 1;
    }
    out
}

fn apply_injuries(party: &mut Vec<PartyBattleState>, injuries: &Vec<InjuryState>)
    requires
        injuries@.len() == old(party)@.len(),
    ensures
        final(party)@.len() == old(party)@.len(),
        forall|i: int| 0 <= i < old(party)@.len() ==> #[trigger] final(party)@[i] == (PartyBattleState {
            injury_level: injuries@[i].injury_level,
            available: injuries@[i].available,
            ..old(party)@[i]
        }),
{
    let mut i: usize = 0;
    while i < party.len()
        invariant
            i <= party@.len(),
            party@.len() == old(party)@.len(),
            injuries@.len() == party@.len(),
            forall|j: int| 0 <= j < i ==> #[trigger] party@[j] == (PartyBattleState {
                injury_level: injuries@[j].injury_level,
                available: injuries@[j].available,
                ..old(party)@[j]
            }),
            forall|j: int| i <= j < party@.len() ==> party@[j] == old(party)@[j],
        decreases party@.len() - i,
    {
        let m = PartyBattleState {
            unit_id: party[i].unit_id.clone(),
            persistent: party[i].persistent,
            available: injuries[i].available,
            experience: party[i].experience,
            veteran_rank: party[i].veteran_rank,
            confirmed_kills: party[i].confirmed_kills,
            injury_level: injuries[i].injury_level,
        };
        party.set(i, m);
        i = i + 1;
    }
}

impl CampaignState {
    /// Talks to the mentor in the mentor hall: the mentor is met, a locked
    /// First Contact quest becomes available, and the story's first step
    /// (meeting the mentor) is completed, moving on to securing First
    /// Contact.
    pub fn talk_to_mentor(&mut self) -> (r: Result<(), CampaignError>)
        requires
            old(self).revision < u64::MAX,
        ensures
            match mentor_talk_refusal(*old(self)) {
                Some(f) => (r matches Err(e) && e.is_failure(f)) && *final(self) == *old(self),
                None => {
                    &&& r is Ok
                    &&& story_step_completed(*old(self), *final(self), StoryStepId::MeetMentor, StoryStepId::SecureFirstContact)
                    &&& *final(self) == (CampaignState {
                        mentor_met: true,
                        quest_state: if old(self).quest_state == QuestState::Locked { QuestState::Available } else { old(self).quest_state },
                        revision: (old(self).revision + 1) as u64,
                        story: final(self).story,
                        world_flags: final(self).world_flags,
                        ..*old(self)
                    })
                },
            },
    {
        require_room(self.phase, self.room, CampaignRoom::MentorHall)?;
        let mut story = copy_story(&self.story);
        let mut flags = copy_texts(&self.world_flags);
        story.complete_step(StoryStepId::MeetMentor, StoryStepId::SecureFirstContact, true, &mut flags, self.aftershock_completions)?;
        self.story = story;
        self.world_flags = flags;
        self.mentor_met = true;
        if self.quest_state == QuestState::Locked {
            self.quest_state = QuestState::Available;
        }
        self.revision = self.revision + 1;
        Ok(())
    }

    /// Trains with the mentor in the mentor hall: the session's price (50
    /// credits, 40 more for each session already taken) is paid, at most
    /// two sessions are given, and the skill at position `skill` of the
    /// character's skills (the one the selected training path teaches; one
    /// past the last for a skill the character does not have yet) gains a
    /// session.
    pub fn train_with_mentor(&mut self, skill: usize) -> (r: Result<(), CampaignError>)
        requires
            old(self).revision < u64::MAX,
            skill <= old(self).skills@.len(),
            skill < old(self).skills@.len() ==> old(self).skills@[skill as int].experience + 125 <= u64::MAX,
        ensures
            match training_refusal(*old(self)) {
                Some(f) => (r matches Err(e) && e.is_failure(f)) && *final(self) == *old(self),
                None => {
                    &&& r is Ok
                    &&& final(self).skills@ == skills_after_training(old(self).skills@, skill as int)
                    &&& *final(self) == (CampaignState {
                        credits: (old(self).credits - spec_training_cost(old(self).mentor_training_sessions)) as i64,
                        mentor_training_sessions: (old(self).mentor_training_sessions + 1) as u8,
                        trained_with_mentor: true,
                        skills: final(self).skills,
                        revision: (old(self).revision + 1) as u64,
                        ..*old(self)
                    })
                },
            },
    {
        require_room(self.phase, self.room, CampaignRoom::MentorHall)?;
        let cost = plan_mentor_training(self.mentor_met, self.mentor_training_sessions, self.credits)?;
        let ghost before = self.skills@;
        if skill < self.skills.len() {
            let mut progress = SkillProgress { rank: self.skills[skill].rank, experience: self.skills[skill].experience };
            train_skill(&mut progress);
            self.skills.set(skill, progress);
        } else {
            let mut progress = SkillProgress { rank: 0, experience: 0 };
            train_skill(&mut progress);
            self.skills.push(progress);
        }
        assert(self.skills@ =~= skills_after_training(before, skill as int));
        self.credits = self.credits - cost;
        self.mentor_training_sessions = self.mentor_training_sessions + 1;
        self.trained_with_mentor = true;
        self.revision = self.revision + 1;
        Ok(())
    }

    /// At the expedition gate, selects the next way to prepare the
    /// expedition (immediate march, rested, supplied, shortcut, and round
    /// again) and answers it.
    pub fn cycle_expedition_preparation(&mut self) -> (r: Result<ExpeditionPreparation, CampaignError>)
        requires
            old(self).revision < u64::MAX,
        ensures
            match room_refusal(*old(self), CampaignRoom::ExpeditionGate) {
                Some(f) => (r matches Err(e) && e.is_failure(f)) && *final(self) == *old(self),
                None => {
                    let next = old(self).selected_expedition_preparation.spec_next();
                    &&& r == Ok::<ExpeditionPreparation, CampaignError>(next)
                    &&& *final(self) == (CampaignState {
                        selected_expedition_preparation: next,
                        revision: (old(self).revision + 1) as u64,
                        ..*old(self)
                    })
                },
            },
    {
        require_room(self.phase, self.room, CampaignRoom::ExpeditionGate)?;
        self.selected_expedition_preparation = self.selected_expedition_preparation.next();
        self.revision = self.revision + 1;
        Ok(self.selected_expedition_preparation)
    }

    /// Accepts the next campaign mission at the expedition gate, once the
    /// mentor is met and trained with and `weapon_equipped` (the character
    /// has a weapon): the mission `mission_for` names becomes active and its
    /// quest accepted.
    pub fn accept_first_contact_quest(&mut self, weapon_equipped: bool) -> (r: Result<(), CampaignError>)
        requires
            old(self).revision < u64::MAX,
        ensures
            match acceptance_refusal(*old(self), weapon_equipped) {
                Some(f) => (r matches Err(e) && e.is_failure(f)) && *final(self) == *old(self),
                None => {
                    &&& r is Ok
                    &&& *final(self) == (CampaignState {
                        active_mission: mission_for(*old(self))->Some_0,
                        quest_state: QuestState::Accepted,
                        revision: (old(self).revision + 1) as u64,
                        ..*old(self)
                    })
                },
            },
    {
        require_room(self.phase, self.room, CampaignRoom::ExpeditionGate)?;
        let flags = self.world_flags.as_slice();
        let mission = accept_campaign_mission(
            self.mentor_met,
            self.trained_with_mentor,
            weapon_equipped,
            self.quest_state,
            self.active_mission,
            has_flag(flags, "first_contact_secured"),
            self.aftershock_completions,
            has_flag(flags, "convoy_exodus_secured"),
            has_flag(flags, "mirror_siege_secured"),
        )?;
        self.active_mission = mission;
        self.quest_state = QuestState::Accepted;
        self.revision = self.revision + 1;
        Ok(())
    }
    /// Starts Cistern Relief in the relay quarter once the outer Signal Road
    /// is open and no chain is under way: the chain begins at surveying the
    /// damage, with nothing completed and no plan chosen.
    pub fn start_cistern_relief(&mut self) -> (r: Result<(), CampaignError>)
        requires
            old(self).revision < u64::MAX,
        ensures
            match relief_start_refusal(*old(self)) {
                Some(f) => (r matches Err(e) && e.is_failure(f)) && *final(self) == *old(self),
                None => {
                    &&& r is Ok
                    &&& final(self).quest_chain matches Some(c) && c.id == crate::quests::QuestChainId::CisternRelief
                        && c.current_node == QuestChainNodeId::SurveyDamage && c.chosen_branch is None
                        && c.completed_nodes@.len() == 0 && !c.complete
                    &&& *final(self) == (CampaignState {
                        quest_chain: final(self).quest_chain,
                        revision: (old(self).revision + 1) as u64,
                        ..*old(self)
                    })
                },
            },
    {
        let open = has_flag(self.world_flags.as_slice(), "outer_signal_road_open");
        crate::cistern::start_cistern_relief(&mut self.quest_chain, self.phase, self.room, open)?;
        self.revision = self.revision + 1;
        Ok(())
    }

    /// Advances Cistern Relief by one node in that node's room: surveying
    /// the damage (in the relay quarter) leads to gathering supplies, and
    /// gathering supplies (at the expedition gate) costs 40 credits and leads
    /// to the choice of relief plan; answers the new node.
    pub fn advance_cistern_relief(&mut self) -> (r: Result<QuestChainNodeId, CampaignError>)
        requires
            old(self).revision < u64::MAX,
        ensures
            match relief_advance_refusal(*old(self)) {
                Some(f) => (r matches Err(e) && e.is_failure(f)) && *final(self) == *old(self),
                None => {
                    let c = old(self).quest_chain->Some_0;
                    let node = c.current_node;
                    let next = if node == QuestChainNodeId::SurveyDamage {
                        QuestChainNodeId::GatherSupplies
                    } else {
                        QuestChainNodeId::ChooseReliefPlan
                    };
                    &&& r == Ok::<QuestChainNodeId, CampaignError>(next)
                    &&& final(self).quest_chain matches Some(after) && after.current_node == next
                        && after.completed_nodes@.to_set() == c.completed_nodes@.to_set().insert(node)
                        && after.id == c.id && after.chosen_branch == c.chosen_branch && after.complete == c.complete
                    &&& *final(self) == (CampaignState {
                        quest_chain: final(self).quest_chain,
                        credits: if node == QuestChainNodeId::GatherSupplies {
                            (old(self).credits - CISTERN_SUPPLIES_COST) as i64
                        } else {
                            old(self).credits
                        },
                        revision: (old(self).revision + 1) as u64,
                        ..*old(self)
                    })
                },
            },
    {
        let next = crate::cistern::advance_cistern_relief(&mut self.quest_chain, self.phase, self.room, &mut self.credits)?;
        self.revision = self.revision + 1;
        Ok(next)
    }

    /// Chooses how Cistern Relief ends, in the relay quarter, when the chain
    /// awaits its plan: the chain completes on `branch`, and the branch's
    /// rewards are granted (credits, reputation and world flags; see
    /// `grant_chain_rewards`). A plan is chosen once.
    pub fn choose_cistern_relief_branch(&mut self, branch: QuestBranch) -> (r: Result<(), CampaignError>)
        requires
            old(self).revision < u64::MAX,
        ensures
            match relief_choice_refusal(*old(self)) {
                Some(f) => (r matches Err(e) && e.is_failure(f)) && *final(self) == *old(self),
                None => {
                    let c = old(self).quest_chain->Some_0;
                    let rewards = spec_branch_rewards(branch);
                    &&& r is Ok
                    &&& final(self).quest_chain matches Some(after) && after.complete && after.chosen_branch == Some(branch)
                        && after.current_node == QuestChainNodeId::ReliefComplete && after.id == c.id
                        && after.completed_nodes@.to_set() == c.completed_nodes@.to_set()
                            .insert(QuestChainNodeId::ChooseReliefPlan).insert(QuestChainNodeId::ReliefComplete)
                    &&& final(self).credits == credits_after_rewards(old(self).credits, rewards)
                    &&& final(self).reputation == reputation_after_rewards(old(self).reputation, rewards)
                    &&& texts_view(final(self).world_flags@).to_set() == texts_view(old(self).world_flags@).to_set() + chain_reward_flags(rewards)
                    &&& *final(self) == (CampaignState {
                        quest_chain: final(self).quest_chain,
                        credits: final(self).credits,
                        reputation: final(self).reputation,
                        world_flags: final(self).world_flags,
                        revision: (old(self).revision + 1) as u64,
                        ..*old(self)
                    })
                },
            },
    {
        let rewards = crate::cistern::choose_cistern_relief_branch(&mut self.quest_chain, self.phase, self.room, branch)?;
        self.grant_chain_rewards(&rewards);
        self.revision = self.revision + 1;
        Ok(())
    }
    /// Waits `minutes` (30 minutes to 6 hours) in town: the clock moves on,
    /// the party recovers a point of stamina per half hour (up to 100), one
    /// more revision is counted, and the NPCs of `event`, the social event of
    /// the new time, meet (see `apply_social_event`).
    pub fn wait_in_town(&mut self, minutes: u32, event: &NpcSocialEvent) -> (r: Result<(), CampaignError>)
        requires
            old(self).revision < u64::MAX,
        ensures
            old(self).phase != CampaignPhase::Town ==> (r matches Err(e) && e.is_state(msg_not_in_town())) && *final(self) == *old(self),
            old(self).phase == CampaignPhase::Town && !(30 <= minutes <= 360)
                ==> (r matches Err(e) && e.is_state(msg_wait_range())) && *final(self) == *old(self),
            old(self).phase == CampaignPhase::Town && 30 <= minutes <= 360 ==> {
                let rested = CampaignState {
                    world_clock: spec_advance(old(self).world_clock, minutes),
                    expedition_supplies: crate::clock::ExpeditionSupplyState {
                        stamina: min_u8(old(self).expedition_supplies.stamina + minutes / 30, 100),
                        ..old(self).expedition_supplies
                    },
                    revision: (old(self).revision + 1) as u64,
                    ..*old(self)
                };
                &&& r is Ok
                &&& socialized(rested, *final(self), *event)
            },
    {
        crate::town::require_town(self.phase)?;
        let stamina = stamina_after_waiting(minutes, self.expedition_supplies.stamina)?;
        self.world_clock.advance(minutes);
        self.expedition_supplies.stamina = stamina;
        self.revision = self.revision + 1;
        self.apply_social_event(event);
        Ok(())
    }
    /// Treats the whole party once, in town: every member heals one injury
    /// level and is fit to deploy again below level 4. A field tonic kit is
    /// used if the inventory holds one; otherwise the clinic is paid (40
    /// credits, 25 for a Forge Master). A party without injuries, or an
    /// unaffordable clinic, is refused.
    pub fn heal_party(&mut self) -> (r: Result<(), CampaignError>)
        requires
            old(self).revision < u64::MAX,
        ensures
            ({
                let inv = stacks_view(old(self).inventory@);
                let tonic = find_consumable_from(inv, FIELD_TONIC_ITEM_ID@, 1, 0) >= 0;
                let cost = spec_clinic_cost(old(self).forge_master);
                if old(self).phase != CampaignPhase::Town {
                    (r matches Err(e) && e.is_state(msg_not_in_town())) && *final(self) == *old(self)
                } else if !(exists|i: int| 0 <= i < old(self).party@.len() && #[trigger] old(self).party@[i].injury_level > 0) {
                    (r matches Err(e) && e.is_state(msg_no_injuries())) && *final(self) == *old(self)
                } else if !tonic && old(self).credits < cost {
                    (r matches Err(e) && e.is_state(msg_clinic_cost(cost))) && *final(self) == *old(self)
                } else {
                    &&& r is Ok
                    &&& party_view(final(self).party@) == party_view(old(self).party@).map_values(|m: MemberView| treated(m))
                    &&& stacks_view(final(self).inventory@) == (if tonic {
                        spec_consume_loot(inv, FIELD_TONIC_ITEM_ID@, 1)->Some_0
                    } else {
                        keep_nonempty(inv)
                    })
                    &&& *final(self) == (CampaignState {
                        party: final(self).party,
                        inventory: final(self).inventory,
                        credits: if tonic { old(self).credits } else { (old(self).credits - cost) as i64 },
                        revision: (old(self).revision + 1) as u64,
                        ..*old(self)
                    })
                }
            }),
    {
        crate::town::require_town(self.phase)?;
        let mut injuries = injuries_of(&self.party);
        let ghost injured_before = injuries@;
        assert forall|i: int| 0 <= i < injuries@.len() implies
            (#[trigger] injuries@[i].injury_level > 0) == (self.party@[i].injury_level > 0) by {}
        let mut inventory = crate::settle::copy_stacks(&self.inventory);
        let mut credits = self.credits;
        proof {
            if exists|i: int| 0 <= i < self.party@.len() && #[trigger] self.party@[i].injury_level > 0 {
                let i = choose|i: int| 0 <= i < self.party@.len() && #[trigger] self.party@[i].injury_level > 0;
                assert(injuries@[i].injury_level > 0);
            }
        }
        crate::town::heal_party(&mut injuries, &mut inventory, &mut credits, self.forge_master)?;
        apply_injuries(&mut self.party, &injuries);
        assert(party_view(self.party@) =~= party_view(old(self).party@).map_values(|m: MemberView| treated(m)));
        self.inventory = inventory;
        self.credits = credits;
        self.revision = self.revision + 1;
        Ok(())
    }
}

} // verus!
