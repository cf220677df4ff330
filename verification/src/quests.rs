//! The authored story quest, the Cistern Relief quest chain, the campaign
//! journal, and the regional world records that quests read.

use vstd::prelude::*;
use crate::catalog::{CampaignMission, CampaignRoom};
use crate::quest_graph::{texts_view};
use crate::error::CampaignError;
use crate::text::str_eq;

verus! {

/// The main story quest line.
#[derive(Debug, Clone, Copy, Default, PartialEq, Eq, PartialOrd, Ord, Hash, Structural)]
pub enum StoryQuestId {
    #[default]
    SignalRoad,
}

/// The steps of the Signal Road quest, in order.
#[derive(Debug, Clone, Copy, Default, PartialEq, Eq, PartialOrd, Ord, Hash, Structural)]
pub enum StoryStepId {
    #[default]
    MeetMentor,
    SecureFirstContact,
    BreakAftershock,
    EvacuateConvoy,
    SignalRoadComplete,
}

#[derive(Debug, Clone, Copy, PartialEq, Eq, PartialOrd, Ord, Hash, Structural)]
pub enum QuestChainId {
    CisternRelief,
}

#[derive(Debug, Clone, Copy, PartialEq, Eq, PartialOrd, Ord, Hash, Structural)]
pub enum QuestChainNodeId {
    SurveyDamage,
    GatherSupplies,
    ChooseReliefPlan,
    ReliefComplete,
}

/// The two mutually exclusive resolutions of the Cistern Relief chain.
#[derive(Debug, Clone, Copy, PartialEq, Eq, PartialOrd, Ord, Hash, Structural)]
pub enum QuestBranch {
    ReinforceCistern,
    EvacuateFamilies,
}

/// What must hold before a chain node can be advanced.
#[derive(Debug, Clone, PartialEq, Eq)]
pub enum QuestChainCondition {
    WorldFlag { flag: String },
    MinimumCredits { credits: i64 },
    AtRoom { room: CampaignRoom },
}

/// What completing a chain node grants.
#[derive(Debug, Clone, PartialEq, Eq)]
pub enum QuestChainReward {
    Credits { amount: i64 },
    Reputation { amount: i32 },
    WorldFlag { flag: String },
    RelationshipTrust { npc_id: String, amount: i16 },
}

/// One node of a quest chain.
#[derive(Debug, Clone, PartialEq, Eq)]
pub struct QuestChainNodeDefinition {
    pub id: QuestChainNodeId,
    pub room: CampaignRoom,
    pub conditions: Vec<QuestChainCondition>,
    pub next: Vec<QuestChainNodeId>,
    pub branch: Option<QuestBranch>,
    pub rewards: Vec<QuestChainReward>,
}

/// An authored quest chain.
#[derive(Debug, Clone, PartialEq, Eq)]
pub struct QuestChainDefinition {
    pub id: QuestChainId,
    pub title: String,
    pub nodes: Vec<QuestChainNodeDefinition>,
}

/// A player's progress through a quest chain.
#[derive(Debug, Clone, PartialEq, Eq)]
pub struct QuestChainProgress {
    pub id: QuestChainId,
    pub current_node: QuestChainNodeId,
    pub chosen_branch: Option<QuestBranch>,
    pub completed_nodes: Vec<QuestChainNodeId>,
    pub complete: bool,
}

pub enum ChainConditionView {
    WorldFlag(Seq<char>),
    MinimumCredits(i64),
    AtRoom(CampaignRoom),
}

pub enum ChainRewardView {
    Credits(i64),
    Reputation(i32),
    WorldFlag(Seq<char>),
    RelationshipTrust(Seq<char>, i16),
}

impl View for QuestChainCondition {
    type V = ChainConditionView;

    open spec fn view(&self) -> ChainConditionView {
        match self {
            QuestChainCondition::WorldFlag { flag } => ChainConditionView::WorldFlag(flag@),
            QuestChainCondition::MinimumCredits { credits } => ChainConditionView::MinimumCredits(*credits),
            QuestChainCondition::AtRoom { room } => ChainConditionView::AtRoom(*room),
        }
    }
}

impl View for QuestChainReward {
    type V = ChainRewardView;

    open spec fn view(&self) -> ChainRewardView {
        match self {
            QuestChainReward::Credits { amount } => ChainRewardView::Credits(*amount),
            QuestChainReward::Reputation { amount } => ChainRewardView::Reputation(*amount),
            QuestChainReward::WorldFlag { flag } => ChainRewardView::WorldFlag(flag@),
            QuestChainReward::RelationshipTrust { npc_id, amount } => ChainRewardView::RelationshipTrust(npc_id@, *amount),
        }
    }
}

pub struct ChainNodeView {
    pub id: QuestChainNodeId,
    pub room: CampaignRoom,
    pub conditions: Seq<ChainConditionView>,
    pub next: Seq<QuestChainNodeId>,
    pub branch: Option<QuestBranch>,
    pub rewards: Seq<ChainRewardView>,
}

impl View for QuestChainNodeDefinition {
    type V = ChainNodeView;

    open spec fn view(&self) -> ChainNodeView {
        ChainNodeView {
            id: self.id,
            room: self.room,
            conditions: self.conditions@.map_values(|c: QuestChainCondition| c@),
            next: self.next@,
            branch: self.branch,
            rewards: self.rewards@.map_values(|r: QuestChainReward| r@),
        }
    }
}

pub struct ChainDefinitionView {
    pub id: QuestChainId,
    pub title: Seq<char>,
    pub nodes: Seq<ChainNodeView>,
}

impl View for QuestChainDefinition {
    type V = ChainDefinitionView;

    open spec fn view(&self) -> ChainDefinitionView {
        ChainDefinitionView {
            id: self.id,
            title: self.title@,
            nodes: self.nodes@.map_values(|n: QuestChainNodeDefinition| n@),
        }
    }
}

/// The authored Cistern Relief chain: survey the damage once the outer
/// signal road is open, gather supplies with at least 40 credits, choose a
/// relief plan in the relay quarter, and complete it along one of two
/// branches with different rewards.
pub open spec fn spec_cistern_relief_chain() -> ChainDefinitionView {
    ChainDefinitionView {
        id: QuestChainId::CisternRelief,
        title: "Signal Cistern Relief"@,
        nodes: seq![
            ChainNodeView {
                id: QuestChainNodeId::SurveyDamage,
                room: CampaignRoom::RelayQuarter,
                conditions: seq![ChainConditionView::WorldFlag("outer_signal_road_open"@)],
                next: seq![QuestChainNodeId::GatherSupplies],
                branch: None,
                rewards: Seq::empty(),
            },
            ChainNodeView {
                id: QuestChainNodeId::GatherSupplies,
                room: CampaignRoom::ExpeditionGate,
                conditions: seq![ChainConditionView::MinimumCredits(40)],
                next: seq![QuestChainNodeId::ChooseReliefPlan],
                branch: None,
                rewards: Seq::empty(),
            },
            ChainNodeView {
                id: QuestChainNodeId::ChooseReliefPlan,
                room: CampaignRoom::RelayQuarter,
                conditions: seq![ChainConditionView::AtRoom(CampaignRoom::RelayQuarter)],
                next: seq![QuestChainNodeId::ReliefComplete],
                branch: None,
                rewards: Seq::empty(),
            },
            ChainNodeView {
                id: QuestChainNodeId::ReliefComplete,
                room: CampaignRoom::RelayQuarter,
                conditions: Seq::empty(),
                next: Seq::empty(),
                branch: Some(QuestBranch::ReinforceCistern),
                rewards: seq![
                    ChainRewardView::Reputation(4),
                    ChainRewardView::RelationshipTrust("relay-smith-brann"@, 3),
                    ChainRewardView::WorldFlag("cistern_reinforced"@),
                ],
            },
            ChainNodeView {
                id: QuestChainNodeId::ReliefComplete,
                room: CampaignRoom::RelayQuarter,
                conditions: Seq::empty(),
                next: Seq::empty(),
                branch: Some(QuestBranch::EvacuateFamilies),
                rewards: seq![
                    ChainRewardView::Credits(35),
                    ChainRewardView::Reputation(2),
                    ChainRewardView::WorldFlag("cistern_families_evacuated"@),
                ],
            },
        ],
    }
}

fn chain_node(
    id: QuestChainNodeId,
    room: CampaignRoom,
    conditions: Vec<QuestChainCondition>,
    next: Vec<QuestChainNodeId>,
    branch: Option<QuestBranch>,
    rewards: Vec<QuestChainReward>,
) -> (r: QuestChainNodeDefinition)
    ensures
        r@ == (ChainNodeView {
            id,
            room,
            conditions: conditions@.map_values(|c: QuestChainCondition| c@),
            next: next@,
            branch,
            rewards: rewards@.map_values(|r: QuestChainReward| r@),
        }),
{
    QuestChainNodeDefinition { id, room, conditions, next, branch, rewards }
}

pub fn cistern_relief_quest_chain_definition() -> (r: QuestChainDefinition)
    ensures
        r@ == spec_cistern_relief_chain(),
{
    let survey_conditions = vec![QuestChainCondition::WorldFlag { flag: "outer_signal_road_open".to_owned() }];
    assert(survey_conditions@.map_values(|c: QuestChainCondition| c@) =~= seq![ChainConditionView::WorldFlag("outer_signal_road_open"@)]);
    let survey = chain_node(QuestChainNodeId::SurveyDamage, CampaignRoom::RelayQuarter, survey_conditions,
        vec![QuestChainNodeId::GatherSupplies], None, Vec::new());
    let gather_conditions = vec![QuestChainCondition::MinimumCredits { credits: 40 }];
    assert(gather_conditions@.map_values(|c: QuestChainCondition| c@) =~= seq![ChainConditionView::MinimumCredits(40)]);
    let gather = chain_node(QuestChainNodeId::GatherSupplies, CampaignRoom::ExpeditionGate, gather_conditions,
        vec![QuestChainNodeId::ChooseReliefPlan], None, Vec::new());
    let choose_conditions = vec![QuestChainCondition::AtRoom { room: CampaignRoom::RelayQuarter }];
    assert(choose_conditions@.map_values(|c: QuestChainCondition| c@) =~= seq![ChainConditionView::AtRoom(CampaignRoom::RelayQuarter)]);
    let choose = chain_node(QuestChainNodeId::ChooseReliefPlan, CampaignRoom::RelayQuarter, choose_conditions,
        vec![QuestChainNodeId::ReliefComplete], None, Vec::new());
    let reinforce_rewards = vec![
        QuestChainReward::Reputation { amount: 4 },
        QuestChainReward::RelationshipTrust { npc_id: "relay-smith-brann".to_owned(), amount: 3 },
        QuestChainReward::WorldFlag { flag: "cistern_reinforced".to_owned() },
    ];
    assert(reinforce_rewards@.map_values(|r: QuestChainReward| r@) =~= seq![
        ChainRewardView::Reputation(4),
        ChainRewardView::RelationshipTrust("relay-smith-brann"@, 3),
        ChainRewardView::WorldFlag("cistern_reinforced"@),
    ]);
    let reinforce = chain_node(QuestChainNodeId::ReliefComplete, CampaignRoom::RelayQuarter, Vec::new(),
        Vec::new(), Some(QuestBranch::ReinforceCistern), reinforce_rewards);
    let evacuate_rewards = vec![
        QuestChainReward::Credits { amount: 35 },
        QuestChainReward::Reputation { amount: 2 },
        QuestChainReward::WorldFlag { flag: "cistern_families_evacuated".to_owned() },
    ];
    assert(evacuate_rewards@.map_values(|r: QuestChainReward| r@) =~= seq![
        ChainRewardView::Credits(35),
        ChainRewardView::Reputation(2),
        ChainRewardView::WorldFlag("cistern_families_evacuated"@),
    ]);
    let evacuate = chain_node(QuestChainNodeId::ReliefComplete, CampaignRoom::RelayQuarter, Vec::new(),
        Vec::new(), Some(QuestBranch::EvacuateFamilies), evacuate_rewards);
    let r = QuestChainDefinition {
        id: QuestChainId::CisternRelief,
        title: "Signal Cistern Relief".to_owned(),
        nodes: vec![survey, gather, choose, reinforce, evacuate],
    };
    assert(r@.nodes[0].conditions =~= spec_cistern_relief_chain().nodes[0].conditions);
    assert(r@.nodes[0].next =~= spec_cistern_relief_chain().nodes[0].next);
    assert(r@.nodes[0].rewards =~= spec_cistern_relief_chain().nodes[0].rewards);
    assert(r@.nodes[1].next =~= spec_cistern_relief_chain().nodes[1].next);
    assert(r@.nodes[1].rewards =~= spec_cistern_relief_chain().nodes[1].rewards);
    assert(r@.nodes[2].next =~= spec_cistern_relief_chain().nodes[2].next);
    assert(r@.nodes[2].rewards =~= spec_cistern_relief_chain().nodes[2].rewards);
    assert(r@.nodes[3].conditions =~= spec_cistern_relief_chain().nodes[3].conditions);
    assert(r@.nodes[3].next =~= spec_cistern_relief_chain().nodes[3].next);
    assert(r@.nodes[4].conditions =~= spec_cistern_relief_chain().nodes[4].conditions);
    assert(r@.nodes[4].next =~= spec_cistern_relief_chain().nodes[4].next);
    assert(r@.nodes =~= spec_cistern_relief_chain().nodes);
    r
}

/// What unlocks a step of the story quest.
#[derive(Debug, Clone, PartialEq, Eq)]
pub enum UnlockCondition {
    MentorMet,
    WorldFlag { flag: String },
    MissionVictories { mission: CampaignMission, count: u32 },
}

/// What completing a story step grants.
#[derive(Debug, Clone, PartialEq, Eq)]
pub enum QuestReward {
    WorldFlag { flag: String },
    UnlockRoom { room: CampaignRoom },
}

/// One step of the story quest.
#[derive(Debug, Clone, PartialEq, Eq)]
pub struct QuestStepDefinition {
    pub id: StoryStepId,
    pub mission: Option<CampaignMission>,
    pub conditions: Vec<UnlockCondition>,
    pub rewards: Vec<QuestReward>,
}

/// An authored story quest.
#[derive(Debug, Clone, PartialEq, Eq)]
pub struct QuestDefinition {
    pub id: StoryQuestId,
    pub title: String,
    pub steps: Vec<QuestStepDefinition>,
}

pub enum UnlockConditionView {
    MentorMet,
    WorldFlag(Seq<char>),
    MissionVictories(CampaignMission, u32),
}

pub enum QuestRewardView {
    WorldFlag(Seq<char>),
    UnlockRoom(CampaignRoom),
}

impl View for UnlockCondition {
    type V = UnlockConditionView;

    open spec fn view(&self) -> UnlockConditionView {
        match self {
            UnlockCondition::MentorMet => UnlockConditionView::MentorMet,
            UnlockCondition::WorldFlag { flag } => UnlockConditionView::WorldFlag(flag@),
            UnlockCondition::MissionVictories { mission, count } => UnlockConditionView::MissionVictories(*mission, *count),
        }
    }
}

impl View for QuestReward {
    type V = QuestRewardView;

    open spec fn view(&self) -> QuestRewardView {
        match self {
            QuestReward::WorldFlag { flag } => QuestRewardView::WorldFlag(flag@),
            QuestReward::UnlockRoom { room } => QuestRewardView::UnlockRoom(*room),
        }
    }
}

pub struct QuestStepView {
    pub id: StoryStepId,
    pub mission: Option<CampaignMission>,
    pub conditions: Seq<UnlockConditionView>,
    pub rewards: Seq<QuestRewardView>,
}

impl View for QuestStepDefinition {
    type V = QuestStepView;

    open spec fn view(&self) -> QuestStepView {
        QuestStepView {
            id: self.id,
            mission: self.mission,
            conditions: self.conditions@.map_values(|c: UnlockCondition| c@),
            rewards: self.rewards@.map_values(|r: QuestReward| r@),
        }
    }
}

pub struct QuestDefinitionView {
    pub id: StoryQuestId,
    pub title: Seq<char>,
    pub steps: Seq<QuestStepView>,
}

impl View for QuestDefinition {
    type V = QuestDefinitionView;

    open spec fn view(&self) -> QuestDefinitionView {
        QuestDefinitionView {
            id: self.id,
            title: self.title@,
            steps: self.steps@.map_values(|s: QuestStepDefinition| s@),
        }
    }
}

/// The authored Signal Road quest: meeting the mentor opens the expedition
/// gate, First Contact secures the road, an Aftershock Patrol victory opens
/// the relay quarter, and the convoy exodus opens the outer signal road.
pub open spec fn spec_signal_road_quest() -> QuestDefinitionView {
    QuestDefinitionView {
        id: StoryQuestId::SignalRoad,
        title: "信号之路"@,
        steps: seq![
            QuestStepView {
                id: StoryStepId::MeetMentor,
                mission: None,
                conditions: seq![UnlockConditionView::MentorMet],
                rewards: seq![
                    QuestRewardView::WorldFlag("expedition_gate_open"@),
                    QuestRewardView::UnlockRoom(CampaignRoom::ExpeditionGate),
                ],
            },
            QuestStepView {
                id: StoryStepId::SecureFirstContact,
                mission: Some(CampaignMission::FirstContact),
                conditions: seq![UnlockConditionView::WorldFlag("first_contact_secured"@)],
                rewards: Seq::empty(),
            },
            QuestStepView {
                id: StoryStepId::BreakAftershock,
                mission: Some(CampaignMission::AftershockPatrol),
                conditions: seq![UnlockConditionView::MissionVictories(CampaignMission::AftershockPatrol, 1)],
                rewards: seq![
                    QuestRewardView::WorldFlag("signal_road_secured"@),
                    QuestRewardView::UnlockRoom(CampaignRoom::RelayQuarter),
                ],
            },
            QuestStepView {
                id: StoryStepId::EvacuateConvoy,
                mission: Some(CampaignMission::ConvoyExodus),
                conditions: seq![UnlockConditionView::WorldFlag("convoy_exodus_secured"@)],
                rewards: seq![QuestRewardView::WorldFlag("outer_signal_road_open"@)],
            },
        ],
    }
}

fn quest_step(
    id: StoryStepId,
    mission: Option<CampaignMission>,
    conditions: Vec<UnlockCondition>,
    rewards: Vec<QuestReward>,
) -> (r: QuestStepDefinition)
    ensures
        r@ == (QuestStepView {
            id,
            mission,
            conditions: conditions@.map_values(|c: UnlockCondition| c@),
            rewards: rewards@.map_values(|r: QuestReward| r@),
        }),
{
    QuestStepDefinition { id, mission, conditions, rewards }
}

pub fn signal_road_quest_definition() -> (r: QuestDefinition)
    ensures
        r@ == spec_signal_road_quest(),
{
    let ghost spec = spec_signal_road_quest();
    let c0 = vec![UnlockCondition::MentorMet];
    let r0 = vec![
        QuestReward::WorldFlag { flag: "expedition_gate_open".to_owned() },
        QuestReward::UnlockRoom { room: CampaignRoom::ExpeditionGate },
    ];
    assert(c0@.map_values(|c: UnlockCondition| c@) =~= spec.steps[0].conditions);
    assert(r0@.map_values(|r: QuestReward| r@) =~= spec.steps[0].rewards);
    let s0 = quest_step(StoryStepId::MeetMentor, None, c0, r0);
    let c1 = vec![UnlockCondition::WorldFlag { flag: "first_contact_secured".to_owned() }];
    let r1: Vec<QuestReward> = Vec::new();
    assert(c1@.map_values(|c: UnlockCondition| c@) =~= spec.steps[1].conditions);
    assert(r1@.map_values(|r: QuestReward| r@) =~= spec.steps[1].rewards);
    let s1 = quest_step(StoryStepId::SecureFirstContact, Some(CampaignMission::FirstContact), c1, r1);
    let c2 = vec![UnlockCondition::MissionVictories { mission: CampaignMission::AftershockPatrol, count: 1 }];
    let r2 = vec![
        QuestReward::WorldFlag { flag: "signal_road_secured".to_owned() },
        QuestReward::UnlockRoom { room: CampaignRoom::RelayQuarter },
    ];
    assert(c2@.map_values(|c: UnlockCondition| c@) =~= spec.steps[2].conditions);
    assert(r2@.map_values(|r: QuestReward| r@) =~= spec.steps[2].rewards);
    let s2 = quest_step(StoryStepId::BreakAftershock, Some(CampaignMission::AftershockPatrol), c2, r2);
    let c3 = vec![UnlockCondition::WorldFlag { flag: "convoy_exodus_secured".to_owned() }];
    let r3 = vec![QuestReward::WorldFlag { flag: "outer_signal_road_open".to_owned() }];
    assert(c3@.map_values(|c: UnlockCondition| c@) =~= spec.steps[3].conditions);
    assert(r3@.map_values(|r: QuestReward| r@) =~= spec.steps[3].rewards);
    let s3 = quest_step(StoryStepId::EvacuateConvoy, Some(CampaignMission::ConvoyExodus), c3, r3);
    let r = QuestDefinition { id: StoryQuestId::SignalRoad, title: "信号之路".to_owned(), steps: vec![s0, s1, s2, s3] };
    assert(r@.steps =~= spec.steps);
    r
}

/// The world flag that records a victory in `mission`; Aftershock Patrol
/// victories are counted instead.
pub open spec fn spec_victory_flag(mission: CampaignMission) -> Option<Seq<char>> {
    match mission {
        CampaignMission::FirstContact => Some("first_contact_secured"@),
        CampaignMission::AftershockPatrol => None,
        CampaignMission::ConvoyExodus => Some("convoy_exodus_secured"@),
        CampaignMission::MirrorSiege => Some("mirror_siege_secured"@),
        CampaignMission::IronDeltaSkirmish => Some("iron_delta_won"@),
        CampaignMission::NightWatchCrossingSkirmish => Some("night_watch_crossing_won"@),
        CampaignMission::GlassBasinSkirmish => Some("glass_basin_won"@),
        CampaignMission::EmberOrchardSkirmish => Some("ember_orchard_won"@),
        CampaignMission::SaltMarshSkirmish => Some("salt_marsh_won"@),
        CampaignMission::CinderCrownSkirmish => Some("cinder_crown_won"@),
    }
}

/// Whether a story step condition holds: the mentor was met, a world flag
/// is set, or the mission was won. Aftershock Patrol counts its victories;
/// every other mission is won once its victory flag is set.
pub open spec fn spec_condition_met(c: UnlockConditionView, mentor_met: bool, flags: Seq<Seq<char>>, aftershock_completions: u32) -> bool {
    match c {
        UnlockConditionView::MentorMet => mentor_met,
        UnlockConditionView::WorldFlag(flag) => flags.contains(flag),
        UnlockConditionView::MissionVictories(mission, count) => match spec_victory_flag(mission) {
            None => aftershock_completions >= count,
            Some(flag) => flags.contains(flag),
        },
    }
}

pub(crate) fn has_flag(flags: &[String], flag: &str) -> (r: bool)
    ensures
        r == texts_view(flags@).contains(flag@),
{
    let mut i: usize = 0;
    while i < flags.len()
        invariant
            i <= flags@.len(),
            forall|j: int| 0 <= j < i ==> flags@[j]@ != flag@,
        decreases flags@.len() - i,
    {
        if str_eq(flags[i].as_str(), flag) {
            assert(texts_view(flags@)[i as int] == flag@);
            return true;
        }
        i = i + 1;
    }
    assert forall|j: int| 0 <= j < texts_view(flags@).len() implies texts_view(flags@)[j] != flag@ by {
        assert(texts_view(flags@)[j] == flags@[j]@);
    }
    false
}

impl UnlockCondition {
    pub fn is_met(&self, mentor_met: bool, world_flags: &[String], aftershock_completions: u32) -> (r: bool)
        ensures
            r == spec_condition_met(self@, mentor_met, texts_view(world_flags@), aftershock_completions),
    {
        match self {
            UnlockCondition::MentorMet => mentor_met,
            UnlockCondition::WorldFlag { flag } => has_flag(world_flags, flag.as_str()),
            UnlockCondition::MissionVictories { mission, count } => match mission {
                CampaignMission::FirstContact => has_flag(world_flags, "first_contact_secured"),
                CampaignMission::AftershockPatrol => aftershock_completions >= *count,
                CampaignMission::ConvoyExodus => has_flag(world_flags, "convoy_exodus_secured"),
                CampaignMission::MirrorSiege => has_flag(world_flags, "mirror_siege_secured"),
                CampaignMission::IronDeltaSkirmish => has_flag(world_flags, "iron_delta_won"),
                CampaignMission::NightWatchCrossingSkirmish => has_flag(world_flags, "night_watch_crossing_won"),
                CampaignMission::GlassBasinSkirmish => has_flag(world_flags, "glass_basin_won"),
                CampaignMission::EmberOrchardSkirmish => has_flag(world_flags, "ember_orchard_won"),
                CampaignMission::SaltMarshSkirmish => has_flag(world_flags, "salt_marsh_won"),
                CampaignMission::CinderCrownSkirmish => has_flag(world_flags, "cinder_crown_won"),
            },
        }
    }
}

/// The player's position in the story quest.
#[derive(Debug, Clone, PartialEq, Eq)]
pub struct StoryProgress {
    pub quest_id: StoryQuestId,
    pub current_step: StoryStepId,
    pub completed_steps: Vec<StoryStepId>,
    pub unlocked_rooms: Vec<CampaignRoom>,
}

impl Default for StoryProgress {
    /// A new story starts at the mentor with the town's nine starting rooms open.
    fn default() -> (r: Self)
        ensures
            r.quest_id == StoryQuestId::SignalRoad,
            r.current_step == StoryStepId::MeetMentor,
            r.completed_steps@.len() == 0,
            r.unlocked_rooms@ == seq![
                CampaignRoom::MirrorSquare,
                CampaignRoom::MentorHall,
                CampaignRoom::CisternWard,
                CampaignRoom::NightWatchPost,
                CampaignRoom::WorkshopGate,
                CampaignRoom::MarketWindPavilion,
                CampaignRoom::LanternInfirmary,
                CampaignRoom::ArchiveSteps,
                CampaignRoom::CaravanYard,
            ],
    {
        let rooms = vec![
            CampaignRoom::MirrorSquare,
            CampaignRoom::MentorHall,
            CampaignRoom::CisternWard,
            CampaignRoom::NightWatchPost,
            CampaignRoom::WorkshopGate,
            CampaignRoom::MarketWindPavilion,
            CampaignRoom::LanternInfirmary,
            CampaignRoom::ArchiveSteps,
            CampaignRoom::CaravanYard,
        ];
        Self {
            quest_id: StoryQuestId::SignalRoad,
            current_step: StoryStepId::MeetMentor,
            completed_steps: Vec::new(),
            unlocked_rooms: rooms,
        }
    }
}

#[derive(Debug, Clone, Copy, PartialEq, Eq, PartialOrd, Ord, Hash, Structural)]
pub enum CampaignJournalId {
    SignalRoad,
    CisternRelief,
    Mastery,
}

#[derive(Debug, Clone, Copy, PartialEq, Eq, Hash, Structural)]
pub enum CampaignJournalState {
    Locked,
    Available,
    Active,
    Completed,
    Failed,
}

/// One goal shown in the campaign journal.
#[derive(Debug, Clone, PartialEq, Eq)]
pub struct CampaignJournalEntry {
    pub id: CampaignJournalId,
    pub title: String,
    pub state: CampaignJournalState,
    pub objective: String,
    pub next_room: Option<CampaignRoom>,
}

/// A conversation line an NPC spoke to the player.
#[derive(Debug, Clone, PartialEq, Eq)]
pub struct NpcConversationRecord {
    pub npc_id: String,
    pub line: String,
    pub activity: String,
    pub day: u32,
    pub minute_of_day: u16,
}

/// A scheduled social event between two NPCs.
#[derive(Debug, Clone, PartialEq, Eq)]
pub struct NpcSocialEventRecord {
    pub event_id: String,
    pub first_npc_id: String,
    pub second_npc_id: String,
    pub room_id: String,
    pub text: String,
    pub day: u32,
    pub minute_of_day: u16,
}

/// What an NPC remembers: the texts of its latest meetings, oldest first.
#[derive(Debug, Clone, PartialEq, Eq)]
pub struct NpcMemory {
    pub npc_id: String,
    pub lines: Vec<String>,
}

pub struct MemoryView {
    pub npc_id: Seq<char>,
    pub lines: Seq<Seq<char>>,
}

impl View for NpcMemory {
    type V = MemoryView;

    open spec fn view(&self) -> MemoryView {
        MemoryView { npc_id: self.npc_id@, lines: texts_view(self.lines@) }
    }
}

/// The memories as plain values.
pub open spec fn memories_view(m: Seq<NpcMemory>) -> Seq<MemoryView> {
    m.map_values(|x: NpcMemory| x@)
}

/// Goods moved between two regional markets.
#[derive(Debug, Clone, PartialEq, Eq)]
pub struct RegionalMarketTransfer {
    pub item_id: String,
    pub from_region_id: String,
    pub to_region_id: String,
    pub quantity: u16,
    pub day: u32,
}

#[derive(Debug, Clone, Copy, PartialEq, Eq, Hash, Structural)]
pub enum NpcAutonomousGoalKind {
    Produce,
    Migrate,
    FormAlliance,
    ResolveConflict,
    PublishTask,
}

/// A goal an NPC pursues on its own.
#[derive(Debug, Clone, PartialEq, Eq)]
pub struct NpcAutonomousGoal {
    pub kind: NpcAutonomousGoalKind,
    pub target_id: String,
    pub region_id: String,
    pub progress: u16,
}

/// A caravan moving goods along a route of rooms.
#[derive(Debug, Clone, PartialEq, Eq)]
pub struct RegionalCaravanState {
    pub caravan_id: String,
    pub item_id: String,
    pub from_region_id: String,
    pub to_region_id: String,
    pub quantity: u16,
    pub progress_legs: u8,
    pub risk: u8,
    pub route_room_ids: Vec<String>,
    pub route_index: usize,
    pub integrity: u8,
    pub guarded_by_player: bool,
    pub incident: Option<String>,
}

/// The integrity of a caravan saved before integrity was recorded.
pub fn default_caravan_integrity() -> (r: u8)
    ensures
        r == 100,
{
    100
}

impl RegionalCaravanState {
    /// The room the caravan is in, if its route index is on the route.
    pub fn current_room_id(&self) -> (r: Option<&str>)
        ensures
            match r {
                Some(s) => self.route_index < self.route_room_ids@.len()
                    && s@ == self.route_room_ids@[self.route_index as int]@,
                None => self.route_index >= self.route_room_ids@.len(),
            },
    {
        if self.route_index < self.route_room_ids.len() {
            Some(self.route_room_ids[self.route_index].as_str())
        } else {
            None
        }
    }
}

/// The position of a step in the story quest's definition; -1 for a step
/// the quest does not define.
pub open spec fn spec_step_index(id: StoryStepId) -> int {
    match id {
        StoryStepId::MeetMentor => 0,
        StoryStepId::SecureFirstContact => 1,
        StoryStepId::BreakAftershock => 2,
        StoryStepId::EvacuateConvoy => 3,
        StoryStepId::SignalRoadComplete => -1,
    }
}

/// The name of a step as it appears in error messages.
pub open spec fn spec_step_name(id: StoryStepId) -> Seq<char> {
    match id {
        StoryStepId::MeetMentor => "MeetMentor"@,
        StoryStepId::SecureFirstContact => "SecureFirstContact"@,
        StoryStepId::BreakAftershock => "BreakAftershock"@,
        StoryStepId::EvacuateConvoy => "EvacuateConvoy"@,
        StoryStepId::SignalRoadComplete => "SignalRoadComplete"@,
    }
}

fn step_name(id: StoryStepId) -> (r: &'static str)
    ensures
        r@ == spec_step_name(id),
{
    match id {
        StoryStepId::MeetMentor => "MeetMentor",
        StoryStepId::SecureFirstContact => "SecureFirstContact",
        StoryStepId::BreakAftershock => "BreakAftershock",
        StoryStepId::EvacuateConvoy => "EvacuateConvoy",
        StoryStepId::SignalRoadComplete => "SignalRoadComplete",
    }
}

/// The world flags a step's rewards set.
pub open spec fn reward_flags(rewards: Seq<QuestRewardView>) -> Set<Seq<char>> {
    Set::new(|f: Seq<char>| exists|i: int| 0 <= i < rewards.len() && rewards[i] == QuestRewardView::WorldFlag(f))
}

/// The rooms a step's rewards unlock.
pub open spec fn reward_rooms(rewards: Seq<QuestRewardView>) -> Set<CampaignRoom> {
    Set::new(|r: CampaignRoom| exists|i: int| 0 <= i < rewards.len() && rewards[i] == QuestRewardView::UnlockRoom(r))
}

pub open spec fn msg_missing_step(id: StoryStepId) -> Seq<char> {
    "missing story step definition: "@ + spec_step_name(id)
}

pub open spec fn msg_step_conditions(id: StoryStepId) -> Seq<char> {
    "story step conditions are not met: "@ + spec_step_name(id)
}

/// Adds `flag` to `flags` unless it is already there.
pub(crate) fn insert_flag(flags: &mut Vec<String>, flag: String)
    ensures
        texts_view(final(flags)@).to_set() == texts_view(old(flags)@).to_set().insert(flag@),
        final(flags)@ == if texts_view(old(flags)@).contains(flag@) { old(flags)@ } else { old(flags)@.push(flag) },
{
    if has_flag(flags, flag.as_str()) {
        assert(texts_view(flags@).to_set() =~= texts_view(flags@).to_set().insert(flag@));
        return;
    }
    let ghost before = texts_view(flags@);
    flags.push(flag);
    assert(texts_view(flags@) =~= before.push(flag@));
    assert(texts_view(flags@).to_set() =~= before.to_set().insert(flag@)) by {
        assert forall|x: Seq<char>| texts_view(flags@).to_set().contains(x) <==> before.to_set().insert(flag@).contains(x) by {
            if before.contains(x) {
                let j = choose|j: int| 0 <= j < before.len() && before[j] == x;
                assert(texts_view(flags@)[j] == x);
            }
            if x == flag@ {
                assert(texts_view(flags@)[before.len() as int] == x);
            }
        }
    }
}

pub(crate) fn insert_room(rooms: &mut Vec<CampaignRoom>, room: CampaignRoom)
    ensures
        final(rooms)@.to_set() == old(rooms)@.to_set().insert(room),
        final(rooms)@ == if old(rooms)@.contains(room) { old(rooms)@ } else { old(rooms)@.push(room) },
{
    let mut i: usize = 0;
    while i < rooms.len()
        invariant
            i <= rooms@.len(),
            forall|j: int| 0 <= j < i ==> rooms@[j] != room,
        decreases rooms@.len() - i,
    {
        if rooms[i] == room {
            assert(rooms@.to_set() =~= rooms@.to_set().insert(room));
            assert(rooms@.contains(room));
            return;
        }
        i = i + 1;
    }
    let ghost before = rooms@;
    rooms.push(room);
    assert(rooms@.to_set() =~= before.to_set().insert(room)) by {
        assert forall|x: CampaignRoom| rooms@.to_set().contains(x) <==> before.to_set().insert(room).contains(x) by {
            if before.contains(x) {
                let j = choose|j: int| 0 <= j < before.len() && before[j] == x;
                assert(rooms@[j] == x);
            }
            if x == room {
                assert(rooms@[before.len() as int] == x);
            }
        }
    }
}

fn insert_step(steps: &mut Vec<StoryStepId>, step: StoryStepId)
    ensures
        final(steps)@.to_set() == old(steps)@.to_set().insert(step),
{
    let mut i: usize = 0;
    while i < steps.len()
        invariant
            i <= steps@.len(),
            forall|j: int| 0 <= j < i ==> steps@[j] != step,
        decreases steps@.len() - i,
    {
        if steps[i] == step {
            assert(steps@.to_set() =~= steps@.to_set().insert(step));
            return;
        }
        i = i + 1;
    }
    let ghost before = steps@;
    steps.push(step);
    assert(steps@.to_set() =~= before.to_set().insert(step)) by {
        assert forall|x: StoryStepId| steps@.to_set().contains(x) <==> before.to_set().insert(step).contains(x) by {
            if before.contains(x) {
                let j = choose|j: int| 0 <= j < before.len() && before[j] == x;
                assert(steps@[j] == x);
            }
            if x == step {
                assert(steps@[before.len() as int] == x);
            }
        }
    }
}

impl StoryProgress {
    /// Completes story step `step_id` and moves the story to `next_step`,
    /// provided the quest defines the step and all its conditions hold;
    /// the step's rewards set their world flags and unlock their rooms.
    /// A refused step changes nothing.
    pub fn complete_step(
        &mut self,
        step_id: StoryStepId,
        next_step: StoryStepId,
        mentor_met: bool,
        world_flags: &mut Vec<String>,
        aftershock_completions: u32,
    ) -> (r: Result<(), CampaignError>)
        ensures
            ({
                let k = spec_step_index(step_id);
                let step = spec_signal_road_quest().steps[k];
                if k < 0 {
                    &&& r matches Err(e) && e.is_state(msg_missing_step(step_id))
                    &&& *final(self) == *old(self) && final(world_flags)@ == old(world_flags)@
                } else if !(forall|i: int| 0 <= i < step.conditions.len() ==> spec_condition_met(
                    #[trigger] step.conditions[i], mentor_met, texts_view(old(world_flags)@), aftershock_completions)) {
                    &&& r matches Err(e) && e.is_state(msg_step_conditions(step_id))
                    &&& *final(self) == *old(self) && final(world_flags)@ == old(world_flags)@
                } else {
                    &&& r is Ok
                    &&& texts_view(final(world_flags)@).to_set() == texts_view(old(world_flags)@).to_set() + reward_flags(step.rewards)
                    &&& final(self).unlocked_rooms@.to_set() == old(self).unlocked_rooms@.to_set() + reward_rooms(step.rewards)
                    &&& final(self).completed_steps@.to_set() == old(self).completed_steps@.to_set().insert(step_id)
                    &&& final(self).current_step == next_step
                    &&& final(self).quest_id == old(self).quest_id
                }
            }),
    {
        let definition = signal_road_quest_definition();
        let ghost spec = spec_signal_road_quest();
        let mut k: usize = 0;
        while k < definition.steps.len() && definition.steps[k].id != step_id
            invariant
                definition@ == spec,
                k <= spec.steps.len(),
                forall|j: int| 0 <= j < k ==> spec.steps[j].id != step_id,
            decreases definition.steps@.len() - k,
        {
            k = k + 1;
        }
        if k == definition.steps.len() {
            assert(spec_step_index(step_id) < 0) by {
                if spec_step_index(step_id) >= 0 {
                    assert(spec.steps[spec_step_index(step_id)].id == step_id);
                }
            }
            let mut message = "missing story step definition: ".to_owned();
            message.append(step_name(step_id));
            return Err(CampaignError::InvalidState(message));
        }
        assert(spec.steps[k as int].id == step_id);
        assert(k as int == spec_step_index(step_id));
        let step = &definition.steps[k];
        let ghost sv = spec.steps[k as int];
        let mut all_met = true;
        let mut i: usize = 0;
        while i < step.conditions.len()
            invariant
                step@ == sv,
                world_flags@ == old(world_flags)@,
                i <= sv.conditions.len(),
                all_met <==> forall|j: int| 0 <= j < i ==> spec_condition_met(#[trigger] sv.conditions[j], mentor_met,
                    texts_view(world_flags@), aftershock_completions),
            decreases sv.conditions.len() - i,
        {
            let met = step.conditions[i].is_met(mentor_met, world_flags.as_slice(), aftershock_completions);
            assert(step.conditions@[i as int]@ == sv.conditions[i as int]);
            if !met {
                all_met = false;
            }
            i = i + 1;
        }
        if !all_met {
            let mut message = "story step conditions are not met: ".to_owned();
            message.append(step_name(step_id));
            return Err(CampaignError::InvalidState(message));
        }
        let ghost flags0 = texts_view(world_flags@).to_set();
        let ghost rooms0 = self.unlocked_rooms@.to_set();
        let mut j: usize = 0;
        while j < step.rewards.len()
            invariant
                step@ == sv,
                j <= sv.rewards.len(),
                self.completed_steps == old(self).completed_steps,
                self.quest_id == old(self).quest_id,
                texts_view(world_flags@).to_set() == flags0 + reward_flags(sv.rewards.take(j as int)),
                self.unlocked_rooms@.to_set() == rooms0 + reward_rooms(sv.rewards.take(j as int)),
            decreases sv.rewards.len() - j,
        {
            let ghost fl = texts_view(world_flags@).to_set();
            let ghost rm = self.unlocked_rooms@.to_set();
            assert(sv.rewards.take(j + 1) =~= sv.rewards.take(j as int).push(sv.rewards[j as int]));
            match &step.rewards[j] {
                QuestReward::WorldFlag { flag } => {
                    insert_flag(world_flags, flag.clone());
                    assert(reward_flags(sv.rewards.take(j + 1)) =~= reward_flags(sv.rewards.take(j as int)).insert(flag@)) by {
                        let t = sv.rewards.take(j + 1);
                        assert(t[j as int] == QuestRewardView::WorldFlag(flag@));
                        assert forall|f: Seq<char>| reward_flags(t).contains(f) implies reward_flags(sv.rewards.take(j as int)).insert(flag@).contains(f) by {
                            let w = choose|w: int| 0 <= w < t.len() && t[w] == QuestRewardView::WorldFlag(f);
                            if w < j {
                                assert(sv.rewards.take(j as int)[w] == t[w]);
                            }
                        }
                        assert forall|f: Seq<char>| reward_flags(sv.rewards.take(j as int)).contains(f) implies reward_flags(t).contains(f) by {
                            let w = choose|w: int| 0 <= w < j && sv.rewards.take(j as int)[w] == QuestRewardView::WorldFlag(f);
                            assert(t[w] == sv.rewards.take(j as int)[w]);
                        }
                    }
                    assert(reward_rooms(sv.rewards.take(j + 1)) =~= reward_rooms(sv.rewards.take(j as int))) by {
                        let t = sv.rewards.take(j + 1);
                        assert forall|x: CampaignRoom| reward_rooms(t).contains(x) implies reward_rooms(sv.rewards.take(j as int)).contains(x) by {
                            let w = choose|w: int| 0 <= w < t.len() && t[w] == QuestRewardView::UnlockRoom(x);
                            assert(w < j);
                            assert(sv.rewards.take(j as int)[w] == t[w]);
                        }
                        assert forall|x: CampaignRoom| reward_rooms(sv.rewards.take(j as int)).contains(x) implies reward_rooms(t).contains(x) by {
                            let w = choose|w: int| 0 <= w < j && sv.rewards.take(j as int)[w] == QuestRewardView::UnlockRoom(x);
                            assert(t[w] == sv.rewards.take(j as int)[w]);
                        }
                    }
                    assert(texts_view(world_flags@).to_set() =~= flags0 + reward_flags(sv.rewards.take(j + 1)));
                },
                QuestReward::UnlockRoom { room } => {
                    insert_room(&mut self.unlocked_rooms, *room);
                    assert(reward_rooms(sv.rewards.take(j + 1)) =~= reward_rooms(sv.rewards.take(j as int)).insert(*room)) by {
                        let t = sv.rewards.take(j + 1);
                        assert(t[j as int] == QuestRewardView::UnlockRoom(*room));
                        assert forall|x: CampaignRoom| reward_rooms(t).contains(x) implies reward_rooms(sv.rewards.take(j as int)).insert(*room).contains(x) by {
                            let w = choose|w: int| 0 <= w < t.len() && t[w] == QuestRewardView::UnlockRoom(x);
                            if w < j {
                                assert(sv.rewards.take(j as int)[w] == t[w]);
                            }
                        }
                        assert forall|x: CampaignRoom| reward_rooms(sv.rewards.take(j as int)).contains(x) implies reward_rooms(t).contains(x) by {
                            let w = choose|w: int| 0 <= w < j && sv.rewards.take(j as int)[w] == QuestRewardView::UnlockRoom(x);
                            assert(t[w] == sv.rewards.take(j as int)[w]);
                        }
                    }
                    assert(reward_flags(sv.rewards.take(j + 1)) =~= reward_flags(sv.rewards.take(j as int))) by {
                        let t = sv.rewards.take(j + 1);
                        assert forall|f: Seq<char>| reward_flags(t).contains(f) implies reward_flags(sv.rewards.take(j as int)).contains(f) by {
                            let w = choose|w: int| 0 <= w < t.len() && t[w] == QuestRewardView::WorldFlag(f);
                            assert(w < j);
                            assert(sv.rewards.take(j as int)[w] == t[w]);
                        }
                        assert forall|f: Seq<char>| reward_flags(sv.rewards.take(j as int)).contains(f) implies reward_flags(t).contains(f) by {
                            let w = choose|w: int| 0 <= w < j && sv.rewards.take(j as int)[w] == QuestRewardView::WorldFlag(f);
                            assert(t[w] == sv.rewards.take(j as int)[w]);
                        }
                    }
                    assert(self.unlocked_rooms@.to_set() =~= rooms0 + reward_rooms(sv.rewards.take(j + 1)));
                },
            }
            j = j + 1;
        }
        assert(sv.rewards.take(sv.rewards.len() as int) =~= sv.rewards);
        insert_step(&mut self.completed_steps, step_id);
        self.current_step = next_step;
        Ok(())
    }
}

} // verus!
