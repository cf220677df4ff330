use trnm_campaign_core::error::CampaignError;
use trnm_campaign_core::catalog::{CampaignMission, CampaignRoom};
use trnm_campaign_core::quest_graph::{
    quest_graph_node_ready, quest_route_node_satisfied, QuestConditionEdge, QuestConditionGraph,
    QuestConditionNode,
};
use trnm_campaign_core::quests::{
    cistern_relief_quest_chain_definition, default_caravan_integrity, signal_road_quest_definition,
    QuestBranch, QuestChainCondition, QuestChainNodeId, QuestChainReward, QuestReward,
    RegionalCaravanState, StoryProgress, StoryStepId, UnlockCondition,
};

#[test]
fn cistern_relief_chain_branches_at_the_end() {
    let chain = cistern_relief_quest_chain_definition();
    assert_eq!(chain.title, "Signal Cistern Relief");
    assert_eq!(chain.nodes.len(), 5);
    assert_eq!(chain.nodes[0].id, QuestChainNodeId::SurveyDamage);
    assert_eq!(
        chain.nodes[0].conditions,
        vec![QuestChainCondition::WorldFlag { flag: "outer_signal_road_open".to_string() }]
    );
    assert_eq!(chain.nodes[1].conditions, vec![QuestChainCondition::MinimumCredits { credits: 40 }]);
    assert_eq!(chain.nodes[1].room, CampaignRoom::ExpeditionGate);
    assert_eq!(chain.nodes[3].branch, Some(QuestBranch::ReinforceCistern));
    assert_eq!(chain.nodes[4].branch, Some(QuestBranch::EvacuateFamilies));
    assert_eq!(chain.nodes[4].rewards[0], QuestChainReward::Credits { amount: 35 });
    assert_eq!(
        chain.nodes[3].rewards[1],
        QuestChainReward::RelationshipTrust { npc_id: "relay-smith-brann".to_string(), amount: 3 }
    );
}

#[test]
fn signal_road_quest_opens_the_map_step_by_step() {
    let quest = signal_road_quest_definition();
    assert_eq!(quest.title, "信号之路");
    assert_eq!(quest.steps.len(), 4);
    assert_eq!(quest.steps[0].conditions, vec![UnlockCondition::MentorMet]);
    assert_eq!(quest.steps[0].rewards[1], QuestReward::UnlockRoom { room: CampaignRoom::ExpeditionGate });
    assert_eq!(quest.steps[2].mission, Some(CampaignMission::AftershockPatrol));
    assert_eq!(
        quest.steps[2].conditions,
        vec![UnlockCondition::MissionVictories { mission: CampaignMission::AftershockPatrol, count: 1 }]
    );
    assert_eq!(quest.steps[3].id, StoryStepId::EvacuateConvoy);
    let progress = StoryProgress::default();
    assert_eq!(progress.current_step, StoryStepId::MeetMentor);
    assert_eq!(progress.unlocked_rooms.len(), 9);
    assert!(!progress.unlocked_rooms.contains(&CampaignRoom::ExpeditionGate));
}

fn node(id: &str, optional: bool, group: Option<&str>) -> QuestConditionNode {
    QuestConditionNode { id: id.to_string(), optional, exclusive_group: group.map(str::to_string) }
}

fn edge(from: &str, to: &str) -> QuestConditionEdge {
    QuestConditionEdge { from: from.to_string(), to: to.to_string() }
}

fn graph() -> QuestConditionGraph {
    QuestConditionGraph {
        nodes: vec![
            node("giver", false, None),
            node("scout", true, None),
            node("fight", false, Some("route")),
            node("talk", false, Some("route")),
            node("turn_in", false, None),
        ],
        edges: vec![
            edge("giver", "fight"),
            edge("giver", "talk"),
            edge("scout", "turn_in"),
            edge("fight", "turn_in"),
            edge("talk", "turn_in"),
        ],
    }
}

#[test]
fn graph_readiness_follows_prerequisites_and_groups() {
    let g = graph();
    let none: Vec<String> = vec![];
    let giver = vec!["giver".to_string()];
    assert!(quest_graph_node_ready(&g, "giver", &none));
    assert!(!quest_graph_node_ready(&g, "fight", &none));
    assert!(quest_graph_node_ready(&g, "fight", &giver));
    assert!(!quest_graph_node_ready(&g, "turn_in", &giver));
    let talked = vec!["giver".to_string(), "talk".to_string()];
    assert!(quest_graph_node_ready(&g, "turn_in", &talked));
    let broken = QuestConditionGraph { nodes: g.nodes.clone(), edges: vec![edge("ghost", "turn_in")] };
    assert!(!quest_graph_node_ready(&broken, "turn_in", &talked));
}

#[test]
fn route_nodes_are_satisfied_by_a_group_sibling() {
    let g = graph();
    let talked = vec!["talk".to_string()];
    assert!(quest_route_node_satisfied(&g, &g.nodes[2], &talked));
    assert!(quest_route_node_satisfied(&g, &g.nodes[1], &[]));
    assert!(!quest_route_node_satisfied(&g, &g.nodes[0], &talked));
}

#[test]
fn caravans_report_their_current_room() {
    let mut caravan = RegionalCaravanState {
        caravan_id: "c1".to_string(),
        item_id: "salvaged-alloy".to_string(),
        from_region_id: "mirror_city".to_string(),
        to_region_id: "signal_road".to_string(),
        quantity: 4,
        progress_legs: 0,
        risk: 10,
        route_room_ids: vec!["caravan_yard".to_string(), "outer_signal_road".to_string()],
        route_index: 1,
        integrity: default_caravan_integrity(),
        guarded_by_player: false,
        incident: None,
    };
    assert_eq!(caravan.integrity, 100);
    assert_eq!(caravan.current_room_id(), Some("outer_signal_road"));
    caravan.route_index = 2;
    assert_eq!(caravan.current_room_id(), None);
}

#[test]
fn story_conditions_read_flags_and_victories() {
    let flags = vec!["first_contact_secured".to_string(), "iron_delta_won".to_string()];
    assert!(UnlockCondition::MentorMet.is_met(true, &flags, 0));
    assert!(!UnlockCondition::MentorMet.is_met(false, &flags, 0));
    assert!(UnlockCondition::WorldFlag { flag: "iron_delta_won".to_string() }.is_met(false, &flags, 0));
    assert!(!UnlockCondition::WorldFlag { flag: "signal_road_secured".to_string() }.is_met(true, &flags, 9));
    let first = UnlockCondition::MissionVictories { mission: CampaignMission::FirstContact, count: 1 };
    assert!(first.is_met(false, &flags, 0));
    let aftershock = UnlockCondition::MissionVictories { mission: CampaignMission::AftershockPatrol, count: 2 };
    assert!(!aftershock.is_met(true, &flags, 1));
    assert!(aftershock.is_met(false, &[], 2));
    let convoy = UnlockCondition::MissionVictories { mission: CampaignMission::ConvoyExodus, count: 1 };
    assert!(!convoy.is_met(true, &flags, 5));
}

#[test]
fn story_steps_grant_their_rewards_once_conditions_hold() {
    let mut story = StoryProgress::default();
    let mut flags: Vec<String> = vec!["expedition_gate_open".to_string()];
    match story.complete_step(StoryStepId::MeetMentor, StoryStepId::SecureFirstContact, false, &mut flags, 0) {
        Err(CampaignError::InvalidState(message)) => assert_eq!(message, "story step conditions are not met: MeetMentor"),
        other => panic!("unexpected {other:?}"),
    }
    assert_eq!(story, StoryProgress::default());
    story.complete_step(StoryStepId::MeetMentor, StoryStepId::SecureFirstContact, true, &mut flags, 0).unwrap();
    assert_eq!(flags, vec!["expedition_gate_open".to_string()]);
    assert!(story.unlocked_rooms.contains(&CampaignRoom::ExpeditionGate));
    assert_eq!(story.completed_steps, vec![StoryStepId::MeetMentor]);
    assert_eq!(story.current_step, StoryStepId::SecureFirstContact);
    story.complete_step(StoryStepId::BreakAftershock, StoryStepId::EvacuateConvoy, true, &mut flags, 1).unwrap();
    assert!(flags.contains(&"signal_road_secured".to_string()));
    assert!(story.unlocked_rooms.contains(&CampaignRoom::RelayQuarter));
    match story.complete_step(StoryStepId::SignalRoadComplete, StoryStepId::SignalRoadComplete, true, &mut flags, 1) {
        Err(CampaignError::InvalidState(message)) => assert_eq!(message, "missing story step definition: SignalRoadComplete"),
        other => panic!("unexpected {other:?}"),
    }
}
