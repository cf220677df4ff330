use trnm_campaign_core::campaign::CampaignState;
use trnm_campaign_core::catalog::{
    CampaignDifficulty, CampaignMission, CampaignPhase, CampaignRoom, ExpeditionPreparation, QuestState,
};
use trnm_campaign_core::clock::{ExpeditionSupplyState, WorldClock};
use trnm_campaign_core::deployment::battle_id_for;
use trnm_campaign_core::economy::{EconomicOutbox, EconomyMode};
use trnm_campaign_core::market::MarketCatalogItem;
use trnm_campaign_core::party::{LevelProgress, PartyBattleState};
use trnm_campaign_core::quests::{NpcAutonomousGoalKind, NpcConversationRecord, NpcMemory, NpcSocialEventRecord, StoryProgress, StoryStepId};
use trnm_campaign_core::error::CampaignError;
use trnm_campaign_core::skirmish::SkirmishSetup;
use trnm_campaign_core::social::{bond_key, NpcSocialEvent};
use trnm_campaign_core::story::{MainStoryChapter, MainStoryChoice, MainStoryDecisionRecord};

fn catalog() -> Vec<MarketCatalogItem> {
    vec![
        MarketCatalogItem { id: "iron_ore".to_string(), material: true },
        MarketCatalogItem { id: "field_ration".to_string(), material: false },
    ]
}

fn campaign() -> CampaignState {
    let ids = ["hero", "warden", "scout", "medic"];
    CampaignState {
        contract_version: "trnm_campaign_save_v1".to_string(),
        schema_revision: 7,
        campaign_id: "campaign-1".to_string(),
        character_id: "hero-character".to_string(),
        revision: 4,
        room: CampaignRoom::MirrorSquare,
        phase: CampaignPhase::Town,
        difficulty: CampaignDifficulty::Standard,
        reputation: 0,
        progress: LevelProgress { experience: 0, level: 1, growth_points_available: 0, growth_points_awarded: 0 },
        growth_points_spent: 0,
        pending_growth: false,
        credits: 260,
        mentor_training_sessions: 0,
        aftershock_completions: 0,
        inventory: vec![],
        world_flags: vec!["signal_road_secured".to_string()],
        skills: vec![],
        party: ids
            .iter()
            .map(|id| PartyBattleState {
                unit_id: id.to_string(),
                persistent: true,
                available: true,
                experience: 0,
                veteran_rank: 0,
                confirmed_kills: 0,
                injury_level: 0,
            })
            .collect(),
        active_party_ids: ids.iter().map(|id| id.to_string()).collect(),
        active_mission: CampaignMission::FirstContact,
        skirmish_setup: SkirmishSetup::default(),
        story: StoryProgress { unlocked_rooms: vec![CampaignRoom::MirrorSquare], ..StoryProgress::default() },
        quest_state: QuestState::Available,
        mentor_met: true,
        trained_with_mentor: false,
        shortcut_unlocked: false,
        forge_master: false,
        main_story_chapter: MainStoryChapter::MirrorCityOaths,
        main_story_decisions: vec![],
        main_story_ending: None,
        ending_epilogue_progress: 0,
        ending_epilogue_complete: false,
        world_clock: WorldClock::default(),
        expedition_supplies: ExpeditionSupplyState::default(),
        selected_expedition_preparation: ExpeditionPreparation::Immediate,
        quest_chain: None,
        market_stock: vec![("iron_ore".to_string(), 7)],
        market_demand: vec![],
        social_event_history: vec![],
        conversation_history: vec![],
        npc_memory: vec![],
        npc_work_output: vec![],
        npc_autonomous_goals: vec![],
        npc_goal_rooms: vec![],
        npc_bonds: vec![],
        economy_mode: EconomyMode::CexConnected,
        economy_account_binding: None,
        outbox: EconomicOutbox::new(),
        settled_battle_ids: vec![],
        settlement_receipts: vec![],
        verified_economic_receipts: vec![],
        pending_battle: None,
    }
}

fn decision(chapter: MainStoryChapter, choice: MainStoryChoice) -> MainStoryDecisionRecord {
    MainStoryDecisionRecord { chapter, choice, outcome_flag: "flag".to_string(), day: 1 }
}

fn event(id: &str) -> NpcSocialEvent {
    NpcSocialEvent {
        id: id.to_string(),
        first_npc_id: "street-compass-sifu".to_string(),
        second_npc_id: "archive-keeper".to_string(),
        room_id: "archive_steps".to_string(),
        text: "They trade notes.".to_string(),
        region_id: "mirror_city".to_string(),
        market_item_id: "iron_ore".to_string(),
        migration_room_id: "relay_quarter".to_string(),
    }
}

#[test]
fn battle_ids_are_padded_to_eight_digits() {
    assert_eq!(battle_id_for("first_contact", 1), "first_contact-00000001");
    assert_eq!(battle_id_for("convoy_exodus", 123456789), "convoy_exodus-123456789");
}

#[test]
fn bond_keys_order_the_pair() {
    assert_eq!(bond_key("b-npc", "a-npc"), "a-npc::b-npc");
    assert_eq!(bond_key("a-npc", "b-npc"), "a-npc::b-npc");
}

#[test]
fn a_social_event_warms_the_bond_once_per_day() {
    let mut state = campaign();
    state.apply_social_event(&event("archive-talk"));
    assert_eq!(state.npc_bonds, vec![("archive-keeper::street-compass-sifu".to_string(), 2)]);
    assert_eq!(state.social_event_history.len(), 1);
    assert_eq!(state.social_event_history[0].day, 1);
    let after_first = state.clone();
    state.apply_social_event(&event("archive-talk"));
    assert_eq!(state, after_first);
    state.world_clock.day = 2;
    state.apply_social_event(&event("archive-talk"));
    assert_eq!(state.npc_bonds[0].1, 4);
    assert_eq!(state.social_event_history.len(), 2);
}

#[test]
fn bonds_stay_within_bounds_and_history_keeps_sixteen() {
    let mut state = campaign();
    state.npc_bonds = vec![("archive-keeper::street-compass-sifu".to_string(), 99)];
    for day in 1..=20u32 {
        state.world_clock.day = day;
        state.apply_social_event(&event(&format!("event-{day}")));
    }
    assert_eq!(state.npc_bonds[0].1, 100);
    assert_eq!(state.social_event_history.len(), 16);
    let first: &NpcSocialEventRecord = &state.social_event_history[0];
    assert_eq!(first.event_id, "event-5");
}

#[test]
fn defaults_bring_an_old_campaign_up_to_date() {
    let mut state = campaign();
    state.main_story_decisions = vec![
        decision(MainStoryChapter::SignalRoadReckoning, MainStoryChoice::ProtectWayhouses),
        decision(MainStoryChapter::MirrorCityOaths, MainStoryChoice::ProtectWayhouses),
        decision(MainStoryChapter::SignalRoadReckoning, MainStoryChoice::ExposeConspiracy),
    ];
    state.ensure_gameplay_defaults(&catalog());
    assert_eq!(state.schema_revision, 10);
    assert_eq!(
        state.main_story_decisions,
        vec![
            decision(MainStoryChapter::MirrorCityOaths, MainStoryChoice::ProtectWayhouses),
            decision(MainStoryChapter::SignalRoadReckoning, MainStoryChoice::ProtectWayhouses),
        ]
    );
    assert_eq!(state.main_story_chapter, MainStoryChapter::AshenFringeCountermarch);
    assert_eq!(state.main_story_ending, None);
    assert_eq!(state.progress.growth_points_available, 1);
    assert_eq!(state.progress.growth_points_awarded, 1);
    assert_eq!(state.market_stock, vec![("iron_ore".to_string(), 7), ("field_ration".to_string(), 4)]);
    assert_eq!(state.market_demand, vec![("iron_ore".to_string(), 0), ("field_ration".to_string(), 0)]);
    assert_eq!(state.economy_mode, EconomyMode::OfflineLocal);
    assert!(state.world_flags.contains(&"expedition_gate_open".to_string()));
    assert!(state.story.unlocked_rooms.contains(&CampaignRoom::ExpeditionGate));
    assert!(state.story.unlocked_rooms.contains(&CampaignRoom::RelayQuarter));
    assert!(state.story.unlocked_rooms.contains(&CampaignRoom::CaravanYard));
    assert_eq!(state.story.current_step, StoryStepId::SignalRoadComplete);
    assert_eq!(state.validate(&catalog()), Ok(()));
}

#[test]
fn a_new_campaign_starts_consistent_in_town() {
    let state = CampaignState::new_campaign("local-player", 1, &catalog());
    assert_eq!(state.campaign_id, "local-campaign");
    assert_eq!(state.credits, 260);
    assert_eq!(state.party.len(), 7);
    assert!(!state.party[5].available);
    assert_eq!(state.active_party_ids, vec!["hero", "aya", "mako", "tess"]);
    assert_eq!(state.market_stock, vec![("iron_ore".to_string(), 12), ("field_ration".to_string(), 4)]);
    assert_eq!(state.skills.len(), 1);
    assert_eq!(state.validate(&catalog()), Ok(()));
}

#[test]
fn a_saved_default_campaign_reloads_unchanged() {
    let fresh = CampaignState::new_campaign("local-player", 1, &catalog());
    let mut reloaded = fresh.clone();
    reloaded.ensure_gameplay_defaults(&catalog());
    assert_eq!(reloaded, fresh);
    assert_eq!(reloaded.schema_revision, 10);
}

#[test]
fn upkeep_applied_twice_changes_nothing_more() {
    let mut once = campaign();
    once.main_story_decisions = vec![
        decision(MainStoryChapter::SignalRoadReckoning, MainStoryChoice::ProtectWayhouses),
        decision(MainStoryChapter::MirrorCityOaths, MainStoryChoice::ExposeConspiracy),
    ];
    for day in 0..20 {
        once.social_event_history.push(NpcSocialEventRecord {
            event_id: format!("event-{day}"),
            first_npc_id: "street-compass-sifu".to_string(),
            second_npc_id: "archive-keeper".to_string(),
            room_id: "archive_steps".to_string(),
            text: "They trade notes.".to_string(),
            day,
            minute_of_day: 480,
        });
    }
    once.ensure_gameplay_defaults(&catalog());
    let mut twice = once.clone();
    twice.ensure_gameplay_defaults(&catalog());
    assert_eq!(twice, once);
    assert_eq!(once.social_event_history.len(), 16);
}

#[test]
fn meeting_npcs_remember_the_last_eight_lines_and_count_their_work() {
    let mut state = campaign();
    for day in 1..=10u32 {
        state.world_clock.day = day;
        state.apply_social_event(&event(&format!("event-{day}")));
    }
    assert_eq!(state.npc_memory.len(), 2);
    assert_eq!(state.npc_memory[0].npc_id, "street-compass-sifu");
    assert_eq!(state.npc_memory[1].npc_id, "archive-keeper");
    assert_eq!(state.npc_memory[0].lines.len(), 8);
    assert_eq!(
        state.npc_work_output,
        vec![("street-compass-sifu".to_string(), 10), ("archive-keeper".to_string(), 10)]
    );
    state.ensure_gameplay_defaults(&catalog());
    assert_eq!(state.validate(&catalog()), Ok(()));
}

#[test]
fn upkeep_caps_conversations_at_twenty_four_and_memories_at_eight() {
    let mut state = campaign();
    for minute in 0..30u16 {
        state.conversation_history.push(NpcConversationRecord {
            npc_id: "archive-keeper".to_string(),
            line: format!("line {minute}"),
            activity: "reading".to_string(),
            day: 1,
            minute_of_day: minute,
        });
    }
    state.npc_memory.push(NpcMemory {
        npc_id: "archive-keeper".to_string(),
        lines: (0..12).map(|i| format!("memory {i}")).collect(),
    });
    state.schema_revision = 10;
    assert_eq!(
        state.validate(&catalog()),
        Err(CampaignError::InvalidState("NPC conversation history exceeds its bounded save budget".to_string()))
    );
    state.ensure_gameplay_defaults(&catalog());
    assert_eq!(state.conversation_history.len(), 24);
    assert_eq!(state.conversation_history[0].line, "line 6");
    assert_eq!(state.npc_memory[0].lines.len(), 8);
    assert_eq!(state.npc_memory[0].lines[0], "memory 4");
    assert_eq!(state.validate(&catalog()), Ok(()));
}

#[test]
fn meeting_npcs_take_up_goals_that_leave_world_flags() {
    let mut state = campaign();
    state.npc_bonds = vec![("archive-keeper::street-compass-sifu".to_string(), -10)];
    for day in 1..=4u32 {
        state.world_clock.day = day;
        state.apply_social_event(&event(&format!("event-{day}")));
    }
    assert!(state.world_flags.contains(&"npc_conflict_street-compass-sifu_archive-keeper".to_string()));
    assert!(state.world_flags.contains(&"npc_conflict_archive-keeper_street-compass-sifu".to_string()));
    assert_eq!(state.npc_autonomous_goals[0].1.kind, NpcAutonomousGoalKind::ResolveConflict);
    assert_eq!(state.npc_autonomous_goals[0].1.target_id, "archive-keeper");
    assert_eq!(state.npc_autonomous_goals[0].1.progress, 4);
    state.world_clock.day = 5;
    state.apply_social_event(&event("event-5"));
    assert_eq!(state.npc_autonomous_goals[0].1.kind, NpcAutonomousGoalKind::PublishTask);
    assert!(state.world_flags.contains(&"npc_dynamic_task_street-compass-sifu_iron_ore".to_string()));
    for day in 6..=7u32 {
        state.world_clock.day = day;
        state.apply_social_event(&event(&format!("event-{day}")));
    }
    assert_eq!(state.npc_autonomous_goals[1].1.kind, NpcAutonomousGoalKind::Migrate);
    assert_eq!(state.npc_autonomous_goals[1].1.target_id, "mirror_city");
    assert!(state.world_flags.contains(&"npc_archive-keeper_migrated_to_relay_quarter".to_string()));
    assert_eq!(
        state.npc_goal_rooms,
        vec![
            ("street-compass-sifu".to_string(), "relay_quarter".to_string()),
            ("archive-keeper".to_string(), "relay_quarter".to_string()),
        ]
    );
}

#[test]
fn a_close_bond_forms_an_alliance() {
    let mut state = campaign();
    state.npc_bonds = vec![("archive-keeper::street-compass-sifu".to_string(), 10)];
    state.apply_social_event(&event("event-1"));
    assert!(state.world_flags.contains(&"npc_alliance_street-compass-sifu_archive-keeper".to_string()));
    assert!(state.world_flags.contains(&"npc_alliance_archive-keeper_street-compass-sifu".to_string()));
    assert_eq!(state.npc_autonomous_goals.len(), 2);
    assert_eq!(state.npc_autonomous_goals[1].1.kind, NpcAutonomousGoalKind::FormAlliance);
}
