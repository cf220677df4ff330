use trnm_campaign_core::catalog::{CampaignMission, CampaignRoom, QuestState};
use trnm_campaign_core::journal::{campaign_journal, JournalFacts};
use trnm_campaign_core::quests::{CampaignJournalId, CampaignJournalState, QuestChainId, QuestChainNodeId, QuestChainProgress};

fn fresh() -> JournalFacts {
    JournalFacts {
        quest_state: QuestState::Locked,
        active_mission: CampaignMission::FirstContact,
        first_contact_secured: false,
        aftershock_completions: 0,
        convoy_exodus_secured: false,
        mirror_siege_secured: false,
        outer_signal_road_open: false,
        title_earned: false,
        build_path_chosen: false,
    }
}

#[test]
fn a_new_campaign_journal() {
    let journal = campaign_journal(&fresh(), None);
    assert_eq!(journal.len(), 3);
    assert_eq!(journal[0].id, CampaignJournalId::SignalRoad);
    assert_eq!(journal[0].state, CampaignJournalState::Locked);
    assert_eq!(journal[0].objective, "Secure the first relay contact");
    assert_eq!(journal[1].state, CampaignJournalState::Locked);
    assert_eq!(journal[1].objective, "Open the outer Signal Road");
    assert_eq!(journal[2].state, CampaignJournalState::Locked);
    assert_eq!(journal[2].next_room, Some(CampaignRoom::MentorHall));
}

#[test]
fn the_journal_follows_the_campaign() {
    let facts = JournalFacts {
        quest_state: QuestState::Available,
        first_contact_secured: true,
        aftershock_completions: 1,
        outer_signal_road_open: true,
        build_path_chosen: true,
        ..fresh()
    };
    let journal = campaign_journal(&facts, None);
    assert_eq!(journal[0].state, CampaignJournalState::Available);
    assert_eq!(journal[0].objective, "Escort, defend and extract the signal convoy");
    assert_eq!(journal[1].state, CampaignJournalState::Available);
    assert_eq!(journal[2].state, CampaignJournalState::Active);
    let chain = QuestChainProgress {
        id: QuestChainId::CisternRelief,
        current_node: QuestChainNodeId::GatherSupplies,
        chosen_branch: None,
        completed_nodes: vec![QuestChainNodeId::SurveyDamage],
        complete: false,
    };
    let accepted = JournalFacts { quest_state: QuestState::Accepted, active_mission: CampaignMission::MirrorSiege, ..facts };
    let journal = campaign_journal(&accepted, Some(&chain));
    assert_eq!(journal[0].state, CampaignJournalState::Active);
    assert_eq!(journal[0].objective, "Break the siege and reclaim Mirror Gate");
    assert_eq!(journal[1].objective, "Commit 40 credits of relief supplies");
    assert_eq!(journal[1].next_room, Some(CampaignRoom::ExpeditionGate));
    let done = JournalFacts { mirror_siege_secured: true, title_earned: true, convoy_exodus_secured: true, ..facts };
    let journal = campaign_journal(&done, None);
    assert_eq!(journal[0].state, CampaignJournalState::Completed);
    assert_eq!(journal[0].objective, "Break the repeatable aftershock patrol");
    assert_eq!(journal[2].state, CampaignJournalState::Completed);
    assert_eq!(journal[2].objective, "Mastery title earned");
}
