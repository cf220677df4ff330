//! The campaign journal: the three goals shown to the player and how far
//! each has come.

use vstd::prelude::*;
use crate::catalog::{CampaignMission, CampaignRoom, QuestState};
use crate::quests::{CampaignJournalEntry, CampaignJournalId, CampaignJournalState, QuestChainNodeId, QuestChainProgress};

verus! {

/// What the journal reads of the campaign.
#[derive(Debug, Clone, Copy, PartialEq, Eq, Hash, Structural)]
pub struct JournalFacts {
    pub quest_state: QuestState,
    pub active_mission: CampaignMission,
    pub first_contact_secured: bool,
    pub aftershock_completions: u32,
    pub convoy_exodus_secured: bool,
    pub mirror_siege_secured: bool,
    pub outer_signal_road_open: bool,
    pub title_earned: bool,
    pub build_path_chosen: bool,
}

/// The Signal Road campaign is complete once Mirror Siege is secured;
/// before that it follows the current quest.
pub open spec fn spec_signal_state(f: JournalFacts) -> CampaignJournalState {
    if f.mirror_siege_secured {
        CampaignJournalState::Completed
    } else {
        match f.quest_state {
            QuestState::Locked => CampaignJournalState::Locked,
            QuestState::Available => CampaignJournalState::Available,
            QuestState::Accepted | QuestState::Completed => CampaignJournalState::Active,
            QuestState::Failed | QuestState::Withdrawn => CampaignJournalState::Failed,
        }
    }
}

/// The Signal Road entry of the journal: complete once Mirror Siege is
/// secured; before that, failed exactly when the quest was failed or
/// withdrawn, active exactly while the quest is accepted or completed,
/// available exactly while it is available, and locked exactly while it is
/// locked.
pub proof fn lemma_signal_road_state(f: JournalFacts)
    ensures
        f.mirror_siege_secured ==> spec_signal_state(f) == CampaignJournalState::Completed,
        !f.mirror_siege_secured ==> {
            let st = spec_signal_state(f);
            &&& (st == CampaignJournalState::Failed) == (f.quest_state == QuestState::Failed || f.quest_state == QuestState::Withdrawn)
            &&& (st == CampaignJournalState::Active) == (f.quest_state == QuestState::Accepted || f.quest_state == QuestState::Completed)
            &&& (st == CampaignJournalState::Available) == (f.quest_state == QuestState::Available)
            &&& (st == CampaignJournalState::Locked) == (f.quest_state == QuestState::Locked)
            &&& st != CampaignJournalState::Completed
        },
{
}

/// The mission the journal points to: the accepted one, or else the first
/// campaign mission not yet won (the patrol once all are won).
pub open spec fn spec_journal_mission(f: JournalFacts) -> CampaignMission {
    if f.quest_state == QuestState::Accepted {
        f.active_mission
    } else if !f.first_contact_secured {
        CampaignMission::FirstContact
    } else if f.aftershock_completions == 0 {
        CampaignMission::AftershockPatrol
    } else if !f.convoy_exodus_secured {
        CampaignMission::ConvoyExodus
    } else if !f.mirror_siege_secured {
        CampaignMission::MirrorSiege
    } else {
        CampaignMission::AftershockPatrol
    }
}

/// The journal points to the accepted mission while one is accepted;
/// otherwise to the first campaign mission in story order (First Contact,
/// Aftershock Patrol, Convoy Exodus, Mirror Siege) not yet won, and to the
/// repeatable patrol once all are won. It never points to a skirmish that
/// was not accepted.
pub proof fn lemma_journal_points_to_the_next_mission(f: JournalFacts)
    ensures
        f.quest_state == QuestState::Accepted ==> spec_journal_mission(f) == f.active_mission,
        f.quest_state != QuestState::Accepted ==> {
            let m = spec_journal_mission(f);
            &&& (m == CampaignMission::FirstContact) == !f.first_contact_secured
            &&& (m == CampaignMission::ConvoyExodus) == (f.first_contact_secured && f.aftershock_completions > 0 && !f.convoy_exodus_secured)
            &&& (m == CampaignMission::MirrorSiege) == (f.first_contact_secured && f.aftershock_completions > 0
                && f.convoy_exodus_secured && !f.mirror_siege_secured)
            &&& (m == CampaignMission::AftershockPatrol) == (f.first_contact_secured && (f.aftershock_completions == 0
                || (f.convoy_exodus_secured && f.mirror_siege_secured)))
        },
{
}

pub open spec fn spec_mission_objective(m: CampaignMission) -> Seq<char> {
    match m {
        CampaignMission::FirstContact => "Secure the first relay contact"@,
        CampaignMission::AftershockPatrol => "Break the repeatable aftershock patrol"@,
        CampaignMission::ConvoyExodus => "Escort, defend and extract the signal convoy"@,
        CampaignMission::MirrorSiege => "Break the siege and reclaim Mirror Gate"@,
        CampaignMission::IronDeltaSkirmish => "Win the Iron Delta score skirmish"@,
        CampaignMission::NightWatchCrossingSkirmish => "Escort the Night Watch patrol"@,
        CampaignMission::GlassBasinSkirmish => "Control the Glass Basin relay array"@,
        CampaignMission::EmberOrchardSkirmish => "Break the Ember Orchard base"@,
        CampaignMission::SaltMarshSkirmish => "Control the Salt Marsh causeway"@,
        CampaignMission::CinderCrownSkirmish => "Break the Cinder Crown siege"@,
    }
}

fn mission_objective(m: CampaignMission) -> (r: &'static str)
    ensures
        r@ == spec_mission_objective(m),
{
    match m {
        CampaignMission::FirstContact => "Secure the first relay contact",
        CampaignMission::AftershockPatrol => "Break the repeatable aftershock patrol",
        CampaignMission::ConvoyExodus => "Escort, defend and extract the signal convoy",
        CampaignMission::MirrorSiege => "Break the siege and reclaim Mirror Gate",
        CampaignMission::IronDeltaSkirmish => "Win the Iron Delta score skirmish",
        CampaignMission::NightWatchCrossingSkirmish => "Escort the Night Watch patrol",
        CampaignMission::GlassBasinSkirmish => "Control the Glass Basin relay array",
        CampaignMission::EmberOrchardSkirmish => "Break the Ember Orchard base",
        CampaignMission::SaltMarshSkirmish => "Control the Salt Marsh causeway",
        CampaignMission::CinderCrownSkirmish => "Break the Cinder Crown siege",
    }
}

pub open spec fn spec_chain_objective(node: QuestChainNodeId) -> Seq<char> {
    match node {
        QuestChainNodeId::SurveyDamage => "Survey the damaged cistern"@,
        QuestChainNodeId::GatherSupplies => "Commit 40 credits of relief supplies"@,
        QuestChainNodeId::ChooseReliefPlan => "Choose reinforce or evacuate"@,
        QuestChainNodeId::ReliefComplete => "Relief plan completed"@,
    }
}

fn chain_objective(node: QuestChainNodeId) -> (r: &'static str)
    ensures
        r@ == spec_chain_objective(node),
{
    match node {
        QuestChainNodeId::SurveyDamage => "Survey the damaged cistern",
        QuestChainNodeId::GatherSupplies => "Commit 40 credits of relief supplies",
        QuestChainNodeId::ChooseReliefPlan => "Choose reinforce or evacuate",
        QuestChainNodeId::ReliefComplete => "Relief plan completed",
    }
}

/// The journal's three entries, in order: the Signal Road campaign, the
/// Cistern Relief chain (locked until the outer Signal Road opens,
/// available until started, then following its current node) and path
/// mastery (locked until a build path is chosen, complete once a title is
/// earned).
pub fn campaign_journal(facts: &JournalFacts, chain: Option<&QuestChainProgress>) -> (r: Vec<CampaignJournalEntry>)
    ensures
        r@.len() == 3,
        r@[0].id == CampaignJournalId::SignalRoad,
        r@[0].title@ == "Signal Road Campaign"@,
        r@[0].state == spec_signal_state(*facts),
        facts.mirror_siege_secured ==> r@[0].state == CampaignJournalState::Completed,
        !facts.mirror_siege_secured ==> ((r@[0].state == CampaignJournalState::Failed)
            == (facts.quest_state == QuestState::Failed || facts.quest_state == QuestState::Withdrawn)),
        !facts.mirror_siege_secured ==> ((r@[0].state == CampaignJournalState::Active)
            == (facts.quest_state == QuestState::Accepted || facts.quest_state == QuestState::Completed)),
        r@[0].objective@ == spec_mission_objective(spec_journal_mission(*facts)),
        r@[0].next_room == Some(CampaignRoom::ExpeditionGate),
        r@[1].id == CampaignJournalId::CisternRelief,
        r@[1].title@ == "Signal Cistern Relief"@,
        match chain {
            None => {
                &&& r@[1].state == (if facts.outer_signal_road_open { CampaignJournalState::Available } else { CampaignJournalState::Locked })
                &&& r@[1].objective@ == "Open the outer Signal Road"@
                &&& r@[1].next_room == Some(CampaignRoom::RelayQuarter)
            },
            Some(progress) => {
                &&& r@[1].state == (if progress.complete { CampaignJournalState::Completed } else { CampaignJournalState::Active })
                &&& r@[1].objective@ == spec_chain_objective(progress.current_node)
                &&& r@[1].next_room == (if progress.current_node == QuestChainNodeId::GatherSupplies {
                    Some(CampaignRoom::ExpeditionGate)
                } else {
                    Some(CampaignRoom::RelayQuarter)
                })
            },
        },
        r@[2].id == CampaignJournalId::Mastery,
        r@[2].title@ == "Path Mastery"@,
        r@[2].state == (if facts.title_earned {
            CampaignJournalState::Completed
        } else if !facts.build_path_chosen {
            CampaignJournalState::Locked
        } else {
            CampaignJournalState::Active
        }),
        r@[2].objective@ == (if facts.title_earned {
            "Mastery title earned"@
        } else {
            "Choose growth, then complete the mentor challenge"@
        }),
        r@[2].next_room == Some(CampaignRoom::MentorHall),
{
    let signal_state = if facts.mirror_siege_secured {
        CampaignJournalState::Completed
    } else {
        match facts.quest_state {
            QuestState::Locked => CampaignJournalState::Locked,
            QuestState::Available => CampaignJournalState::Available,
            QuestState::Accepted | QuestState::Completed => CampaignJournalState::Active,
            QuestState::Failed | QuestState::Withdrawn => CampaignJournalState::Failed,
        }
    };
    let journal_mission = if facts.quest_state == QuestState::Accepted {
        facts.active_mission
    } else if !facts.first_contact_secured {
        CampaignMission::FirstContact
    } else if facts.aftershock_completions == 0 {
        CampaignMission::AftershockPatrol
    } else if !facts.convoy_exodus_secured {
        CampaignMission::ConvoyExodus
    } else if !facts.mirror_siege_secured {
        CampaignMission::MirrorSiege
    } else {
        CampaignMission::AftershockPatrol
    };
    let cistern = match chain {
        None => CampaignJournalEntry {
            id: CampaignJournalId::CisternRelief,
            title: "Signal Cistern Relief".to_owned(),
            state: if facts.outer_signal_road_open { CampaignJournalState::Available } else { CampaignJournalState::Locked },
            objective: "Open the outer Signal Road".to_owned(),
            next_room: Some(CampaignRoom::RelayQuarter),
        },
        Some(progress) => CampaignJournalEntry {
            id: CampaignJournalId::CisternRelief,
            title: "Signal Cistern Relief".to_owned(),
            state: if progress.complete { CampaignJournalState::Completed } else { CampaignJournalState::Active },
            objective: chain_objective(progress.current_node).to_owned(),
            next_room: match progress.current_node {
                QuestChainNodeId::GatherSupplies => Some(CampaignRoom::ExpeditionGate),
                _ => Some(CampaignRoom::RelayQuarter),
            },
        },
    };
    let mastery_state = if facts.title_earned {
        CampaignJournalState::Completed
    } else if !facts.build_path_chosen {
        CampaignJournalState::Locked
    } else {
        CampaignJournalState::Active
    };
    let mastery_objective = if facts.title_earned {
        "Mastery title earned".to_owned()
    } else {
        "Choose growth, then complete the mentor challenge".to_owned()
    };
    let signal = CampaignJournalEntry {
        id: CampaignJournalId::SignalRoad,
        title: "Signal Road Campaign".to_owned(),
        state: signal_state,
        objective: mission_objective(journal_mission).to_owned(),
        next_room: Some(CampaignRoom::ExpeditionGate),
    };
    let mastery = CampaignJournalEntry {
        id: CampaignJournalId::Mastery,
        title: "Path Mastery".to_owned(),
        state: mastery_state,
        objective: mastery_objective,
        next_room: Some(CampaignRoom::MentorHall),
    };
    vec![signal, cistern, mastery]
}

} // verus!
