use trnm_campaign_core::catalog::{CampaignPhase, CampaignRoom};
use trnm_campaign_core::cistern::{advance_cistern_relief, choose_cistern_relief_branch, start_cistern_relief};
use trnm_campaign_core::error::CampaignError;
use trnm_campaign_core::quests::{QuestBranch, QuestChainNodeId, QuestChainReward};
use trnm_campaign_core::town::{require_room, require_town};

fn state_message<T: std::fmt::Debug>(result: Result<T, CampaignError>) -> String {
    match result {
        Err(CampaignError::InvalidState(message)) => message,
        other => panic!("unexpected {other:?}"),
    }
}

#[test]
fn room_and_town_requirements() {
    assert!(require_town(CampaignPhase::Town).is_ok());
    assert_eq!(state_message(require_town(CampaignPhase::BattlePending)), "town action is unavailable during battle handoff");
    assert_eq!(
        state_message(require_room(CampaignPhase::Town, CampaignRoom::MirrorSquare, CampaignRoom::MentorHall)),
        "action requires 街指南师父居, current room is 镜城广场"
    );
}

#[test]
fn cistern_relief_runs_from_survey_to_a_chosen_branch() {
    let mut chain = None;
    assert_eq!(
        state_message(start_cistern_relief(&mut chain, CampaignPhase::Town, CampaignRoom::RelayQuarter, false)),
        "the outer signal road must be open before cistern relief"
    );
    start_cistern_relief(&mut chain, CampaignPhase::Town, CampaignRoom::RelayQuarter, true).unwrap();
    assert_eq!(
        state_message(start_cistern_relief(&mut chain, CampaignPhase::Town, CampaignRoom::RelayQuarter, true)),
        "another quest-chain step is already active"
    );
    let mut credits = 39;
    assert_eq!(
        advance_cistern_relief(&mut chain, CampaignPhase::Town, CampaignRoom::RelayQuarter, &mut credits).unwrap(),
        QuestChainNodeId::GatherSupplies
    );
    assert_eq!(
        state_message(advance_cistern_relief(&mut chain, CampaignPhase::Town, CampaignRoom::RelayQuarter, &mut credits)),
        "cistern relief step requires First Contact 出征口"
    );
    assert_eq!(
        state_message(advance_cistern_relief(&mut chain, CampaignPhase::Town, CampaignRoom::ExpeditionGate, &mut credits)),
        "gathering cistern supplies costs 40 credits"
    );
    credits = 100;
    assert_eq!(
        advance_cistern_relief(&mut chain, CampaignPhase::Town, CampaignRoom::ExpeditionGate, &mut credits).unwrap(),
        QuestChainNodeId::ChooseReliefPlan
    );
    assert_eq!(credits, 60);
    assert_eq!(
        state_message(advance_cistern_relief(&mut chain, CampaignPhase::Town, CampaignRoom::RelayQuarter, &mut credits)),
        "choose reinforce or evacuate to complete cistern relief"
    );
    let rewards =
        choose_cistern_relief_branch(&mut chain, CampaignPhase::Town, CampaignRoom::RelayQuarter, QuestBranch::EvacuateFamilies)
            .unwrap();
    assert_eq!(rewards[0], QuestChainReward::Credits { amount: 35 });
    assert_eq!(rewards[2], QuestChainReward::WorldFlag { flag: "cistern_families_evacuated".to_string() });
    let progress = chain.as_ref().unwrap();
    assert!(progress.complete);
    assert_eq!(progress.chosen_branch, Some(QuestBranch::EvacuateFamilies));
    assert_eq!(progress.current_node, QuestChainNodeId::ReliefComplete);
    assert_eq!(progress.completed_nodes.len(), 4);
    assert_eq!(
        state_message(choose_cistern_relief_branch(&mut chain, CampaignPhase::Town, CampaignRoom::RelayQuarter, QuestBranch::ReinforceCistern)),
        "cistern relief is not awaiting a branch"
    );
    assert_eq!(
        state_message(advance_cistern_relief(&mut chain, CampaignPhase::Town, CampaignRoom::RelayQuarter, &mut credits)),
        "cistern relief is not active"
    );
    // A finished chain can be started again.
    start_cistern_relief(&mut chain, CampaignPhase::Town, CampaignRoom::RelayQuarter, true).unwrap();
    assert_eq!(chain.unwrap().current_node, QuestChainNodeId::SurveyDamage);
}
