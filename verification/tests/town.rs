use trnm_campaign_core::catalog::CampaignGuideStep::{
    AcceptMission, DeployMission, EquipWeapon, MeetMentor, ReachExpeditionGate, ReadJournal, TrainWithMentor,
};
use trnm_campaign_core::catalog::{ CampaignMission, CampaignRoom, ExpeditionPreparation, QuestState};
use trnm_campaign_core::clock::{ExpeditionSupplyState, WorldClock};
use trnm_campaign_core::error::CampaignError;
use trnm_campaign_core::loot::LootStack;
use trnm_campaign_core::settlement::SkillProgress;
use trnm_campaign_core::town::{
    accept_campaign_mission,
    check_party_selection, commit_expedition_preparation, current_guide_step, cycle_endgame_mission,
    cycle_standalone_skirmish_map, heal_party, plan_mentor_training, stamina_after_waiting, train_skill,
    InjuryState,
};

fn state_message(result: Result<impl std::fmt::Debug, CampaignError>) -> String {
    match result {
        Err(CampaignError::InvalidState(message)) => message,
        other => panic!("unexpected {other:?}"),
    }
}

#[test]
fn immediate_march_spends_supplies_and_twenty_minutes() {
    let mut supplies = ExpeditionSupplyState::default();
    let mut credits = 100;
    let mut clock = WorldClock::default();
    let readiness =
        commit_expedition_preparation(ExpeditionPreparation::Immediate, false, &mut supplies, &mut credits, &mut clock).unwrap();
    assert_eq!((readiness.stamina, readiness.rations, readiness.water), (80, 3, 4));
    assert_eq!((readiness.starting_resources, readiness.travel_minutes), (0, 20));
    assert_eq!(credits, 100);
    assert_eq!(clock, WorldClock { day: 1, minute_of_day: 500 });
}

#[test]
fn rested_and_supplied_preparations_cost_credits() {
    let mut supplies = ExpeditionSupplyState { stamina: 40, rations: 2, water: 2 };
    let mut credits = 9;
    let mut clock = WorldClock::default();
    let refused = commit_expedition_preparation(ExpeditionPreparation::Rested, false, &mut supplies, &mut credits, &mut clock);
    assert_eq!(state_message(refused), "resting before departure costs 10 credits");
    assert_eq!(supplies, ExpeditionSupplyState { stamina: 40, rations: 2, water: 2 });
    credits = 40;
    let rested =
        commit_expedition_preparation(ExpeditionPreparation::Rested, false, &mut supplies, &mut credits, &mut clock).unwrap();
    assert_eq!((rested.stamina, rested.rations, rested.water, rested.travel_minutes), (100, 1, 1, 180));
    assert_eq!(credits, 30);
    assert_eq!(clock, WorldClock { day: 1, minute_of_day: 660 });
    let stocked =
        commit_expedition_preparation(ExpeditionPreparation::Supplied, false, &mut supplies, &mut credits, &mut clock).unwrap();
    assert_eq!((stocked.stamina, stocked.rations, stocked.water), (95, 4, 5));
    assert_eq!((stocked.starting_resources, stocked.travel_minutes), (50, 35));
    assert_eq!(credits, 5);
}

#[test]
fn shortcut_needs_scout_or_relay_runner_and_supplies() {
    let mut supplies = ExpeditionSupplyState { stamina: 50, rations: 1, water: 1 };
    let mut credits = 0;
    let mut clock = WorldClock::default();
    let locked = commit_expedition_preparation(ExpeditionPreparation::Shortcut, false, &mut supplies, &mut credits, &mut clock);
    assert_eq!(state_message(locked), "the shortcut requires Scout origin or Relay Runner title");
    let dry = commit_expedition_preparation(ExpeditionPreparation::Shortcut, true, &mut supplies, &mut credits, &mut clock);
    assert_eq!(state_message(dry), "expedition requires 1 ration(s) and 2 water");
    supplies.water = 2;
    let shortcut =
        commit_expedition_preparation(ExpeditionPreparation::Shortcut, true, &mut supplies, &mut credits, &mut clock).unwrap();
    assert_eq!((shortcut.stamina, shortcut.rations, shortcut.water, shortcut.starting_resources), (40, 0, 0, 20));
}

#[test]
fn mentor_training_is_paid_and_capped() {
    assert_eq!(state_message(plan_mentor_training(false, 0, 500)), "talk to the mentor before training");
    assert_eq!(plan_mentor_training(true, 0, 500).unwrap(), 50);
    assert_eq!(plan_mentor_training(true, 1, 500).unwrap(), 90);
    assert_eq!(state_message(plan_mentor_training(true, 1, 89)), "mentor training costs 90 credits");
    assert_eq!(
        state_message(plan_mentor_training(true, 2, 500)),
        "mentor training cap reached; commit to the skills already learned"
    );
    let mut progress = SkillProgress { rank: 0, experience: 0 };
    train_skill(&mut progress);
    assert_eq!(progress, SkillProgress { rank: 1, experience: 125 });
    train_skill(&mut progress);
    assert_eq!(progress, SkillProgress { rank: 2, experience: 250 });
}

#[test]
fn waiting_restores_stamina_within_limits() {
    assert_eq!(stamina_after_waiting(120, 50).unwrap(), 54);
    assert_eq!(stamina_after_waiting(360, 95).unwrap(), 100);
    assert_eq!(state_message(stamina_after_waiting(29, 50)), "town waiting must be between 30 minutes and 6 hours");
    assert!(stamina_after_waiting(361, 50).is_err());
}

#[test]
fn healing_uses_a_tonic_before_paying_the_clinic() {
    let mut party = vec![
        InjuryState { injury_level: 4, available: false },
        InjuryState { injury_level: 0, available: true },
        InjuryState { injury_level: 6, available: false },
    ];
    let mut inventory = vec![LootStack { item_id: "field-tonic-kit".to_string(), quantity: 1 }];
    let mut credits = 10;
    heal_party(&mut party, &mut inventory, &mut credits, false).unwrap();
    assert!(inventory.is_empty());
    assert_eq!(credits, 10);
    assert_eq!(
        party,
        vec![
            InjuryState { injury_level: 3, available: true },
            InjuryState { injury_level: 0, available: true },
            InjuryState { injury_level: 5, available: false },
        ]
    );
    assert_eq!(state_message(heal_party(&mut party, &mut inventory, &mut credits, false)), "field clinic costs 40 credits");
    assert_eq!(party[0].injury_level, 3);
    credits = 30;
    heal_party(&mut party, &mut inventory, &mut credits, true).unwrap();
    assert_eq!(credits, 5);
    assert_eq!(party[2].injury_level, 4);
    let mut healthy = vec![InjuryState { injury_level: 0, available: true }];
    assert_eq!(
        state_message(heal_party(&mut healthy, &mut inventory, &mut credits, false)),
        "the active roster has no injuries to treat"
    );
}

#[test]
fn party_selection_needs_the_hero_and_three_available_companions() {
    let ids = |v: &[&str]| v.iter().map(|s| s.to_string()).collect::<Vec<_>>();
    let available = ids(&["hero", "a", "b", "c", "d"]);
    assert!(check_party_selection(&ids(&["hero", "a", "b", "c"]), &available).is_ok());
    assert_eq!(
        state_message(check_party_selection(&ids(&["a", "hero", "b", "c"]), &available)),
        "party must contain the hero plus exactly three companions"
    );
    assert!(check_party_selection(&ids(&["hero", "a", "b"]), &available).is_err());
    assert_eq!(
        state_message(check_party_selection(&ids(&["hero", "a", "a", "c"]), &available)),
        "selected party contains duplicates or unavailable members"
    );
    assert!(check_party_selection(&ids(&["hero", "a", "b", "z"]), &available).is_err());
}

#[test]
fn guide_walks_through_the_first_contact_loop() {
    assert_eq!(current_guide_step(false, false, false, CampaignRoom::MirrorSquare, QuestState::Locked, false), MeetMentor);
    assert_eq!(current_guide_step(true, false, false, CampaignRoom::MentorHall, QuestState::Available, false), TrainWithMentor);
    assert_eq!(current_guide_step(true, true, false, CampaignRoom::MentorHall, QuestState::Available, false), EquipWeapon);
    assert_eq!(current_guide_step(true, true, true, CampaignRoom::MentorHall, QuestState::Available, false), ReachExpeditionGate);
    assert_eq!(current_guide_step(true, true, true, CampaignRoom::ExpeditionGate, QuestState::Available, false), AcceptMission);
    assert_eq!(current_guide_step(true, true, true, CampaignRoom::ExpeditionGate, QuestState::Accepted, false), DeployMission);
    assert_eq!(current_guide_step(true, true, true, CampaignRoom::ExpeditionGate, QuestState::Completed, true), ReadJournal);
}

#[test]
fn endgame_and_standalone_rotations() {
    assert_eq!(
        state_message(cycle_endgame_mission(CampaignMission::MirrorSiege, false)),
        "secure Mirror Siege before opening skirmish operations"
    );
    assert_eq!(cycle_endgame_mission(CampaignMission::MirrorSiege, true).unwrap(), (CampaignMission::AftershockPatrol, false));
    assert_eq!(cycle_endgame_mission(CampaignMission::AftershockPatrol, true).unwrap(), (CampaignMission::IronDeltaSkirmish, true));
    assert_eq!(cycle_endgame_mission(CampaignMission::CinderCrownSkirmish, true).unwrap(), (CampaignMission::AftershockPatrol, false));
    let mut mission = CampaignMission::IronDeltaSkirmish;
    for _ in 0..6 {
        mission = cycle_standalone_skirmish_map(mission, true, true).unwrap();
    }
    assert_eq!(mission, CampaignMission::IronDeltaSkirmish);
    assert_eq!(
        state_message(cycle_standalone_skirmish_map(mission, true, false)),
        "standalone skirmish setup is not active"
    );
}

#[test]
fn accepted_missions_follow_the_campaign_order() {
    let accept = |state, active, first, aftershock, convoy, siege| {
        accept_campaign_mission(true, true, true, state, active, first, aftershock, convoy, siege)
    };
    assert_eq!(accept(QuestState::Available, CampaignMission::FirstContact, false, 0, false, false).unwrap(), CampaignMission::FirstContact);
    assert_eq!(accept(QuestState::Completed, CampaignMission::FirstContact, true, 0, false, false).unwrap(), CampaignMission::AftershockPatrol);
    assert_eq!(accept(QuestState::Completed, CampaignMission::AftershockPatrol, true, 1, false, false).unwrap(), CampaignMission::ConvoyExodus);
    assert_eq!(accept(QuestState::Completed, CampaignMission::ConvoyExodus, true, 1, true, false).unwrap(), CampaignMission::MirrorSiege);
    assert_eq!(accept(QuestState::Completed, CampaignMission::GlassBasinSkirmish, true, 3, true, true).unwrap(), CampaignMission::GlassBasinSkirmish);
    assert_eq!(accept(QuestState::Completed, CampaignMission::MirrorSiege, true, 3, true, true).unwrap(), CampaignMission::AftershockPatrol);
    assert_eq!(accept(QuestState::Failed, CampaignMission::ConvoyExodus, true, 1, false, false).unwrap(), CampaignMission::ConvoyExodus);
    assert_eq!(
        state_message(accept(QuestState::Locked, CampaignMission::FirstContact, false, 0, false, false)),
        "no campaign mission is currently available"
    );
    assert_eq!(
        state_message(accept_campaign_mission(true, false, true, QuestState::Available, CampaignMission::FirstContact, false, 0, false, false)),
        "mentor dialogue and training are required before deployment"
    );
    assert_eq!(
        state_message(accept_campaign_mission(true, true, false, QuestState::Available, CampaignMission::FirstContact, false, 0, false, false)),
        "equip a weapon before deployment"
    );
}
