use trnm_campaign_core::party::{settle_party, share_skill_experience, LevelProgress, PartyBattleState};
use trnm_campaign_core::settlement::{BattleOutcome, SkillProgress, UnitBattleReportV1, UnitBattleStatus};

fn member(id: &str, persistent: bool, injury_level: u8) -> PartyBattleState {
    PartyBattleState {
        unit_id: id.to_string(),
        persistent,
        available: true,
        experience: 100,
        veteran_rank: 1,
        confirmed_kills: 2,
        injury_level,
    }
}

fn report(id: &str, status: UnitBattleStatus) -> UnitBattleReportV1 {
    UnitBattleReportV1 {
        unit_id: id.to_string(),
        status,
        remaining_hp: 10,
        experience_gained: 40,
        veteran_rank: 2,
        confirmed_kills: 3,
    }
}

#[test]
fn reports_update_members_and_lost_recruits_leave() {
    let mut party = vec![member("hero", true, 0), member("recruit", false, 3), member("veteran", true, 0)];
    let charged = settle_party(
        &mut party,
        &[report("hero", UnitBattleStatus::Wounded), report("recruit", UnitBattleStatus::Lost), report("ghost", UnitBattleStatus::Lost)],
        BattleOutcome::Victory,
    );
    assert_eq!(charged, None);
    assert_eq!((party[0].experience, party[0].veteran_rank, party[0].confirmed_kills, party[0].injury_level), (140, 2, 5, 1));
    assert!(party[0].available);
    assert_eq!(party[1].injury_level, 4);
    assert!(!party[1].available);
    assert_eq!(party[2], member("veteran", true, 0));
}

#[test]
fn an_unwounded_defeat_still_costs_an_injury() {
    let mut party = vec![member("recruit", false, 0), member("hero", true, 4), member("veteran", true, 0)];
    let charged = settle_party(&mut party, &[report("hero", UnitBattleStatus::Healthy)], BattleOutcome::Defeat);
    assert_eq!(charged.as_deref(), Some("hero"));
    assert_eq!(party[1].injury_level, 4);
    assert_eq!(party[0].injury_level, 0);
    let mut party = vec![member("hero", true, 1)];
    let charged = settle_party(&mut party, &[report("hero", UnitBattleStatus::Wounded)], BattleOutcome::Defeat);
    assert_eq!(charged, None);
    assert_eq!(party[0].injury_level, 2);
}

#[test]
fn levels_award_growth_points() {
    let mut progress = LevelProgress { experience: 450, level: 1, growth_points_available: 0, growth_points_awarded: 0 };
    progress.gain_experience(600);
    assert_eq!(progress, LevelProgress { experience: 1050, level: 3, growth_points_available: 2, growth_points_awarded: 2 });
    progress.gain_experience(10);
    assert_eq!(progress.level, 3);
    assert_eq!(progress.growth_points_available, 2);
}

#[test]
fn battle_experience_is_shared_among_skills() {
    let mut skills = vec![SkillProgress { rank: 1, experience: 200 }, SkillProgress { rank: 1, experience: 0 }];
    share_skill_experience(&mut skills, 101);
    assert_eq!(skills, vec![SkillProgress { rank: 2, experience: 250 }, SkillProgress { rank: 1, experience: 50 }]);
    let mut none: Vec<SkillProgress> = Vec::new();
    share_skill_experience(&mut none, 500);
    assert!(none.is_empty());
}
