use trnm_campaign_core::catalog::CampaignRoom;
use trnm_campaign_core::story::{
    main_story_chapter_outcome, main_story_chapters, resolve_main_story_ending, MainStoryChapter,
    MainStoryChoice, MainStoryDecisionRecord, MainStoryEnding,
};

#[test]
fn all_five_explicit_main_story_endings_are_resolved() {
    let decisions = |choices: [MainStoryChoice; 3]| {
        main_story_chapters()
            .iter()
            .zip(choices)
            .map(|(chapter, choice)| MainStoryDecisionRecord {
                chapter: chapter.chapter,
                choice,
                outcome_flag: format!("test_{:?}_{choice:?}", chapter.chapter),
                day: 1,
            })
            .collect::<Vec<_>>()
    };
    assert_eq!(
        resolve_main_story_ending(&decisions([MainStoryChoice::ProtectWayhouses; 3])),
        Some(MainStoryEnding::WayhouseLeague)
    );
    assert_eq!(
        resolve_main_story_ending(&decisions([MainStoryChoice::ExposeConspiracy; 3])),
        Some(MainStoryEnding::OpenArchiveRepublic)
    );
    assert_eq!(
        resolve_main_story_ending(&decisions([MainStoryChoice::ForgeAccord; 3])),
        Some(MainStoryEnding::FrontierAccord)
    );
    assert_eq!(
        resolve_main_story_ending(&decisions([
            MainStoryChoice::ProtectWayhouses,
            MainStoryChoice::ExposeConspiracy,
            MainStoryChoice::ForgeAccord,
        ])),
        Some(MainStoryEnding::ThreeRoadCompact)
    );
    assert_eq!(
        resolve_main_story_ending(&decisions([
            MainStoryChoice::ProtectWayhouses,
            MainStoryChoice::ProtectWayhouses,
            MainStoryChoice::ForgeAccord,
        ])),
        Some(MainStoryEnding::ContestedMandate)
    );
}

fn record(chapter: MainStoryChapter, choice: MainStoryChoice) -> MainStoryDecisionRecord {
    MainStoryDecisionRecord { chapter, choice, outcome_flag: String::new(), day: 3 }
}

#[test]
fn ending_requires_exactly_three_decisions() {
    assert_eq!(resolve_main_story_ending(&[]), None);
    let two = vec![
        record(MainStoryChapter::MirrorCityOaths, MainStoryChoice::ForgeAccord),
        record(MainStoryChapter::SignalRoadReckoning, MainStoryChoice::ForgeAccord),
    ];
    assert_eq!(resolve_main_story_ending(&two), None);
    let mut four = two.clone();
    four.push(record(MainStoryChapter::AshenFringeCountermarch, MainStoryChoice::ForgeAccord));
    four.push(record(MainStoryChapter::ChapterComplete, MainStoryChoice::ForgeAccord));
    assert_eq!(resolve_main_story_ending(&four), None);
}

#[test]
fn ending_ignores_the_order_of_decisions() {
    let choices = [
        MainStoryChoice::ForgeAccord,
        MainStoryChoice::ExposeConspiracy,
        MainStoryChoice::ForgeAccord,
    ];
    let forward: Vec<_> = choices.iter().map(|c| record(MainStoryChapter::MirrorCityOaths, *c)).collect();
    let backward: Vec<_> = choices.iter().rev().map(|c| record(MainStoryChapter::MirrorCityOaths, *c)).collect();
    assert_eq!(resolve_main_story_ending(&forward), resolve_main_story_ending(&backward));
    assert_eq!(resolve_main_story_ending(&forward), Some(MainStoryEnding::ContestedMandate));
}

#[test]
fn ending_labels_and_choice_rotation() {
    assert_eq!(MainStoryEnding::WayhouseLeague.label(), "The Wayhouse League");
    assert_eq!(MainStoryEnding::OpenArchiveRepublic.label(), "The Open Archive");
    assert_eq!(MainStoryEnding::FrontierAccord.label(), "The Frontier Accord");
    assert_eq!(MainStoryEnding::ThreeRoadCompact.label(), "The Three-Road Compact");
    assert_eq!(MainStoryEnding::ContestedMandate.label(), "The Contested Mandate");
    let start = MainStoryChoice::default();
    assert_eq!(start, MainStoryChoice::ProtectWayhouses);
    assert_eq!(start.next(), MainStoryChoice::ExposeConspiracy);
    assert_eq!(start.next().next().next(), start);
}

#[test]
fn chapter_outcomes_carry_flags_and_rewards() {
    let (flag, credits, reputation, text) =
        main_story_chapter_outcome(MainStoryChapter::SignalRoadReckoning, MainStoryChoice::ExposeConspiracy);
    assert_eq!(flag, "chapter_signal_reckoning_archive");
    assert_eq!(credits, 20);
    assert_eq!(reputation, 6);
    assert_eq!(text, "Sol publishes the convoy ledger and breaks the hidden ration cartel.");
    let (flag, credits, reputation, _) =
        main_story_chapter_outcome(MainStoryChapter::AshenFringeCountermarch, MainStoryChoice::ProtectWayhouses);
    assert_eq!((flag, credits, reputation), ("chapter_ashen_countermarch_wayhouses", 55, 3));
}

#[test]
fn chapters_are_authored_in_story_order() {
    let chapters = main_story_chapters();
    assert_eq!(chapters[0].chapter, MainStoryChapter::MirrorCityOaths);
    assert_eq!(chapters[1].protagonist_id, "captain-veyra");
    assert_eq!(chapters[2].room, CampaignRoom::AshBeaconField);
    assert_eq!(chapters[1].quest_ids[4], "market_debt");
}
