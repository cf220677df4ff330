use trnm_campaign_core::catalog::CampaignRoom;
use trnm_campaign_core::error::CampaignError;
use trnm_campaign_core::story::{
    advance_epilogue, advance_scene, next_main_story_chapter, story_unlocks, MainStoryChapter, MainStoryChoice,
    MainStoryDecisionRecord, MainStoryEnding,
};

fn record(chapter: MainStoryChapter) -> MainStoryDecisionRecord {
    MainStoryDecisionRecord { chapter, choice: MainStoryChoice::ForgeAccord, outcome_flag: "flag".to_string(), day: 3 }
}

#[test]
fn chapter_scenes_play_two_beats_before_resolving() {
    let (step, text) = advance_scene(MainStoryChapter::SignalRoadReckoning, 0).unwrap();
    assert_eq!(step, 1);
    assert!(text.starts_with("Captain Veyra opens the seized route ledger"));
    let (step, text) = advance_scene(MainStoryChapter::SignalRoadReckoning, step).unwrap();
    assert_eq!(step, 2);
    assert!(text.starts_with("The archive doors close"));
    assert!(advance_scene(MainStoryChapter::SignalRoadReckoning, step).is_none());
}

#[test]
fn chapters_are_taken_in_story_order_until_complete() {
    let mut decisions = Vec::new();
    assert_eq!(next_main_story_chapter(&decisions), MainStoryChapter::MirrorCityOaths);
    decisions.push(record(MainStoryChapter::MirrorCityOaths));
    assert_eq!(next_main_story_chapter(&decisions), MainStoryChapter::SignalRoadReckoning);
    decisions.push(record(MainStoryChapter::AshenFringeCountermarch));
    assert_eq!(next_main_story_chapter(&decisions), MainStoryChapter::SignalRoadReckoning);
    decisions.push(record(MainStoryChapter::SignalRoadReckoning));
    assert_eq!(next_main_story_chapter(&decisions), MainStoryChapter::ChapterComplete);
}

#[test]
fn decisions_open_the_frontier_regions() {
    assert_eq!(story_unlocks(0), (vec![], vec![]));
    assert_eq!(
        story_unlocks(1),
        (vec!["glass_basin_wayhouse_open"], vec![CampaignRoom::GlassBasinWayhouse, CampaignRoom::DeepRelay])
    );
    let (flags, rooms) = story_unlocks(3);
    assert_eq!(flags, vec!["glass_basin_wayhouse_open", "ashen_fringe_open"]);
    assert_eq!(rooms.len(), 4);
    assert_eq!(rooms[3], CampaignRoom::EmberOrchardEdge);
}

#[test]
fn ending_ids_and_post_story_world() {
    assert_eq!(MainStoryEnding::ThreeRoadCompact.flag_id(), "the_three_road_compact");
    assert_eq!(MainStoryEnding::WayhouseLeague.flag_id(), "the_wayhouse_league");
    assert_eq!(
        MainStoryEnding::OpenArchiveRepublic.post_world_state(),
        "Public ledgers expose shortages and lower information costs."
    );
    assert_eq!(MainStoryEnding::ContestedMandate.epilogue_room(), CampaignRoom::MoonBridge);
}

#[test]
fn epilogue_completes_on_its_fourth_beat() {
    let ending = Some(MainStoryEnding::FrontierAccord);
    let mut progress = 0;
    let mut texts = Vec::new();
    for expected_complete in [false, false, false, true] {
        let beat = advance_epilogue(ending, progress, false).unwrap();
        assert_eq!(beat.completed, expected_complete);
        progress = beat.progress;
        texts.push(beat.text);
    }
    assert_eq!(progress, 4);
    assert!(texts[0].starts_with("Former enemies relight the Ash Beacon"));
    assert_eq!(texts[3], "The epilogue closes and the post-story world opens for continuing regional work.");
    match advance_epilogue(ending, progress, true) {
        Err(CampaignError::InvalidState(message)) => assert_eq!(message, "the ending epilogue is already complete"),
        other => panic!("unexpected {other:?}"),
    }
    match advance_epilogue(None, 0, false) {
        Err(CampaignError::InvalidState(message)) => assert_eq!(message, "no resolved ending has an epilogue"),
        other => panic!("unexpected {other:?}"),
    }
}
