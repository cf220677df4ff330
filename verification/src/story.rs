//! The three-chapter main story: chapter definitions, the outcome of each
//! chapter decision, and the ending that the three decisions resolve to.

use vstd::prelude::*;
use vstd::string::*;
use crate::catalog::CampaignRoom;
use crate::error::CampaignError;

verus! {

/// The three stances the player can take at a chapter's climax.
#[derive(Debug, Clone, Copy, Default, PartialEq, Eq, PartialOrd, Ord, Hash, Structural)]
pub enum MainStoryChoice {
    #[default]
    ProtectWayhouses,
    ExposeConspiracy,
    ForgeAccord,
}

impl MainStoryChoice {
    pub open spec fn spec_next(self) -> MainStoryChoice {
        match self {
            MainStoryChoice::ProtectWayhouses => MainStoryChoice::ExposeConspiracy,
            MainStoryChoice::ExposeConspiracy => MainStoryChoice::ForgeAccord,
            MainStoryChoice::ForgeAccord => MainStoryChoice::ProtectWayhouses,
        }
    }

    pub fn next(self) -> (r: Self)
        ensures
            r == self.spec_next(),
    {
        match self {
            Self::ProtectWayhouses => Self::ExposeConspiracy,
            Self::ExposeConspiracy => Self::ForgeAccord,
            Self::ForgeAccord => Self::ProtectWayhouses,
        }
    }
}

/// The main story's chapters, in order.
#[derive(Debug, Clone, Copy, Default, PartialEq, Eq, PartialOrd, Ord, Hash, Structural)]
pub enum MainStoryChapter {
    #[default]
    MirrorCityOaths,
    SignalRoadReckoning,
    AshenFringeCountermarch,
    ChapterComplete,
}

/// The five explicit endings of the main story.
#[derive(Debug, Clone, Copy, PartialEq, Eq, Hash, Structural)]
pub enum MainStoryEnding {
    WayhouseLeague,
    OpenArchiveRepublic,
    FrontierAccord,
    ThreeRoadCompact,
    ContestedMandate,
}

impl MainStoryEnding {
    pub fn label(self) -> (r: &'static str)
        ensures
            r@ == (match self {
                MainStoryEnding::WayhouseLeague => "The Wayhouse League"@,
                MainStoryEnding::OpenArchiveRepublic => "The Open Archive"@,
                MainStoryEnding::FrontierAccord => "The Frontier Accord"@,
                MainStoryEnding::ThreeRoadCompact => "The Three-Road Compact"@,
                MainStoryEnding::ContestedMandate => "The Contested Mandate"@,
            }),
    {
        match self {
            Self::WayhouseLeague => "The Wayhouse League",
            Self::OpenArchiveRepublic => "The Open Archive",
            Self::FrontierAccord => "The Frontier Accord",
            Self::ThreeRoadCompact => "The Three-Road Compact",
            Self::ContestedMandate => "The Contested Mandate",
        }
    }
}

/// The authored frame of one chapter: who leads it, where its decision
/// scene plays, and the five regional quests that feed it.
#[derive(Debug, Clone, Copy, PartialEq, Eq)]
pub struct MainStoryChapterDefinition {
    pub chapter: MainStoryChapter,
    pub title: &'static str,
    pub protagonist_id: &'static str,
    pub scene_id: &'static str,
    pub room: CampaignRoom,
    pub quest_ids: [&'static str; 5],
}

/// The three playable chapters, in story order.
pub fn main_story_chapters() -> (r: [MainStoryChapterDefinition; 3])
    ensures
        r[0].chapter == MainStoryChapter::MirrorCityOaths,
        r[0].title@ == "Oaths Beneath the Mirror"@,
        r[0].protagonist_id@ == "street-compass-sifu"@,
        r[0].scene_id@ == "mirror_square_public_oath"@,
        r[0].room == CampaignRoom::MirrorSquare,
        r[0].quest_ids@.map_values(|q: &str| q@) == seq![
            "wayfinder_oath"@, "broken_milestone"@, "forge_commission"@, "lost_tooling"@, "lantern_watch"@,
        ],
        r[1].chapter == MainStoryChapter::SignalRoadReckoning,
        r[1].title@ == "The Signal Road Reckoning"@,
        r[1].protagonist_id@ == "captain-veyra"@,
        r[1].scene_id@ == "archive_steps_reckoning"@,
        r[1].room == CampaignRoom::ArchiveSteps,
        r[1].quest_ids@.map_values(|q: &str| q@) == seq![
            "wanted_raider"@, "relay_salvage"@, "fever_tonic"@, "archive_witness"@, "market_debt"@,
        ],
        r[2].chapter == MainStoryChapter::AshenFringeCountermarch,
        r[2].title@ == "Countermarch at Ashen Fringe"@,
        r[2].protagonist_id@ == "scout-mako"@,
        r[2].scene_id@ == "ash_beacon_final_assembly"@,
        r[2].room == CampaignRoom::AshBeaconField,
        r[2].quest_ids@.map_values(|q: &str| q@) == seq![
            "missing_crate"@, "night_letter"@, "escort_manifest"@, "bandit_tracks"@, "ration_audit"@,
        ],
{
    let r = [
        MainStoryChapterDefinition {
            chapter: MainStoryChapter::MirrorCityOaths,
            title: "Oaths Beneath the Mirror",
            protagonist_id: "street-compass-sifu",
            scene_id: "mirror_square_public_oath",
            room: CampaignRoom::MirrorSquare,
            quest_ids: ["wayfinder_oath", "broken_milestone", "forge_commission", "lost_tooling", "lantern_watch"],
        },
        MainStoryChapterDefinition {
            chapter: MainStoryChapter::SignalRoadReckoning,
            title: "The Signal Road Reckoning",
            protagonist_id: "captain-veyra",
            scene_id: "archive_steps_reckoning",
            room: CampaignRoom::ArchiveSteps,
            quest_ids: ["wanted_raider", "relay_salvage", "fever_tonic", "archive_witness", "market_debt"],
        },
        MainStoryChapterDefinition {
            chapter: MainStoryChapter::AshenFringeCountermarch,
            title: "Countermarch at Ashen Fringe",
            protagonist_id: "scout-mako",
            scene_id: "ash_beacon_final_assembly",
            room: CampaignRoom::AshBeaconField,
            quest_ids: ["missing_crate", "night_letter", "escort_manifest", "bandit_tracks", "ration_audit"],
        },
    ];
    assert(r[0].quest_ids@.map_values(|q: &str| q@) =~= seq![
        "wayfinder_oath"@, "broken_milestone"@, "forge_commission"@, "lost_tooling"@, "lantern_watch"@,
    ]);
    assert(r[1].quest_ids@.map_values(|q: &str| q@) =~= seq![
        "wanted_raider"@, "relay_salvage"@, "fever_tonic"@, "archive_witness"@, "market_debt"@,
    ]);
    assert(r[2].quest_ids@.map_values(|q: &str| q@) =~= seq![
        "missing_crate"@, "night_letter"@, "escort_manifest"@, "bandit_tracks"@, "ration_audit"@,
    ]);
    r
}

/// Outcome flag, credit reward, reputation reward and narrative line of a
/// chapter decision.
pub open spec fn chapter_outcome(chapter: MainStoryChapter, choice: MainStoryChoice) -> (Seq<char>, i64, i32, Seq<char>) {
    match (chapter, choice) {
        (MainStoryChapter::MirrorCityOaths, MainStoryChoice::ProtectWayhouses) => ("chapter_mirror_oaths_wayhouses"@, 35, 2, "At the public oath, the first wayhouses become neutral shelters under your seal."@),
        (MainStoryChapter::MirrorCityOaths, MainStoryChoice::ExposeConspiracy) => ("chapter_mirror_oaths_archive"@, 15, 5, "At the public oath, the archive names the guild officers who sold the road markers."@),
        (MainStoryChapter::MirrorCityOaths, MainStoryChoice::ForgeAccord) => ("chapter_mirror_oaths_accord"@, 25, 3, "At the public oath, city smiths and road guides sign a shared repair compact."@),
        (MainStoryChapter::SignalRoadReckoning, MainStoryChoice::ProtectWayhouses) => ("chapter_signal_reckoning_wayhouses"@, 45, 2, "Veyra stations mixed watches at every Signal Road refuge."@),
        (MainStoryChapter::SignalRoadReckoning, MainStoryChoice::ExposeConspiracy) => ("chapter_signal_reckoning_archive"@, 20, 6, "Sol publishes the convoy ledger and breaks the hidden ration cartel."@),
        (MainStoryChapter::SignalRoadReckoning, MainStoryChoice::ForgeAccord) => ("chapter_signal_reckoning_accord"@, 35, 4, "The watch, couriers and salvagers accept one road court."@),
        (MainStoryChapter::AshenFringeCountermarch, MainStoryChoice::ProtectWayhouses) => ("chapter_ashen_countermarch_wayhouses"@, 55, 3, "The countermarch ends with a defended chain of free frontier houses."@),
        (MainStoryChapter::AshenFringeCountermarch, MainStoryChoice::ExposeConspiracy) => ("chapter_ashen_countermarch_archive"@, 25, 7, "The final assembly hears every witness and dissolves the Ashen command clique."@),
        (MainStoryChapter::AshenFringeCountermarch, MainStoryChoice::ForgeAccord) => ("chapter_ashen_countermarch_accord"@, 45, 5, "Mirror City and the Ashen Fringe sign a guarded frontier constitution."@),
        _ => (Seq::empty(), 0, 0, Seq::empty()),
    }
}

pub fn main_story_chapter_outcome(chapter: MainStoryChapter, choice: MainStoryChoice) -> (r: (&'static str, i64, i32, &'static str))
    requires
        chapter != MainStoryChapter::ChapterComplete,
    ensures
        (r.0@, r.1, r.2, r.3@) == chapter_outcome(chapter, choice),
{
    match (chapter, choice) {
        (MainStoryChapter::MirrorCityOaths, MainStoryChoice::ProtectWayhouses) => ("chapter_mirror_oaths_wayhouses", 35, 2, "At the public oath, the first wayhouses become neutral shelters under your seal."),
        (MainStoryChapter::MirrorCityOaths, MainStoryChoice::ExposeConspiracy) => ("chapter_mirror_oaths_archive", 15, 5, "At the public oath, the archive names the guild officers who sold the road markers."),
        (MainStoryChapter::MirrorCityOaths, MainStoryChoice::ForgeAccord) => ("chapter_mirror_oaths_accord", 25, 3, "At the public oath, city smiths and road guides sign a shared repair compact."),
        (MainStoryChapter::SignalRoadReckoning, MainStoryChoice::ProtectWayhouses) => ("chapter_signal_reckoning_wayhouses", 45, 2, "Veyra stations mixed watches at every Signal Road refuge."),
        (MainStoryChapter::SignalRoadReckoning, MainStoryChoice::ExposeConspiracy) => ("chapter_signal_reckoning_archive", 20, 6, "Sol publishes the convoy ledger and breaks the hidden ration cartel."),
        (MainStoryChapter::SignalRoadReckoning, MainStoryChoice::ForgeAccord) => ("chapter_signal_reckoning_accord", 35, 4, "The watch, couriers and salvagers accept one road court."),
        (MainStoryChapter::AshenFringeCountermarch, MainStoryChoice::ProtectWayhouses) => ("chapter_ashen_countermarch_wayhouses", 55, 3, "The countermarch ends with a defended chain of free frontier houses."),
        (MainStoryChapter::AshenFringeCountermarch, MainStoryChoice::ExposeConspiracy) => ("chapter_ashen_countermarch_archive", 25, 7, "The final assembly hears every witness and dissolves the Ashen command clique."),
        (MainStoryChapter::AshenFringeCountermarch, MainStoryChoice::ForgeAccord) => ("chapter_ashen_countermarch_accord", 45, 5, "Mirror City and the Ashen Fringe sign a guarded frontier constitution."),
        (MainStoryChapter::ChapterComplete, _) => unreached(),
    }
}

/// A chapter decision as recorded in the save.
#[derive(Debug, Clone, PartialEq, Eq)]
pub struct MainStoryDecisionRecord {
    pub chapter: MainStoryChapter,
    pub choice: MainStoryChoice,
    pub outcome_flag: String,
    pub day: u32,
}

/// What advancing the pending chapter scene produced.
#[derive(Debug, Clone, PartialEq, Eq)]
pub enum MainStorySceneAdvance {
    SceneBeat { chapter: MainStoryChapter, step: u8, text: String },
    ChapterResolved(MainStoryDecisionRecord),
}

/// The narration of beat `step` (0 or later) of a chapter's decision scene.
pub open spec fn spec_scene_beat(chapter: MainStoryChapter, step: u8) -> Seq<char> {
    match chapter {
        MainStoryChapter::MirrorCityOaths => if step == 0 {
            "The square hears testimony from porters, smiths and ward captains before any oath is proposed."@
        } else {
            "Street Compass Sifu places the three rival charters side by side and asks who will bear their cost."@
        },
        MainStoryChapter::SignalRoadReckoning => if step == 0 {
            "Captain Veyra opens the seized route ledger while witnesses identify the hands behind each missing convoy."@
        } else {
            "The archive doors close; guards, merchants and scouts challenge the evidence before the road is judged."@
        },
        MainStoryChapter::AshenFringeCountermarch => if step == 0 {
            "Scout Mako walks the beacon line with the player as refugees and patrols name what the countermarch destroyed."@
        } else {
            "At the final assembly every faction commits people and stores, forcing the last choice to carry a visible price."@
        },
        MainStoryChapter::ChapterComplete => Seq::empty(),
    }
}

/// Advances a chapter's decision scene from beat `step`: the first two
/// advances play a beat (answering the new beat count and its narration);
/// after them the scene is ready to resolve (`None`).
pub fn advance_scene(chapter: MainStoryChapter, step: u8) -> (r: Option<(u8, &'static str)>)
    requires
        chapter != MainStoryChapter::ChapterComplete,
    ensures
        step < 2 ==> (r matches Some((next, text)) && next == step + 1 && text@ == spec_scene_beat(chapter, step)),
        step >= 2 ==> r is None,
{
    if step >= 2 {
        return None;
    }
    let text = match chapter {
        MainStoryChapter::MirrorCityOaths => if step == 0 {
            "The square hears testimony from porters, smiths and ward captains before any oath is proposed."
        } else {
            "Street Compass Sifu places the three rival charters side by side and asks who will bear their cost."
        },
        MainStoryChapter::SignalRoadReckoning => if step == 0 {
            "Captain Veyra opens the seized route ledger while witnesses identify the hands behind each missing convoy."
        } else {
            "The archive doors close; guards, merchants and scouts challenge the evidence before the road is judged."
        },
        MainStoryChapter::AshenFringeCountermarch => if step == 0 {
            "Scout Mako walks the beacon line with the player as refugees and patrols name what the countermarch destroyed."
        } else {
            "At the final assembly every faction commits people and stores, forcing the last choice to carry a visible price."
        },
        MainStoryChapter::ChapterComplete => unreached(),
    };
    Some((step + 1, text))
}

/// Whether one of `decisions` settled `chapter`.
pub open spec fn chapter_decided(decisions: Seq<MainStoryDecisionRecord>, chapter: MainStoryChapter) -> bool {
    exists|i: int| 0 <= i < decisions.len() && #[trigger] decisions[i].chapter == chapter
}

/// The first chapter, in story order, that no decision has settled yet;
/// `ChapterComplete` once all three are settled.
pub open spec fn spec_next_chapter(decisions: Seq<MainStoryDecisionRecord>) -> MainStoryChapter {
    if !chapter_decided(decisions, MainStoryChapter::MirrorCityOaths) {
        MainStoryChapter::MirrorCityOaths
    } else if !chapter_decided(decisions, MainStoryChapter::SignalRoadReckoning) {
        MainStoryChapter::SignalRoadReckoning
    } else if !chapter_decided(decisions, MainStoryChapter::AshenFringeCountermarch) {
        MainStoryChapter::AshenFringeCountermarch
    } else {
        MainStoryChapter::ChapterComplete
    }
}

fn decided(decisions: &[MainStoryDecisionRecord], chapter: MainStoryChapter) -> (r: bool)
    ensures
        r == chapter_decided(decisions@, chapter),
{
    let mut i: usize = 0;
    while i < decisions.len()
        invariant
            i <= decisions@.len(),
            forall|j: int| 0 <= j < i ==> decisions@[j].chapter != chapter,
        decreases decisions@.len() - i,
    {
        if decisions[i].chapter == chapter {
            return true;
        }
        i = i + 1;
    }
    false
}

pub fn next_main_story_chapter(decisions: &[MainStoryDecisionRecord]) -> (r: MainStoryChapter)
    ensures
        r == spec_next_chapter(decisions@),
{
    if !decided(decisions, MainStoryChapter::MirrorCityOaths) {
        MainStoryChapter::MirrorCityOaths
    } else if !decided(decisions, MainStoryChapter::SignalRoadReckoning) {
        MainStoryChapter::SignalRoadReckoning
    } else if !decided(decisions, MainStoryChapter::AshenFringeCountermarch) {
        MainStoryChapter::AshenFringeCountermarch
    } else {
        MainStoryChapter::ChapterComplete
    }
}

/// The world flags and rooms that `decision_count` chapter decisions have
/// opened: the first opens the Glass Basin wayhouse and the deep relay, the
/// second the Ashen Fringe with Moon Bridge and the Ember Orchard edge.
pub fn story_unlocks(decision_count: usize) -> (r: (Vec<&'static str>, Vec<CampaignRoom>))
    ensures
        decision_count == 0 ==> r.0@.len() == 0 && r.1@.len() == 0,
        decision_count == 1 ==> r.0@.map_values(|f: &str| f@) == seq!["glass_basin_wayhouse_open"@]
            && r.1@ == seq![CampaignRoom::GlassBasinWayhouse, CampaignRoom::DeepRelay],
        decision_count >= 2 ==> r.0@.map_values(|f: &str| f@) == seq!["glass_basin_wayhouse_open"@, "ashen_fringe_open"@]
            && r.1@ == seq![CampaignRoom::GlassBasinWayhouse, CampaignRoom::DeepRelay, CampaignRoom::MoonBridge, CampaignRoom::EmberOrchardEdge],
{
    let mut flags: Vec<&'static str> = Vec::new();
    let mut rooms: Vec<CampaignRoom> = Vec::new();
    if decision_count >= 1 {
        flags.push("glass_basin_wayhouse_open");
        rooms.push(CampaignRoom::GlassBasinWayhouse);
        rooms.push(CampaignRoom::DeepRelay);
    }
    if decision_count >= 2 {
        flags.push("ashen_fringe_open");
        rooms.push(CampaignRoom::MoonBridge);
        rooms.push(CampaignRoom::EmberOrchardEdge);
    }
    proof {
        if decision_count == 1 {
            assert(flags@.map_values(|f: &str| f@) =~= seq!["glass_basin_wayhouse_open"@]);
            assert(rooms@ =~= seq![CampaignRoom::GlassBasinWayhouse, CampaignRoom::DeepRelay]);
        }
        if decision_count >= 2 {
            assert(flags@.map_values(|f: &str| f@) =~= seq!["glass_basin_wayhouse_open"@, "ashen_fringe_open"@]);
            assert(rooms@ =~= seq![CampaignRoom::GlassBasinWayhouse, CampaignRoom::DeepRelay, CampaignRoom::MoonBridge, CampaignRoom::EmberOrchardEdge]);
        }
    }
    (flags, rooms)
}

/// A character of an ending's label as it appears in flag ids: ASCII
/// letters in lower case, spaces and hyphens as underscores.
pub open spec fn slug_char(c: char) -> char {
    if c == ' ' || c == '-' {
        '_'
    } else if 'A' <= c <= 'Z' {
        ((c as u32) + 32) as char
    } else {
        c
    }
}

/// The ending's id in world flags: its label with every character put
/// through `slug_char`.
pub open spec fn spec_ending_id(label: Seq<char>) -> Seq<char> {
    label.map_values(|c: char| slug_char(c))
}

impl MainStoryEnding {
    /// The ending's id in world flags, e.g. `the_three_road_compact`.
    pub fn flag_id(self) -> (r: String)
        ensures
            ({
                let label = match self {
                    MainStoryEnding::WayhouseLeague => "The Wayhouse League"@,
                    MainStoryEnding::OpenArchiveRepublic => "The Open Archive"@,
                    MainStoryEnding::FrontierAccord => "The Frontier Accord"@,
                    MainStoryEnding::ThreeRoadCompact => "The Three-Road Compact"@,
                    MainStoryEnding::ContestedMandate => "The Contested Mandate"@,
                };
                r@ == spec_ending_id(label)
            }),
    {
        proof {
            reveal_strlit("The Wayhouse League");
            reveal_strlit("the_wayhouse_league");
            reveal_strlit("The Open Archive");
            reveal_strlit("the_open_archive");
            reveal_strlit("The Frontier Accord");
            reveal_strlit("the_frontier_accord");
            reveal_strlit("The Three-Road Compact");
            reveal_strlit("the_three_road_compact");
            reveal_strlit("The Contested Mandate");
            reveal_strlit("the_contested_mandate");
        }
        let id = match self {
            MainStoryEnding::WayhouseLeague => "the_wayhouse_league",
            MainStoryEnding::OpenArchiveRepublic => "the_open_archive",
            MainStoryEnding::FrontierAccord => "the_frontier_accord",
            MainStoryEnding::ThreeRoadCompact => "the_three_road_compact",
            MainStoryEnding::ContestedMandate => "the_contested_mandate",
        };
        proof {
            match self {
                MainStoryEnding::WayhouseLeague => assert(id@ =~= spec_ending_id("The Wayhouse League"@)),
                MainStoryEnding::OpenArchiveRepublic => assert(id@ =~= spec_ending_id("The Open Archive"@)),
                MainStoryEnding::FrontierAccord => assert(id@ =~= spec_ending_id("The Frontier Accord"@)),
                MainStoryEnding::ThreeRoadCompact => assert(id@ =~= spec_ending_id("The Three-Road Compact"@)),
                MainStoryEnding::ContestedMandate => assert(id@ =~= spec_ending_id("The Contested Mandate"@)),
            }
        }
        id.to_owned()
    }
}

impl MainStoryEnding {
    /// The state of the world after the ending.
    pub fn post_world_state(self) -> (r: &'static str)
        ensures
            r@ == (match self {
                MainStoryEnding::WayhouseLeague => "Wayhouses shelter travellers and produce route supplies."@,
                MainStoryEnding::OpenArchiveRepublic => "Public ledgers expose shortages and lower information costs."@,
                MainStoryEnding::FrontierAccord => "Frontier patrols and caravans share protected crossings."@,
                MainStoryEnding::ThreeRoadCompact => "Three institutions remain independent under a rotating compact."@,
                MainStoryEnding::ContestedMandate => "Rival mandates persist, opening post-story mediation work."@,
            }),
    {
        match self {
            MainStoryEnding::WayhouseLeague => "Wayhouses shelter travellers and produce route supplies.",
            MainStoryEnding::OpenArchiveRepublic => "Public ledgers expose shortages and lower information costs.",
            MainStoryEnding::FrontierAccord => "Frontier patrols and caravans share protected crossings.",
            MainStoryEnding::ThreeRoadCompact => "Three institutions remain independent under a rotating compact.",
            MainStoryEnding::ContestedMandate => "Rival mandates persist, opening post-story mediation work.",
        }
    }

    /// Where the ending's epilogue is played.
    pub fn epilogue_room(self) -> (r: CampaignRoom)
        ensures
            r == (match self {
                MainStoryEnding::WayhouseLeague => CampaignRoom::CaravanYard,
                MainStoryEnding::OpenArchiveRepublic => CampaignRoom::ArchiveSteps,
                MainStoryEnding::FrontierAccord => CampaignRoom::AshBeaconField,
                MainStoryEnding::ThreeRoadCompact => CampaignRoom::MirrorSquare,
                MainStoryEnding::ContestedMandate => CampaignRoom::MoonBridge,
            }),
    {
        match self {
            MainStoryEnding::WayhouseLeague => CampaignRoom::CaravanYard,
            MainStoryEnding::OpenArchiveRepublic => CampaignRoom::ArchiveSteps,
            MainStoryEnding::FrontierAccord => CampaignRoom::AshBeaconField,
            MainStoryEnding::ThreeRoadCompact => CampaignRoom::MirrorSquare,
            MainStoryEnding::ContestedMandate => CampaignRoom::MoonBridge,
        }
    }
}

/// The closing line of every epilogue, played at its fourth beat.
pub open spec fn epilogue_closing() -> Seq<char> {
    "The epilogue closes and the post-story world opens for continuing regional work."@
}

/// The narration of epilogue beat `progress` (from 0) of `ending`.
pub open spec fn spec_epilogue_text(ending: MainStoryEnding, progress: u8) -> Seq<char> {
    if progress > 2 {
        epilogue_closing()
    } else {
        match ending {
            MainStoryEnding::WayhouseLeague => if progress == 0 {
                "A winter caravan arrives without losing a traveller; the new league signs its first public shelter ledger."@
            } else if progress == 1 {
                "Porters elect the league's first route steward while innkeepers publish the cost of every free bed."@
            } else {
                "A caravan once excluded from the city receives a league seal, shelter and a place on the next route council."@
            },
            MainStoryEnding::OpenArchiveRepublic => if progress == 0 {
                "Citizens compare the first open ledgers and catch a shortage before a ward goes hungry."@
            } else if progress == 1 {
                "An apprentice challenges an incorrect grain ledger in public and the senior archivists amend it without reprisal."@
            } else {
                "Citizens copy the corrected ledgers into ward books so no single archive can hide the next crisis."@
            },
            MainStoryEnding::FrontierAccord => if progress == 0 {
                "Former enemies relight the Ash Beacon together and exchange patrol routes under witness."@
            } else if progress == 1 {
                "Mirror and Ashen scouts exchange wounded prisoners, then mark a shared rescue path across the marsh."@
            } else {
                "Children from both frontiers relight a minor beacon and argue cheerfully over whose signal code is clearer."@
            },
            MainStoryEnding::ThreeRoadCompact => if progress == 0 {
                "Three delegations take separate seats in Mirror Square and agree to rotate the deciding voice."@
            } else if progress == 1 {
                "The compact's first deadlock ends when market workers demand that all three delegates answer the same shortage."@
            } else {
                "Independent guilds sign a narrow water pact, proving cooperation need not erase their competing loyalties."@
            },
            MainStoryEnding::ContestedMandate => if progress == 0 {
                "Rival envoys meet at Moon Bridge; no banner lowers, but both sides accept the player as mediator."@
            } else if progress == 1 {
                "Two rival tax patrols arrive together; the player forces both to hear the district's accounts before collecting anything."@
            } else {
                "The unresolved banners remain, but a permanent witness bench gives ordinary residents leverage over both courts."@
            },
        }
    }
}

fn epilogue_text(ending: MainStoryEnding, progress: u8) -> (r: &'static str)
    ensures
        r@ == spec_epilogue_text(ending, progress),
{
    if progress > 2 {
        return "The epilogue closes and the post-story world opens for continuing regional work.";
    }
    match ending {
        MainStoryEnding::WayhouseLeague => if progress == 0 {
            "A winter caravan arrives without losing a traveller; the new league signs its first public shelter ledger."
        } else if progress == 1 {
            "Porters elect the league's first route steward while innkeepers publish the cost of every free bed."
        } else {
            "A caravan once excluded from the city receives a league seal, shelter and a place on the next route council."
        },
        MainStoryEnding::OpenArchiveRepublic => if progress == 0 {
            "Citizens compare the first open ledgers and catch a shortage before a ward goes hungry."
        } else if progress == 1 {
            "An apprentice challenges an incorrect grain ledger in public and the senior archivists amend it without reprisal."
        } else {
            "Citizens copy the corrected ledgers into ward books so no single archive can hide the next crisis."
        },
        MainStoryEnding::FrontierAccord => if progress == 0 {
            "Former enemies relight the Ash Beacon together and exchange patrol routes under witness."
        } else if progress == 1 {
            "Mirror and Ashen scouts exchange wounded prisoners, then mark a shared rescue path across the marsh."
        } else {
            "Children from both frontiers relight a minor beacon and argue cheerfully over whose signal code is clearer."
        },
        MainStoryEnding::ThreeRoadCompact => if progress == 0 {
            "Three delegations take separate seats in Mirror Square and agree to rotate the deciding voice."
        } else if progress == 1 {
            "The compact's first deadlock ends when market workers demand that all three delegates answer the same shortage."
        } else {
            "Independent guilds sign a narrow water pact, proving cooperation need not erase their competing loyalties."
        },
        MainStoryEnding::ContestedMandate => if progress == 0 {
            "Rival envoys meet at Moon Bridge; no banner lowers, but both sides accept the player as mediator."
        } else if progress == 1 {
            "Two rival tax patrols arrive together; the player forces both to hear the district's accounts before collecting anything."
        } else {
            "The unresolved banners remain, but a permanent witness bench gives ordinary residents leverage over both courts."
        },
    }
}

/// Credits granted when an epilogue completes.
pub const EPILOGUE_CREDIT_REWARD: i64 = 75;

/// Reputation granted when an epilogue completes.
pub const EPILOGUE_REPUTATION_REWARD: i32 = 8;

/// Epilogue beats played before the epilogue completes.
pub const EPILOGUE_BEATS: u8 = 4;

/// One epilogue beat: its narration, the beat count afterwards, and whether
/// this beat completed the epilogue (which grants its rewards).
#[derive(Debug, Clone, PartialEq, Eq)]
pub struct EpilogueBeat {
    pub text: &'static str,
    pub progress: u8,
    pub completed: bool,
}

pub open spec fn msg_no_epilogue() -> Seq<char> {
    "no resolved ending has an epilogue"@
}

pub open spec fn msg_epilogue_done() -> Seq<char> {
    "the ending epilogue is already complete"@
}

pub open spec fn sat_inc_u8(n: u8) -> u8 {
    if n == u8::MAX { n } else { (n + 1) as u8 }
}

/// Plays the next epilogue beat of the resolved ending: refused without an
/// ending or once the epilogue is complete; the fourth beat completes it.
pub fn advance_epilogue(ending: Option<MainStoryEnding>, progress: u8, complete: bool) -> (r: Result<EpilogueBeat, CampaignError>)
    ensures
        ending is None ==> (r matches Err(e) && e.is_state(msg_no_epilogue())),
        ending is Some && complete ==> (r matches Err(e) && e.is_state(msg_epilogue_done())),
        ending is Some && !complete ==> (r matches Ok(beat)
            && beat.text@ == spec_epilogue_text(ending->Some_0, progress)
            && beat.progress == sat_inc_u8(progress)
            && beat.completed == (sat_inc_u8(progress) >= EPILOGUE_BEATS)),
{
    let ending = match ending {
        Some(e) => e,
        None => {
            return Err(CampaignError::InvalidState("no resolved ending has an epilogue".to_owned()));
        },
    };
    if complete {
        return Err(CampaignError::InvalidState("the ending epilogue is already complete".to_owned()));
    }
    let text = epilogue_text(ending, progress);
    let next = progress.saturating_add(1);
    Ok(EpilogueBeat { text, progress: next, completed: next >= EPILOGUE_BEATS })
}

/// An epilogue takes exactly four beats: starting from none played, the
/// first three beats leave it open and the fourth, which closes the story,
/// completes it; a completed epilogue plays no more beats.
pub proof fn lemma_epilogue_takes_four_beats(ending: MainStoryEnding)
    ensures
        sat_inc_u8(0) < EPILOGUE_BEATS,
        sat_inc_u8(1) < EPILOGUE_BEATS,
        sat_inc_u8(2) < EPILOGUE_BEATS,
        sat_inc_u8(3) >= EPILOGUE_BEATS,
        spec_epilogue_text(ending, 3) == epilogue_closing(),
{
}

/// Deciding the pending chapter moves the story on: the decided chapter is
/// never pending again, every chapter decided before stays decided, and
/// once the three chapters are decided the story is complete.
pub proof fn lemma_deciding_moves_the_story_on(decisions: Seq<MainStoryDecisionRecord>, record: MainStoryDecisionRecord, other: MainStoryChapter)
    requires
        spec_next_chapter(decisions) != MainStoryChapter::ChapterComplete,
        record.chapter == spec_next_chapter(decisions),
    ensures
        chapter_decided(decisions.push(record), record.chapter),
        spec_next_chapter(decisions.push(record)) != record.chapter,
        chapter_decided(decisions, other) ==> chapter_decided(decisions.push(record), other),
        (chapter_decided(decisions.push(record), MainStoryChapter::MirrorCityOaths)
            && chapter_decided(decisions.push(record), MainStoryChapter::SignalRoadReckoning)
            && chapter_decided(decisions.push(record), MainStoryChapter::AshenFringeCountermarch))
            ==> spec_next_chapter(decisions.push(record)) == MainStoryChapter::ChapterComplete,
{
    let d2 = decisions.push(record);
    assert(d2[decisions.len() as int] == record);
    if chapter_decided(decisions, other) {
        let i = choose|i: int| 0 <= i < decisions.len() && #[trigger] decisions[i].chapter == other;
        assert(d2[i] == decisions[i]);
    }
}

/// All given choices are `c`.
pub open spec fn all_chose(choices: Seq<MainStoryChoice>, c: MainStoryChoice) -> bool {
    forall|i: int| 0 <= i < choices.len() ==> #[trigger] choices[i] == c
}

/// The given choices are pairwise different.
pub open spec fn all_distinct(choices: Seq<MainStoryChoice>) -> bool {
    forall|i: int, j: int| 0 <= i < j < choices.len() ==> #[trigger] choices[i] != #[trigger] choices[j]
}

/// The ending that three chapter choices resolve to: a unanimous stance
/// gives its own ending, three different stances give the Three-Road
/// Compact, and any other mix gives the Contested Mandate. Anything but
/// exactly one decision per chapter resolves to nothing.
pub open spec fn spec_resolve_ending(choices: Seq<MainStoryChoice>) -> Option<MainStoryEnding> {
    if choices.len() != 3 {
        None
    } else if all_chose(choices, MainStoryChoice::ProtectWayhouses) {
        Some(MainStoryEnding::WayhouseLeague)
    } else if all_chose(choices, MainStoryChoice::ExposeConspiracy) {
        Some(MainStoryEnding::OpenArchiveRepublic)
    } else if all_chose(choices, MainStoryChoice::ForgeAccord) {
        Some(MainStoryEnding::FrontierAccord)
    } else if all_distinct(choices) {
        Some(MainStoryEnding::ThreeRoadCompact)
    } else {
        Some(MainStoryEnding::ContestedMandate)
    }
}

pub open spec fn decision_choices(decisions: Seq<MainStoryDecisionRecord>) -> Seq<MainStoryChoice> {
    decisions.map_values(|d: MainStoryDecisionRecord| d.choice)
}

pub fn resolve_main_story_ending(decisions: &[MainStoryDecisionRecord]) -> (r: Option<MainStoryEnding>)
    ensures
        r == spec_resolve_ending(decision_choices(decisions@)),
{
    let ghost choices = decision_choices(decisions@);
    if decisions.len() != 3 {
        return None;
    }
    let a = decisions[0].choice;
    let b = decisions[1].choice;
    let c = decisions[2].choice;
    assert(choices =~= seq![a, b, c]);
    if a == MainStoryChoice::ProtectWayhouses && b == MainStoryChoice::ProtectWayhouses
        && c == MainStoryChoice::ProtectWayhouses {
        Some(MainStoryEnding::WayhouseLeague)
    } else if a == MainStoryChoice::ExposeConspiracy && b == MainStoryChoice::ExposeConspiracy
        && c == MainStoryChoice::ExposeConspiracy {
        Some(MainStoryEnding::OpenArchiveRepublic)
    } else if a == MainStoryChoice::ForgeAccord && b == MainStoryChoice::ForgeAccord
        && c == MainStoryChoice::ForgeAccord {
        Some(MainStoryEnding::FrontierAccord)
    } else if a != b && a != c && b != c {
        assert(all_distinct(choices));
        Some(MainStoryEnding::ThreeRoadCompact)
    } else {
        assert(!all_distinct(choices)) by {
            if a == b {
                assert(choices[0] == choices[1]);
            } else if a == c {
                assert(choices[0] == choices[2]);
            } else {
                assert(choices[1] == choices[2]);
            }
        }
        Some(MainStoryEnding::ContestedMandate)
    }
}

/// Only the stances matter, not the order in which the chapters took them:
/// exchanging any two of the three decisions leaves the ending unchanged,
/// and exactly one ending is resolved whenever all three chapters decided.
pub proof fn lemma_ending_ignores_decision_order(a: MainStoryChoice, b: MainStoryChoice, c: MainStoryChoice)
    ensures
        spec_resolve_ending(seq![a, b, c]) == spec_resolve_ending(seq![b, a, c]),
        spec_resolve_ending(seq![a, b, c]) == spec_resolve_ending(seq![a, c, b]),
        spec_resolve_ending(seq![a, b, c]) == spec_resolve_ending(seq![c, b, a]),
        spec_resolve_ending(seq![a, b, c]) is Some,
{
    lemma_three(a, b, c);
    lemma_three(b, a, c);
    lemma_three(a, c, b);
    lemma_three(c, b, a);
}

/// The resolution of three choices, written out.
proof fn lemma_three(a: MainStoryChoice, b: MainStoryChoice, c: MainStoryChoice)
    ensures
        spec_resolve_ending(seq![a, b, c]) == (
            if a == MainStoryChoice::ProtectWayhouses && b == MainStoryChoice::ProtectWayhouses && c == MainStoryChoice::ProtectWayhouses {
                Some(MainStoryEnding::WayhouseLeague)
            } else if a == MainStoryChoice::ExposeConspiracy && b == MainStoryChoice::ExposeConspiracy && c == MainStoryChoice::ExposeConspiracy {
                Some(MainStoryEnding::OpenArchiveRepublic)
            } else if a == MainStoryChoice::ForgeAccord && b == MainStoryChoice::ForgeAccord && c == MainStoryChoice::ForgeAccord {
                Some(MainStoryEnding::FrontierAccord)
            } else if a != b && a != c && b != c {
                Some(MainStoryEnding::ThreeRoadCompact)
            } else {
                Some(MainStoryEnding::ContestedMandate)
            }
        ),
{
    let s = seq![a, b, c];
    assert(s[0] == a && s[1] == b && s[2] == c);
    if !(a != b && a != c && b != c) {
        if a == b {
            assert(s[0] == s[1]);
        } else if a == c {
            assert(s[0] == s[2]);
        } else {
            assert(s[1] == s[2]);
        }
        assert(!all_distinct(s));
    }
}

} // verus!
