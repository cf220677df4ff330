//! Small typed catalogs of the campaign: training paths, loadouts, rooms,
//! missions, difficulty, factions and the player's identity presets.

use vstd::prelude::*;

verus! {

/// The three mentor training paths.
#[derive(Debug, Clone, Copy, Default, PartialEq, Eq, PartialOrd, Ord, Hash, Structural)]
pub enum TrainingPath {
    #[default]
    IronGuard,
    WindStep,
    InnerFlame,
}

impl TrainingPath {
    /// The path that follows `self` in the mentor's rotation.
    pub open spec fn spec_next(self) -> TrainingPath {
        match self {
            TrainingPath::IronGuard => TrainingPath::WindStep,
            TrainingPath::WindStep => TrainingPath::InnerFlame,
            TrainingPath::InnerFlame => TrainingPath::IronGuard,
        }
    }

    pub fn next(self) -> (r: Self)
        ensures
            r == self.spec_next(),
    {
        match self {
            Self::IronGuard => Self::WindStep,
            Self::WindStep => Self::InnerFlame,
            Self::InnerFlame => Self::IronGuard,
        }
    }

    pub fn skill_id(self) -> (r: &'static str)
        ensures
            r@ == (match self {
                TrainingPath::IronGuard => "iron_guard"@,
                TrainingPath::WindStep => "wind_step"@,
                TrainingPath::InnerFlame => "inner_flame"@,
            }),
    {
        match self {
            Self::IronGuard => "iron_guard",
            Self::WindStep => "wind_step",
            Self::InnerFlame => "inner_flame",
        }
    }

    pub fn display_name(self) -> (r: &'static str)
        ensures
            r@ == (match self {
                TrainingPath::IronGuard => "Iron Guard"@,
                TrainingPath::WindStep => "Wind Step"@,
                TrainingPath::InnerFlame => "Inner Flame"@,
            }),
    {
        match self {
            Self::IronGuard => "Iron Guard",
            Self::WindStep => "Wind Step",
            Self::InnerFlame => "Inner Flame",
        }
    }
}

/// Party equipment presets offered before deployment.
#[derive(Debug, Clone, Copy, Default, PartialEq, Eq, PartialOrd, Ord, Hash, Structural)]
pub enum LoadoutPreset {
    #[default]
    Guard,
    Raider,
    Mystic,
}

impl LoadoutPreset {
    pub open spec fn spec_next(self) -> LoadoutPreset {
        match self {
            LoadoutPreset::Guard => LoadoutPreset::Raider,
            LoadoutPreset::Raider => LoadoutPreset::Mystic,
            LoadoutPreset::Mystic => LoadoutPreset::Guard,
        }
    }

    pub fn next(self) -> (r: Self)
        ensures
            r == self.spec_next(),
    {
        match self {
            Self::Guard => Self::Raider,
            Self::Raider => Self::Mystic,
            Self::Mystic => Self::Guard,
        }
    }

    pub fn display_name(self) -> (r: &'static str)
        ensures
            r@ == (match self {
                LoadoutPreset::Guard => "Route Guard"@,
                LoadoutPreset::Raider => "Night Raider"@,
                LoadoutPreset::Mystic => "Relay Mystic"@,
            }),
    {
        match self {
            Self::Guard => "Route Guard",
            Self::Raider => "Night Raider",
            Self::Mystic => "Relay Mystic",
        }
    }

    /// The two equipment item ids that make up the preset.
    pub open spec fn spec_item_ids(self) -> (Seq<char>, Seq<char>) {
        match self {
            LoadoutPreset::Guard => ("route-guard-staff"@, "street-compass-bracer"@),
            LoadoutPreset::Raider => ("iron-workshop-blade"@, "night-watch-cloak"@),
            LoadoutPreset::Mystic => ("market-wind-sword"@, "raid-signal-drum"@),
        }
    }

    pub fn item_ids(self) -> (r: Vec<&'static str>)
        ensures
            r@.len() == 2,
            r@[0]@ == self.spec_item_ids().0,
            r@[1]@ == self.spec_item_ids().1,
    {
        match self {
            Self::Guard => vec!["route-guard-staff", "street-compass-bracer"],
            Self::Raider => vec!["iron-workshop-blade", "night-watch-cloak"],
            Self::Mystic => vec!["market-wind-sword", "raid-signal-drum"],
        }
    }
}

/// The twenty authored town and frontier rooms.
#[derive(Debug, Clone, Copy, PartialEq, Eq, PartialOrd, Ord, Hash, Structural)]
pub enum CampaignRoom {
    MirrorSquare,
    MentorHall,
    ExpeditionGate,
    RelayQuarter,
    CisternWard,
    NightWatchPost,
    WorkshopGate,
    MarketWindPavilion,
    LanternInfirmary,
    ArchiveSteps,
    CaravanYard,
    OuterSignalRoad,
    GlassBasinWayhouse,
    DeepRelay,
    GlassReedMarsh,
    BasinObservatory,
    MoonBridge,
    EmberOrchardEdge,
    AshBeaconField,
    CinderRefuge,
}

impl CampaignRoom {
    pub open spec fn spec_title(self) -> Seq<char> {
        match self {
            CampaignRoom::MirrorSquare => "镜城广场"@,
            CampaignRoom::MentorHall => "街指南师父居"@,
            CampaignRoom::ExpeditionGate => "First Contact 出征口"@,
            CampaignRoom::RelayQuarter => "中继新街"@,
            CampaignRoom::CisternWard => "蓄水坊"@,
            CampaignRoom::NightWatchPost => "夜巡哨所"@,
            CampaignRoom::WorkshopGate => "铁工门"@,
            CampaignRoom::MarketWindPavilion => "市风阁"@,
            CampaignRoom::LanternInfirmary => "灯火医馆"@,
            CampaignRoom::ArchiveSteps => "镜档石阶"@,
            CampaignRoom::CaravanYard => "行商院"@,
            CampaignRoom::OuterSignalRoad => "外信号道"@,
            CampaignRoom::GlassBasinWayhouse => "琉璃盆地驿"@,
            CampaignRoom::DeepRelay => "深层中继站"@,
            CampaignRoom::GlassReedMarsh => "琉璃苇泽"@,
            CampaignRoom::BasinObservatory => "盆地观象台"@,
            CampaignRoom::MoonBridge => "月镜桥"@,
            CampaignRoom::EmberOrchardEdge => "烬果园边地"@,
            CampaignRoom::AshBeaconField => "灰烬烽野"@,
            CampaignRoom::CinderRefuge => "余烬避难所"@,
        }
    }

    pub fn title(self) -> (r: &'static str)
        ensures
            r@ == self.spec_title(),
    {
        match self {
            Self::MirrorSquare => "镜城广场",
            Self::MentorHall => "街指南师父居",
            Self::ExpeditionGate => "First Contact 出征口",
            Self::RelayQuarter => "中继新街",
            Self::CisternWard => "蓄水坊",
            Self::NightWatchPost => "夜巡哨所",
            Self::WorkshopGate => "铁工门",
            Self::MarketWindPavilion => "市风阁",
            Self::LanternInfirmary => "灯火医馆",
            Self::ArchiveSteps => "镜档石阶",
            Self::CaravanYard => "行商院",
            Self::OuterSignalRoad => "外信号道",
            Self::GlassBasinWayhouse => "琉璃盆地驿",
            Self::DeepRelay => "深层中继站",
            Self::GlassReedMarsh => "琉璃苇泽",
            Self::BasinObservatory => "盆地观象台",
            Self::MoonBridge => "月镜桥",
            Self::EmberOrchardEdge => "烬果园边地",
            Self::AshBeaconField => "灰烬烽野",
            Self::CinderRefuge => "余烬避难所",
        }
    }
}

/// Where the campaign stands in the RPG -> RTS -> RPG loop.
#[derive(Debug, Clone, Copy, PartialEq, Eq, Hash, Structural)]
pub enum CampaignPhase {
    Town,
    BattlePending,
    PostBattlePending,
}

/// State of the current campaign quest.
#[derive(Debug, Clone, Copy, PartialEq, Eq, Hash, Structural)]
pub enum QuestState {
    Locked,
    Available,
    Accepted,
    Completed,
    Failed,
    Withdrawn,
}

/// The authored campaign missions and standalone skirmish maps.
#[derive(Debug, Clone, Copy, Default, PartialEq, Eq, PartialOrd, Ord, Hash, Structural)]
pub enum CampaignMission {
    #[default]
    FirstContact,
    AftershockPatrol,
    ConvoyExodus,
    MirrorSiege,
    IronDeltaSkirmish,
    NightWatchCrossingSkirmish,
    GlassBasinSkirmish,
    EmberOrchardSkirmish,
    SaltMarshSkirmish,
    CinderCrownSkirmish,
}

impl CampaignMission {
    pub open spec fn spec_map_id(self) -> Seq<char> {
        match self {
            CampaignMission::FirstContact => "first_contact"@,
            CampaignMission::AftershockPatrol => "aftershock_patrol"@,
            CampaignMission::ConvoyExodus => "convoy_exodus"@,
            CampaignMission::MirrorSiege => "mirror_siege"@,
            CampaignMission::IronDeltaSkirmish => "iron_delta"@,
            CampaignMission::NightWatchCrossingSkirmish => "night_watch_crossing"@,
            CampaignMission::GlassBasinSkirmish => "glass_basin"@,
            CampaignMission::EmberOrchardSkirmish => "ember_orchard"@,
            CampaignMission::SaltMarshSkirmish => "salt_marsh"@,
            CampaignMission::CinderCrownSkirmish => "cinder_crown"@,
        }
    }

    pub fn map_id(self) -> (r: &'static str)
        ensures
            r@ == self.spec_map_id(),
    {
        match self {
            Self::FirstContact => "first_contact",
            Self::AftershockPatrol => "aftershock_patrol",
            Self::ConvoyExodus => "convoy_exodus",
            Self::MirrorSiege => "mirror_siege",
            Self::IronDeltaSkirmish => "iron_delta",
            Self::NightWatchCrossingSkirmish => "night_watch_crossing",
            Self::GlassBasinSkirmish => "glass_basin",
            Self::EmberOrchardSkirmish => "ember_orchard",
            Self::SaltMarshSkirmish => "salt_marsh",
            Self::CinderCrownSkirmish => "cinder_crown",
        }
    }

    pub open spec fn spec_display_name(self) -> Seq<char> {
        match self {
            CampaignMission::FirstContact => "First Contact"@,
            CampaignMission::AftershockPatrol => "Aftershock Patrol"@,
            CampaignMission::ConvoyExodus => "Signal Convoy Exodus"@,
            CampaignMission::MirrorSiege => "Mirror Siege Counterstrike"@,
            CampaignMission::IronDeltaSkirmish => "Iron Delta Skirmish"@,
            CampaignMission::NightWatchCrossingSkirmish => "Night Watch Crossing"@,
            CampaignMission::GlassBasinSkirmish => "Glass Basin Control"@,
            CampaignMission::EmberOrchardSkirmish => "Ember Orchard Annihilation"@,
            CampaignMission::SaltMarshSkirmish => "Salt Marsh Divide"@,
            CampaignMission::CinderCrownSkirmish => "Cinder Crown Siege"@,
        }
    }

    pub fn display_name(self) -> (r: &'static str)
        ensures
            r@ == self.spec_display_name(),
    {
        match self {
            Self::FirstContact => "First Contact",
            Self::AftershockPatrol => "Aftershock Patrol",
            Self::ConvoyExodus => "Signal Convoy Exodus",
            Self::MirrorSiege => "Mirror Siege Counterstrike",
            Self::IronDeltaSkirmish => "Iron Delta Skirmish",
            Self::NightWatchCrossingSkirmish => "Night Watch Crossing",
            Self::GlassBasinSkirmish => "Glass Basin Control",
            Self::EmberOrchardSkirmish => "Ember Orchard Annihilation",
            Self::SaltMarshSkirmish => "Salt Marsh Divide",
            Self::CinderCrownSkirmish => "Cinder Crown Siege",
        }
    }
}

/// Campaign difficulty.
#[derive(Debug, Clone, Copy, Default, PartialEq, Eq, Hash, Structural)]
pub enum CampaignDifficulty {
    Story,
    #[default]
    Standard,
    Veteran,
}

impl CampaignDifficulty {
    pub open spec fn spec_next(self) -> CampaignDifficulty {
        match self {
            CampaignDifficulty::Story => CampaignDifficulty::Standard,
            CampaignDifficulty::Standard => CampaignDifficulty::Veteran,
            CampaignDifficulty::Veteran => CampaignDifficulty::Story,
        }
    }

    pub fn next(self) -> (r: Self)
        ensures
            r == self.spec_next(),
    {
        match self {
            Self::Story => Self::Standard,
            Self::Standard => Self::Veteran,
            Self::Veteran => Self::Story,
        }
    }

    pub fn display_name(self) -> (r: &'static str)
        ensures
            r@ == (match self {
                CampaignDifficulty::Story => "Story"@,
                CampaignDifficulty::Standard => "Standard"@,
                CampaignDifficulty::Veteran => "Veteran"@,
            }),
    {
        match self {
            Self::Story => "Story",
            Self::Standard => "Standard",
            Self::Veteran => "Veteran",
        }
    }
}

/// The two playable RTS factions.
#[derive(Debug, Clone, Copy, Default, PartialEq, Eq, Hash, Structural)]
pub enum CampaignFaction {
    #[default]
    MirrorCoalition,
    AshenCompact,
}

impl CampaignFaction {
    pub open spec fn spec_opponent(self) -> CampaignFaction {
        match self {
            CampaignFaction::MirrorCoalition => CampaignFaction::AshenCompact,
            CampaignFaction::AshenCompact => CampaignFaction::MirrorCoalition,
        }
    }

    pub fn opponent(self) -> (r: Self)
        ensures
            r == self.spec_opponent(),
    {
        match self {
            Self::MirrorCoalition => Self::AshenCompact,
            Self::AshenCompact => Self::MirrorCoalition,
        }
    }

    pub fn display_name(self) -> (r: &'static str)
        ensures
            r@ == (match self {
                CampaignFaction::MirrorCoalition => "Mirror Coalition"@,
                CampaignFaction::AshenCompact => "Ashen Compact"@,
            }),
    {
        match self {
            Self::MirrorCoalition => "Mirror Coalition",
            Self::AshenCompact => "Ashen Compact",
        }
    }
}

/// How a standalone skirmish is won.
#[derive(Debug, Clone, Copy, Default, PartialEq, Eq, Hash, Structural)]
pub enum SkirmishVictoryMode {
    #[default]
    Objective,
    Score,
    Annihilation,
}

impl SkirmishVictoryMode {
    pub open spec fn spec_next(self) -> SkirmishVictoryMode {
        match self {
            SkirmishVictoryMode::Objective => SkirmishVictoryMode::Score,
            SkirmishVictoryMode::Score => SkirmishVictoryMode::Annihilation,
            SkirmishVictoryMode::Annihilation => SkirmishVictoryMode::Objective,
        }
    }

    pub fn next(self) -> (r: Self)
        ensures
            r == self.spec_next(),
    {
        match self {
            Self::Objective => Self::Score,
            Self::Score => Self::Annihilation,
            Self::Annihilation => Self::Objective,
        }
    }
}

/// Authored names the player chooses between for a new slot.
#[derive(Debug, Clone, Copy, Default, PartialEq, Eq, Hash, Structural)]
pub enum CharacterNamePreset {
    #[default]
    MirrorRanger,
    SignalRook,
    EmberVale,
}

impl CharacterNamePreset {
    pub open spec fn spec_next(self) -> CharacterNamePreset {
        match self {
            CharacterNamePreset::MirrorRanger => CharacterNamePreset::SignalRook,
            CharacterNamePreset::SignalRook => CharacterNamePreset::EmberVale,
            CharacterNamePreset::EmberVale => CharacterNamePreset::MirrorRanger,
        }
    }

    pub fn next(self) -> (r: Self)
        ensures
            r == self.spec_next(),
    {
        match self {
            Self::MirrorRanger => Self::SignalRook,
            Self::SignalRook => Self::EmberVale,
            Self::EmberVale => Self::MirrorRanger,
        }
    }

    pub fn display_name(self) -> (r: &'static str)
        ensures
            r@ == (match self {
                CharacterNamePreset::MirrorRanger => "Mirror Ranger"@,
                CharacterNamePreset::SignalRook => "Signal Rook"@,
                CharacterNamePreset::EmberVale => "Ember Vale"@,
            }),
    {
        match self {
            Self::MirrorRanger => "Mirror Ranger",
            Self::SignalRook => "Signal Rook",
            Self::EmberVale => "Ember Vale",
        }
    }
}

/// The player's chosen name and whether the choice was confirmed.
#[derive(Debug, Clone, PartialEq, Eq, Structural)]
pub struct CharacterIdentity {
    pub name: CharacterNamePreset,
    pub confirmed: bool,
}

impl Default for CharacterIdentity {
    fn default() -> (r: Self)
        ensures
            r.name == CharacterNamePreset::MirrorRanger,
            r.confirmed,
    {
        Self { name: CharacterNamePreset::MirrorRanger, confirmed: true }
    }
}

/// Steps of the progressive town guide.
#[derive(Debug, Clone, Copy, PartialEq, Eq, Hash, Structural)]
pub enum CampaignGuideStep {
    MeetMentor,
    TrainWithMentor,
    EquipWeapon,
    ReachExpeditionGate,
    AcceptMission,
    DeployMission,
    ReadJournal,
}

impl CampaignGuideStep {
    pub fn prompt(self) -> (r: &'static str)
        ensures
            r@ == (match self {
                CampaignGuideStep::MeetMentor => "Press 2, then T to meet Street Compass Sifu"@,
                CampaignGuideStep::TrainWithMentor => "Press K to complete mentor training"@,
                CampaignGuideStep::EquipWeapon => "Press E to equip a typed loadout"@,
                CampaignGuideStep::ReachExpeditionGate => "Press 3 to reach the expedition gate"@,
                CampaignGuideStep::AcceptMission => "Press F to accept the current campaign mission"@,
                CampaignGuideStep::DeployMission => "Review preparation, then press F to deploy"@,
                CampaignGuideStep::ReadJournal => "Press F4 to review active, completed and locked goals"@,
            }),
    {
        match self {
            Self::MeetMentor => "Press 2, then T to meet Street Compass Sifu",
            Self::TrainWithMentor => "Press K to complete mentor training",
            Self::EquipWeapon => "Press E to equip a typed loadout",
            Self::ReachExpeditionGate => "Press 3 to reach the expedition gate",
            Self::AcceptMission => "Press F to accept the current campaign mission",
            Self::DeployMission => "Review preparation, then press F to deploy",
            Self::ReadJournal => "Press F4 to review active, completed and locked goals",
        }
    }
}

/// How the party prepares before leaving the expedition gate.
#[derive(Debug, Clone, Copy, Default, PartialEq, Eq, Hash, Structural)]
pub enum ExpeditionPreparation {
    #[default]
    Immediate,
    Rested,
    Supplied,
    Shortcut,
}

impl ExpeditionPreparation {
    pub open spec fn spec_next(self) -> ExpeditionPreparation {
        match self {
            ExpeditionPreparation::Immediate => ExpeditionPreparation::Rested,
            ExpeditionPreparation::Rested => ExpeditionPreparation::Supplied,
            ExpeditionPreparation::Supplied => ExpeditionPreparation::Shortcut,
            ExpeditionPreparation::Shortcut => ExpeditionPreparation::Immediate,
        }
    }

    pub fn next(self) -> (r: Self)
        ensures
            r == self.spec_next(),
    {
        match self {
            Self::Immediate => Self::Rested,
            Self::Rested => Self::Supplied,
            Self::Supplied => Self::Shortcut,
            Self::Shortcut => Self::Immediate,
        }
    }

    pub fn display_name(self) -> (r: &'static str)
        ensures
            r@ == (match self {
                ExpeditionPreparation::Immediate => "Immediate March"@,
                ExpeditionPreparation::Rested => "Rest Before Departure"@,
                ExpeditionPreparation::Supplied => "Stocked Expedition"@,
                ExpeditionPreparation::Shortcut => "Signal-road Shortcut"@,
            }),
    {
        match self {
            Self::Immediate => "Immediate March",
            Self::Rested => "Rest Before Departure",
            Self::Supplied => "Stocked Expedition",
            Self::Shortcut => "Signal-road Shortcut",
        }
    }
}

/// Every preset rotation above returns to its start after one full cycle,
/// and a faction's opponent is never itself while the opponent of the
/// opponent is the faction again.
pub proof fn lemma_rotations_are_cycles(
    path: TrainingPath,
    loadout: LoadoutPreset,
    difficulty: CampaignDifficulty,
    mode: SkirmishVictoryMode,
    name: CharacterNamePreset,
    preparation: ExpeditionPreparation,
    faction: CampaignFaction,
)
    ensures
        path.spec_next().spec_next().spec_next() == path,
        path.spec_next() != path,
        loadout.spec_next().spec_next().spec_next() == loadout,
        loadout.spec_next() != loadout,
        difficulty.spec_next().spec_next().spec_next() == difficulty,
        difficulty.spec_next() != difficulty,
        mode.spec_next().spec_next().spec_next() == mode,
        mode.spec_next() != mode,
        name.spec_next().spec_next().spec_next() == name,
        name.spec_next() != name,
        preparation.spec_next().spec_next().spec_next().spec_next() == preparation,
        preparation.spec_next() != preparation,
        preparation.spec_next().spec_next() != preparation,
        faction.spec_opponent().spec_opponent() == faction,
        faction.spec_opponent() != faction,
{
}

/// Distinct missions use distinct battle maps.
pub proof fn lemma_mission_map_ids_are_distinct(a: CampaignMission, b: CampaignMission)
    requires
        a != b,
    ensures
        a.spec_map_id() != b.spec_map_id(),
{
    reveal_strlit("first_contact");
    reveal_strlit("aftershock_patrol");
    reveal_strlit("convoy_exodus");
    reveal_strlit("mirror_siege");
    reveal_strlit("iron_delta");
    reveal_strlit("night_watch_crossing");
    reveal_strlit("glass_basin");
    reveal_strlit("ember_orchard");
    reveal_strlit("salt_marsh");
    reveal_strlit("cinder_crown");
    assert(a.spec_map_id().len() != b.spec_map_id().len() || a.spec_map_id()[0] != b.spec_map_id()[0]);
}

} // verus!
