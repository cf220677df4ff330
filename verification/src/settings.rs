//! Save slots and the player's profile-scoped settings.

use vstd::prelude::*;
use crate::catalog::{CampaignMission, CampaignPhase};
use crate::error::CampaignError;
use crate::text::str_eq;

verus! {

/// The contract version of the settings file.
pub const PLAYER_SETTINGS_CONTRACT: &'static str = "trnm_player_settings_v2";

/// The contract version of settings files written before subtitles,
/// control schemes and master volume existed.
pub const LEGACY_PLAYER_SETTINGS_CONTRACT: &'static str = "trnm_player_settings_v1";

/// One of the three isolated campaign save slots.
#[derive(Debug, Clone, Copy, Default, PartialEq, Eq, PartialOrd, Ord, Hash, Structural)]
pub enum SaveSlotId {
    #[default]
    A,
    B,
    C,
}

impl SaveSlotId {
    /// The three slots, in menu order.
    pub fn all() -> (r: [SaveSlotId; 3])
        ensures
            r@ == seq![SaveSlotId::A, SaveSlotId::B, SaveSlotId::C],
    {
        let r = [SaveSlotId::A, SaveSlotId::B, SaveSlotId::C];
        assert(r@ =~= seq![SaveSlotId::A, SaveSlotId::B, SaveSlotId::C]);
        r
    }

    pub fn label(self) -> (r: &'static str)
        ensures
            r@ == (match self {
                SaveSlotId::A => "A"@,
                SaveSlotId::B => "B"@,
                SaveSlotId::C => "C"@,
            }),
    {
        match self {
            Self::A => "A",
            Self::B => "B",
            Self::C => "C",
        }
    }

    pub open spec fn spec_from_digit(digit: u8) -> Option<SaveSlotId> {
        if digit == 1 {
            Some(SaveSlotId::A)
        } else if digit == 2 {
            Some(SaveSlotId::B)
        } else if digit == 3 {
            Some(SaveSlotId::C)
        } else {
            None
        }
    }

    /// The slot bound to the number key `digit` (1, 2 or 3).
    pub fn from_digit(digit: u8) -> (r: Option<Self>)
        ensures
            r == Self::spec_from_digit(digit),
    {
        match digit {
            1 => Some(Self::A),
            2 => Some(Self::B),
            3 => Some(Self::C),
            _ => None,
        }
    }

    pub open spec fn spec_digit(self) -> u8 {
        match self {
            SaveSlotId::A => 1,
            SaveSlotId::B => 2,
            SaveSlotId::C => 3,
        }
    }

    /// The file name of the slot's campaign save inside the save root.
    pub fn save_file_name(self) -> (r: &'static str)
        ensures
            r@ == (match self {
                SaveSlotId::A => "campaign.json"@,
                SaveSlotId::B => "campaign-b.json"@,
                SaveSlotId::C => "campaign-c.json"@,
            }),
    {
        match self {
            Self::A => "campaign.json",
            Self::B => "campaign-b.json",
            Self::C => "campaign-c.json",
        }
    }

    /// The file name of the slot's battle checkpoint inside the save root.
    pub fn checkpoint_file_name(self) -> (r: &'static str)
        ensures
            r@ == (match self {
                SaveSlotId::A => "first-contact-battle.json"@,
                SaveSlotId::B => "campaign-b-battle.json"@,
                SaveSlotId::C => "campaign-c-battle.json"@,
            }),
    {
        match self {
            Self::A => "first-contact-battle.json",
            Self::B => "campaign-b-battle.json",
            Self::C => "campaign-c-battle.json",
        }
    }
}

/// The number keys and the slots correspond one to one, and slots never
/// share a save file or a checkpoint file.
pub proof fn lemma_slot_digits_round_trip(slot: SaveSlotId, other: SaveSlotId, digit: u8)
    ensures
        SaveSlotId::spec_from_digit(slot.spec_digit()) == Some(slot),
        SaveSlotId::spec_from_digit(digit) matches Some(s) ==> s.spec_digit() == digit,
        slot != other ==> (match slot {
            SaveSlotId::A => "campaign.json"@,
            SaveSlotId::B => "campaign-b.json"@,
            SaveSlotId::C => "campaign-c.json"@,
        }) != (match other {
            SaveSlotId::A => "campaign.json"@,
            SaveSlotId::B => "campaign-b.json"@,
            SaveSlotId::C => "campaign-c.json"@,
        }),
{
    reveal_strlit("campaign.json");
    reveal_strlit("campaign-b.json");
    reveal_strlit("campaign-c.json");
    let names = seq!["campaign.json"@, "campaign-b.json"@, "campaign-c.json"@];
    assert(names[0].len() != names[1].len());
    assert(names[0].len() != names[2].len());
    assert(names[1][9] != names[2][9]);
}

/// What probing a slot's save file found.
#[derive(Debug, Clone, PartialEq, Eq)]
pub enum SaveSlotProbe {
    Missing,
    Loaded { campaign_id: String, revision: u64, phase: CampaignPhase, mission: CampaignMission },
    Invalid { error: String },
}

/// The summary of a save slot shown in the slot menu.
#[derive(Debug, Clone, PartialEq, Eq)]
pub struct SaveSlotMeta {
    pub slot: SaveSlotId,
    pub exists: bool,
    pub valid: bool,
    pub campaign_id: Option<String>,
    pub revision: Option<u64>,
    pub phase: Option<CampaignPhase>,
    pub mission: Option<CampaignMission>,
    pub error: Option<String>,
}

impl SaveSlotMeta {
    /// The menu summary of `slot` given what was found in its file: a
    /// missing file is neither existing nor valid; a loaded save reports its
    /// identity; an unreadable one reports its error.
    pub fn describe(slot: SaveSlotId, probe: SaveSlotProbe) -> (r: SaveSlotMeta)
        ensures
            r.slot == slot,
            match probe {
                SaveSlotProbe::Missing => !r.exists && !r.valid && r.campaign_id is None && r.revision is None
                    && r.phase is None && r.mission is None && r.error is None,
                SaveSlotProbe::Loaded { campaign_id, revision, phase, mission } => r.exists && r.valid
                    && (r.campaign_id matches Some(id) && id@ == campaign_id@)
                    && r.revision == Some(revision) && r.phase == Some(phase) && r.mission == Some(mission)
                    && r.error is None,
                SaveSlotProbe::Invalid { error } => r.exists && !r.valid && r.campaign_id is None
                    && r.revision is None && r.phase is None && r.mission is None
                    && (r.error matches Some(e) && e@ == error@),
            },
    {
        match probe {
            SaveSlotProbe::Missing => SaveSlotMeta {
                slot,
                exists: false,
                valid: false,
                campaign_id: None,
                revision: None,
                phase: None,
                mission: None,
                error: None,
            },
            SaveSlotProbe::Loaded { campaign_id, revision, phase, mission } => SaveSlotMeta {
                slot,
                exists: true,
                valid: true,
                campaign_id: Some(campaign_id),
                revision: Some(revision),
                phase: Some(phase),
                mission: Some(mission),
                error: None,
            },
            SaveSlotProbe::Invalid { error } => SaveSlotMeta {
                slot,
                exists: true,
                valid: false,
                campaign_id: None,
                revision: None,
                phase: None,
                mission: None,
                error: Some(error),
            },
        }
    }
}

/// How the player drives the town and battle screens.
#[derive(Debug, Clone, Copy, Default, PartialEq, Eq, Hash, Structural)]
pub enum InputMode {
    #[default]
    Hybrid,
    KeyboardOnly,
    MouseOnly,
}

impl InputMode {
    pub open spec fn spec_next(self) -> InputMode {
        match self {
            InputMode::Hybrid => InputMode::KeyboardOnly,
            InputMode::KeyboardOnly => InputMode::MouseOnly,
            InputMode::MouseOnly => InputMode::Hybrid,
        }
    }

    pub fn next(self) -> (r: Self)
        ensures
            r == self.spec_next(),
    {
        match self {
            Self::Hybrid => Self::KeyboardOnly,
            Self::KeyboardOnly => Self::MouseOnly,
            Self::MouseOnly => Self::Hybrid,
        }
    }
}

/// Keyboard layout of the controls.
#[derive(Debug, Clone, Copy, Default, PartialEq, Eq, Hash, Structural)]
pub enum ControlScheme {
    #[default]
    Classic,
    LeftHanded,
    ArrowGrid,
}

impl ControlScheme {
    pub open spec fn spec_next(self) -> ControlScheme {
        match self {
            ControlScheme::Classic => ControlScheme::LeftHanded,
            ControlScheme::LeftHanded => ControlScheme::ArrowGrid,
            ControlScheme::ArrowGrid => ControlScheme::Classic,
        }
    }

    pub fn next(self) -> (r: Self)
        ensures
            r == self.spec_next(),
    {
        match self {
            Self::Classic => Self::LeftHanded,
            Self::LeftHanded => Self::ArrowGrid,
            Self::ArrowGrid => Self::Classic,
        }
    }
}

/// The settings rotations return to their start after one full cycle.
pub proof fn lemma_settings_rotations_are_cycles(mode: InputMode, scheme: ControlScheme)
    ensures
        mode.spec_next().spec_next().spec_next() == mode,
        mode.spec_next() != mode,
        scheme.spec_next().spec_next().spec_next() == scheme,
        scheme.spec_next() != scheme,
{
}

/// Accessibility and control preferences of one player profile.
#[derive(Debug, Clone, PartialEq, Eq)]
pub struct PlayerSettings {
    pub contract_version: String,
    pub low_motion: bool,
    pub input_mode: InputMode,
    pub subtitles: bool,
    pub high_contrast: bool,
    pub control_scheme: ControlScheme,
    pub master_volume_percent: u8,
}

impl Default for PlayerSettings {
    fn default() -> (r: Self)
        ensures
            r.contract_version@ == PLAYER_SETTINGS_CONTRACT@,
            !r.low_motion,
            r.input_mode == InputMode::Hybrid,
            r.subtitles,
            !r.high_contrast,
            r.control_scheme == ControlScheme::Classic,
            r.master_volume_percent == 80,
    {
        Self {
            contract_version: PLAYER_SETTINGS_CONTRACT.to_owned(),
            low_motion: false,
            input_mode: InputMode::Hybrid,
            subtitles: true,
            high_contrast: false,
            control_scheme: ControlScheme::Classic,
            master_volume_percent: 80,
        }
    }
}

/// Subtitles are on for files that never recorded the preference.
pub fn default_true() -> (r: bool)
    ensures
        r,
{
    true
}

/// The master volume of files that never recorded it.
pub fn default_volume() -> (r: u8)
    ensures
        r == 80,
{
    80
}

impl PlayerSettings {
    /// Current contract version and a volume of at most 100 percent.
    pub open spec fn acceptable(self) -> bool {
        self.contract_version@ == PLAYER_SETTINGS_CONTRACT@ && self.master_volume_percent <= 100
    }

    /// Settings are only loaded or saved under the current contract and
    /// with a volume of at most 100 percent; anything else is refused with
    /// the offending contract version.
    pub fn check_contract(&self) -> (r: Result<(), CampaignError>)
        ensures
            r is Ok <==> self.acceptable(),
            r matches Err(e) ==> e.is_contract(self.contract_version@),
    {
        if !str_eq(self.contract_version.as_str(), PLAYER_SETTINGS_CONTRACT) || self.master_volume_percent > 100 {
            return Err(CampaignError::InvalidContract(self.contract_version.clone()));
        }
        Ok(())
    }
}

/// The contract version a settings file is read under: files of the first
/// contract are upgraded to the current one; any other version is kept.
pub fn migrated_settings_contract_version(version: &str) -> (r: String)
    ensures
        r@ == (if version@ == LEGACY_PLAYER_SETTINGS_CONTRACT@ { PLAYER_SETTINGS_CONTRACT@ } else { version@ }),
{
    if str_eq(version, LEGACY_PLAYER_SETTINGS_CONTRACT) {
        PLAYER_SETTINGS_CONTRACT.to_owned()
    } else {
        version.to_owned()
    }
}

} // verus!
