//! Configuration of a standalone RTS skirmish.

use vstd::prelude::*;
use crate::catalog::{CampaignFaction, SkirmishVictoryMode};
use crate::error::CampaignError;
use crate::text::str_eq;

verus! {

/// The player's choices for a standalone skirmish.
#[derive(Debug, Clone, PartialEq, Eq, Structural)]
pub struct SkirmishSetup {
    pub enabled: bool,
    pub player_faction: CampaignFaction,
    pub enemy_faction: CampaignFaction,
    pub starting_resources: u32,
    pub victory_mode: SkirmishVictoryMode,
    pub score_target: u32,
    pub simulation_seed: u64,
}

/// The simulation seed of a skirmish saved before seeds were recorded.
pub fn default_skirmish_simulation_seed() -> (r: u64)
    ensures
        r == 1,
{
    1
}

/// The setup of a campaign that has not configured a skirmish: disabled,
/// the Mirror Coalition against the Ashen Compact, 300 starting resources,
/// the objective victory mode, a score target of 800 and simulation seed 1.
pub open spec fn idle_skirmish() -> SkirmishSetup {
    SkirmishSetup {
        enabled: false,
        player_faction: CampaignFaction::MirrorCoalition,
        enemy_faction: CampaignFaction::AshenCompact,
        starting_resources: 300,
        victory_mode: SkirmishVictoryMode::Objective,
        score_target: 800,
        simulation_seed: 1,
    }
}

impl Default for SkirmishSetup {
    fn default() -> (r: Self)
        ensures
            r == idle_skirmish(),
    {
        Self {
            enabled: false,
            player_faction: CampaignFaction::MirrorCoalition,
            enemy_faction: CampaignFaction::AshenCompact,
            starting_resources: 300,
            victory_mode: SkirmishVictoryMode::Objective,
            score_target: 800,
            simulation_seed: default_skirmish_simulation_seed(),
        }
    }
}

/// The six authored skirmish maps.
pub open spec fn is_skirmish_map(map_id: Seq<char>) -> bool {
    map_id == "iron_delta"@ || map_id == "night_watch_crossing"@ || map_id == "glass_basin"@
        || map_id == "ember_orchard"@ || map_id == "salt_marsh"@ || map_id == "cinder_crown"@
}

pub fn is_skirmish_map_id(map_id: &str) -> (r: bool)
    ensures
        r == is_skirmish_map(map_id@),
{
    str_eq(map_id, "iron_delta") || str_eq(map_id, "night_watch_crossing")
        || str_eq(map_id, "glass_basin") || str_eq(map_id, "ember_orchard")
        || str_eq(map_id, "salt_marsh") || str_eq(map_id, "cinder_crown")
}

pub open spec fn msg_skirmish_map() -> Seq<char> {
    "skirmish setup requires an authored skirmish map"@
}

pub open spec fn msg_skirmish_parameters() -> Seq<char> {
    "skirmish factions, resources or score target are invalid"@
}

impl SkirmishSetup {
    /// Opposing factions, 100 to 1000 starting resources and a score target
    /// of 40 to 5000.
    pub open spec fn parameters_valid(self) -> bool {
        self.player_faction != self.enemy_faction && 100 <= self.starting_resources <= 1000
            && 40 <= self.score_target <= 5000
    }

    /// A disabled setup is always accepted; an enabled one needs an
    /// authored skirmish map and valid parameters.
    pub fn validate(&self, map_id: &str) -> (r: Result<(), CampaignError>)
        ensures
            !self.enabled ==> r is Ok,
            self.enabled && !is_skirmish_map(map_id@) ==> (r matches Err(e) && e.is_contract(msg_skirmish_map())),
            self.enabled && is_skirmish_map(map_id@) && !self.parameters_valid() ==> (r matches Err(e)
                && e.is_contract(msg_skirmish_parameters())),
            self.enabled && is_skirmish_map(map_id@) && self.parameters_valid() ==> r is Ok,
    {
        if !self.enabled {
            return Ok(());
        }
        if !is_skirmish_map_id(map_id) {
            return Err(CampaignError::InvalidContract("skirmish setup requires an authored skirmish map".to_owned()));
        }
        if self.player_faction == self.enemy_faction
            || !(100 <= self.starting_resources && self.starting_resources <= 1000)
            || !(40 <= self.score_target && self.score_target <= 5000) {
            return Err(CampaignError::InvalidContract("skirmish factions, resources or score target are invalid".to_owned()));
        }
        Ok(())
    }
}

/// The starting resources that follow `resources` in the setup menu.
pub open spec fn spec_next_resources(resources: u32) -> u32 {
    if 100 <= resources <= 299 { 300 } else if 300 <= resources <= 499 { 500 } else { 200 }
}

/// The simulation seed that follows `seed` in the setup menu.
pub open spec fn spec_next_seed(seed: u64) -> u64 {
    if seed == 1 { 2 } else if seed == 2 { 3 } else { 1 }
}

impl SkirmishSetup {
    /// Swaps the player's side; the enemy is always the other faction.
    pub fn cycle_faction(&mut self) -> (r: Result<CampaignFaction, CampaignError>)
        ensures
            !old(self).enabled ==> (r matches Err(e) && e.is_state("select an endgame skirmish map before configuring factions"@))
                && *final(self) == *old(self),
            old(self).enabled ==> r == Ok::<CampaignFaction, CampaignError>(final(self).player_faction)
                && *final(self) == (SkirmishSetup {
                    player_faction: old(self).player_faction.spec_opponent(),
                    enemy_faction: old(self).player_faction.spec_opponent().spec_opponent(),
                    ..*old(self)
                }),
    {
        if !self.enabled {
            return Err(CampaignError::InvalidState("select an endgame skirmish map before configuring factions".to_owned()));
        }
        self.player_faction = self.player_faction.opponent();
        self.enemy_faction = self.player_faction.opponent();
        Ok(self.player_faction)
    }

    /// Steps the starting resources through 300, 500 and 200.
    pub fn cycle_resources(&mut self) -> (r: Result<u32, CampaignError>)
        ensures
            !old(self).enabled ==> (r matches Err(e) && e.is_state("select an endgame skirmish map before configuring resources"@))
                && *final(self) == *old(self),
            old(self).enabled ==> r == Ok::<u32, CampaignError>(final(self).starting_resources)
                && *final(self) == (SkirmishSetup {
                    starting_resources: spec_next_resources(old(self).starting_resources),
                    ..*old(self)
                }),
    {
        if !self.enabled {
            return Err(CampaignError::InvalidState("select an endgame skirmish map before configuring resources".to_owned()));
        }
        self.starting_resources = if 100 <= self.starting_resources && self.starting_resources <= 299 {
            300
        } else if 300 <= self.starting_resources && self.starting_resources <= 499 {
            500
        } else {
            200
        };
        Ok(self.starting_resources)
    }

    /// Steps the victory mode through objective, score and annihilation.
    pub fn cycle_victory_mode(&mut self) -> (r: Result<SkirmishVictoryMode, CampaignError>)
        ensures
            !old(self).enabled ==> (r matches Err(e) && e.is_state("select an endgame skirmish map before configuring victory"@))
                && *final(self) == *old(self),
            old(self).enabled ==> r == Ok::<SkirmishVictoryMode, CampaignError>(final(self).victory_mode)
                && *final(self) == (SkirmishSetup {
                    victory_mode: old(self).victory_mode.spec_next(),
                    ..*old(self)
                }),
    {
        if !self.enabled {
            return Err(CampaignError::InvalidState("select an endgame skirmish map before configuring victory".to_owned()));
        }
        self.victory_mode = self.victory_mode.next();
        Ok(self.victory_mode)
    }

    /// Steps the deterministic simulation seed through 1, 2 and 3.
    pub fn cycle_simulation_seed(&mut self) -> (r: Result<u64, CampaignError>)
        ensures
            !old(self).enabled ==> (r matches Err(e) && e.is_state("select an endgame skirmish map before configuring the seed"@))
                && *final(self) == *old(self),
            old(self).enabled ==> r == Ok::<u64, CampaignError>(final(self).simulation_seed)
                && *final(self) == (SkirmishSetup {
                    simulation_seed: spec_next_seed(old(self).simulation_seed),
                    ..*old(self)
                }),
    {
        if !self.enabled {
            return Err(CampaignError::InvalidState("select an endgame skirmish map before configuring the seed".to_owned()));
        }
        self.simulation_seed = match self.simulation_seed {
            1 => 2,
            2 => 3,
            _ => 1,
        };
        Ok(self.simulation_seed)
    }
}

/// Configuring a skirmish through the menu cannot break it: after any
/// cycling step the factions oppose each other, the resources stay within
/// 100 to 1000 and the seed is 1, 2 or 3, so a setup whose score target
/// was valid remains a valid setup.
pub proof fn lemma_cycling_keeps_setup_valid(setup: SkirmishSetup)
    requires
        40 <= setup.score_target <= 5000,
    ensures
        (SkirmishSetup {
            player_faction: setup.player_faction.spec_opponent(),
            enemy_faction: setup.player_faction.spec_opponent().spec_opponent(),
            ..setup
        }).player_faction != (SkirmishSetup {
            player_faction: setup.player_faction.spec_opponent(),
            enemy_faction: setup.player_faction.spec_opponent().spec_opponent(),
            ..setup
        }).enemy_faction,
        setup.player_faction != setup.enemy_faction ==> (SkirmishSetup {
            starting_resources: spec_next_resources(setup.starting_resources),
            ..setup
        }).parameters_valid(),
        setup.parameters_valid() ==> (SkirmishSetup { victory_mode: setup.victory_mode.spec_next(), ..setup }).parameters_valid(),
        1 <= spec_next_seed(setup.simulation_seed) <= 3,
{
}

} // verus!
