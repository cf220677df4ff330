//! The battle seed the campaign issues to the RTS client, and the battle it
//! keeps pending until the result is settled.

use vstd::prelude::*;
use crate::battle_map::{BattleMapSeedV1, MissionDefinition};
use crate::catalog::CampaignDifficulty;
use crate::clock::ExpeditionReadiness;
use crate::error::{CampaignError, Failure};
use crate::canonical::json_seed;
use crate::hashing::{canonical_json_hash, hex_lower, sha256};
use crate::settlement::BattleResultV1;
use crate::skirmish::{is_skirmish_map, is_skirmish_map_id, msg_skirmish_map, msg_skirmish_parameters, SkirmishSetup};
use crate::stats::BattleUnitSeedV1;
use crate::text::str_eq;
use crate::{BATTLE_SEED_CONTRACT, FIRST_CONTACT_RULES_VERSION};

verus! {

/// Everything the RTS client needs to play one battle, sealed by the hash
/// of its canonical JSON form.
#[derive(Debug, Clone, PartialEq, Eq)]
pub struct BattleSeedV1 {
    pub contract_version: String,
    pub battle_id: String,
    pub campaign_revision: u64,
    pub map_id: String,
    pub rules_version: String,
    pub map: BattleMapSeedV1,
    pub party: Vec<BattleUnitSeedV1>,
    pub mission: MissionDefinition,
    pub difficulty: CampaignDifficulty,
    pub regional_skill_bonus_permille: u16,
    pub field_build_cost_permille: u16,
    pub expedition_readiness: ExpeditionReadiness,
    pub skirmish: SkirmishSetup,
    pub seed_hash: String,
}

/// The battle the campaign waits on: the seed it issued and the result
/// once staged.
#[derive(Debug, Clone, PartialEq, Eq)]
pub struct PendingBattleV1 {
    pub seed: BattleSeedV1,
    pub result: Option<BattleResultV1>,
}

/// The maps the campaign can issue seeds for.
pub open spec fn known_map(map_id: Seq<char>) -> bool {
    map_id == "first_contact"@ || map_id == "aftershock_patrol"@ || map_id == "first_contact_aftershock"@
        || map_id == "convoy_exodus"@ || map_id == "mirror_siege"@ || is_skirmish_map(map_id)
}

fn is_known_map(map_id: &str) -> (r: bool)
    ensures
        r == known_map(map_id@),
{
    str_eq(map_id, "first_contact") || str_eq(map_id, "aftershock_patrol") || str_eq(map_id, "first_contact_aftershock")
        || str_eq(map_id, "convoy_exodus") || str_eq(map_id, "mirror_siege") || is_skirmish_map_id(map_id)
}

/// The party units carry distinct unit ids and distinct spawn slots.
pub open spec fn party_unique(party: Seq<BattleUnitSeedV1>) -> bool {
    forall|i: int, j: int| 0 <= i < j < party.len() ==> #[trigger] party[i].unit_id@ != #[trigger] party[j].unit_id@
        && party[i].spawn_slot@ != party[j].spawn_slot@
}

pub open spec fn readiness_in_bounds(r: ExpeditionReadiness) -> bool {
    r.stamina <= 100 && r.rations <= 12 && r.water <= 16 && r.travel_minutes != 0
}

/// The hash that seals `s`: the hex SHA-256 digest of its canonical JSON
/// form with an empty seed hash.
#[verifier::opaque]
pub open spec fn sealing_hash(s: BattleSeedV1) -> Seq<char> {
    hex_lower(sha256(json_seed(s, Seq::empty())))
}

/// The first check a seed fails; `None` for a valid seed.
pub open spec fn seed_failure(s: BattleSeedV1) -> Option<Failure> {
    if s.contract_version@ != BATTLE_SEED_CONTRACT@ {
        Some(Failure::Contract(s.contract_version@))
    } else if !known_map(s.map_id@) || s.rules_version@ != FIRST_CONTACT_RULES_VERSION@ {
        Some(Failure::Contract("unknown map or rules version"@))
    } else if s.map@.failure() is Some {
        Some(Failure::Contract(s.map@.failure()->Some_0))
    } else if s.mission@.failure(s.map@) is Some {
        Some(Failure::Contract(s.mission@.failure(s.map@)->Some_0))
    } else if s.skirmish.enabled && !is_skirmish_map(s.map_id@) {
        Some(Failure::Contract(msg_skirmish_map()))
    } else if s.skirmish.enabled && !s.skirmish.parameters_valid() {
        Some(Failure::Contract(msg_skirmish_parameters()))
    } else if s.skirmish.enabled != is_skirmish_map(s.map_id@) {
        Some(Failure::Contract("skirmish setup and selected map disagree"@))
    } else if s.mission.map_id@ != s.map_id@ {
        Some(Failure::Contract("BattleSeed map and mission definition disagree"@))
    } else if s.party@.len() != 4 {
        Some(Failure::Contract("First Contact requires exactly four party units"@))
    } else if !readiness_in_bounds(s.expedition_readiness) {
        Some(Failure::Contract("expedition readiness is outside authoritative bounds"@))
    } else if !party_unique(s.party@) {
        Some(Failure::Contract("party unit ids and spawn slots must be unique"@))
    } else if s.seed_hash@ != sealing_hash(s) {
        Some(Failure::Integrity("BattleSeed hash does not match its payload"@))
    } else {
        None
    }
}

/// The ids of the seeded party units, in party order.
pub open spec fn seed_unit_ids(s: BattleSeedV1) -> Seq<String> {
    s.party@.map_values(|u: BattleUnitSeedV1| u.unit_id)
}

fn party_is_unique(party: &Vec<BattleUnitSeedV1>) -> (r: bool)
    ensures
        r == party_unique(party@),
{
    let n = party.len();
    let mut i: usize = 0;
    while i < n
        invariant
            n == party@.len(),
            i <= n,
            forall|a: int, b: int| 0 <= a < b < n && a < i ==> #[trigger] party@[a].unit_id@ != #[trigger] party@[b].unit_id@
                && party@[a].spawn_slot@ != party@[b].spawn_slot@,
        decreases n - i,
    {
        let mut j: usize = i + 1;
        while j < n
            invariant
                n == party@.len(),
                i < n,
                i + 1 <= j <= n,
                forall|a: int, b: int| 0 <= a < b < n && a < i ==> #[trigger] party@[a].unit_id@ != #[trigger] party@[b].unit_id@
                    && party@[a].spawn_slot@ != party@[b].spawn_slot@,
                forall|b: int| i < b < j ==> party@[i as int].unit_id@ != #[trigger] party@[b].unit_id@
                    && party@[i as int].spawn_slot@ != party@[b].spawn_slot@,
            decreases n - j,
        {
            if str_eq(party[i].unit_id.as_str(), party[j].unit_id.as_str())
                || str_eq(party[i].spawn_slot.as_str(), party[j].spawn_slot.as_str()) {
                return false;
            }
            j = j + 1;
        }
        i = i + 1;
    }
    true
}

impl BattleSeedV1 {
    /// Checks the seed: contract and rules version, a known map, the map,
    /// mission and skirmish setup valid and agreeing with each other, four
    /// uniquely identified party units, readiness within bounds, and the
    /// seed hash equal to the hash of the seed's own canonical JSON form
    /// (taken with an empty seed hash), so that any change to the payload
    /// after sealing is refused.
    pub fn validate(&self) -> (r: Result<(), CampaignError>)
        ensures
            match seed_failure(*self) {
                None => r is Ok,
                Some(f) => r matches Err(e) && e.is_failure(f),
            },
    {
        if !str_eq(self.contract_version.as_str(), BATTLE_SEED_CONTRACT) {
            return Err(CampaignError::InvalidContract(self.contract_version.clone()));
        }
        if !is_known_map(self.map_id.as_str()) || !str_eq(self.rules_version.as_str(), FIRST_CONTACT_RULES_VERSION) {
            return Err(CampaignError::InvalidContract("unknown map or rules version".to_owned()));
        }
        self.map.validate()?;
        self.mission.validate(&self.map)?;
        self.skirmish.validate(self.map_id.as_str())?;
        if self.skirmish.enabled != is_skirmish_map_id(self.map_id.as_str()) {
            return Err(CampaignError::InvalidContract("skirmish setup and selected map disagree".to_owned()));
        }
        if !str_eq(self.mission.map_id.as_str(), self.map_id.as_str()) {
            return Err(CampaignError::InvalidContract("BattleSeed map and mission definition disagree".to_owned()));
        }
        if self.party.len() != 4 {
            return Err(CampaignError::InvalidContract("First Contact requires exactly four party units".to_owned()));
        }
        let readiness = &self.expedition_readiness;
        if readiness.stamina > 100 || readiness.rations > 12 || readiness.water > 16 || readiness.travel_minutes == 0 {
            return Err(CampaignError::InvalidContract("expedition readiness is outside authoritative bounds".to_owned()));
        }
        if !party_is_unique(&self.party) {
            return Err(CampaignError::InvalidContract("party unit ids and spawn slots must be unique".to_owned()));
        }
        let payload = self.payload_json();
        let hash = canonical_json_hash(payload.as_slice());
        proof {
            reveal(sealing_hash);
        }
        if !str_eq(self.seed_hash.as_str(), hash.as_str()) {
            return Err(CampaignError::Integrity("BattleSeed hash does not match its payload".to_owned()));
        }
        Ok(())
    }

    /// The ids of the seeded party units, in party order.
    pub fn party_unit_ids(&self) -> (r: Vec<String>)
        ensures
            r@ == seed_unit_ids(*self),
    {
        let mut ids: Vec<String> = Vec::new();
        let mut i: usize = 0;
        while i < self.party.len()
            invariant
                i <= self.party@.len(),
                ids@.len() == i,
                forall|j: int| 0 <= j < i ==> #[trigger] ids@[j] == self.party@[j].unit_id,
            decreases self.party@.len() - i,
        {
            ids.push(self.party[i].unit_id.clone());
            i = i + 1;
        }
        assert(ids@ =~= seed_unit_ids(*self));
        ids
    }
}

} // verus!
