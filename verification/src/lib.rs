//! Authoritative RPG -> RTS -> RPG campaign rules: typed catalogs, battle
//! map and mission contracts, story resolution, loot and settlement receipts.

pub mod battle_map;
pub mod campaign;
pub mod canonical;
pub mod canonical_laws;
pub mod catalog;
pub mod cistern;
pub mod clock;
pub mod commands;
pub mod defaults;
pub mod deployment;
pub mod economy;
pub mod error;
pub mod hashing;
pub mod journal;
pub mod logistics;
pub mod loot;
pub mod market;
pub mod npc_goals;
pub mod party;
pub mod quest_graph;
pub mod quests;
pub mod reconcile;
pub mod seed;
pub mod settings;
pub mod settle;
pub mod settlement;
pub mod skirmish;
pub mod social;
pub mod stats;
pub mod story;
pub mod text;
pub mod town;
pub mod upkeep;

use vstd::prelude::*;

verus! {

pub const CAMPAIGN_SAVE_CONTRACT: &'static str = "trnm_campaign_save_v1";
pub const BATTLE_SEED_CONTRACT: &'static str = "trnm_battle_seed_v8";
pub const BATTLE_RESULT_CONTRACT: &'static str = "trnm_battle_result_v2";
pub const SETTLEMENT_RECEIPT_CONTRACT: &'static str = "trnm_settlement_receipt_v1";
pub const FIRST_CONTACT_RULES_VERSION: &'static str = "first_contact_campaign_rules_v8";
pub const MAX_MENTOR_TRAINING_SESSIONS: u8 = 2;
pub const FIELD_CLINIC_CREDIT_COST: i64 = 40;

/// The credits of a campaign saved before credits were recorded.
pub fn default_campaign_credits() -> (r: i64)
    ensures
        r == 260,
{
    260
}

/// The schema revision of a campaign saved before revisions were recorded.
pub fn legacy_campaign_schema_revision() -> (r: u16)
    ensures
        r == 1,
{
    1
}

/// The field build cost of a battle seed issued before it was recorded: full price.
pub fn default_field_build_cost_permille() -> (r: u16)
    ensures
        r == 1000,
{
    1000
}

/// The secondary technique slot of a campaign saved before it was recorded.
pub fn default_secondary_technique_slot() -> (r: u8)
    ensures
        r == 1,
{
    1
}

} // verus!
