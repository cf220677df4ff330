//! RTS unit statistics and the typed campaign modifiers applied to them.

use vstd::prelude::*;
use crate::catalog::ExpeditionPreparation;
use crate::clock::{ExpeditionReadiness, sat_add_u32};
use crate::text::str_eq;

verus! {

/// Combat statistics of one RTS unit.
#[derive(Debug, Clone, PartialEq, Eq, Structural)]
pub struct RtsUnitStats {
    pub max_hp: u32,
    pub damage: u32,
    pub armor: u32,
    pub move_speed_milli: u32,
    pub attack_interval_ticks: u32,
    pub evasion_permille: u16,
    pub energy: u32,
    pub ability_range: u32,
    pub skill_power_permille: u16,
}

/// The signed stat bonus that one equipment item grants.
#[derive(Debug, Clone, PartialEq, Eq)]
pub struct TypedEquipmentModifier {
    pub item_id: String,
    pub max_hp: i32,
    pub damage: i32,
    pub armor: i32,
    pub move_speed_milli: i32,
    pub attack_interval_ticks: i32,
    pub evasion_permille: i32,
    pub energy: i32,
    pub ability_range: i32,
}

/// The bonuses of an item, in the field order max hp, damage, armor,
/// move speed, attack interval, evasion, energy, ability range.
pub open spec fn equipment_bonus(id: Seq<char>) -> (i32, i32, i32, i32, i32, i32, i32, i32) {
    if id == "route-guard-staff"@ {
        (0, 4, 1, 0, 0, 0, 0, 1)
    } else if id == "street-compass-bracer"@ {
        (0, 0, 0, 80, 0, 25, 0, 0)
    } else if id == "night-watch-cloak"@ {
        (0, 0, 0, 120, 0, 45, 0, 0)
    } else if id == "iron-workshop-blade"@ {
        (0, 7, 0, 0, 0, 0, 0, 0)
    } else if id == "market-wind-sword"@ {
        (0, 7, 0, 0, 0, 0, 0, 0)
    } else if id == "raid-signal-drum"@ {
        (0, 0, 0, 0, 0, 0, 20, 2)
    } else if id == "field-tonic-kit"@ {
        (20, 0, 0, 0, 0, 0, 0, 0)
    } else if id == "relay-core-fragment"@ {
        (0, 0, 2, 0, 0, 0, 25, 2)
    } else if id == "evidence-wrap-case"@ {
        (0, 0, 0, 0, 0, 0, 10, 1)
    } else if id == "reinforced-staff"@ {
        (0, 10, 2, 0, 0, 0, 0, 2)
    } else if id == "signal-lamellar"@ {
        (30, 0, 5, 0, 0, 0, 0, 0)
    } else if id == "watcher-boots"@ {
        (0, 0, 0, 180, 0, 60, 0, 0)
    } else if id == "field-medic-satchel"@ {
        (15, 0, 0, 0, 0, 0, 35, 1)
    } else if id == "compass-thread-coat"@ {
        (0, 0, 2, 140, 0, 50, 0, 0)
    } else if id == "emberglass-lens"@ {
        (0, 0, 0, 0, 0, 0, 30, 3)
    } else if id == "cistern-seal-kit"@ {
        (25, 0, 3, 0, 0, 0, 0, 0)
    } else if id == "ashward-tonic"@ {
        (18, 0, 0, 0, 0, 20, 0, 0)
    } else {
        (0, 0, 0, 0, 0, 0, 0, 0)
    }
}

impl TypedEquipmentModifier {
    pub open spec fn bonus(self) -> (i32, i32, i32, i32, i32, i32, i32, i32) {
        (
            self.max_hp,
            self.damage,
            self.armor,
            self.move_speed_milli,
            self.attack_interval_ticks,
            self.evasion_permille,
            self.energy,
            self.ability_range,
        )
    }
}

fn bonus_for(item_id: &str) -> (r: (i32, i32, i32, i32, i32, i32, i32, i32))
    ensures
        r == equipment_bonus(item_id@),
{
    if str_eq(item_id, "route-guard-staff") {
        (0, 4, 1, 0, 0, 0, 0, 1)
    } else if str_eq(item_id, "street-compass-bracer") {
        (0, 0, 0, 80, 0, 25, 0, 0)
    } else if str_eq(item_id, "night-watch-cloak") {
        (0, 0, 0, 120, 0, 45, 0, 0)
    } else if str_eq(item_id, "iron-workshop-blade") {
        (0, 7, 0, 0, 0, 0, 0, 0)
    } else if str_eq(item_id, "market-wind-sword") {
        (0, 7, 0, 0, 0, 0, 0, 0)
    } else if str_eq(item_id, "raid-signal-drum") {
        (0, 0, 0, 0, 0, 0, 20, 2)
    } else if str_eq(item_id, "field-tonic-kit") {
        (20, 0, 0, 0, 0, 0, 0, 0)
    } else if str_eq(item_id, "relay-core-fragment") {
        (0, 0, 2, 0, 0, 0, 25, 2)
    } else if str_eq(item_id, "evidence-wrap-case") {
        (0, 0, 0, 0, 0, 0, 10, 1)
    } else if str_eq(item_id, "reinforced-staff") {
        (0, 10, 2, 0, 0, 0, 0, 2)
    } else if str_eq(item_id, "signal-lamellar") {
        (30, 0, 5, 0, 0, 0, 0, 0)
    } else if str_eq(item_id, "watcher-boots") {
        (0, 0, 0, 180, 0, 60, 0, 0)
    } else if str_eq(item_id, "field-medic-satchel") {
        (15, 0, 0, 0, 0, 0, 35, 1)
    } else if str_eq(item_id, "compass-thread-coat") {
        (0, 0, 2, 140, 0, 50, 0, 0)
    } else if str_eq(item_id, "emberglass-lens") {
        (0, 0, 0, 0, 0, 0, 30, 3)
    } else if str_eq(item_id, "cistern-seal-kit") {
        (25, 0, 3, 0, 0, 0, 0, 0)
    } else if str_eq(item_id, "ashward-tonic") {
        (18, 0, 0, 0, 0, 20, 0, 0)
    } else {
        (0, 0, 0, 0, 0, 0, 0, 0)
    }
}

/// The typed stat modifier of an equipment item; unknown items grant nothing.
pub fn typed_equipment_modifier(item_id: &str) -> (r: TypedEquipmentModifier)
    ensures
        r.item_id@ == item_id@,
        r.bonus() == equipment_bonus(item_id@),
{
    let b = bonus_for(item_id);
    TypedEquipmentModifier {
        item_id: item_id.to_owned(),
        max_hp: b.0,
        damage: b.1,
        armor: b.2,
        move_speed_milli: b.3,
        attack_interval_ticks: b.4,
        evasion_permille: b.5,
        energy: b.6,
        ability_range: b.7,
    }
}

/// Equipment only ever improves a unit: no authored modifier is negative,
/// and none changes the attack interval.
pub proof fn lemma_equipment_bonuses_are_nonnegative(id: Seq<char>)
    ensures
        equipment_bonus(id).0 >= 0,
        equipment_bonus(id).1 >= 0,
        equipment_bonus(id).2 >= 0,
        equipment_bonus(id).3 >= 0,
        equipment_bonus(id).4 == 0,
        equipment_bonus(id).5 >= 0,
        equipment_bonus(id).6 >= 0,
        equipment_bonus(id).7 >= 0,
{
}

/// `max(value + delta, minimum)`, truncated to `u32`.
pub open spec fn spec_add_signed(value: u32, delta: i32, minimum: u32) -> u32 {
    let sum = value as int + delta as int;
    (if sum >= minimum as int { sum } else { minimum as int }) as u32
}

/// Applies a signed bonus to an unsigned stat, never going below `minimum`.
pub fn add_signed(value: u32, delta: i32, minimum: u32) -> (r: u32)
    ensures
        r == spec_add_signed(value, delta, minimum),
{
    let sum = value as i64 + delta as i64;
    let bounded = if sum >= minimum as i64 { sum } else { minimum as i64 };
    bounded as u32
}

/// `min(a * b, u32::MAX)`.
pub open spec fn sat_mul_u32(a: int, b: int) -> int {
    if a * b > u32::MAX { u32::MAX as int } else { a * b }
}

fn saturating_mul_u32(a: u32, b: u32) -> (r: u32)
    ensures
        r == sat_mul_u32(a as int, b as int),
{
    match a.checked_mul(b) {
        Some(v) => v,
        None => u32::MAX,
    }
}

/// Campaign level above 1 (at most 12 levels) and reputation in `0..=40`.
pub open spec fn growth_levels(level: u32) -> int {
    let g = if level >= 1 { level - 1 } else { 0 };
    if g > 12 { 12 } else { g }
}

pub open spec fn morale(reputation: i32) -> int {
    if reputation < 0 { 0 } else if reputation > 40 { 40 } else { reputation as int }
}

pub open spec fn spec_campaign_growth(stats: RtsUnitStats, level: u32, reputation: i32) -> RtsUnitStats {
    let g = growth_levels(level);
    let m = morale(reputation);
    RtsUnitStats {
        max_hp: sat_add_u32(sat_add_u32(stats.max_hp as int, g * 14), m / 2) as u32,
        damage: sat_add_u32(stats.damage as int, g * 2) as u32,
        armor: sat_add_u32(stats.armor as int, g / 2) as u32,
        energy: sat_add_u32(sat_add_u32(stats.energy as int, g * 4), m / 2) as u32,
        ..stats
    }
}

/// Levels and reputation earned in the campaign strengthen the seeded units.
pub fn apply_campaign_growth(stats: &mut RtsUnitStats, level: u32, reputation: i32)
    ensures
        *final(stats) == spec_campaign_growth(*old(stats), level, reputation),
{
    let lv = level.saturating_sub(1);
    let growth: u32 = if lv > 12 { 12 } else { lv };
    let morale: u32 = if reputation < 0 { 0 } else if reputation > 40 { 40 } else { reputation as u32 };
    stats.max_hp = stats.max_hp.saturating_add(growth * 14).saturating_add(morale / 2);
    stats.damage = stats.damage.saturating_add(growth * 2);
    stats.armor = stats.armor.saturating_add(growth / 2);
    stats.energy = stats.energy.saturating_add(growth * 4).saturating_add(morale / 2);
}

/// Campaign growth never weakens a unit, and a fresh level-1 campaign with
/// no reputation leaves the unit as it was.
pub proof fn lemma_campaign_growth_is_monotone(stats: RtsUnitStats, level: u32, reputation: i32)
    ensures
        spec_campaign_growth(stats, level, reputation).max_hp >= stats.max_hp,
        spec_campaign_growth(stats, level, reputation).damage >= stats.damage,
        spec_campaign_growth(stats, level, reputation).armor >= stats.armor,
        spec_campaign_growth(stats, level, reputation).energy >= stats.energy,
        level <= 1 && reputation <= 1 ==> spec_campaign_growth(stats, level, reputation) == stats,
{
}

/// Each level from 2 to 13 adds 14 health, 2 damage and 4 energy to a
/// grown unit (and half a point of armour per level); levels past 13 add
/// nothing; reputation adds half its value, up to 20, to health and energy.
/// Stated for units whose stats stay clear of the 32-bit ceiling.
pub proof fn lemma_campaign_growth_per_level(stats: RtsUnitStats, level: u32, reputation: i32)
    requires
        stats.max_hp + 200 <= u32::MAX,
        stats.damage + 30 <= u32::MAX,
        stats.armor + 10 <= u32::MAX,
        stats.energy + 80 <= u32::MAX,
    ensures
        1 <= level < 13 ==> ({
            let lo = spec_campaign_growth(stats, level, reputation);
            let hi = spec_campaign_growth(stats, (level + 1) as u32, reputation);
            &&& hi.max_hp == lo.max_hp + 14
            &&& hi.damage == lo.damage + 2
            &&& hi.energy == lo.energy + 4
            &&& hi.armor >= lo.armor && hi.armor <= lo.armor + 1
        }),
        level >= 13 ==> spec_campaign_growth(stats, level, reputation) == spec_campaign_growth(stats, 13, reputation),
        spec_campaign_growth(stats, 1, reputation).damage == stats.damage,
        spec_campaign_growth(stats, 1, reputation).max_hp == stats.max_hp + (if reputation <= 0 { 0 } else if reputation >= 40 { 20 } else { reputation / 2 }),
        spec_campaign_growth(stats, 1, 0) == stats,
{
}

/// A supplied expedition gives every unit 30 more energy than an immediate
/// march at the same stamina (and otherwise the same stats); a shortcut
/// gives 120 more speed and 25 more evasion, evasion capped at 500.
pub proof fn lemma_preparation_effects(stats: RtsUnitStats, readiness: ExpeditionReadiness)
    requires
        readiness.preparation == ExpeditionPreparation::Immediate,
    ensures
        ({
            let base = spec_expedition_readiness(stats, readiness);
            let supplied = spec_expedition_readiness(stats, ExpeditionReadiness { preparation: ExpeditionPreparation::Supplied, ..readiness });
            let rested = spec_expedition_readiness(stats, ExpeditionReadiness { preparation: ExpeditionPreparation::Rested, ..readiness });
            let shortcut = spec_expedition_readiness(stats, ExpeditionReadiness { preparation: ExpeditionPreparation::Shortcut, ..readiness });
            &&& rested == base
            &&& base.energy + 30 <= u32::MAX ==> supplied == RtsUnitStats { energy: (base.energy + 30) as u32, ..base }
            &&& base.move_speed_milli + 120 <= u32::MAX ==> shortcut.move_speed_milli == base.move_speed_milli + 120
            &&& shortcut.evasion_permille == (if base.evasion_permille + 25 < 500 { base.evasion_permille + 25 } else { 500 })
            &&& shortcut.max_hp == base.max_hp && shortcut.damage == base.damage && shortcut.energy == base.energy
        }),
{
}

/// The per-mille scale that stamina applies to health and speed.
pub open spec fn stamina_permille(stamina: u8) -> int {
    700 + stamina as int * 3
}

pub open spec fn spec_expedition_readiness(stats: RtsUnitStats, readiness: ExpeditionReadiness) -> RtsUnitStats {
    let sp = stamina_permille(readiness.stamina);
    let hp = sat_mul_u32(stats.max_hp as int, sp) / 1000;
    let speed = sat_mul_u32(stats.move_speed_milli as int, sp) / 1000;
    let scaled = RtsUnitStats {
        max_hp: (if hp >= 1 { hp } else { 1 }) as u32,
        move_speed_milli: (if speed >= 100 { speed } else { 100 }) as u32,
        ..stats
    };
    match readiness.preparation {
        ExpeditionPreparation::Supplied => RtsUnitStats {
            energy: sat_add_u32(scaled.energy as int, 30) as u32,
            ..scaled
        },
        ExpeditionPreparation::Shortcut => {
            let evasion = if scaled.evasion_permille + 25 > u16::MAX { u16::MAX as int } else { scaled.evasion_permille + 25 };
            RtsUnitStats {
                move_speed_milli: sat_add_u32(scaled.move_speed_milli as int, 120) as u32,
                evasion_permille: (if evasion < 500 { evasion } else { 500 }) as u16,
                ..scaled
            }
        },
        _ => scaled,
    }
}

/// Stamina, rations and the chosen preparation shape the deployed units.
pub fn apply_expedition_readiness(stats: &mut RtsUnitStats, readiness: &ExpeditionReadiness)
    ensures
        *final(stats) == spec_expedition_readiness(*old(stats), *readiness),
{
    let sp: u32 = 700u32.saturating_add(readiness.stamina as u32 * 3);
    let hp = saturating_mul_u32(stats.max_hp, sp) / 1000;
    stats.max_hp = if hp >= 1 { hp } else { 1 };
    let speed = saturating_mul_u32(stats.move_speed_milli, sp) / 1000;
    stats.move_speed_milli = if speed >= 100 { speed } else { 100 };
    match readiness.preparation {
        ExpeditionPreparation::Supplied => {
            stats.energy = stats.energy.saturating_add(30);
        },
        ExpeditionPreparation::Shortcut => {
            stats.move_speed_milli = stats.move_speed_milli.saturating_add(120);
            let evasion = stats.evasion_permille.saturating_add(25);
            stats.evasion_permille = if evasion < 500 { evasion } else { 500 };
        },
        ExpeditionPreparation::Immediate | ExpeditionPreparation::Rested => {},
    }
}

/// One seeded RTS unit of the player's party.
#[derive(Debug, Clone, PartialEq, Eq)]
pub struct BattleUnitSeedV1 {
    pub unit_id: String,
    pub display_name: String,
    pub role: String,
    pub spawn_slot: String,
    pub persistent: bool,
    pub injury_level: u8,
    pub skill_ids: Vec<String>,
    pub equipment_ids: Vec<String>,
    pub veteran_rank: u8,
    pub stats: RtsUnitStats,
}

} // verus!
