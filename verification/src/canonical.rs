//! The canonical JSON form of the battle seed: the bytes its hash is taken
//! over and the form the RTS client receives. Fields appear in declaration
//! order with no whitespace, enum variants as snake-case strings, and
//! strings escaped as JSON requires (quote, backslash and control bytes).

use vstd::prelude::*;
use vstd::string::*;
use vstd::utf8::encode_utf8;
use vstd::seq_lib::lemma_concat_associative;
use crate::battle_map::{BattleGridPoint, BattleMapNodeV1, BattleMapSeedV1, MissionDefinition, MissionObjectiveDefinition, ObjectiveKind};
use crate::catalog::{CampaignDifficulty, CampaignFaction, CampaignMission, ExpeditionPreparation, SkirmishVictoryMode};
use crate::clock::ExpeditionReadiness;
use crate::seed::BattleSeedV1;
use crate::skirmish::SkirmishSetup;
use crate::stats::{BattleUnitSeedV1, RtsUnitStats};
use crate::settlement::{BattleOutcome, BattleResultV1, UnitBattleReportV1, UnitBattleStatus};
use crate::loot::LootStack;
use crate::hashing::{canonical_json_hash, hex_lower, sha256};

verus! {

/// A value with a canonical JSON form.
pub trait CanonicalJson {
    spec fn json(&self) -> Seq<u8>;

    fn push_json(&self, out: &mut Vec<u8>)
        ensures
            final(out)@ == old(out)@ + self.json(),
    ;
}

/// The lower-case hex digit of `d` (below 16), as a byte.
pub open spec fn hex_digit_byte(d: u8) -> u8 {
    if d < 10 { (48 + d) as u8 } else { (87 + d) as u8 }
}

/// How JSON writes the byte `b` inside a string.
pub open spec fn escaped_byte(b: u8) -> Seq<u8> {
    if b == 34 {
        seq![92u8, 34u8]
    } else if b == 92 {
        seq![92u8, 92u8]
    } else if b == 10 {
        seq![92u8, 110u8]
    } else if b == 13 {
        seq![92u8, 114u8]
    } else if b == 9 {
        seq![92u8, 116u8]
    } else if b == 8 {
        seq![92u8, 98u8]
    } else if b == 12 {
        seq![92u8, 102u8]
    } else if b < 32 {
        seq![92u8, 117u8, 48u8, 48u8, hex_digit_byte(b / 16), hex_digit_byte(b % 16)]
    } else {
        seq![b]
    }
}

pub open spec fn escaped_bytes(s: Seq<u8>) -> Seq<u8>
    decreases s.len(),
{
    if s.len() == 0 { Seq::empty() } else { escaped_bytes(s.drop_last()) + escaped_byte(s.last()) }
}

/// The JSON string literal of the text `s` (UTF-8, escaped, quoted).
pub open spec fn json_text(s: Seq<char>) -> Seq<u8> {
    seq![34u8] + escaped_bytes(encode_utf8(s)) + seq![34u8]
}

/// An object member's key and colon, after a comma unless it is the first.
pub open spec fn json_key(key: Seq<char>, first: bool) -> Seq<u8> {
    (if first { Seq::empty() } else { seq![44u8] }) + json_text(key) + seq![58u8]
}

/// The decimal digits of `n`, as bytes.
pub open spec fn json_nat(n: nat) -> Seq<u8>
    decreases n,
{
    if n < 10 { seq![(48 + n) as u8] } else { json_nat(n / 10) + seq![(48 + n % 10) as u8] }
}

/// The items joined by commas.
pub open spec fn json_join(items: Seq<Seq<u8>>) -> Seq<u8>
    decreases items.len(),
{
    if items.len() == 0 {
        Seq::empty()
    } else if items.len() == 1 {
        items[0]
    } else {
        json_join(items.drop_last()) + seq![44u8] + items.last()
    }
}

/// The JSON array of `items`.
pub open spec fn json_list<T: CanonicalJson>(items: Seq<T>) -> Seq<u8> {
    seq![91u8] + json_join(items.map_values(|x: T| x.json())) + seq![93u8]
}

fn push_hex_digit(out: &mut Vec<u8>, d: u8)
    requires
        d < 16,
    ensures
        final(out)@ == old(out)@.push(hex_digit_byte(d)),
{
    if d < 10 {
        out.push(48 + d);
    } else {
        out.push(87 + d);
    }
}

fn push_escaped_byte(out: &mut Vec<u8>, b: u8)
    ensures
        final(out)@ == old(out)@ + escaped_byte(b),
{
    let ghost start = out@;
    if b == 34 || b == 92 {
        out.push(92);
        out.push(b);
    } else if b == 10 {
        out.push(92);
        out.push(110);
    } else if b == 13 {
        out.push(92);
        out.push(114);
    } else if b == 9 {
        out.push(92);
        out.push(116);
    } else if b == 8 {
        out.push(92);
        out.push(98);
    } else if b == 12 {
        out.push(92);
        out.push(102);
    } else if b < 32 {
        out.push(92);
        out.push(117);
        out.push(48);
        out.push(48);
        push_hex_digit(out, b / 16);
        push_hex_digit(out, b % 16);
    } else {
        out.push(b);
    }
    assert(out@ =~= start + escaped_byte(b));
}

/// Appends the JSON string literal of `s`.
pub fn push_text(out: &mut Vec<u8>, s: &str)
    ensures
        final(out)@ == old(out)@ + json_text(s@),
{
    let bytes = s.as_bytes();
    out.push(34);
    let ghost start = out@;
    let mut i: usize = 0;
    while i < bytes.len()
        invariant
            i <= bytes@.len(),
            bytes@ == encode_utf8(s@),
            out@ == start + escaped_bytes(bytes@.take(i as int)),
        decreases bytes@.len() - i,
    {
        assert(bytes@.take(i + 1).drop_last() =~= bytes@.take(i as int));
        push_escaped_byte(out, bytes[i]);
        assert(out@ =~= start + escaped_bytes(bytes@.take(i + 1)));
        i = i + 1;
    }
    assert(bytes@.take(bytes@.len() as int) =~= bytes@);
    out.push(34);
    assert(out@ =~= old(out)@ + json_text(s@));
}

fn push_key(out: &mut Vec<u8>, key: &str, first: bool)
    ensures
        final(out)@ == old(out)@ + json_key(key@, first),
{
    let ghost start = out@;
    if !first {
        out.push(44);
    }
    push_text(out, key);
    out.push(58);
    assert(out@ =~= start + json_key(key@, first));
}

fn push_nat(out: &mut Vec<u8>, n: u64)
    ensures
        final(out)@ == old(out)@ + json_nat(n as nat),
    decreases n,
{
    let ghost start = out@;
    if n >= 10 {
        push_nat(out, n / 10);
    }
    out.push((48 + n % 10) as u8);
    assert(out@ =~= start + json_nat(n as nat));
}

fn push_list<T: CanonicalJson>(out: &mut Vec<u8>, items: &Vec<T>)
    ensures
        final(out)@ == old(out)@ + json_list(items@),
{
    let ghost f = |x: T| x.json();
    out.push(91);
    let ghost start = out@;
    let mut i: usize = 0;
    while i < items.len()
        invariant
            i <= items@.len(),
            f == (|x: T| x.json()),
            out@ == start + json_join(items@.take(i as int).map_values(f)),
        decreases items@.len() - i,
    {
        let ghost before = items@.take(i as int).map_values(f);
        let ghost after = items@.take(i + 1).map_values(f);
        assert(after.drop_last() =~= before);
        assert(after.last() == items@[i as int].json());
        if i > 0 {
            out.push(44);
        }
        items[i].push_json(out);
        proof {
            if i == 0 {
                assert(after.len() == 1);
            }
        }
        assert(out@ =~= start + json_join(after));
        i = i + 1;
    }
    assert(items@.take(items@.len() as int) =~= items@);
    out.push(93);
    assert(out@ =~= old(out)@ + json_list(items@));
}

impl CanonicalJson for String {
    open spec fn json(&self) -> Seq<u8> {
        json_text(self@)
    }

    fn push_json(&self, out: &mut Vec<u8>) {
        push_text(out, self.as_str());
    }
}

impl CanonicalJson for u64 {
    open spec fn json(&self) -> Seq<u8> {
        json_nat(*self as nat)
    }

    fn push_json(&self, out: &mut Vec<u8>) {
        push_nat(out, *self);
    }
}

impl CanonicalJson for u32 {
    open spec fn json(&self) -> Seq<u8> {
        json_nat(*self as nat)
    }

    fn push_json(&self, out: &mut Vec<u8>) {
        push_nat(out, *self as u64);
    }
}

impl CanonicalJson for u16 {
    open spec fn json(&self) -> Seq<u8> {
        json_nat(*self as nat)
    }

    fn push_json(&self, out: &mut Vec<u8>) {
        push_nat(out, *self as u64);
    }
}

impl CanonicalJson for u8 {
    open spec fn json(&self) -> Seq<u8> {
        json_nat(*self as nat)
    }

    fn push_json(&self, out: &mut Vec<u8>) {
        push_nat(out, *self as u64);
    }
}

impl CanonicalJson for i16 {
    open spec fn json(&self) -> Seq<u8> {
        if *self < 0 { seq![45u8] + json_nat((0 - *self) as nat) } else { json_nat(*self as nat) }
    }

    fn push_json(&self, out: &mut Vec<u8>) {
        let ghost start = out@;
        if *self < 0 {
            out.push(45);
            let magnitude: u64 = (0 - (*self as i32)) as u64;
            push_nat(out, magnitude);
        } else {
            push_nat(out, *self as u64);
        }
        assert(out@ =~= start + self.json());
    }
}

impl CanonicalJson for bool {
    open spec fn json(&self) -> Seq<u8> {
        if *self { seq![116u8, 114u8, 117u8, 101u8] } else { seq![102u8, 97u8, 108u8, 115u8, 101u8] }
    }

    fn push_json(&self, out: &mut Vec<u8>) {
        let ghost start = out@;
        if *self {
            out.push(116);
            out.push(114);
            out.push(117);
            out.push(101);
        } else {
            out.push(102);
            out.push(97);
            out.push(108);
            out.push(115);
            out.push(101);
        }
        assert(out@ =~= start + self.json());
    }
}

impl CanonicalJson for i32 {
    open spec fn json(&self) -> Seq<u8> {
        if *self < 0 { seq![45u8] + json_nat((0 - *self) as nat) } else { json_nat(*self as nat) }
    }

    fn push_json(&self, out: &mut Vec<u8>) {
        let ghost start = out@;
        if *self < 0 {
            out.push(45);
            let magnitude: u64 = (0 - (*self as i64)) as u64;
            push_nat(out, magnitude);
        } else {
            push_nat(out, *self as u64);
        }
        assert(out@ =~= start + self.json());
    }
}

impl CanonicalJson for i64 {
    open spec fn json(&self) -> Seq<u8> {
        if *self < 0 { seq![45u8] + json_nat((0 - *self) as nat) } else { json_nat(*self as nat) }
    }

    fn push_json(&self, out: &mut Vec<u8>) {
        let ghost start = out@;
        if *self < 0 {
            out.push(45);
            let magnitude: u64 = (0 - (*self as i128)) as u64;
            push_nat(out, magnitude);
        } else {
            push_nat(out, *self as u64);
        }
        assert(out@ =~= start + self.json());
    }
}

impl CanonicalJson for BattleOutcome {
    open spec fn json(&self) -> Seq<u8> {
        match self {
            BattleOutcome::Victory => json_text("victory"@),
            BattleOutcome::Defeat => json_text("defeat"@),
            BattleOutcome::Withdrawal => json_text("withdrawal"@),
        }
    }

    fn push_json(&self, out: &mut Vec<u8>) {
        match self {
            BattleOutcome::Victory => push_text(out, "victory"),
            BattleOutcome::Defeat => push_text(out, "defeat"),
            BattleOutcome::Withdrawal => push_text(out, "withdrawal"),
        }
    }
}

impl CanonicalJson for UnitBattleStatus {
    open spec fn json(&self) -> Seq<u8> {
        match self {
            UnitBattleStatus::Healthy => json_text("healthy"@),
            UnitBattleStatus::Wounded => json_text("wounded"@),
            UnitBattleStatus::Incapacitated => json_text("incapacitated"@),
            UnitBattleStatus::Lost => json_text("lost"@),
        }
    }

    fn push_json(&self, out: &mut Vec<u8>) {
        match self {
            UnitBattleStatus::Healthy => push_text(out, "healthy"),
            UnitBattleStatus::Wounded => push_text(out, "wounded"),
            UnitBattleStatus::Incapacitated => push_text(out, "incapacitated"),
            UnitBattleStatus::Lost => push_text(out, "lost"),
        }
    }
}

impl CanonicalJson for LootStack {
    open spec fn json(&self) -> Seq<u8> {
        seq![123u8] + json_key("item_id"@, true) + self.item_id.json() + json_key("quantity"@, false) + self.quantity.json() + seq![125u8]
    }

    #[verifier::spinoff_prover]
    #[verifier::rlimit(50)]
    fn push_json(&self, out: &mut Vec<u8>) {
        let ghost start = out@;
        out.push(123u8);
        let ghost mut acc: Seq<u8> = seq![123u8];
        assert(out@ =~= start + acc);
        push_key(out, "item_id", true);
        proof { lemma_concat_associative(start, acc, json_key("item_id"@, true)); acc = acc + json_key("item_id"@, true); }
        self.item_id.push_json(out);
        proof { lemma_concat_associative(start, acc, self.item_id.json()); acc = acc + self.item_id.json(); }
        push_key(out, "quantity", false);
        proof { lemma_concat_associative(start, acc, json_key("quantity"@, false)); acc = acc + json_key("quantity"@, false); }
        self.quantity.push_json(out);
        proof { lemma_concat_associative(start, acc, self.quantity.json()); acc = acc + self.quantity.json(); }
        out.push(125u8);
        assert(out@ =~= start + (acc + seq![125u8]));
        assert(out@ == start + self.json());
    }
}

impl CanonicalJson for UnitBattleReportV1 {
    open spec fn json(&self) -> Seq<u8> {
        seq![123u8] + json_key("unit_id"@, true) + self.unit_id.json() + json_key("status"@, false) + self.status.json() + json_key("remaining_hp"@, false) + self.remaining_hp.json() + json_key("experience_gained"@, false) + self.experience_gained.json() + json_key("veteran_rank"@, false) + self.veteran_rank.json() + json_key("confirmed_kills"@, false) + self.confirmed_kills.json() + seq![125u8]
    }

    #[verifier::spinoff_prover]
    #[verifier::rlimit(50)]
    fn push_json(&self, out: &mut Vec<u8>) {
        let ghost start = out@;
        out.push(123u8);
        let ghost mut acc: Seq<u8> = seq![123u8];
        assert(out@ =~= start + acc);
        push_key(out, "unit_id", true);
        proof { lemma_concat_associative(start, acc, json_key("unit_id"@, true)); acc = acc + json_key("unit_id"@, true); }
        self.unit_id.push_json(out);
        proof { lemma_concat_associative(start, acc, self.unit_id.json()); acc = acc + self.unit_id.json(); }
        push_key(out, "status", false);
        proof { lemma_concat_associative(start, acc, json_key("status"@, false)); acc = acc + json_key("status"@, false); }
        self.status.push_json(out);
        proof { lemma_concat_associative(start, acc, self.status.json()); acc = acc + self.status.json(); }
        push_key(out, "remaining_hp", false);
        proof { lemma_concat_associative(start, acc, json_key("remaining_hp"@, false)); acc = acc + json_key("remaining_hp"@, false); }
        self.remaining_hp.push_json(out);
        proof { lemma_concat_associative(start, acc, self.remaining_hp.json()); acc = acc + self.remaining_hp.json(); }
        push_key(out, "experience_gained", false);
        proof { lemma_concat_associative(start, acc, json_key("experience_gained"@, false)); acc = acc + json_key("experience_gained"@, false); }
        self.experience_gained.push_json(out);
        proof { lemma_concat_associative(start, acc, self.experience_gained.json()); acc = acc + self.experience_gained.json(); }
        push_key(out, "veteran_rank", false);
        proof { lemma_concat_associative(start, acc, json_key("veteran_rank"@, false)); acc = acc + json_key("veteran_rank"@, false); }
        self.veteran_rank.push_json(out);
        proof { lemma_concat_associative(start, acc, self.veteran_rank.json()); acc = acc + self.veteran_rank.json(); }
        push_key(out, "confirmed_kills", false);
        proof { lemma_concat_associative(start, acc, json_key("confirmed_kills"@, false)); acc = acc + json_key("confirmed_kills"@, false); }
        self.confirmed_kills.push_json(out);
        proof { lemma_concat_associative(start, acc, self.confirmed_kills.json()); acc = acc + self.confirmed_kills.json(); }
        out.push(125u8);
        assert(out@ =~= start + (acc + seq![125u8]));
        assert(out@ == start + self.json());
    }
}

impl CanonicalJson for BattleResultV1 {
    open spec fn json(&self) -> Seq<u8> {
        seq![123u8] + json_key("contract_version"@, true) + self.contract_version.json() + json_key("battle_id"@, false) + self.battle_id.json() + json_key("seed_hash"@, false) + self.seed_hash.json() + json_key("outcome"@, false) + self.outcome.json() + json_key("units"@, false) + json_list(self.units@) + json_key("loot"@, false) + json_list(self.loot@) + json_key("resource_delta"@, false) + self.resource_delta.json() + json_key("reputation_delta"@, false) + self.reputation_delta.json() + json_key("world_flags"@, false) + json_list(self.world_flags@) + json_key("elapsed_ticks"@, false) + self.elapsed_ticks.json() + json_key("final_snapshot_hash"@, false) + self.final_snapshot_hash.json() + seq![125u8]
    }

    #[verifier::spinoff_prover]
    #[verifier::rlimit(50)]
    fn push_json(&self, out: &mut Vec<u8>) {
        let ghost start = out@;
        out.push(123u8);
        let ghost mut acc: Seq<u8> = seq![123u8];
        assert(out@ =~= start + acc);
        push_key(out, "contract_version", true);
        proof { lemma_concat_associative(start, acc, json_key("contract_version"@, true)); acc = acc + json_key("contract_version"@, true); }
        self.contract_version.push_json(out);
        proof { lemma_concat_associative(start, acc, self.contract_version.json()); acc = acc + self.contract_version.json(); }
        push_key(out, "battle_id", false);
        proof { lemma_concat_associative(start, acc, json_key("battle_id"@, false)); acc = acc + json_key("battle_id"@, false); }
        self.battle_id.push_json(out);
        proof { lemma_concat_associative(start, acc, self.battle_id.json()); acc = acc + self.battle_id.json(); }
        push_key(out, "seed_hash", false);
        proof { lemma_concat_associative(start, acc, json_key("seed_hash"@, false)); acc = acc + json_key("seed_hash"@, false); }
        self.seed_hash.push_json(out);
        proof { lemma_concat_associative(start, acc, self.seed_hash.json()); acc = acc + self.seed_hash.json(); }
        push_key(out, "outcome", false);
        proof { lemma_concat_associative(start, acc, json_key("outcome"@, false)); acc = acc + json_key("outcome"@, false); }
        self.outcome.push_json(out);
        proof { lemma_concat_associative(start, acc, self.outcome.json()); acc = acc + self.outcome.json(); }
        push_key(out, "units", false);
        proof { lemma_concat_associative(start, acc, json_key("units"@, false)); acc = acc + json_key("units"@, false); }
        push_list(out, &self.units);
        proof { lemma_concat_associative(start, acc, json_list(self.units@)); acc = acc + json_list(self.units@); }
        push_key(out, "loot", false);
        proof { lemma_concat_associative(start, acc, json_key("loot"@, false)); acc = acc + json_key("loot"@, false); }
        push_list(out, &self.loot);
        proof { lemma_concat_associative(start, acc, json_list(self.loot@)); acc = acc + json_list(self.loot@); }
        push_key(out, "resource_delta", false);
        proof { lemma_concat_associative(start, acc, json_key("resource_delta"@, false)); acc = acc + json_key("resource_delta"@, false); }
        self.resource_delta.push_json(out);
        proof { lemma_concat_associative(start, acc, self.resource_delta.json()); acc = acc + self.resource_delta.json(); }
        push_key(out, "reputation_delta", false);
        proof { lemma_concat_associative(start, acc, json_key("reputation_delta"@, false)); acc = acc + json_key("reputation_delta"@, false); }
        self.reputation_delta.push_json(out);
        proof { lemma_concat_associative(start, acc, self.reputation_delta.json()); acc = acc + self.reputation_delta.json(); }
        push_key(out, "world_flags", false);
        proof { lemma_concat_associative(start, acc, json_key("world_flags"@, false)); acc = acc + json_key("world_flags"@, false); }
        push_list(out, &self.world_flags);
        proof { lemma_concat_associative(start, acc, json_list(self.world_flags@)); acc = acc + json_list(self.world_flags@); }
        push_key(out, "elapsed_ticks", false);
        proof { lemma_concat_associative(start, acc, json_key("elapsed_ticks"@, false)); acc = acc + json_key("elapsed_ticks"@, false); }
        self.elapsed_ticks.push_json(out);
        proof { lemma_concat_associative(start, acc, self.elapsed_ticks.json()); acc = acc + self.elapsed_ticks.json(); }
        push_key(out, "final_snapshot_hash", false);
        proof { lemma_concat_associative(start, acc, json_key("final_snapshot_hash"@, false)); acc = acc + json_key("final_snapshot_hash"@, false); }
        self.final_snapshot_hash.push_json(out);
        proof { lemma_concat_associative(start, acc, self.final_snapshot_hash.json()); acc = acc + self.final_snapshot_hash.json(); }
        out.push(125u8);
        assert(out@ =~= start + (acc + seq![125u8]));
        assert(out@ == start + self.json());
    }
}

impl CanonicalJson for CampaignMission {
    open spec fn json(&self) -> Seq<u8> {
        match self {
            CampaignMission::FirstContact => json_text("first_contact"@),
            CampaignMission::AftershockPatrol => json_text("aftershock_patrol"@),
            CampaignMission::ConvoyExodus => json_text("convoy_exodus"@),
            CampaignMission::MirrorSiege => json_text("mirror_siege"@),
            CampaignMission::IronDeltaSkirmish => json_text("iron_delta_skirmish"@),
            CampaignMission::NightWatchCrossingSkirmish => json_text("night_watch_crossing_skirmish"@),
            CampaignMission::GlassBasinSkirmish => json_text("glass_basin_skirmish"@),
            CampaignMission::EmberOrchardSkirmish => json_text("ember_orchard_skirmish"@),
            CampaignMission::SaltMarshSkirmish => json_text("salt_marsh_skirmish"@),
            CampaignMission::CinderCrownSkirmish => json_text("cinder_crown_skirmish"@),
        }
    }

    fn push_json(&self, out: &mut Vec<u8>) {
        match self {
            CampaignMission::FirstContact => push_text(out, "first_contact"),
            CampaignMission::AftershockPatrol => push_text(out, "aftershock_patrol"),
            CampaignMission::ConvoyExodus => push_text(out, "convoy_exodus"),
            CampaignMission::MirrorSiege => push_text(out, "mirror_siege"),
            CampaignMission::IronDeltaSkirmish => push_text(out, "iron_delta_skirmish"),
            CampaignMission::NightWatchCrossingSkirmish => push_text(out, "night_watch_crossing_skirmish"),
            CampaignMission::GlassBasinSkirmish => push_text(out, "glass_basin_skirmish"),
            CampaignMission::EmberOrchardSkirmish => push_text(out, "ember_orchard_skirmish"),
            CampaignMission::SaltMarshSkirmish => push_text(out, "salt_marsh_skirmish"),
            CampaignMission::CinderCrownSkirmish => push_text(out, "cinder_crown_skirmish"),
        }
    }
}

impl CanonicalJson for CampaignDifficulty {
    open spec fn json(&self) -> Seq<u8> {
        match self {
            CampaignDifficulty::Story => json_text("story"@),
            CampaignDifficulty::Standard => json_text("standard"@),
            CampaignDifficulty::Veteran => json_text("veteran"@),
        }
    }

    fn push_json(&self, out: &mut Vec<u8>) {
        match self {
            CampaignDifficulty::Story => push_text(out, "story"),
            CampaignDifficulty::Standard => push_text(out, "standard"),
            CampaignDifficulty::Veteran => push_text(out, "veteran"),
        }
    }
}

impl CanonicalJson for ExpeditionPreparation {
    open spec fn json(&self) -> Seq<u8> {
        match self {
            ExpeditionPreparation::Immediate => json_text("immediate"@),
            ExpeditionPreparation::Rested => json_text("rested"@),
            ExpeditionPreparation::Supplied => json_text("supplied"@),
            ExpeditionPreparation::Shortcut => json_text("shortcut"@),
        }
    }

    fn push_json(&self, out: &mut Vec<u8>) {
        match self {
            ExpeditionPreparation::Immediate => push_text(out, "immediate"),
            ExpeditionPreparation::Rested => push_text(out, "rested"),
            ExpeditionPreparation::Supplied => push_text(out, "supplied"),
            ExpeditionPreparation::Shortcut => push_text(out, "shortcut"),
        }
    }
}

impl CanonicalJson for CampaignFaction {
    open spec fn json(&self) -> Seq<u8> {
        match self {
            CampaignFaction::MirrorCoalition => json_text("mirror_coalition"@),
            CampaignFaction::AshenCompact => json_text("ashen_compact"@),
        }
    }

    fn push_json(&self, out: &mut Vec<u8>) {
        match self {
            CampaignFaction::MirrorCoalition => push_text(out, "mirror_coalition"),
            CampaignFaction::AshenCompact => push_text(out, "ashen_compact"),
        }
    }
}

impl CanonicalJson for SkirmishVictoryMode {
    open spec fn json(&self) -> Seq<u8> {
        match self {
            SkirmishVictoryMode::Objective => json_text("objective"@),
            SkirmishVictoryMode::Score => json_text("score"@),
            SkirmishVictoryMode::Annihilation => json_text("annihilation"@),
        }
    }

    fn push_json(&self, out: &mut Vec<u8>) {
        match self {
            SkirmishVictoryMode::Objective => push_text(out, "objective"),
            SkirmishVictoryMode::Score => push_text(out, "score"),
            SkirmishVictoryMode::Annihilation => push_text(out, "annihilation"),
        }
    }
}

impl CanonicalJson for ObjectiveKind {
    open spec fn json(&self) -> Seq<u8> {
        match self {
            ObjectiveKind::Destroy => json_text("destroy"@),
            ObjectiveKind::Capture => json_text("capture"@),
            ObjectiveKind::Defend => json_text("defend"@),
            ObjectiveKind::Escort => json_text("escort"@),
            ObjectiveKind::Extract => json_text("extract"@),
        }
    }

    fn push_json(&self, out: &mut Vec<u8>) {
        match self {
            ObjectiveKind::Destroy => push_text(out, "destroy"),
            ObjectiveKind::Capture => push_text(out, "capture"),
            ObjectiveKind::Defend => push_text(out, "defend"),
            ObjectiveKind::Escort => push_text(out, "escort"),
            ObjectiveKind::Extract => push_text(out, "extract"),
        }
    }
}

impl CanonicalJson for BattleGridPoint {
    open spec fn json(&self) -> Seq<u8> {
        seq![123u8] + json_key("x"@, true) + self.x.json() + json_key("y"@, false) + self.y.json() + seq![125u8]
    }

    #[verifier::spinoff_prover]
    #[verifier::rlimit(50)]
    fn push_json(&self, out: &mut Vec<u8>) {
        let ghost start = out@;
        out.push(123u8);
        let ghost mut acc: Seq<u8> = seq![123u8];
        assert(out@ =~= start + acc);
        push_key(out, "x", true);
        proof { lemma_concat_associative(start, acc, json_key("x"@, true)); acc = acc + json_key("x"@, true); }
        self.x.push_json(out);
        proof { lemma_concat_associative(start, acc, self.x.json()); acc = acc + self.x.json(); }
        push_key(out, "y", false);
        proof { lemma_concat_associative(start, acc, json_key("y"@, false)); acc = acc + json_key("y"@, false); }
        self.y.push_json(out);
        proof { lemma_concat_associative(start, acc, self.y.json()); acc = acc + self.y.json(); }
        out.push(125u8);
        assert(out@ =~= start + (acc + seq![125u8]));
        assert(out@ == start + self.json());
    }
}

impl CanonicalJson for BattleMapNodeV1 {
    open spec fn json(&self) -> Seq<u8> {
        seq![123u8] + json_key("id"@, true) + self.id.json() + json_key("position"@, false) + self.position.json() + seq![125u8]
    }

    #[verifier::spinoff_prover]
    #[verifier::rlimit(50)]
    fn push_json(&self, out: &mut Vec<u8>) {
        let ghost start = out@;
        out.push(123u8);
        let ghost mut acc: Seq<u8> = seq![123u8];
        assert(out@ =~= start + acc);
        push_key(out, "id", true);
        proof { lemma_concat_associative(start, acc, json_key("id"@, true)); acc = acc + json_key("id"@, true); }
        self.id.push_json(out);
        proof { lemma_concat_associative(start, acc, self.id.json()); acc = acc + self.id.json(); }
        push_key(out, "position", false);
        proof { lemma_concat_associative(start, acc, json_key("position"@, false)); acc = acc + json_key("position"@, false); }
        self.position.push_json(out);
        proof { lemma_concat_associative(start, acc, self.position.json()); acc = acc + self.position.json(); }
        out.push(125u8);
        assert(out@ =~= start + (acc + seq![125u8]));
        assert(out@ == start + self.json());
    }
}

impl CanonicalJson for BattleMapSeedV1 {
    open spec fn json(&self) -> Seq<u8> {
        seq![123u8] + json_key("width"@, true) + self.width.json() + json_key("height"@, false) + self.height.json() + json_key("terrain_rows"@, false) + json_list(self.terrain_rows@) + json_key("party_start"@, false) + self.party_start.json() + json_key("approach_point"@, false) + self.approach_point.json() + json_key("objective"@, false) + self.objective.json() + json_key("resource_nodes"@, false) + json_list(self.resource_nodes@) + json_key("enemy_spawns"@, false) + json_list(self.enemy_spawns@) + seq![125u8]
    }

    #[verifier::spinoff_prover]
    #[verifier::rlimit(50)]
    fn push_json(&self, out: &mut Vec<u8>) {
        let ghost start = out@;
        out.push(123u8);
        let ghost mut acc: Seq<u8> = seq![123u8];
        assert(out@ =~= start + acc);
        push_key(out, "width", true);
        proof { lemma_concat_associative(start, acc, json_key("width"@, true)); acc = acc + json_key("width"@, true); }
        self.width.push_json(out);
        proof { lemma_concat_associative(start, acc, self.width.json()); acc = acc + self.width.json(); }
        push_key(out, "height", false);
        proof { lemma_concat_associative(start, acc, json_key("height"@, false)); acc = acc + json_key("height"@, false); }
        self.height.push_json(out);
        proof { lemma_concat_associative(start, acc, self.height.json()); acc = acc + self.height.json(); }
        push_key(out, "terrain_rows", false);
        proof { lemma_concat_associative(start, acc, json_key("terrain_rows"@, false)); acc = acc + json_key("terrain_rows"@, false); }
        push_list(out, &self.terrain_rows);
        proof { lemma_concat_associative(start, acc, json_list(self.terrain_rows@)); acc = acc + json_list(self.terrain_rows@); }
        push_key(out, "party_start", false);
        proof { lemma_concat_associative(start, acc, json_key("party_start"@, false)); acc = acc + json_key("party_start"@, false); }
        self.party_start.push_json(out);
        proof { lemma_concat_associative(start, acc, self.party_start.json()); acc = acc + self.party_start.json(); }
        push_key(out, "approach_point", false);
        proof { lemma_concat_associative(start, acc, json_key("approach_point"@, false)); acc = acc + json_key("approach_point"@, false); }
        self.approach_point.push_json(out);
        proof { lemma_concat_associative(start, acc, self.approach_point.json()); acc = acc + self.approach_point.json(); }
        push_key(out, "objective", false);
        proof { lemma_concat_associative(start, acc, json_key("objective"@, false)); acc = acc + json_key("objective"@, false); }
        self.objective.push_json(out);
        proof { lemma_concat_associative(start, acc, self.objective.json()); acc = acc + self.objective.json(); }
        push_key(out, "resource_nodes", false);
        proof { lemma_concat_associative(start, acc, json_key("resource_nodes"@, false)); acc = acc + json_key("resource_nodes"@, false); }
        push_list(out, &self.resource_nodes);
        proof { lemma_concat_associative(start, acc, json_list(self.resource_nodes@)); acc = acc + json_list(self.resource_nodes@); }
        push_key(out, "enemy_spawns", false);
        proof { lemma_concat_associative(start, acc, json_key("enemy_spawns"@, false)); acc = acc + json_key("enemy_spawns"@, false); }
        push_list(out, &self.enemy_spawns);
        proof { lemma_concat_associative(start, acc, json_list(self.enemy_spawns@)); acc = acc + json_list(self.enemy_spawns@); }
        out.push(125u8);
        assert(out@ =~= start + (acc + seq![125u8]));
        assert(out@ == start + self.json());
    }
}

impl CanonicalJson for RtsUnitStats {
    open spec fn json(&self) -> Seq<u8> {
        seq![123u8] + json_key("max_hp"@, true) + self.max_hp.json() + json_key("damage"@, false) + self.damage.json() + json_key("armor"@, false) + self.armor.json() + json_key("move_speed_milli"@, false) + self.move_speed_milli.json() + json_key("attack_interval_ticks"@, false) + self.attack_interval_ticks.json() + json_key("evasion_permille"@, false) + self.evasion_permille.json() + json_key("energy"@, false) + self.energy.json() + json_key("ability_range"@, false) + self.ability_range.json() + json_key("skill_power_permille"@, false) + self.skill_power_permille.json() + seq![125u8]
    }

    #[verifier::spinoff_prover]
    #[verifier::rlimit(50)]
    fn push_json(&self, out: &mut Vec<u8>) {
        let ghost start = out@;
        out.push(123u8);
        let ghost mut acc: Seq<u8> = seq![123u8];
        assert(out@ =~= start + acc);
        push_key(out, "max_hp", true);
        proof { lemma_concat_associative(start, acc, json_key("max_hp"@, true)); acc = acc + json_key("max_hp"@, true); }
        self.max_hp.push_json(out);
        proof { lemma_concat_associative(start, acc, self.max_hp.json()); acc = acc + self.max_hp.json(); }
        push_key(out, "damage", false);
        proof { lemma_concat_associative(start, acc, json_key("damage"@, false)); acc = acc + json_key("damage"@, false); }
        self.damage.push_json(out);
        proof { lemma_concat_associative(start, acc, self.damage.json()); acc = acc + self.damage.json(); }
        push_key(out, "armor", false);
        proof { lemma_concat_associative(start, acc, json_key("armor"@, false)); acc = acc + json_key("armor"@, false); }
        self.armor.push_json(out);
        proof { lemma_concat_associative(start, acc, self.armor.json()); acc = acc + self.armor.json(); }
        push_key(out, "move_speed_milli", false);
        proof { lemma_concat_associative(start, acc, json_key("move_speed_milli"@, false)); acc = acc + json_key("move_speed_milli"@, false); }
        self.move_speed_milli.push_json(out);
        proof { lemma_concat_associative(start, acc, self.move_speed_milli.json()); acc = acc + self.move_speed_milli.json(); }
        push_key(out, "attack_interval_ticks", false);
        proof { lemma_concat_associative(start, acc, json_key("attack_interval_ticks"@, false)); acc = acc + json_key("attack_interval_ticks"@, false); }
        self.attack_interval_ticks.push_json(out);
        proof { lemma_concat_associative(start, acc, self.attack_interval_ticks.json()); acc = acc + self.attack_interval_ticks.json(); }
        push_key(out, "evasion_permille", false);
        proof { lemma_concat_associative(start, acc, json_key("evasion_permille"@, false)); acc = acc + json_key("evasion_permille"@, false); }
        self.evasion_permille.push_json(out);
        proof { lemma_concat_associative(start, acc, self.evasion_permille.json()); acc = acc + self.evasion_permille.json(); }
        push_key(out, "energy", false);
        proof { lemma_concat_associative(start, acc, json_key("energy"@, false)); acc = acc + json_key("energy"@, false); }
        self.energy.push_json(out);
        proof { lemma_concat_associative(start, acc, self.energy.json()); acc = acc + self.energy.json(); }
        push_key(out, "ability_range", false);
        proof { lemma_concat_associative(start, acc, json_key("ability_range"@, false)); acc = acc + json_key("ability_range"@, false); }
        self.ability_range.push_json(out);
        proof { lemma_concat_associative(start, acc, self.ability_range.json()); acc = acc + self.ability_range.json(); }
        push_key(out, "skill_power_permille", false);
        proof { lemma_concat_associative(start, acc, json_key("skill_power_permille"@, false)); acc = acc + json_key("skill_power_permille"@, false); }
        self.skill_power_permille.push_json(out);
        proof { lemma_concat_associative(start, acc, self.skill_power_permille.json()); acc = acc + self.skill_power_permille.json(); }
        out.push(125u8);
        assert(out@ =~= start + (acc + seq![125u8]));
        assert(out@ == start + self.json());
    }
}

impl CanonicalJson for BattleUnitSeedV1 {
    open spec fn json(&self) -> Seq<u8> {
        seq![123u8] + json_key("unit_id"@, true) + self.unit_id.json() + json_key("display_name"@, false) + self.display_name.json() + json_key("role"@, false) + self.role.json() + json_key("spawn_slot"@, false) + self.spawn_slot.json() + json_key("persistent"@, false) + self.persistent.json() + json_key("injury_level"@, false) + self.injury_level.json() + json_key("skill_ids"@, false) + json_list(self.skill_ids@) + json_key("equipment_ids"@, false) + json_list(self.equipment_ids@) + json_key("veteran_rank"@, false) + self.veteran_rank.json() + json_key("stats"@, false) + self.stats.json() + seq![125u8]
    }

    #[verifier::spinoff_prover]
    #[verifier::rlimit(50)]
    fn push_json(&self, out: &mut Vec<u8>) {
        let ghost start = out@;
        out.push(123u8);
        let ghost mut acc: Seq<u8> = seq![123u8];
        assert(out@ =~= start + acc);
        push_key(out, "unit_id", true);
        proof { lemma_concat_associative(start, acc, json_key("unit_id"@, true)); acc = acc + json_key("unit_id"@, true); }
        self.unit_id.push_json(out);
        proof { lemma_concat_associative(start, acc, self.unit_id.json()); acc = acc + self.unit_id.json(); }
        push_key(out, "display_name", false);
        proof { lemma_concat_associative(start, acc, json_key("display_name"@, false)); acc = acc + json_key("display_name"@, false); }
        self.display_name.push_json(out);
        proof { lemma_concat_associative(start, acc, self.display_name.json()); acc = acc + self.display_name.json(); }
        push_key(out, "role", false);
        proof { lemma_concat_associative(start, acc, json_key("role"@, false)); acc = acc + json_key("role"@, false); }
        self.role.push_json(out);
        proof { lemma_concat_associative(start, acc, self.role.json()); acc = acc + self.role.json(); }
        push_key(out, "spawn_slot", false);
        proof { lemma_concat_associative(start, acc, json_key("spawn_slot"@, false)); acc = acc + json_key("spawn_slot"@, false); }
        self.spawn_slot.push_json(out);
        proof { lemma_concat_associative(start, acc, self.spawn_slot.json()); acc = acc + self.spawn_slot.json(); }
        push_key(out, "persistent", false);
        proof { lemma_concat_associative(start, acc, json_key("persistent"@, false)); acc = acc + json_key("persistent"@, false); }
        self.persistent.push_json(out);
        proof { lemma_concat_associative(start, acc, self.persistent.json()); acc = acc + self.persistent.json(); }
        push_key(out, "injury_level", false);
        proof { lemma_concat_associative(start, acc, json_key("injury_level"@, false)); acc = acc + json_key("injury_level"@, false); }
        self.injury_level.push_json(out);
        proof { lemma_concat_associative(start, acc, self.injury_level.json()); acc = acc + self.injury_level.json(); }
        push_key(out, "skill_ids", false);
        proof { lemma_concat_associative(start, acc, json_key("skill_ids"@, false)); acc = acc + json_key("skill_ids"@, false); }
        push_list(out, &self.skill_ids);
        proof { lemma_concat_associative(start, acc, json_list(self.skill_ids@)); acc = acc + json_list(self.skill_ids@); }
        push_key(out, "equipment_ids", false);
        proof { lemma_concat_associative(start, acc, json_key("equipment_ids"@, false)); acc = acc + json_key("equipment_ids"@, false); }
        push_list(out, &self.equipment_ids);
        proof { lemma_concat_associative(start, acc, json_list(self.equipment_ids@)); acc = acc + json_list(self.equipment_ids@); }
        push_key(out, "veteran_rank", false);
        proof { lemma_concat_associative(start, acc, json_key("veteran_rank"@, false)); acc = acc + json_key("veteran_rank"@, false); }
        self.veteran_rank.push_json(out);
        proof { lemma_concat_associative(start, acc, self.veteran_rank.json()); acc = acc + self.veteran_rank.json(); }
        push_key(out, "stats", false);
        proof { lemma_concat_associative(start, acc, json_key("stats"@, false)); acc = acc + json_key("stats"@, false); }
        self.stats.push_json(out);
        proof { lemma_concat_associative(start, acc, self.stats.json()); acc = acc + self.stats.json(); }
        out.push(125u8);
        assert(out@ =~= start + (acc + seq![125u8]));
        assert(out@ == start + self.json());
    }
}

impl CanonicalJson for MissionObjectiveDefinition {
    open spec fn json(&self) -> Seq<u8> {
        seq![123u8] + json_key("id"@, true) + self.id.json() + json_key("kind"@, false) + self.kind.json() + json_key("target"@, false) + self.target.json() + json_key("duration_ticks"@, false) + self.duration_ticks.json() + seq![125u8]
    }

    #[verifier::spinoff_prover]
    #[verifier::rlimit(50)]
    fn push_json(&self, out: &mut Vec<u8>) {
        let ghost start = out@;
        out.push(123u8);
        let ghost mut acc: Seq<u8> = seq![123u8];
        assert(out@ =~= start + acc);
        push_key(out, "id", true);
        proof { lemma_concat_associative(start, acc, json_key("id"@, true)); acc = acc + json_key("id"@, true); }
        self.id.push_json(out);
        proof { lemma_concat_associative(start, acc, self.id.json()); acc = acc + self.id.json(); }
        push_key(out, "kind", false);
        proof { lemma_concat_associative(start, acc, json_key("kind"@, false)); acc = acc + json_key("kind"@, false); }
        self.kind.push_json(out);
        proof { lemma_concat_associative(start, acc, self.kind.json()); acc = acc + self.kind.json(); }
        push_key(out, "target", false);
        proof { lemma_concat_associative(start, acc, json_key("target"@, false)); acc = acc + json_key("target"@, false); }
        self.target.push_json(out);
        proof { lemma_concat_associative(start, acc, self.target.json()); acc = acc + self.target.json(); }
        push_key(out, "duration_ticks", false);
        proof { lemma_concat_associative(start, acc, json_key("duration_ticks"@, false)); acc = acc + json_key("duration_ticks"@, false); }
        self.duration_ticks.push_json(out);
        proof { lemma_concat_associative(start, acc, self.duration_ticks.json()); acc = acc + self.duration_ticks.json(); }
        out.push(125u8);
        assert(out@ =~= start + (acc + seq![125u8]));
        assert(out@ == start + self.json());
    }
}

impl CanonicalJson for MissionDefinition {
    open spec fn json(&self) -> Seq<u8> {
        seq![123u8] + json_key("mission"@, true) + self.mission.json() + json_key("map_id"@, false) + self.map_id.json() + json_key("title"@, false) + self.title.json() + json_key("objectives"@, false) + json_list(self.objectives@) + seq![125u8]
    }

    #[verifier::spinoff_prover]
    #[verifier::rlimit(50)]
    fn push_json(&self, out: &mut Vec<u8>) {
        let ghost start = out@;
        out.push(123u8);
        let ghost mut acc: Seq<u8> = seq![123u8];
        assert(out@ =~= start + acc);
        push_key(out, "mission", true);
        proof { lemma_concat_associative(start, acc, json_key("mission"@, true)); acc = acc + json_key("mission"@, true); }
        self.mission.push_json(out);
        proof { lemma_concat_associative(start, acc, self.mission.json()); acc = acc + self.mission.json(); }
        push_key(out, "map_id", false);
        proof { lemma_concat_associative(start, acc, json_key("map_id"@, false)); acc = acc + json_key("map_id"@, false); }
        self.map_id.push_json(out);
        proof { lemma_concat_associative(start, acc, self.map_id.json()); acc = acc + self.map_id.json(); }
        push_key(out, "title", false);
        proof { lemma_concat_associative(start, acc, json_key("title"@, false)); acc = acc + json_key("title"@, false); }
        self.title.push_json(out);
        proof { lemma_concat_associative(start, acc, self.title.json()); acc = acc + self.title.json(); }
        push_key(out, "objectives", false);
        proof { lemma_concat_associative(start, acc, json_key("objectives"@, false)); acc = acc + json_key("objectives"@, false); }
        push_list(out, &self.objectives);
        proof { lemma_concat_associative(start, acc, json_list(self.objectives@)); acc = acc + json_list(self.objectives@); }
        out.push(125u8);
        assert(out@ =~= start + (acc + seq![125u8]));
        assert(out@ == start + self.json());
    }
}

impl CanonicalJson for ExpeditionReadiness {
    open spec fn json(&self) -> Seq<u8> {
        seq![123u8] + json_key("preparation"@, true) + self.preparation.json() + json_key("stamina"@, false) + self.stamina.json() + json_key("rations"@, false) + self.rations.json() + json_key("water"@, false) + self.water.json() + json_key("starting_resources"@, false) + self.starting_resources.json() + json_key("travel_minutes"@, false) + self.travel_minutes.json() + seq![125u8]
    }

    #[verifier::spinoff_prover]
    #[verifier::rlimit(50)]
    fn push_json(&self, out: &mut Vec<u8>) {
        let ghost start = out@;
        out.push(123u8);
        let ghost mut acc: Seq<u8> = seq![123u8];
        assert(out@ =~= start + acc);
        push_key(out, "preparation", true);
        proof { lemma_concat_associative(start, acc, json_key("preparation"@, true)); acc = acc + json_key("preparation"@, true); }
        self.preparation.push_json(out);
        proof { lemma_concat_associative(start, acc, self.preparation.json()); acc = acc + self.preparation.json(); }
        push_key(out, "stamina", false);
        proof { lemma_concat_associative(start, acc, json_key("stamina"@, false)); acc = acc + json_key("stamina"@, false); }
        self.stamina.push_json(out);
        proof { lemma_concat_associative(start, acc, self.stamina.json()); acc = acc + self.stamina.json(); }
        push_key(out, "rations", false);
        proof { lemma_concat_associative(start, acc, json_key("rations"@, false)); acc = acc + json_key("rations"@, false); }
        self.rations.push_json(out);
        proof { lemma_concat_associative(start, acc, self.rations.json()); acc = acc + self.rations.json(); }
        push_key(out, "water", false);
        proof { lemma_concat_associative(start, acc, json_key("water"@, false)); acc = acc + json_key("water"@, false); }
        self.water.push_json(out);
        proof { lemma_concat_associative(start, acc, self.water.json()); acc = acc + self.water.json(); }
        push_key(out, "starting_resources", false);
        proof { lemma_concat_associative(start, acc, json_key("starting_resources"@, false)); acc = acc + json_key("starting_resources"@, false); }
        self.starting_resources.push_json(out);
        proof { lemma_concat_associative(start, acc, self.starting_resources.json()); acc = acc + self.starting_resources.json(); }
        push_key(out, "travel_minutes", false);
        proof { lemma_concat_associative(start, acc, json_key("travel_minutes"@, false)); acc = acc + json_key("travel_minutes"@, false); }
        self.travel_minutes.push_json(out);
        proof { lemma_concat_associative(start, acc, self.travel_minutes.json()); acc = acc + self.travel_minutes.json(); }
        out.push(125u8);
        assert(out@ =~= start + (acc + seq![125u8]));
        assert(out@ == start + self.json());
    }
}

impl CanonicalJson for SkirmishSetup {
    open spec fn json(&self) -> Seq<u8> {
        seq![123u8] + json_key("enabled"@, true) + self.enabled.json() + json_key("player_faction"@, false) + self.player_faction.json() + json_key("enemy_faction"@, false) + self.enemy_faction.json() + json_key("starting_resources"@, false) + self.starting_resources.json() + json_key("victory_mode"@, false) + self.victory_mode.json() + json_key("score_target"@, false) + self.score_target.json() + json_key("simulation_seed"@, false) + self.simulation_seed.json() + seq![125u8]
    }

    #[verifier::spinoff_prover]
    #[verifier::rlimit(50)]
    fn push_json(&self, out: &mut Vec<u8>) {
        let ghost start = out@;
        out.push(123u8);
        let ghost mut acc: Seq<u8> = seq![123u8];
        assert(out@ =~= start + acc);
        push_key(out, "enabled", true);
        proof { lemma_concat_associative(start, acc, json_key("enabled"@, true)); acc = acc + json_key("enabled"@, true); }
        self.enabled.push_json(out);
        proof { lemma_concat_associative(start, acc, self.enabled.json()); acc = acc + self.enabled.json(); }
        push_key(out, "player_faction", false);
        proof { lemma_concat_associative(start, acc, json_key("player_faction"@, false)); acc = acc + json_key("player_faction"@, false); }
        self.player_faction.push_json(out);
        proof { lemma_concat_associative(start, acc, self.player_faction.json()); acc = acc + self.player_faction.json(); }
        push_key(out, "enemy_faction", false);
        proof { lemma_concat_associative(start, acc, json_key("enemy_faction"@, false)); acc = acc + json_key("enemy_faction"@, false); }
        self.enemy_faction.push_json(out);
        proof { lemma_concat_associative(start, acc, self.enemy_faction.json()); acc = acc + self.enemy_faction.json(); }
        push_key(out, "starting_resources", false);
        proof { lemma_concat_associative(start, acc, json_key("starting_resources"@, false)); acc = acc + json_key("starting_resources"@, false); }
        self.starting_resources.push_json(out);
        proof { lemma_concat_associative(start, acc, self.starting_resources.json()); acc = acc + self.starting_resources.json(); }
        push_key(out, "victory_mode", false);
        proof { lemma_concat_associative(start, acc, json_key("victory_mode"@, false)); acc = acc + json_key("victory_mode"@, false); }
        self.victory_mode.push_json(out);
        proof { lemma_concat_associative(start, acc, self.victory_mode.json()); acc = acc + self.victory_mode.json(); }
        push_key(out, "score_target", false);
        proof { lemma_concat_associative(start, acc, json_key("score_target"@, false)); acc = acc + json_key("score_target"@, false); }
        self.score_target.push_json(out);
        proof { lemma_concat_associative(start, acc, self.score_target.json()); acc = acc + self.score_target.json(); }
        push_key(out, "simulation_seed", false);
        proof { lemma_concat_associative(start, acc, json_key("simulation_seed"@, false)); acc = acc + json_key("simulation_seed"@, false); }
        self.simulation_seed.push_json(out);
        proof { lemma_concat_associative(start, acc, self.simulation_seed.json()); acc = acc + self.simulation_seed.json(); }
        out.push(125u8);
        assert(out@ =~= start + (acc + seq![125u8]));
        assert(out@ == start + self.json());
    }
}

pub open spec fn json_seed_head(s: BattleSeedV1) -> Seq<u8> {
    seq![123u8] + json_key("contract_version"@, true) + s.contract_version.json() + json_key("battle_id"@, false) + s.battle_id.json() + json_key("campaign_revision"@, false) + s.campaign_revision.json() + json_key("map_id"@, false) + s.map_id.json() + json_key("rules_version"@, false) + s.rules_version.json() + json_key("map"@, false) + s.map.json() + json_key("party"@, false) + json_list(s.party@)
}

pub open spec fn json_seed_tail(s: BattleSeedV1, hash: Seq<char>) -> Seq<u8> {
    json_key("mission"@, false) + s.mission.json() + json_key("difficulty"@, false) + s.difficulty.json() + json_key("regional_skill_bonus_permille"@, false) + s.regional_skill_bonus_permille.json() + json_key("field_build_cost_permille"@, false) + s.field_build_cost_permille.json() + json_key("expedition_readiness"@, false) + s.expedition_readiness.json() + json_key("skirmish"@, false) + s.skirmish.json() + json_key("seed_hash"@, false) + json_text(hash) + seq![125u8]
}

/// The canonical JSON form of `s` with `hash` as its seed hash: every field
/// in declaration order, compact, strings escaped as JSON requires.
#[verifier::opaque]
pub open spec fn json_seed(s: BattleSeedV1, hash: Seq<char>) -> Seq<u8> {
    json_seed_head(s) + json_seed_tail(s, hash)
}

impl BattleSeedV1 {
    #[verifier::spinoff_prover]
    fn push_json_head(&self, out: &mut Vec<u8>)
        ensures
            final(out)@ == old(out)@ + json_seed_head(*self),
    {
        let ghost start = out@;
        let ghost mut acc: Seq<u8> = Seq::empty();
        out.push(123u8);
        proof { acc = seq![123u8]; }
        assert(out@ =~= start + acc);
        push_key(out, "contract_version", true);
        proof { lemma_concat_associative(start, acc, json_key("contract_version"@, true)); acc = acc + json_key("contract_version"@, true); }
        self.contract_version.push_json(out);
        proof { lemma_concat_associative(start, acc, self.contract_version.json()); acc = acc + self.contract_version.json(); }
        push_key(out, "battle_id", false);
        proof { lemma_concat_associative(start, acc, json_key("battle_id"@, false)); acc = acc + json_key("battle_id"@, false); }
        self.battle_id.push_json(out);
        proof { lemma_concat_associative(start, acc, self.battle_id.json()); acc = acc + self.battle_id.json(); }
        push_key(out, "campaign_revision", false);
        proof { lemma_concat_associative(start, acc, json_key("campaign_revision"@, false)); acc = acc + json_key("campaign_revision"@, false); }
        self.campaign_revision.push_json(out);
        proof { lemma_concat_associative(start, acc, self.campaign_revision.json()); acc = acc + self.campaign_revision.json(); }
        push_key(out, "map_id", false);
        proof { lemma_concat_associative(start, acc, json_key("map_id"@, false)); acc = acc + json_key("map_id"@, false); }
        self.map_id.push_json(out);
        proof { lemma_concat_associative(start, acc, self.map_id.json()); acc = acc + self.map_id.json(); }
        push_key(out, "rules_version", false);
        proof { lemma_concat_associative(start, acc, json_key("rules_version"@, false)); acc = acc + json_key("rules_version"@, false); }
        self.rules_version.push_json(out);
        proof { lemma_concat_associative(start, acc, self.rules_version.json()); acc = acc + self.rules_version.json(); }
        push_key(out, "map", false);
        proof { lemma_concat_associative(start, acc, json_key("map"@, false)); acc = acc + json_key("map"@, false); }
        self.map.push_json(out);
        proof { lemma_concat_associative(start, acc, self.map.json()); acc = acc + self.map.json(); }
        push_key(out, "party", false);
        proof { lemma_concat_associative(start, acc, json_key("party"@, false)); acc = acc + json_key("party"@, false); }
        push_list(out, &self.party);
        proof { lemma_concat_associative(start, acc, json_list(self.party@)); acc = acc + json_list(self.party@); }
        assert(out@ == start + json_seed_head(*self));
    }

    #[verifier::spinoff_prover]
    fn push_json_tail(&self, out: &mut Vec<u8>, hash: &str)
        ensures
            final(out)@ == old(out)@ + json_seed_tail(*self, hash@),
    {
        let ghost start = out@;
        let ghost mut acc: Seq<u8> = Seq::empty();
        assert(out@ =~= start + acc);
        push_key(out, "mission", false);
        proof { lemma_concat_associative(start, acc, json_key("mission"@, false)); acc = acc + json_key("mission"@, false); }
        self.mission.push_json(out);
        proof { lemma_concat_associative(start, acc, self.mission.json()); acc = acc + self.mission.json(); }
        push_key(out, "difficulty", false);
        proof { lemma_concat_associative(start, acc, json_key("difficulty"@, false)); acc = acc + json_key("difficulty"@, false); }
        self.difficulty.push_json(out);
        proof { lemma_concat_associative(start, acc, self.difficulty.json()); acc = acc + self.difficulty.json(); }
        push_key(out, "regional_skill_bonus_permille", false);
        proof { lemma_concat_associative(start, acc, json_key("regional_skill_bonus_permille"@, false)); acc = acc + json_key("regional_skill_bonus_permille"@, false); }
        self.regional_skill_bonus_permille.push_json(out);
        proof { lemma_concat_associative(start, acc, self.regional_skill_bonus_permille.json()); acc = acc + self.regional_skill_bonus_permille.json(); }
        push_key(out, "field_build_cost_permille", false);
        proof { lemma_concat_associative(start, acc, json_key("field_build_cost_permille"@, false)); acc = acc + json_key("field_build_cost_permille"@, false); }
        self.field_build_cost_permille.push_json(out);
        proof { lemma_concat_associative(start, acc, self.field_build_cost_permille.json()); acc = acc + self.field_build_cost_permille.json(); }
        push_key(out, "expedition_readiness", false);
        proof { lemma_concat_associative(start, acc, json_key("expedition_readiness"@, false)); acc = acc + json_key("expedition_readiness"@, false); }
        self.expedition_readiness.push_json(out);
        proof { lemma_concat_associative(start, acc, self.expedition_readiness.json()); acc = acc + self.expedition_readiness.json(); }
        push_key(out, "skirmish", false);
        proof { lemma_concat_associative(start, acc, json_key("skirmish"@, false)); acc = acc + json_key("skirmish"@, false); }
        self.skirmish.push_json(out);
        proof { lemma_concat_associative(start, acc, self.skirmish.json()); acc = acc + self.skirmish.json(); }
        push_key(out, "seed_hash", false);
        proof { lemma_concat_associative(start, acc, json_key("seed_hash"@, false)); acc = acc + json_key("seed_hash"@, false); }
        push_text(out, hash);
        proof { lemma_concat_associative(start, acc, json_text(hash@)); acc = acc + json_text(hash@); }
        out.push(125u8);
        assert(out@ =~= start + (acc + seq![125u8]));
        assert(out@ == start + json_seed_tail(*self, hash@));
    }

    fn push_canonical_json(&self, out: &mut Vec<u8>, hash: &str)
        ensures
            final(out)@ == old(out)@ + json_seed(*self, hash@),
    {
        let ghost start = out@;
        self.push_json_head(out);
        self.push_json_tail(out, hash);
        proof {
            lemma_concat_associative(start, json_seed_head(*self), json_seed_tail(*self, hash@));
            reveal(json_seed);
        }
    }


    /// The canonical JSON form of the seed as issued, hash included.
    pub fn canonical_json(&self) -> (r: Vec<u8>)
        ensures
            r@ == json_seed(*self, self.seed_hash@),
    {
        let mut out: Vec<u8> = Vec::new();
        self.push_canonical_json(&mut out, self.seed_hash.as_str());
        assert(out@ =~= json_seed(*self, self.seed_hash@));
        out
    }

    /// The canonical JSON form of the seed with an empty seed hash: the
    /// payload the seed hash is taken over.
    pub fn payload_json(&self) -> (r: Vec<u8>)
        ensures
            r@ == json_seed(*self, Seq::empty()),
    {
        let mut out: Vec<u8> = Vec::new();
        proof {
            reveal_strlit("");
            assert(""@ =~= Seq::<char>::empty());
        }
        self.push_canonical_json(&mut out, "");
        assert(out@ =~= json_seed(*self, Seq::empty()));
        out
    }
}

/// The canonical JSON of a seed taken with a given hash does not depend on
/// the hash the seed carries.
pub proof fn lemma_json_seed_ignores_stored_hash(s: BattleSeedV1, stored: String, hash: Seq<char>)
    ensures
        json_seed(BattleSeedV1 { seed_hash: stored, ..s }, hash) == json_seed(s, hash),
{
    reveal(json_seed);
}

/// The content hash of a battle result: the lower-case hex SHA-256 digest
/// of its canonical JSON form.
#[verifier::opaque]
pub open spec fn result_content_hash(r: BattleResultV1) -> Seq<char> {
    hex_lower(sha256(r.json()))
}

impl BattleResultV1 {
    /// The canonical JSON form of the result: every field in declaration
    /// order, compact, strings escaped as JSON requires.
    pub fn canonical_json(&self) -> (r: Vec<u8>)
        ensures
            r@ == self.json(),
    {
        let mut out: Vec<u8> = Vec::new();
        self.push_json(&mut out);
        assert(out@ =~= self.json());
        out
    }

    /// The content hash of the result (see `result_content_hash`).
    pub fn computed_hash(&self) -> (r: String)
        ensures
            r@ == result_content_hash(*self),
            r@.len() == 64,
    {
        let json = self.canonical_json();
        let hash = canonical_json_hash(json.as_slice());
        proof {
            reveal(result_content_hash);
        }
        hash
    }
}

} // verus!
