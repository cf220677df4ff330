//! What the canonical JSON of the library's records promises: every enum
//! variant is written as its snake_case name, so distinct variants give
//! distinct bytes; numbers are written in decimal, so distinct numbers
//! give distinct bytes; and the two booleans differ.

use vstd::prelude::*;
use vstd::utf8::{encode_scalar, encode_utf8};
use crate::canonical::{escaped_byte, escaped_bytes, json_nat, json_text, CanonicalJson};
use crate::battle_map::ObjectiveKind;
use crate::catalog::{CampaignDifficulty, CampaignFaction, CampaignMission, ExpeditionPreparation, SkirmishVictoryMode};
use crate::settlement::{BattleOutcome, UnitBattleStatus};

verus! {

/// A character JSON writes as itself inside a string: printable ASCII other
/// than the quote and the backslash.
pub open spec fn plain_char(c: char) -> bool {
    32 <= (c as u32) <= 126 && (c as u32) != 34 && (c as u32) != 92
}

/// The ASCII bytes of a text of plain characters.
pub open spec fn ascii_bytes(s: Seq<char>) -> Seq<u8> {
    s.map_values(|c: char| (c as u32) as u8)
}

/// The quoted JSON string of a text of plain characters.
pub open spec fn quoted(s: Seq<char>) -> Seq<u8> {
    seq![34u8] + ascii_bytes(s) + seq![34u8]
}

proof fn lemma_encode_plain(s: Seq<char>)
    requires
        forall|i: int| 0 <= i < s.len() ==> plain_char(#[trigger] s[i]),
    ensures
        encode_utf8(s) == ascii_bytes(s),
    decreases s.len(),
{
    if s.len() > 0 {
        let c = s[0] as u32;
        assert(plain_char(s[0]));
        assert((c & 0x7F) as u8 == c as u8) by (bit_vector)
            requires c <= 126;
        assert(encode_scalar(c) == seq![c as u8]);
        let rest = s.drop_first();
        assert forall|i: int| 0 <= i < rest.len() implies plain_char(#[trigger] rest[i]) by {
            assert(rest[i] == s[i + 1]);
        }
        lemma_encode_plain(rest);
        assert(ascii_bytes(s) =~= seq![c as u8] + ascii_bytes(rest));
    }
}

proof fn lemma_escape_plain(t: Seq<u8>)
    requires
        forall|i: int| 0 <= i < t.len() ==> 32 <= #[trigger] t[i] <= 126 && t[i] != 34 && t[i] != 92,
    ensures
        escaped_bytes(t) == t,
    decreases t.len(),
{
    if t.len() > 0 {
        let rest = t.drop_last();
        assert forall|i: int| 0 <= i < rest.len() implies 32 <= #[trigger] rest[i] <= 126 && rest[i] != 34 && rest[i] != 92 by {
            assert(rest[i] == t[i]);
        }
        lemma_escape_plain(rest);
        assert(escaped_byte(t.last()) == seq![t.last()]);
        assert(t =~= rest.push(t.last()));
        assert(rest + seq![t.last()] =~= rest.push(t.last()));
    }
}

/// A text of plain characters is written as its ASCII bytes between quotes.
pub proof fn lemma_json_text_plain(s: Seq<char>)
    requires
        forall|i: int| 0 <= i < s.len() ==> plain_char(#[trigger] s[i]),
    ensures
        json_text(s) == quoted(s),
{
    lemma_encode_plain(s);
    let t = ascii_bytes(s);
    assert forall|i: int| 0 <= i < t.len() implies 32 <= #[trigger] t[i] <= 126 && t[i] != 34 && t[i] != 92 by {
        assert(plain_char(s[i]));
        let c = s[i] as u32;
        assert(t[i] == c as u8);
        assert(c <= 126 ==> (c as u8) as u32 == c) by (bit_vector);
    }
    lemma_escape_plain(t);
}

/// Texts of plain characters quoted into the same bytes have the same
/// characters.
pub proof fn lemma_quoted_injective(s: Seq<char>, t: Seq<char>)
    requires
        forall|i: int| 0 <= i < s.len() ==> plain_char(#[trigger] s[i]),
        forall|i: int| 0 <= i < t.len() ==> plain_char(#[trigger] t[i]),
        quoted(s) == quoted(t),
    ensures
        s.len() == t.len(),
        forall|i: int| 0 <= i < s.len() ==> s[i] as u32 == #[trigger] t[i] as u32,
{
    let qs = quoted(s);
    let qt = quoted(t);
    assert(qs.len() == s.len() + 2);
    assert(s.len() == t.len());
    assert forall|i: int| 0 <= i < s.len() implies s[i] as u32 == #[trigger] t[i] as u32 by {
        assert(qs[i + 1] == ascii_bytes(s)[i]);
        assert(qt[i + 1] == ascii_bytes(t)[i]);
        assert(plain_char(s[i]) && plain_char(t[i]));
        let a = s[i] as u32;
        let b = t[i] as u32;
        assert(ascii_bytes(s)[i] == a as u8);
        assert(ascii_bytes(t)[i] == b as u8);
        assert(a <= 126 && b <= 126 && a as u8 == b as u8 ==> a == b) by (bit_vector);
    }
}

/// `n` read back from its decimal digits.
pub open spec fn digits_value(d: Seq<u8>) -> int
    decreases d.len(),
{
    if d.len() == 0 { 0 } else { 10 * digits_value(d.drop_last()) + (d.last() - 48) }
}

/// Reading the decimal digits of `n` gives back `n`.
pub proof fn lemma_json_nat_reads_back(n: nat)
    ensures
        digits_value(json_nat(n)) == n,
        json_nat(n).len() >= 1,
        forall|i: int| 0 <= i < json_nat(n).len() ==> 48 <= #[trigger] json_nat(n)[i] <= 57,
    decreases n,
{
    if n < 10 {
        let d = json_nat(n);
        assert(d.drop_last() =~= Seq::<u8>::empty());
        assert(d.last() == 48 + n);
        assert(digits_value(d) == 10 * digits_value(d.drop_last()) + (d.last() - 48));
    } else {
        lemma_json_nat_reads_back(n / 10);
        let d = json_nat(n);
        assert(d.drop_last() =~= json_nat(n / 10));
        assert(d.last() == (48 + n % 10) as u8);
        assert(10 * (n / 10) + n % 10 == n) by (nonlinear_arith);
        assert(d.last() == 48 + n % 10);
        assert(digits_value(d) == 10 * digits_value(d.drop_last()) + (d.last() - 48));
        assert forall|i: int| 0 <= i < d.len() implies 48 <= #[trigger] d[i] <= 57 by {
            if i < d.len() - 1 {
                assert(d[i] == json_nat(n / 10)[i]);
            }
        }
    }
}

/// Distinct numbers are written as distinct digits.
pub proof fn lemma_json_nat_injective(m: nat, n: nat)
    ensures
        json_nat(m) == json_nat(n) ==> m == n,
{
    lemma_json_nat_reads_back(m);
    lemma_json_nat_reads_back(n);
}


/// A signed number as the library writes it: a minus sign before the
/// digits of its magnitude when negative.
pub open spec fn signed_json(x: int) -> Seq<u8> {
    if x < 0 { seq![45u8] + json_nat((0 - x) as nat) } else { json_nat(x as nat) }
}

/// Distinct signed numbers are written as distinct bytes.
pub proof fn lemma_signed_json_injective(x: int, y: int)
    ensures
        signed_json(x) == signed_json(y) ==> x == y,
{
    if signed_json(x) == signed_json(y) {
        if x < 0 {
            lemma_json_nat_reads_back((0 - x) as nat);
        } else {
            lemma_json_nat_reads_back(x as nat);
        }
        if y < 0 {
            lemma_json_nat_reads_back((0 - y) as nat);
        } else {
            lemma_json_nat_reads_back(y as nat);
        }
        assert(signed_json(x)[0] == signed_json(y)[0]);
        if x < 0 && y < 0 {
            assert(json_nat((0 - x) as nat) =~= signed_json(x).drop_first());
            assert(json_nat((0 - y) as nat) =~= signed_json(y).drop_first());
            lemma_json_nat_injective((0 - x) as nat, (0 - y) as nat);
        } else if x >= 0 && y >= 0 {
            lemma_json_nat_injective(x as nat, y as nat);
        }
    }
}

/// Every number is written in decimal, so distinct numbers of one type are
/// written as distinct bytes.
pub proof fn lemma_numbers_json_injective(a8: u8, b8: u8, a16: u16, b16: u16, a32: u32, b32: u32, a64: u64, b64: u64,
    c16: i16, d16: i16, c32: i32, d32: i32, c64: i64, d64: i64)
    ensures
        a8.json() == json_nat(a8 as nat) && a16.json() == json_nat(a16 as nat),
        a32.json() == json_nat(a32 as nat) && a64.json() == json_nat(a64 as nat),
        c16.json() == signed_json(c16 as int) && c32.json() == signed_json(c32 as int) && c64.json() == signed_json(c64 as int),
        a8.json() == b8.json() ==> a8 == b8,
        a16.json() == b16.json() ==> a16 == b16,
        a32.json() == b32.json() ==> a32 == b32,
        a64.json() == b64.json() ==> a64 == b64,
        c16.json() == d16.json() ==> c16 == d16,
        c32.json() == d32.json() ==> c32 == d32,
        c64.json() == d64.json() ==> c64 == d64,
{
    lemma_json_nat_injective(a8 as nat, b8 as nat);
    lemma_json_nat_injective(a16 as nat, b16 as nat);
    lemma_json_nat_injective(a32 as nat, b32 as nat);
    lemma_json_nat_injective(a64 as nat, b64 as nat);
    lemma_signed_json_injective(c16 as int, d16 as int);
    lemma_signed_json_injective(c32 as int, d32 as int);
    lemma_signed_json_injective(c64 as int, d64 as int);
}

/// The two booleans are written differently.
pub proof fn lemma_json_bool_injective(a: bool, b: bool)
    ensures
        true.json() == seq![116u8, 114u8, 117u8, 101u8],
        false.json() == seq![102u8, 97u8, 108u8, 115u8, 101u8],
        a.json() == b.json() ==> a == b,
{
    if a != b {
        assert(true.json().len() != false.json().len());
    }
}

/// A text of plain characters is written as its ASCII bytes between
/// quotes, so two such texts are written alike only when their characters are the same.
pub proof fn lemma_plain_text_json(a: String, b: String)
    requires
        forall|i: int| 0 <= i < a@.len() ==> plain_char(#[trigger] a@[i]),
        forall|i: int| 0 <= i < b@.len() ==> plain_char(#[trigger] b@[i]),
    ensures
        a.json() == quoted(a@),
        a.json() == b.json() ==> a@.len() == b@.len()
            && forall|i: int| 0 <= i < a@.len() ==> #[trigger] (a@[i] as u32) == b@[i] as u32,
{
    lemma_json_text_plain(a@);
    lemma_json_text_plain(b@);
    if a.json() == b.json() {
        lemma_quoted_injective(a@, b@);
    }
}

spec fn battle_outcome_name(v: BattleOutcome) -> Seq<char> {
    match v {
        BattleOutcome::Victory => "victory"@,
        BattleOutcome::Defeat => "defeat"@,
        BattleOutcome::Withdrawal => "withdrawal"@,
    }
}

proof fn lemma_battle_outcome_name_plain(v: BattleOutcome)
    ensures
        forall|i: int| 0 <= i < battle_outcome_name(v).len() ==> plain_char(#[trigger] battle_outcome_name(v)[i]),
        v.json() == quoted(battle_outcome_name(v)),
{
    reveal_strlit("victory");
    reveal_strlit("defeat");
    reveal_strlit("withdrawal");
    lemma_json_text_plain(battle_outcome_name(v));
}

/// Each `BattleOutcome` is written as its snake_case name, quoted; so
/// distinct values are written as distinct bytes.
pub proof fn lemma_battle_outcome_json(a: BattleOutcome, b: BattleOutcome)
    ensures
        BattleOutcome::Victory.json() == quoted("victory"@),
        BattleOutcome::Defeat.json() == quoted("defeat"@),
        BattleOutcome::Withdrawal.json() == quoted("withdrawal"@),
        a.json() == b.json() ==> a == b,
{
    reveal_strlit("victory");
    reveal_strlit("defeat");
    reveal_strlit("withdrawal");
    lemma_battle_outcome_name_plain(a);
    lemma_battle_outcome_name_plain(b);
    lemma_battle_outcome_name_plain(BattleOutcome::Victory);
    lemma_battle_outcome_name_plain(BattleOutcome::Defeat);
    lemma_battle_outcome_name_plain(BattleOutcome::Withdrawal);
    if a.json() == b.json() {
        lemma_quoted_injective(battle_outcome_name(a), battle_outcome_name(b));
        assert(battle_outcome_name(a).len() == battle_outcome_name(b).len() && battle_outcome_name(a)[0] as u32 == battle_outcome_name(b)[0] as u32
            && battle_outcome_name(a)[1] as u32 == battle_outcome_name(b)[1] as u32);
    }
}

spec fn unit_battle_status_name(v: UnitBattleStatus) -> Seq<char> {
    match v {
        UnitBattleStatus::Healthy => "healthy"@,
        UnitBattleStatus::Wounded => "wounded"@,
        UnitBattleStatus::Incapacitated => "incapacitated"@,
        UnitBattleStatus::Lost => "lost"@,
    }
}

proof fn lemma_unit_battle_status_name_plain(v: UnitBattleStatus)
    ensures
        forall|i: int| 0 <= i < unit_battle_status_name(v).len() ==> plain_char(#[trigger] unit_battle_status_name(v)[i]),
        v.json() == quoted(unit_battle_status_name(v)),
{
    reveal_strlit("healthy");
    reveal_strlit("wounded");
    reveal_strlit("incapacitated");
    reveal_strlit("lost");
    lemma_json_text_plain(unit_battle_status_name(v));
}

/// Each `UnitBattleStatus` is written as its snake_case name, quoted; so
/// distinct values are written as distinct bytes.
pub proof fn lemma_unit_battle_status_json(a: UnitBattleStatus, b: UnitBattleStatus)
    ensures
        UnitBattleStatus::Healthy.json() == quoted("healthy"@),
        UnitBattleStatus::Wounded.json() == quoted("wounded"@),
        UnitBattleStatus::Incapacitated.json() == quoted("incapacitated"@),
        UnitBattleStatus::Lost.json() == quoted("lost"@),
        a.json() == b.json() ==> a == b,
{
    reveal_strlit("healthy");
    reveal_strlit("wounded");
    reveal_strlit("incapacitated");
    reveal_strlit("lost");
    lemma_unit_battle_status_name_plain(a);
    lemma_unit_battle_status_name_plain(b);
    lemma_unit_battle_status_name_plain(UnitBattleStatus::Healthy);
    lemma_unit_battle_status_name_plain(UnitBattleStatus::Wounded);
    lemma_unit_battle_status_name_plain(UnitBattleStatus::Incapacitated);
    lemma_unit_battle_status_name_plain(UnitBattleStatus::Lost);
    if a.json() == b.json() {
        lemma_quoted_injective(unit_battle_status_name(a), unit_battle_status_name(b));
        assert(unit_battle_status_name(a).len() == unit_battle_status_name(b).len() && unit_battle_status_name(a)[0] as u32 == unit_battle_status_name(b)[0] as u32
            && unit_battle_status_name(a)[1] as u32 == unit_battle_status_name(b)[1] as u32);
    }
}

spec fn campaign_mission_name(v: CampaignMission) -> Seq<char> {
    match v {
        CampaignMission::FirstContact => "first_contact"@,
        CampaignMission::AftershockPatrol => "aftershock_patrol"@,
        CampaignMission::ConvoyExodus => "convoy_exodus"@,
        CampaignMission::MirrorSiege => "mirror_siege"@,
        CampaignMission::IronDeltaSkirmish => "iron_delta_skirmish"@,
        CampaignMission::NightWatchCrossingSkirmish => "night_watch_crossing_skirmish"@,
        CampaignMission::GlassBasinSkirmish => "glass_basin_skirmish"@,
        CampaignMission::EmberOrchardSkirmish => "ember_orchard_skirmish"@,
        CampaignMission::SaltMarshSkirmish => "salt_marsh_skirmish"@,
        CampaignMission::CinderCrownSkirmish => "cinder_crown_skirmish"@,
    }
}

proof fn lemma_campaign_mission_name_plain(v: CampaignMission)
    ensures
        forall|i: int| 0 <= i < campaign_mission_name(v).len() ==> plain_char(#[trigger] campaign_mission_name(v)[i]),
        v.json() == quoted(campaign_mission_name(v)),
{
    reveal_strlit("first_contact");
    reveal_strlit("aftershock_patrol");
    reveal_strlit("convoy_exodus");
    reveal_strlit("mirror_siege");
    reveal_strlit("iron_delta_skirmish");
    reveal_strlit("night_watch_crossing_skirmish");
    reveal_strlit("glass_basin_skirmish");
    reveal_strlit("ember_orchard_skirmish");
    reveal_strlit("salt_marsh_skirmish");
    reveal_strlit("cinder_crown_skirmish");
    lemma_json_text_plain(campaign_mission_name(v));
}

/// Each `CampaignMission` is written as its snake_case name, quoted; so
/// distinct values are written as distinct bytes.
pub proof fn lemma_campaign_mission_json(a: CampaignMission, b: CampaignMission)
    ensures
        CampaignMission::FirstContact.json() == quoted("first_contact"@),
        CampaignMission::AftershockPatrol.json() == quoted("aftershock_patrol"@),
        CampaignMission::ConvoyExodus.json() == quoted("convoy_exodus"@),
        CampaignMission::MirrorSiege.json() == quoted("mirror_siege"@),
        CampaignMission::IronDeltaSkirmish.json() == quoted("iron_delta_skirmish"@),
        CampaignMission::NightWatchCrossingSkirmish.json() == quoted("night_watch_crossing_skirmish"@),
        CampaignMission::GlassBasinSkirmish.json() == quoted("glass_basin_skirmish"@),
        CampaignMission::EmberOrchardSkirmish.json() == quoted("ember_orchard_skirmish"@),
        CampaignMission::SaltMarshSkirmish.json() == quoted("salt_marsh_skirmish"@),
        CampaignMission::CinderCrownSkirmish.json() == quoted("cinder_crown_skirmish"@),
        a.json() == b.json() ==> a == b,
{
    reveal_strlit("first_contact");
    reveal_strlit("aftershock_patrol");
    reveal_strlit("convoy_exodus");
    reveal_strlit("mirror_siege");
    reveal_strlit("iron_delta_skirmish");
    reveal_strlit("night_watch_crossing_skirmish");
    reveal_strlit("glass_basin_skirmish");
    reveal_strlit("ember_orchard_skirmish");
    reveal_strlit("salt_marsh_skirmish");
    reveal_strlit("cinder_crown_skirmish");
    lemma_campaign_mission_name_plain(a);
    lemma_campaign_mission_name_plain(b);
    lemma_campaign_mission_name_plain(CampaignMission::FirstContact);
    lemma_campaign_mission_name_plain(CampaignMission::AftershockPatrol);
    lemma_campaign_mission_name_plain(CampaignMission::ConvoyExodus);
    lemma_campaign_mission_name_plain(CampaignMission::MirrorSiege);
    lemma_campaign_mission_name_plain(CampaignMission::IronDeltaSkirmish);
    lemma_campaign_mission_name_plain(CampaignMission::NightWatchCrossingSkirmish);
    lemma_campaign_mission_name_plain(CampaignMission::GlassBasinSkirmish);
    lemma_campaign_mission_name_plain(CampaignMission::EmberOrchardSkirmish);
    lemma_campaign_mission_name_plain(CampaignMission::SaltMarshSkirmish);
    lemma_campaign_mission_name_plain(CampaignMission::CinderCrownSkirmish);
    if a.json() == b.json() {
        lemma_quoted_injective(campaign_mission_name(a), campaign_mission_name(b));
        assert(campaign_mission_name(a).len() == campaign_mission_name(b).len() && campaign_mission_name(a)[0] as u32 == campaign_mission_name(b)[0] as u32
            && campaign_mission_name(a)[1] as u32 == campaign_mission_name(b)[1] as u32);
    }
}

spec fn campaign_difficulty_name(v: CampaignDifficulty) -> Seq<char> {
    match v {
        CampaignDifficulty::Story => "story"@,
        CampaignDifficulty::Standard => "standard"@,
        CampaignDifficulty::Veteran => "veteran"@,
    }
}

proof fn lemma_campaign_difficulty_name_plain(v: CampaignDifficulty)
    ensures
        forall|i: int| 0 <= i < campaign_difficulty_name(v).len() ==> plain_char(#[trigger] campaign_difficulty_name(v)[i]),
        v.json() == quoted(campaign_difficulty_name(v)),
{
    reveal_strlit("story");
    reveal_strlit("standard");
    reveal_strlit("veteran");
    lemma_json_text_plain(campaign_difficulty_name(v));
}

/// Each `CampaignDifficulty` is written as its snake_case name, quoted; so
/// distinct values are written as distinct bytes.
pub proof fn lemma_campaign_difficulty_json(a: CampaignDifficulty, b: CampaignDifficulty)
    ensures
        CampaignDifficulty::Story.json() == quoted("story"@),
        CampaignDifficulty::Standard.json() == quoted("standard"@),
        CampaignDifficulty::Veteran.json() == quoted("veteran"@),
        a.json() == b.json() ==> a == b,
{
    reveal_strlit("story");
    reveal_strlit("standard");
    reveal_strlit("veteran");
    lemma_campaign_difficulty_name_plain(a);
    lemma_campaign_difficulty_name_plain(b);
    lemma_campaign_difficulty_name_plain(CampaignDifficulty::Story);
    lemma_campaign_difficulty_name_plain(CampaignDifficulty::Standard);
    lemma_campaign_difficulty_name_plain(CampaignDifficulty::Veteran);
    if a.json() == b.json() {
        lemma_quoted_injective(campaign_difficulty_name(a), campaign_difficulty_name(b));
        assert(campaign_difficulty_name(a).len() == campaign_difficulty_name(b).len() && campaign_difficulty_name(a)[0] as u32 == campaign_difficulty_name(b)[0] as u32
            && campaign_difficulty_name(a)[1] as u32 == campaign_difficulty_name(b)[1] as u32);
    }
}

spec fn expedition_preparation_name(v: ExpeditionPreparation) -> Seq<char> {
    match v {
        ExpeditionPreparation::Immediate => "immediate"@,
        ExpeditionPreparation::Rested => "rested"@,
        ExpeditionPreparation::Supplied => "supplied"@,
        ExpeditionPreparation::Shortcut => "shortcut"@,
    }
}

proof fn lemma_expedition_preparation_name_plain(v: ExpeditionPreparation)
    ensures
        forall|i: int| 0 <= i < expedition_preparation_name(v).len() ==> plain_char(#[trigger] expedition_preparation_name(v)[i]),
        v.json() == quoted(expedition_preparation_name(v)),
{
    reveal_strlit("immediate");
    reveal_strlit("rested");
    reveal_strlit("supplied");
    reveal_strlit("shortcut");
    lemma_json_text_plain(expedition_preparation_name(v));
}

/// Each `ExpeditionPreparation` is written as its snake_case name, quoted; so
/// distinct values are written as distinct bytes.
pub proof fn lemma_expedition_preparation_json(a: ExpeditionPreparation, b: ExpeditionPreparation)
    ensures
        ExpeditionPreparation::Immediate.json() == quoted("immediate"@),
        ExpeditionPreparation::Rested.json() == quoted("rested"@),
        ExpeditionPreparation::Supplied.json() == quoted("supplied"@),
        ExpeditionPreparation::Shortcut.json() == quoted("shortcut"@),
        a.json() == b.json() ==> a == b,
{
    reveal_strlit("immediate");
    reveal_strlit("rested");
    reveal_strlit("supplied");
    reveal_strlit("shortcut");
    lemma_expedition_preparation_name_plain(a);
    lemma_expedition_preparation_name_plain(b);
    lemma_expedition_preparation_name_plain(ExpeditionPreparation::Immediate);
    lemma_expedition_preparation_name_plain(ExpeditionPreparation::Rested);
    lemma_expedition_preparation_name_plain(ExpeditionPreparation::Supplied);
    lemma_expedition_preparation_name_plain(ExpeditionPreparation::Shortcut);
    if a.json() == b.json() {
        lemma_quoted_injective(expedition_preparation_name(a), expedition_preparation_name(b));
        assert(expedition_preparation_name(a).len() == expedition_preparation_name(b).len() && expedition_preparation_name(a)[0] as u32 == expedition_preparation_name(b)[0] as u32
            && expedition_preparation_name(a)[1] as u32 == expedition_preparation_name(b)[1] as u32);
    }
}

spec fn campaign_faction_name(v: CampaignFaction) -> Seq<char> {
    match v {
        CampaignFaction::MirrorCoalition => "mirror_coalition"@,
        CampaignFaction::AshenCompact => "ashen_compact"@,
    }
}

proof fn lemma_campaign_faction_name_plain(v: CampaignFaction)
    ensures
        forall|i: int| 0 <= i < campaign_faction_name(v).len() ==> plain_char(#[trigger] campaign_faction_name(v)[i]),
        v.json() == quoted(campaign_faction_name(v)),
{
    reveal_strlit("mirror_coalition");
    reveal_strlit("ashen_compact");
    lemma_json_text_plain(campaign_faction_name(v));
}

/// Each `CampaignFaction` is written as its snake_case name, quoted; so
/// distinct values are written as distinct bytes.
pub proof fn lemma_campaign_faction_json(a: CampaignFaction, b: CampaignFaction)
    ensures
        CampaignFaction::MirrorCoalition.json() == quoted("mirror_coalition"@),
        CampaignFaction::AshenCompact.json() == quoted("ashen_compact"@),
        a.json() == b.json() ==> a == b,
{
    reveal_strlit("mirror_coalition");
    reveal_strlit("ashen_compact");
    lemma_campaign_faction_name_plain(a);
    lemma_campaign_faction_name_plain(b);
    lemma_campaign_faction_name_plain(CampaignFaction::MirrorCoalition);
    lemma_campaign_faction_name_plain(CampaignFaction::AshenCompact);
    if a.json() == b.json() {
        lemma_quoted_injective(campaign_faction_name(a), campaign_faction_name(b));
        assert(campaign_faction_name(a).len() == campaign_faction_name(b).len() && campaign_faction_name(a)[0] as u32 == campaign_faction_name(b)[0] as u32
            && campaign_faction_name(a)[1] as u32 == campaign_faction_name(b)[1] as u32);
    }
}

spec fn skirmish_victory_mode_name(v: SkirmishVictoryMode) -> Seq<char> {
    match v {
        SkirmishVictoryMode::Objective => "objective"@,
        SkirmishVictoryMode::Score => "score"@,
        SkirmishVictoryMode::Annihilation => "annihilation"@,
    }
}

proof fn lemma_skirmish_victory_mode_name_plain(v: SkirmishVictoryMode)
    ensures
        forall|i: int| 0 <= i < skirmish_victory_mode_name(v).len() ==> plain_char(#[trigger] skirmish_victory_mode_name(v)[i]),
        v.json() == quoted(skirmish_victory_mode_name(v)),
{
    reveal_strlit("objective");
    reveal_strlit("score");
    reveal_strlit("annihilation");
    lemma_json_text_plain(skirmish_victory_mode_name(v));
}

/// Each `SkirmishVictoryMode` is written as its snake_case name, quoted; so
/// distinct values are written as distinct bytes.
pub proof fn lemma_skirmish_victory_mode_json(a: SkirmishVictoryMode, b: SkirmishVictoryMode)
    ensures
        SkirmishVictoryMode::Objective.json() == quoted("objective"@),
        SkirmishVictoryMode::Score.json() == quoted("score"@),
        SkirmishVictoryMode::Annihilation.json() == quoted("annihilation"@),
        a.json() == b.json() ==> a == b,
{
    reveal_strlit("objective");
    reveal_strlit("score");
    reveal_strlit("annihilation");
    lemma_skirmish_victory_mode_name_plain(a);
    lemma_skirmish_victory_mode_name_plain(b);
    lemma_skirmish_victory_mode_name_plain(SkirmishVictoryMode::Objective);
    lemma_skirmish_victory_mode_name_plain(SkirmishVictoryMode::Score);
    lemma_skirmish_victory_mode_name_plain(SkirmishVictoryMode::Annihilation);
    if a.json() == b.json() {
        lemma_quoted_injective(skirmish_victory_mode_name(a), skirmish_victory_mode_name(b));
        assert(skirmish_victory_mode_name(a).len() == skirmish_victory_mode_name(b).len() && skirmish_victory_mode_name(a)[0] as u32 == skirmish_victory_mode_name(b)[0] as u32
            && skirmish_victory_mode_name(a)[1] as u32 == skirmish_victory_mode_name(b)[1] as u32);
    }
}

spec fn objective_kind_name(v: ObjectiveKind) -> Seq<char> {
    match v {
        ObjectiveKind::Destroy => "destroy"@,
        ObjectiveKind::Capture => "capture"@,
        ObjectiveKind::Defend => "defend"@,
        ObjectiveKind::Escort => "escort"@,
        ObjectiveKind::Extract => "extract"@,
    }
}

proof fn lemma_objective_kind_name_plain(v: ObjectiveKind)
    ensures
        forall|i: int| 0 <= i < objective_kind_name(v).len() ==> plain_char(#[trigger] objective_kind_name(v)[i]),
        v.json() == quoted(objective_kind_name(v)),
{
    reveal_strlit("destroy");
    reveal_strlit("capture");
    reveal_strlit("defend");
    reveal_strlit("escort");
    reveal_strlit("extract");
    lemma_json_text_plain(objective_kind_name(v));
}

/// Each `ObjectiveKind` is written as its snake_case name, quoted; so
/// distinct values are written as distinct bytes.
pub proof fn lemma_objective_kind_json(a: ObjectiveKind, b: ObjectiveKind)
    ensures
        ObjectiveKind::Destroy.json() == quoted("destroy"@),
        ObjectiveKind::Capture.json() == quoted("capture"@),
        ObjectiveKind::Defend.json() == quoted("defend"@),
        ObjectiveKind::Escort.json() == quoted("escort"@),
        ObjectiveKind::Extract.json() == quoted("extract"@),
        a.json() == b.json() ==> a == b,
{
    reveal_strlit("destroy");
    reveal_strlit("capture");
    reveal_strlit("defend");
    reveal_strlit("escort");
    reveal_strlit("extract");
    lemma_objective_kind_name_plain(a);
    lemma_objective_kind_name_plain(b);
    lemma_objective_kind_name_plain(ObjectiveKind::Destroy);
    lemma_objective_kind_name_plain(ObjectiveKind::Capture);
    lemma_objective_kind_name_plain(ObjectiveKind::Defend);
    lemma_objective_kind_name_plain(ObjectiveKind::Escort);
    lemma_objective_kind_name_plain(ObjectiveKind::Extract);
    if a.json() == b.json() {
        lemma_quoted_injective(objective_kind_name(a), objective_kind_name(b));
        assert(objective_kind_name(a).len() == objective_kind_name(b).len() && objective_kind_name(a)[0] as u32 == objective_kind_name(b)[0] as u32
            && objective_kind_name(a)[1] as u32 == objective_kind_name(b)[1] as u32);
    }
}

} // verus!
