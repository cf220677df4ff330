//! The campaign's world clock, expedition supplies and readiness.

use vstd::prelude::*;
use vstd::string::*;
use crate::catalog::ExpeditionPreparation;
use crate::error::CampaignError;

verus! {

/// Minutes in one in-game day.
pub const MINUTES_PER_DAY: u32 = 1440;

/// In-game day and minute within the day.
#[derive(Debug, Clone, PartialEq, Eq, Structural)]
pub struct WorldClock {
    pub day: u32,
    pub minute_of_day: u16,
}

impl Default for WorldClock {
    fn default() -> (r: Self)
        ensures
            r.day == 1,
            r.minute_of_day == 480,
    {
        Self { day: 1, minute_of_day: 8 * 60 }
    }
}

/// `min(a + b, u32::MAX)`.
pub open spec fn sat_add_u32(a: int, b: int) -> int {
    if a + b > u32::MAX { u32::MAX as int } else { a + b }
}

/// The clock after `minutes` more minutes: minutes roll over into days,
/// and both the minute count and the day saturate at `u32::MAX`.
pub open spec fn spec_advance(clock: WorldClock, minutes: u32) -> WorldClock {
    let absolute = sat_add_u32(clock.minute_of_day as int, minutes as int);
    WorldClock {
        day: sat_add_u32(clock.day as int, absolute / 1440) as u32,
        minute_of_day: (absolute % 1440) as u16,
    }
}

/// Decimal digits of `n`, most significant first.
pub open spec fn decimal(n: nat) -> Seq<char>
    decreases n,
{
    if n < 10 {
        seq![digit_char(n)]
    } else {
        decimal(n / 10) + seq![digit_char(n % 10)]
    }
}

pub open spec fn digit_char(d: nat) -> char {
    (('0' as u32) + d) as char
}

/// Decimal digits of `n`, padded with a leading zero to at least two digits.
pub open spec fn two_digits(n: nat) -> Seq<char> {
    if n < 10 { seq!['0'] + decimal(n) } else { decimal(n) }
}

/// `Day {day} {hh}:{mm}` with hours and minutes zero-padded to two digits.
pub open spec fn spec_clock_label(clock: WorldClock) -> Seq<char> {
    "Day "@ + decimal(clock.day as nat) + " "@ + two_digits((clock.minute_of_day / 60) as nat)
        + ":"@ + two_digits((clock.minute_of_day % 60) as nat)
}

fn digit_str(d: u32) -> (r: &'static str)
    requires
        d < 10,
    ensures
        r@ == seq![digit_char(d as nat)],
{
    proof {
        reveal_strlit("0");
        reveal_strlit("1");
        reveal_strlit("2");
        reveal_strlit("3");
        reveal_strlit("4");
        reveal_strlit("5");
        reveal_strlit("6");
        reveal_strlit("7");
        reveal_strlit("8");
        reveal_strlit("9");
    }
    let r = match d {
        0 => "0",
        1 => "1",
        2 => "2",
        3 => "3",
        4 => "4",
        5 => "5",
        6 => "6",
        7 => "7",
        8 => "8",
        _ => "9",
    };
    assert(r@ =~= seq![digit_char(d as nat)]);
    r
}

/// Appends the decimal digits of `n` to `out`.
pub fn push_decimal(out: &mut String, n: u64)
    ensures
        final(out)@ == old(out)@ + decimal(n as nat),
    decreases n,
{
    if n >= 10 {
        push_decimal(out, n / 10);
    }
    let d = digit_str((n % 10) as u32);
    out.append(d);
    proof {
        if n >= 10 {
            assert(decimal(n as nat) == decimal((n / 10) as nat) + seq![digit_char((n % 10) as nat)]);
        }
    }
    assert(out@ =~= old(out)@ + decimal(n as nat));
}

fn push_two_digits(out: &mut String, n: u32)
    ensures
        final(out)@ == old(out)@ + two_digits(n as nat),
{
    if n < 10 {
        proof { reveal_strlit("0"); }
        out.append("0");
    }
    push_decimal(out, n as u64);
    assert(out@ =~= old(out)@ + two_digits(n as nat));
}

impl WorldClock {
    pub fn advance(&mut self, minutes: u32)
        ensures
            *final(self) == spec_advance(*old(self), minutes),
    {
        let absolute = (self.minute_of_day as u32).saturating_add(minutes);
        self.day = self.day.saturating_add(absolute / 1440);
        self.minute_of_day = (absolute % 1440) as u16;
    }

    pub fn label(&self) -> (r: String)
        ensures
            r@ == spec_clock_label(*self),
    {
        let mut out = "Day ".to_owned();
        push_decimal(&mut out, self.day as u64);
        out.append(" ");
        push_two_digits(&mut out, (self.minute_of_day / 60) as u32);
        out.append(":");
        push_two_digits(&mut out, (self.minute_of_day % 60) as u32);
        assert(out@ =~= spec_clock_label(*self));
        out
    }
}

/// Time is conserved: while nothing saturates, advancing the clock moves
/// its absolute minute count forward by exactly the minutes given, keeps
/// the minute of day within the day, and advancing twice is advancing once
/// by the sum.
pub proof fn lemma_clock_advance_composes(clock: WorldClock, a: u32, b: u32)
    requires
        clock.minute_of_day + a + b <= u32::MAX,
        clock.day as int * 1440 + clock.minute_of_day + a + b <= u32::MAX as int * 1440,
    ensures
        spec_advance(clock, a).day as int * 1440 + spec_advance(clock, a).minute_of_day
            == clock.day as int * 1440 + clock.minute_of_day + a,
        spec_advance(clock, a).minute_of_day < 1440,
        spec_advance(spec_advance(clock, a), b) == spec_advance(clock, (a + b) as u32),
{
    let m = clock.minute_of_day as int;
    let d = clock.day as int;
    let x = m + a;
    assert(x == (x / 1440) * 1440 + x % 1440 && 0 <= x % 1440 < 1440) by (nonlinear_arith);
    assert(d + x / 1440 <= u32::MAX) by (nonlinear_arith)
        requires
            d * 1440 + x + b <= u32::MAX as int * 1440,
            x == (x / 1440) * 1440 + x % 1440,
            0 <= x % 1440,
            b >= 0,
    ;
    let y = x % 1440 + b;
    let z = x + b;
    assert(z / 1440 == x / 1440 + y / 1440 && z % 1440 == y % 1440) by (nonlinear_arith)
        requires
            x == (x / 1440) * 1440 + x % 1440,
            0 <= x % 1440 < 1440,
            y == x % 1440 + b,
            z == x + b,
            b >= 0,
    {
        vstd::arithmetic::div_mod::lemma_fundamental_div_mod(y, 1440);
        vstd::arithmetic::div_mod::lemma_fundamental_div_mod(z, 1440);
        vstd::arithmetic::div_mod::lemma_mod_multiples_vanish(x / 1440, y, 1440);
        vstd::arithmetic::div_mod::lemma_hoist_over_denominator(y, x / 1440, 1440);
        assert(z == y + (x / 1440) * 1440);
        assert(1440 * (x / 1440) + y == z);
    }
    assert(d + z / 1440 <= u32::MAX) by (nonlinear_arith)
        requires
            d * 1440 + z <= u32::MAX as int * 1440,
            z == (z / 1440) * 1440 + z % 1440,
            0 <= z % 1440,
    {
        vstd::arithmetic::div_mod::lemma_fundamental_div_mod(z, 1440);
    }
}

/// The party's stamina and consumables carried between expeditions.
#[derive(Debug, Clone, PartialEq, Eq, Structural)]
pub struct ExpeditionSupplyState {
    pub stamina: u8,
    pub rations: u8,
    pub water: u8,
}

impl Default for ExpeditionSupplyState {
    fn default() -> (r: Self)
        ensures
            r.stamina == 100,
            r.rations == 4,
            r.water == 6,
    {
        Self { stamina: 100, rations: 4, water: 6 }
    }
}

impl ExpeditionSupplyState {
    /// A victory lets the party recover: +25 stamina (at most 100), one
    /// ration (at most 12) and two water (at most 16).
    pub fn restock_after_victory(&mut self)
        ensures
            final(self).stamina == (if old(self).stamina + 25 > 100 { 100 } else { old(self).stamina + 25 }),
            final(self).rations == (if old(self).rations + 1 > 12 { 12 } else { old(self).rations + 1 }),
            final(self).water == (if old(self).water + 2 > 16 { 16 } else { old(self).water + 2 }),
    {
        let stamina = self.stamina.saturating_add(25);
        self.stamina = if stamina > 100 { 100 } else { stamina };
        let rations = self.rations.saturating_add(1);
        self.rations = if rations > 12 { 12 } else { rations };
        let water = self.water.saturating_add(2);
        self.water = if water > 16 { 16 } else { water };
    }
}

/// What the party deploys with, after preparation has been committed.
#[derive(Debug, Clone, PartialEq, Eq, Structural)]
pub struct ExpeditionReadiness {
    pub preparation: ExpeditionPreparation,
    pub stamina: u8,
    pub rations: u8,
    pub water: u8,
    pub starting_resources: u32,
    pub travel_minutes: u32,
}

/// The readiness assumed for a battle seed that was issued before
/// preparation existed: an immediate march on default supplies.
pub fn default_expedition_readiness() -> (r: ExpeditionReadiness)
    ensures
        r == (ExpeditionReadiness {
            preparation: ExpeditionPreparation::Immediate,
            stamina: 100,
            rations: 4,
            water: 6,
            starting_resources: 0,
            travel_minutes: 20,
        }),
{
    let supplies = ExpeditionSupplyState::default();
    ExpeditionReadiness {
        preparation: ExpeditionPreparation::Immediate,
        stamina: supplies.stamina,
        rations: supplies.rations,
        water: supplies.water,
        starting_resources: 0,
        travel_minutes: 20,
    }
}

/// `expedition requires {rations} ration(s) and {water} water`.
pub open spec fn msg_supplies_required(rations: u8, water: u8) -> Seq<char> {
    "expedition requires "@ + decimal(rations as nat) + " ration(s) and "@ + decimal(water as nat) + " water"@
}

/// Refuses an expedition that needs more rations or water than are carried.
pub fn require_supplies(supplies: &ExpeditionSupplyState, rations: u8, water: u8) -> (r: Result<(), CampaignError>)
    ensures
        (supplies.rations >= rations && supplies.water >= water) <==> r is Ok,
        r matches Err(e) ==> e.is_state(msg_supplies_required(rations, water)),
{
    if supplies.rations < rations || supplies.water < water {
        let mut message = "expedition requires ".to_owned();
        push_decimal(&mut message, rations as u64);
        message.append(" ration(s) and ");
        push_decimal(&mut message, water as u64);
        message.append(" water");
        assert(message@ =~= msg_supplies_required(rations, water));
        Err(CampaignError::InvalidState(message))
    } else {
        Ok(())
    }
}

} // verus!
