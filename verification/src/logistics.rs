//! Regional logistics: caravans moving goods between the market regions,
//! what happens to them on the road, and where the next caravan runs.

use vstd::prelude::*;
use crate::quests::RegionalCaravanState;

verus! {

pub open spec fn sat_sub_u8(a: u8, b: u8) -> u8 {
    if a < b { 0 } else { (a - b) as u8 }
}

pub open spec fn sat_sub_u16(a: u16, b: u16) -> u16 {
    if a < b { 0 } else { (a - b) as u16 }
}

pub open spec fn sat_inc_u8(n: u8) -> u8 {
    if n == u8::MAX { n } else { (n + 1) as u8 }
}

/// A caravan at risk 7 or more is ambushed on the road unless the player
/// guards it; an ambush happens at most once per caravan.
pub const CARAVAN_AMBUSH_RISK: u8 = 7;

/// What one leg of travel did to a caravan.
#[derive(Debug, Clone, Copy, PartialEq, Eq, Hash, Structural)]
pub enum CaravanLeg {
    /// Still on the road; whether it was ambushed on this leg.
    Travelling { ambushed: bool },
    /// Reached its destination with this many goods to deliver.
    Arrived { delivered: u16 },
}

/// The leg a caravan travels: one more leg counted, one room further
/// (never past the last room of its route), an ambush on the road when the
/// caravan is risky, unguarded, short of its destination and not yet hit
/// (it loses 35 integrity and one unit), and at the destination it delivers
/// its goods, one fewer if its integrity fell below 50.
impl RegionalCaravanState {
    pub open spec fn next_route_index(self) -> int {
        if self.route_index + 1 < self.route_room_ids@.len() {
            self.route_index + 1
        } else {
            self.route_room_ids@.len() - 1
        }
    }

    pub open spec fn ambushed_on_next_leg(self) -> bool {
        &&& self.risk >= CARAVAN_AMBUSH_RISK
        &&& !self.guarded_by_player
        &&& self.next_route_index() + 1 < self.route_room_ids@.len()
        &&& self.incident is None
    }

    pub fn travel_leg(&mut self) -> (r: CaravanLeg)
        requires
            old(self).route_room_ids@.len() >= 1,
            old(self).route_index < usize::MAX,
        ensures
            ({
                let before = *old(self);
                let ambushed = before.ambushed_on_next_leg();
                let quantity = if ambushed { sat_sub_u16(before.quantity, 1) } else { before.quantity };
                let integrity = if ambushed { sat_sub_u8(before.integrity, 35) } else { before.integrity };
                &&& final(self).progress_legs == sat_inc_u8(before.progress_legs)
                &&& final(self).route_index == before.next_route_index()
                &&& final(self).quantity == quantity
                &&& final(self).integrity == integrity
                &&& (ambushed ==> (final(self).incident matches Some(i) && i@ == "road_ambush"@))
                &&& (!ambushed ==> final(self).incident == before.incident)
                &&& final(self).caravan_id == before.caravan_id
                &&& final(self).item_id == before.item_id
                &&& final(self).from_region_id == before.from_region_id
                &&& final(self).to_region_id == before.to_region_id
                &&& final(self).route_room_ids == before.route_room_ids
                &&& final(self).risk == before.risk
                &&& final(self).guarded_by_player == before.guarded_by_player
                &&& if before.next_route_index() + 1 < before.route_room_ids@.len() {
                    r == CaravanLeg::Travelling { ambushed }
                } else {
                    r == CaravanLeg::Arrived {
                        delivered: if integrity < 50 { sat_sub_u16(quantity, 1) } else { quantity },
                    }
                }
            }),
    {
        let len = self.route_room_ids.len();
        self.progress_legs = self.progress_legs.saturating_add(1);
        let next = self.route_index + 1;
        self.route_index = if next < len { next } else { len - 1 };
        let ambushed = self.risk >= CARAVAN_AMBUSH_RISK && !self.guarded_by_player && self.route_index + 1 < len
            && self.incident.is_none();
        if ambushed {
            self.integrity = self.integrity.saturating_sub(35);
            self.quantity = self.quantity.saturating_sub(1);
            self.incident = Some("road_ambush".to_owned());
        }
        if self.route_index + 1 < len {
            CaravanLeg::Travelling { ambushed }
        } else {
            let loss: u16 = if self.integrity < 50 { 1 } else { 0 };
            CaravanLeg::Arrived { delivered: self.quantity.saturating_sub(loss) }
        }
    }

    /// The player escorts the caravan: it is guarded from now on, its risk
    /// falls by 4 and its integrity rises by 15 (at most 100).
    pub fn escort(&mut self)
        ensures
            final(self).guarded_by_player,
            final(self).risk == sat_sub_u8(old(self).risk, 4),
            final(self).integrity == (if old(self).integrity + 15 > 100 { 100 } else { old(self).integrity + 15 }),
            final(self).incident matches Some(i) && i@ == "player_escort"@,
            final(self).quantity == old(self).quantity,
            final(self).route_index == old(self).route_index,
            final(self).route_room_ids == old(self).route_room_ids,
    {
        self.guarded_by_player = true;
        self.risk = self.risk.saturating_sub(4);
        let integrity = self.integrity.saturating_add(15);
        self.integrity = if integrity > 100 { 100 } else { integrity };
        self.incident = Some("player_escort".to_owned());
    }

    /// The player seizes a unit of the caravan's goods (none if it carries
    /// none), costing it 25 integrity; answers how many were seized.
    pub fn seize(&mut self) -> (r: u16)
        ensures
            r == (if old(self).quantity >= 1 { 1u16 } else { 0u16 }),
            final(self).quantity == old(self).quantity - r,
            final(self).integrity == sat_sub_u8(old(self).integrity, 25),
            final(self).incident matches Some(i) && i@ == "player_seizure"@,
            final(self).guarded_by_player == old(self).guarded_by_player,
            final(self).risk == old(self).risk,
            final(self).route_index == old(self).route_index,
            final(self).route_room_ids == old(self).route_room_ids,
    {
        let seized: u16 = if self.quantity >= 1 { 1 } else { 0 };
        self.quantity = self.quantity - seized;
        self.integrity = self.integrity.saturating_sub(25);
        self.incident = Some("player_seizure".to_owned());
        seized
    }
}

/// Credits the player gets for each seized unit.
pub const SEIZED_UNIT_CREDITS: i64 = 12;

/// The risk of a caravan sent at `minute_of_day` of `day` carrying an item
/// whose id is `item_id_len` bytes long: day, hour and id length summed,
/// modulo 10.
pub open spec fn spec_caravan_risk(day: u32, minute_of_day: u16, item_id_len: usize) -> u8 {
    ((day as int + minute_of_day as int / 60 + item_id_len as int) % 10) as u8
}

pub fn caravan_risk(day: u32, minute_of_day: u16, item_id_len: usize) -> (r: u8)
    requires
        day as int + minute_of_day as int / 60 + item_id_len as int <= u32::MAX,
    ensures
        r == spec_caravan_risk(day, minute_of_day, item_id_len),
{
    let total: u32 = day + (minute_of_day / 60) as u32 + item_id_len as u32;
    (total % 10) as u8
}

/// The order in which regions are ranked for a caravan: by surplus (stock
/// less demand), then by stock.
pub open spec fn market_le(a: (u16, i16), b: (u16, i16)) -> bool {
    let sa = a.0 as int - a.1 as int;
    let sb = b.0 as int - b.1 as int;
    sa < sb || (sa == sb && a.0 <= b.0)
}

/// `t` is the first region of lowest rank: the one a stable sort puts first.
pub open spec fn is_first_lowest(m: Seq<(u16, i16)>, t: int) -> bool {
    &&& 0 <= t < m.len()
    &&& forall|j: int| 0 <= j < m.len() ==> market_le(m[t], #[trigger] m[j])
    &&& forall|j: int| 0 <= j < t ==> !market_le(#[trigger] m[j], m[t])
}

/// `f` is the last region of highest rank: the one a stable sort puts last.
pub open spec fn is_last_highest(m: Seq<(u16, i16)>, f: int) -> bool {
    &&& 0 <= f < m.len()
    &&& forall|j: int| 0 <= j < m.len() ==> market_le(#[trigger] m[j], m[f])
    &&& forall|j: int| f < j < m.len() ==> !market_le(m[f], #[trigger] m[j])
}

/// Where the next caravan runs, given each region's `(stock, demand)` of
/// the item: from the last region of highest rank to the first region of
/// lowest rank, provided they differ and the source holds at least two more
/// units than the destination; otherwise no caravan (`None`).
pub fn plan_caravan(markets: &[(u16, i16)]) -> (r: Option<(usize, usize)>)
    ensures
        markets@.len() == 0 ==> r is None,
        markets@.len() > 0 ==> exists|f: int, t: int| is_last_highest(markets@, f) && is_first_lowest(markets@, t) && {
            if f != t && markets@[f].0 as int > (if markets@[t].0 == u16::MAX { u16::MAX as int } else { markets@[t].0 + 1 }) {
                r == Some((f as usize, t as usize))
            } else {
                r is None
            }
        },
{
    let n = markets.len();
    if n == 0 {
        return None;
    }
    let mut t: usize = 0;
    let mut f: usize = 0;
    let mut i: usize = 1;
    while i < n
        invariant
            n == markets@.len(),
            1 <= i <= n,
            t < i,
            f < i,
            forall|j: int| 0 <= j < i ==> market_le(markets@[t as int], #[trigger] markets@[j]),
            forall|j: int| 0 <= j < t ==> !market_le(#[trigger] markets@[j], markets@[t as int]),
            forall|j: int| 0 <= j < i ==> market_le(#[trigger] markets@[j], markets@[f as int]),
            forall|j: int| f < j < i ==> !market_le(markets@[f as int], #[trigger] markets@[j]),
        decreases n - i,
    {
        let (stock, demand) = markets[i];
        let (t_stock, t_demand) = markets[t];
        let surplus = stock as i32 - demand as i32;
        let t_surplus = t_stock as i32 - t_demand as i32;
        if surplus < t_surplus || (surplus == t_surplus && stock < t_stock) {
            t = i;
        }
        let (f_stock, f_demand) = markets[f];
        let f_surplus = f_stock as i32 - f_demand as i32;
        if f_surplus < surplus || (f_surplus == surplus && f_stock <= stock) {
            f = i;
        }
        i = i + 1;
    }
    assert(is_last_highest(markets@, f as int));
    assert(is_first_lowest(markets@, t as int));
    let to_stock = markets[t].0;
    let bound = to_stock.saturating_add(1);
    if f != t && markets[f].0 > bound {
        Some((f, t))
    } else {
        None
    }
}

/// The ends of a caravan are determined: only one region is the first of
/// lowest rank and only one the last of highest rank.
pub proof fn lemma_caravan_ends_are_unique(m: Seq<(u16, i16)>, a: int, b: int)
    ensures
        is_first_lowest(m, a) && is_first_lowest(m, b) ==> a == b,
        is_last_highest(m, a) && is_last_highest(m, b) ==> a == b,
{
    if is_first_lowest(m, a) && is_first_lowest(m, b) && a != b {
        if a < b {
            assert(market_le(m[a], m[b]));
        } else {
            assert(market_le(m[b], m[a]));
        }
    }
    if is_last_highest(m, a) && is_last_highest(m, b) && a != b {
        if a < b {
            assert(market_le(m[b], m[a]));
        } else {
            assert(market_le(m[a], m[b]));
        }
    }
}

} // verus!
