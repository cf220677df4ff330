//! Opening stock and demand of the regional markets.

use vstd::prelude::*;
use vstd::string::*;
use crate::clock::{decimal, push_decimal};
use crate::error::CampaignError;

verus! {

/// The regions that keep a market, in the order their biases are counted.
pub open spec fn market_region_id(region_index: int) -> Seq<char> {
    if region_index == 0 {
        "mirror_city"@
    } else if region_index == 1 {
        "signal_road"@
    } else if region_index == 2 {
        "glass_basin"@
    } else {
        "ashen_fringe"@
    }
}

/// The market regions: Mirror City first, then the frontier regions.
pub fn market_region_ids() -> (r: [&'static str; 4])
    ensures
        forall|i: int| 0 <= i < 4 ==> #[trigger] r@[i]@ == market_region_id(i),
{
    ["mirror_city", "signal_road", "glass_basin", "ashen_fringe"]
}

/// What the market defaults read of an economy catalog entry.
#[derive(Debug, Clone, PartialEq, Eq)]
pub struct MarketCatalogItem {
    pub id: String,
    pub material: bool,
}

/// Opening stock of the item at `item_index` of the catalog in the region at
/// `region_index`: 12 of a material and 4 of anything else, plus outside
/// Mirror City a local bias of `(region_index + item_index) mod 3`.
pub open spec fn spec_default_stock(region_index: int, item_index: int, material: bool) -> int {
    (if material { 12int } else { 4int }) + (if region_index == 0 { 0 } else { (region_index + item_index) % 3 })
}

/// Opening demand of the item at `item_index` in the region at
/// `region_index`: neutral in Mirror City, elsewhere
/// `(2 * region_index + item_index) mod 5 - 2`, between -2 and 2.
pub open spec fn spec_default_demand(region_index: int, item_index: int) -> int {
    if region_index == 0 { 0 } else { (2 * region_index + item_index) % 5 - 2 }
}

/// The opening stock of every catalog item in every market region, the
/// regions in the order of `market_region_ids` and the items in catalog order.
pub fn default_regional_market_stock(catalog: &[MarketCatalogItem]) -> (r: Vec<(String, Vec<(String, u16)>)>)
    ensures
        r@.len() == 4,
        forall|ri: int| 0 <= ri < 4 ==> {
            &&& (#[trigger] r@[ri]).0@ == market_region_id(ri)
            &&& r@[ri].1@.len() == catalog@.len()
            &&& forall|ii: int| 0 <= ii < catalog@.len() ==> {
                &&& (#[trigger] r@[ri].1@[ii]).0@ == catalog@[ii].id@
                &&& r@[ri].1@[ii].1 == spec_default_stock(ri, ii, catalog@[ii].material)
            }
        },
{
    let regions = market_region_ids();
    let mut out: Vec<(String, Vec<(String, u16)>)> = Vec::new();
    let mut region_index: usize = 0;
    while region_index < 4
        invariant
            region_index <= 4,
            forall|i: int| 0 <= i < 4 ==> #[trigger] regions@[i]@ == market_region_id(i),
            out@.len() == region_index,
            forall|ri: int| 0 <= ri < region_index ==> {
                &&& (#[trigger] out@[ri]).0@ == market_region_id(ri)
                &&& out@[ri].1@.len() == catalog@.len()
                &&& forall|ii: int| 0 <= ii < catalog@.len() ==> {
                    &&& (#[trigger] out@[ri].1@[ii]).0@ == catalog@[ii].id@
                    &&& out@[ri].1@[ii].1 == spec_default_stock(ri, ii, catalog@[ii].material)
                }
            },
        decreases 4 - region_index,
    {
        let mut items: Vec<(String, u16)> = Vec::new();
        let mut item_index: usize = 0;
        while item_index < catalog.len()
            invariant
                region_index < 4,
                item_index <= catalog@.len(),
                items@.len() == item_index,
                forall|ii: int| 0 <= ii < item_index ==> {
                    &&& (#[trigger] items@[ii]).0@ == catalog@[ii].id@
                    &&& items@[ii].1 == spec_default_stock(region_index as int, ii, catalog@[ii].material)
                },
            decreases catalog@.len() - item_index,
        {
            let item = &catalog[item_index];
            let baseline: u16 = if item.material { 12 } else { 4 };
            let local_bias: u16 = if region_index == 0 {
                0
            } else {
                let folded = item_index % 3;
                assert((region_index + folded) % 3 == (region_index + item_index) % 3) by (nonlinear_arith)
                    requires folded == item_index % 3;
                ((region_index + folded) % 3) as u16
            };
            items.push((item.id.clone(), baseline + local_bias));
            item_index = item_index + 1;
        }
        out.push((regions[region_index].to_owned(), items));
        region_index = region_index + 1;
    }
    out
}

/// The opening demand of every catalog item in every market region, in the
/// same layout as `default_regional_market_stock`.
pub fn default_regional_market_demand(catalog: &[MarketCatalogItem]) -> (r: Vec<(String, Vec<(String, i16)>)>)
    ensures
        r@.len() == 4,
        forall|ri: int| 0 <= ri < 4 ==> {
            &&& (#[trigger] r@[ri]).0@ == market_region_id(ri)
            &&& r@[ri].1@.len() == catalog@.len()
            &&& forall|ii: int| 0 <= ii < catalog@.len() ==> {
                &&& (#[trigger] r@[ri].1@[ii]).0@ == catalog@[ii].id@
                &&& r@[ri].1@[ii].1 == spec_default_demand(ri, ii)
            }
        },
{
    let regions = market_region_ids();
    let mut out: Vec<(String, Vec<(String, i16)>)> = Vec::new();
    let mut region_index: usize = 0;
    while region_index < 4
        invariant
            region_index <= 4,
            forall|i: int| 0 <= i < 4 ==> #[trigger] regions@[i]@ == market_region_id(i),
            out@.len() == region_index,
            forall|ri: int| 0 <= ri < region_index ==> {
                &&& (#[trigger] out@[ri]).0@ == market_region_id(ri)
                &&& out@[ri].1@.len() == catalog@.len()
                &&& forall|ii: int| 0 <= ii < catalog@.len() ==> {
                    &&& (#[trigger] out@[ri].1@[ii]).0@ == catalog@[ii].id@
                    &&& out@[ri].1@[ii].1 == spec_default_demand(ri, ii)
                }
            },
        decreases 4 - region_index,
    {
        let mut items: Vec<(String, i16)> = Vec::new();
        let mut item_index: usize = 0;
        while item_index < catalog.len()
            invariant
                region_index < 4,
                item_index <= catalog@.len(),
                items@.len() == item_index,
                forall|ii: int| 0 <= ii < item_index ==> {
                    &&& (#[trigger] items@[ii]).0@ == catalog@[ii].id@
                    &&& items@[ii].1 == spec_default_demand(region_index as int, ii)
                },
            decreases catalog@.len() - item_index,
        {
            let item = &catalog[item_index];
            let demand: i16 = if region_index == 0 {
                0
            } else {
                let folded = item_index % 5;
                assert((2 * region_index + folded) % 5 == (2 * region_index + item_index) % 5) by (nonlinear_arith)
                    requires folded == item_index % 5;
                ((2 * region_index + folded) % 5) as i16 - 2
            };
            items.push((item.id.clone(), demand));
            item_index = item_index + 1;
        }
        out.push((regions[region_index].to_owned(), items));
        region_index = region_index + 1;
    }
    out
}

/// The decimal text of a signed amount, with a leading `-` when negative.
pub open spec fn signed_decimal(n: i64) -> Seq<char> {
    if n < 0 { "-"@ + decimal((-(n as int)) as nat) } else { decimal(n as nat) }
}

fn push_signed(out: &mut String, n: i64)
    ensures
        final(out)@ == old(out)@ + signed_decimal(n),
{
    if n < 0 {
        proof {
            reveal_strlit("-");
        }
        out.append("-");
        let magnitude: u64 = (-(n as i128)) as u64;
        push_decimal(out, magnitude);
    } else {
        push_decimal(out, n as u64);
    }
}

pub open spec fn msg_out_of_stock(display_name: Seq<char>) -> Seq<char> {
    display_name + " is out of stock until local production recovers"@
}

pub open spec fn msg_price(display_name: Seq<char>, price: i64) -> Seq<char> {
    display_name + " costs "@ + signed_decimal(price) + " credits"@
}

/// The regional market's stock and demand of an item and the player's
/// credits after buying one unit at `price`: refused when the region is
/// out of stock or the player cannot pay; otherwise the price is paid, the
/// stock falls by one and the demand rises by two.
pub fn buy_from_market(stock: u16, demand: i16, credits: i64, price: i64, display_name: &str) -> (r: Result<(u16, i16, i64), CampaignError>)
    requires
        demand <= i16::MAX - 2,
        credits - price <= i64::MAX,
    ensures
        stock == 0 ==> (r matches Err(e) && e.is_state(msg_out_of_stock(display_name@))),
        stock > 0 && credits < price ==> (r matches Err(e) && e.is_state(msg_price(display_name@, price))),
        stock > 0 && credits >= price ==> r == Ok::<(u16, i16, i64), CampaignError>(
            ((stock - 1) as u16, (demand + 2) as i16, (credits - price) as i64)),
{
    if stock == 0 {
        let mut message = display_name.to_owned();
        message.append(" is out of stock until local production recovers");
        return Err(CampaignError::InvalidState(message));
    }
    if credits < price {
        let mut message = display_name.to_owned();
        message.append(" costs ");
        push_signed(&mut message, price);
        message.append(" credits");
        return Err(CampaignError::InvalidState(message));
    }
    Ok((stock - 1, demand + 2, credits - price))
}

/// The market and the player's credits after the player sells one unit at
/// `price`: the credits rise by the price, the stock by one (saturating)
/// and the demand falls by two.
pub fn sell_to_market(stock: u16, demand: i16, credits: i64, price: i64) -> (r: (u16, i16, i64))
    requires
        demand >= i16::MIN + 2,
        i64::MIN <= credits + price <= i64::MAX,
    ensures
        r == ((if stock == u16::MAX { stock } else { (stock + 1) as u16 }), (demand - 2) as i16, (credits + price) as i64),
{
    (stock.saturating_add(1), demand - 2, credits + price)
}

} // verus!
