use trnm_campaign_core::error::CampaignError;
use trnm_campaign_core::market::{
    buy_from_market, sell_to_market, default_regional_market_demand, default_regional_market_stock, market_region_ids, MarketCatalogItem,
};

fn catalog() -> Vec<MarketCatalogItem> {
    vec![
        MarketCatalogItem { id: "salvaged-alloy".to_string(), material: true },
        MarketCatalogItem { id: "field-tonic-kit".to_string(), material: false },
        MarketCatalogItem { id: "relay-core-fragment".to_string(), material: true },
    ]
}

#[test]
fn market_regions_start_with_mirror_city() {
    assert_eq!(market_region_ids(), ["mirror_city", "signal_road", "glass_basin", "ashen_fringe"]);
}

#[test]
fn opening_stock_is_baseline_plus_regional_bias() {
    let stock = default_regional_market_stock(&catalog());
    assert_eq!(stock.len(), 4);
    assert_eq!(stock[0].0, "mirror_city");
    assert_eq!(
        stock[0].1,
        vec![("salvaged-alloy".to_string(), 12), ("field-tonic-kit".to_string(), 4), ("relay-core-fragment".to_string(), 12)]
    );
    // signal_road: (1 + i) % 3 = 1, 2, 0
    assert_eq!(stock[1].0, "signal_road");
    assert_eq!(stock[1].1.iter().map(|(_, q)| *q).collect::<Vec<_>>(), vec![13, 6, 12]);
    // ashen_fringe: (3 + i) % 3 = 0, 1, 2
    assert_eq!(stock[3].0, "ashen_fringe");
    assert_eq!(stock[3].1.iter().map(|(_, q)| *q).collect::<Vec<_>>(), vec![12, 5, 14]);
}

#[test]
fn opening_demand_is_neutral_in_mirror_city_and_biased_elsewhere() {
    let demand = default_regional_market_demand(&catalog());
    assert_eq!(demand.len(), 4);
    assert!(demand[0].1.iter().all(|(_, d)| *d == 0));
    // glass_basin: (4 + i) % 5 - 2 = 2, -2, -1
    assert_eq!(demand[2].0, "glass_basin");
    assert_eq!(demand[2].1.iter().map(|(_, d)| *d).collect::<Vec<_>>(), vec![2, -2, -1]);
    assert_eq!(demand[2].1[1].0, "field-tonic-kit");
}

#[test]
fn an_empty_catalog_gives_empty_markets() {
    let stock = default_regional_market_stock(&[]);
    assert_eq!(stock.len(), 4);
    assert!(stock.iter().all(|(_, items)| items.is_empty()));
}

#[test]
fn buying_and_selling_move_stock_demand_and_credits() {
    assert_eq!(buy_from_market(5, 1, 100, 30, "Salvaged Alloy").unwrap(), (4, 3, 70));
    match buy_from_market(0, 1, 100, 30, "Salvaged Alloy") {
        Err(CampaignError::InvalidState(m)) => assert_eq!(m, "Salvaged Alloy is out of stock until local production recovers"),
        other => panic!("unexpected {other:?}"),
    }
    match buy_from_market(5, 1, 29, 30, "Salvaged Alloy") {
        Err(CampaignError::InvalidState(m)) => assert_eq!(m, "Salvaged Alloy costs 30 credits"),
        other => panic!("unexpected {other:?}"),
    }
    assert_eq!(sell_to_market(4, 3, 70, 21), (5, 1, 91));
    assert_eq!(sell_to_market(u16::MAX, 0, 0, 5), (u16::MAX, -2, 5));
}
