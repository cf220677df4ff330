use trnm_campaign_core::logistics::{caravan_risk, plan_caravan, CaravanLeg};
use trnm_campaign_core::quests::RegionalCaravanState;

fn caravan(risk: u8, route_len: usize) -> RegionalCaravanState {
    RegionalCaravanState {
        caravan_id: "caravan-1-480-mirror_city-signal_road".to_string(),
        item_id: "salvaged-alloy".to_string(),
        from_region_id: "mirror_city".to_string(),
        to_region_id: "signal_road".to_string(),
        quantity: 3,
        progress_legs: 0,
        risk,
        route_room_ids: (0..route_len).map(|i| format!("room-{i}")).collect(),
        route_index: 0,
        integrity: 60,
        guarded_by_player: false,
        incident: None,
    }
}

#[test]
fn risky_caravans_are_ambushed_once_and_deliver_less() {
    let mut c = caravan(8, 4);
    assert_eq!(c.travel_leg(), CaravanLeg::Travelling { ambushed: true });
    assert_eq!((c.quantity, c.integrity, c.route_index), (2, 25, 1));
    assert_eq!(c.incident.as_deref(), Some("road_ambush"));
    assert_eq!(c.travel_leg(), CaravanLeg::Travelling { ambushed: false });
    assert_eq!(c.travel_leg(), CaravanLeg::Arrived { delivered: 1 });
    assert_eq!(c.progress_legs, 3);
    assert_eq!(c.route_index, 3);
}

#[test]
fn guarded_caravans_arrive_whole() {
    let mut c = caravan(9, 3);
    c.escort();
    assert!(c.guarded_by_player);
    assert_eq!((c.risk, c.integrity), (5, 75));
    assert_eq!(c.incident.as_deref(), Some("player_escort"));
    assert_eq!(c.travel_leg(), CaravanLeg::Travelling { ambushed: false });
    assert_eq!(c.travel_leg(), CaravanLeg::Arrived { delivered: 3 });
}

#[test]
fn seizing_takes_one_unit() {
    let mut c = caravan(0, 3);
    assert_eq!(c.seize(), 1);
    assert_eq!((c.quantity, c.integrity), (2, 35));
    c.quantity = 0;
    assert_eq!(c.seize(), 0);
    assert_eq!(c.integrity, 10);
}

#[test]
fn caravan_risk_sums_day_hour_and_item() {
    assert_eq!(caravan_risk(3, 125, 14), (3 + 2 + 14) % 10);
    assert_eq!(caravan_risk(1, 480, 15), 4);
}

#[test]
fn caravans_run_from_surplus_to_shortage() {
    // (stock, demand) for mirror_city, signal_road, glass_basin, ashen_fringe
    assert_eq!(plan_caravan(&[(12, 0), (13, 1), (4, 2), (14, 2)]), Some((3, 2)));
    // Equal ranks: the first of the lowest, the last of the highest.
    assert_eq!(plan_caravan(&[(10, 0), (10, 0), (10, 0), (10, 0)]), None);
    assert_eq!(plan_caravan(&[(5, 0), (3, 0), (5, 0), (3, 0)]), Some((2, 1)));
    // Not enough of a surplus to move anything.
    assert_eq!(plan_caravan(&[(5, 0), (4, 0), (4, 0), (4, 0)]), None);
    assert_eq!(plan_caravan(&[]), None);
}
