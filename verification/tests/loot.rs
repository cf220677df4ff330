use trnm_campaign_core::error::CampaignError;
use trnm_campaign_core::loot::{consume_loot, merge_loot, text_le, LootStack};

fn stack(id: &str, quantity: u16) -> LootStack {
    LootStack { item_id: id.to_string(), quantity }
}

#[test]
fn merged_loot_is_added_and_sorted() {
    let mut inventory = vec![stack("signal-lamellar", 1), stack("field-tonic-kit", 2)];
    merge_loot(&mut inventory, &[stack("relay-core-fragment", 1), stack("field-tonic-kit", 3)]);
    assert_eq!(
        inventory,
        vec![stack("field-tonic-kit", 5), stack("relay-core-fragment", 1), stack("signal-lamellar", 1)]
    );
}

#[test]
fn merged_quantities_saturate() {
    let mut inventory = vec![stack("salvaged-alloy", u16::MAX - 1)];
    merge_loot(&mut inventory, &[stack("salvaged-alloy", 5)]);
    assert_eq!(inventory, vec![stack("salvaged-alloy", u16::MAX)]);
}

#[test]
fn merge_sorts_by_code_point_and_keeps_equal_ids_in_order() {
    let mut inventory = vec![stack("b", 1), stack("a", 1), stack("b", 2), stack("Z", 1), stack("é", 1)];
    merge_loot(&mut inventory, &[]);
    assert_eq!(inventory, vec![stack("Z", 1), stack("a", 1), stack("b", 1), stack("b", 2), stack("é", 1)]);
    assert!(text_le("abc", "abd"));
    assert!(text_le("ab", "abc"));
    assert!(!text_le("abc", "ab"));
    assert!(text_le("same", "same"));
}

#[test]
fn consuming_takes_from_the_first_sufficient_stack() {
    let mut inventory = vec![stack("salvaged-alloy", 1), stack("salvaged-alloy", 4), stack("route-token", 2)];
    assert!(consume_loot(&mut inventory, "salvaged-alloy", 2).is_ok());
    assert_eq!(inventory, vec![stack("salvaged-alloy", 1), stack("salvaged-alloy", 2), stack("route-token", 2)]);
    assert!(consume_loot(&mut inventory, "route-token", 2).is_ok());
    assert_eq!(inventory, vec![stack("salvaged-alloy", 1), stack("salvaged-alloy", 2)]);
}

#[test]
fn consuming_missing_loot_fails_without_change() {
    let mut inventory = vec![stack("route-token", 1)];
    match consume_loot(&mut inventory, "route-token", 2) {
        Err(CampaignError::InvalidState(message)) => assert_eq!(message, "missing loot item route-token"),
        other => panic!("unexpected {other:?}"),
    }
    assert_eq!(inventory, vec![stack("route-token", 1)]);
}

#[test]
fn merge_then_consume_restores_quantities() {
    let mut inventory = vec![stack("field-tonic-kit", 2)];
    merge_loot(&mut inventory, &[stack("field-tonic-kit", 3)]);
    consume_loot(&mut inventory, "field-tonic-kit", 3).unwrap();
    assert_eq!(inventory, vec![stack("field-tonic-kit", 2)]);
}

fn total(inventory: &[LootStack]) -> u32 {
    inventory.iter().map(|s| u32::from(s.quantity)).sum()
}

#[test]
fn merging_conserves_the_item_count() {
    let mut inventory = vec![stack("signal-lamellar", 4), stack("field-tonic-kit", 2), stack("signal-lamellar", 1)];
    let loot = [stack("signal-lamellar", 3), stack("relay-core-fragment", 7), stack("field-tonic-kit", 1)];
    let before = total(&inventory) + total(&loot);
    merge_loot(&mut inventory, &loot);
    assert_eq!(total(&inventory), before);
    assert_eq!(total(&inventory), 18);
}

#[test]
fn consuming_removes_exactly_the_requested_count_and_no_empty_stack_remains() {
    let mut inventory = vec![stack("route-token", 3), stack("salvaged-alloy", 5), stack("route-token", 1)];
    consume_loot(&mut inventory, "route-token", 3).unwrap();
    assert_eq!(total(&inventory), 6);
    assert!(inventory.iter().all(|s| s.quantity > 0));
    assert_eq!(inventory, vec![stack("salvaged-alloy", 5), stack("route-token", 1)]);
}
