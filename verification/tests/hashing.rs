use trnm_campaign_core::hashing::{canonical_json_hash, cex_scoped_campaign_id, scoped_economic_intent_id};

#[test]
fn canonical_hash_is_lowercase_sha256_hex() {
    assert_eq!(
        canonical_json_hash(b""),
        "e3b0c44298fc1c149afbf4c8996fb92427ae41e4649b934ca495991b7852b855"
    );
    assert_eq!(
        canonical_json_hash(b"abc"),
        "ba7816bf8f01cfea414140de5dae2223b00361a396177a9cb410ff61f20015ad"
    );
    assert_eq!(canonical_json_hash(b"{\"a\":1}").len(), 64);
}

#[test]
fn cex_scope_depends_on_account_and_campaign() {
    let one = cex_scoped_campaign_id("account-one", "local-campaign");
    let two = cex_scoped_campaign_id("account-two", "local-campaign");
    assert!(one.starts_with("cex-campaign-"));
    assert_eq!(one.len(), "cex-campaign-".len() + 64);
    assert_ne!(one, two);
    assert_eq!(one, cex_scoped_campaign_id("account-one", "local-campaign"));
    let expected = canonical_json_hash(b"trnm-cex-campaign-scope-v1\0account-one\0local-campaign");
    assert_eq!(one, format!("cex-campaign-{expected}"));
}

#[test]
fn intent_ids_are_scoped_once() {
    let scoped = scoped_economic_intent_id("campaign-7", "battle-reward:b1");
    assert_eq!(scoped, "campaign-7:battle-reward:b1");
    assert_eq!(scoped_economic_intent_id("campaign-7", &scoped), scoped);
    assert_eq!(scoped_economic_intent_id("campaign-7", "campaign-70:x"), "campaign-7:campaign-70:x");
}
