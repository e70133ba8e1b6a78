use hermetic::railgun::manifest::{validate_label, WalletManifest, WalletRecord};
use hermetic::railgun::runtime::{record, upsert_wallet_record};
use hermetic::railgun::LoadedWallet;

fn record_of(label: &str, wallet_id: &str) -> WalletRecord {
    WalletRecord {
        label: label.into(),
        wallet_id: wallet_id.into(),
        shielded_address: "0zk1qy0000000000000000000000000000000000000000000000000000000".into(),
    }
}

#[test]
fn upsert_replaces_existing_label() {
    let mut manifest = WalletManifest::default();
    manifest.upsert(record_of("main", "id-first"));
    manifest.upsert(record_of("main", "id-second"));
    assert_eq!(
        manifest.wallets.len(),
        1,
        "duplicate label must not grow the list"
    );
    assert_eq!(manifest.wallets[0].wallet_id, "id-second");
}

#[test]
fn upsert_appends_new_label() {
    let mut manifest = WalletManifest::default();
    manifest.upsert(record_of("alice", "id-alice"));
    manifest.upsert(record_of("bob", "id-bob"));
    assert_eq!(manifest.wallets.len(), 2);
}

#[test]
fn select_finds_by_label() {
    let mut manifest = WalletManifest::default();
    manifest.upsert(record_of("main", "abc123"));
    let found = manifest
        .select("main")
        .expect("select by label must succeed");
    assert_eq!(found.wallet_id, "abc123");
}

#[test]
fn select_finds_by_wallet_id() {
    let mut manifest = WalletManifest::default();
    manifest.upsert(record_of("main", "abc123"));
    let found = manifest
        .select("abc123")
        .expect("select by wallet_id must succeed");
    assert_eq!(found.label, "main");
}

#[test]
fn select_returns_err_for_unknown_selector() {
    let manifest = WalletManifest::default();
    assert!(manifest.select("ghost").is_err());
}

#[test]
fn validate_label_rejects_empty_string() {
    assert!(validate_label("").is_err());
}

#[test]
fn validate_label_rejects_whitespace_only() {
    assert!(validate_label("   ").is_err());
}

#[test]
fn validate_label_accepts_normal_label() {
    assert_eq!(validate_label("main"), Ok("main".to_owned()));
}

#[test]
fn validate_label_rejects_unicode_white_space() {
    assert_eq!(
        validate_label("\t\u{3000}\u{2028} \u{a0}"),
        Err("wallet label cannot be empty".to_owned())
    );
}

#[test]
fn validate_label_keeps_surrounding_space() {
    assert_eq!(validate_label("  main "), Ok("  main ".to_owned()));
}

#[test]
fn select_error_names_the_selector() {
    let manifest = WalletManifest::default();
    let err = manifest.select("ghost").unwrap_err();
    assert_eq!(err.message(), "wallet not found in manifest: ghost");
}

#[test]
fn select_prefers_the_first_match() {
    let mut manifest = WalletManifest::default();
    manifest.upsert(record_of("alpha", "beta"));
    manifest.upsert(record_of("beta", "id-beta"));
    let found = manifest.select("beta").expect("beta is known");
    assert_eq!(found.label, "alpha");
}

#[test]
fn upsert_keeps_position_and_other_records() {
    let mut manifest = WalletManifest::default();
    manifest.upsert(record_of("a", "1"));
    manifest.upsert(record_of("b", "2"));
    manifest.upsert(record_of("c", "3"));
    manifest.upsert(record_of("b", "22"));
    let ids: Vec<&str> = manifest.wallets.iter().map(|w| w.wallet_id.as_str()).collect();
    assert_eq!(ids, vec!["1", "22", "3"]);
}

#[test]
fn upsert_twice_is_upsert_once() {
    let mut once = WalletManifest::default();
    once.upsert(record_of("a", "1"));
    once.upsert(record_of("b", "2"));
    let mut twice = WalletManifest::default();
    twice.upsert(record_of("a", "1"));
    twice.upsert(record_of("b", "2"));
    twice.upsert(record_of("b", "2"));
    assert_eq!(once.wallets.len(), twice.wallets.len());
    assert_eq!(twice.wallets[1].wallet_id, "2");
}

#[test]
fn upsert_then_select_by_label_gives_the_record() {
    let mut manifest = WalletManifest::default();
    manifest.upsert(record_of("main", "id-1"));
    manifest.upsert(record_of("spare", "id-2"));
    manifest.upsert(record_of("main", "id-3"));
    assert_eq!(manifest.select("main").unwrap().wallet_id, "id-3");
}

#[test]
fn upsert_wallet_record_stores_loaded_wallet() {
    let mut manifest = WalletManifest::default();
    let wallet = LoadedWallet {
        wallet_id: "w1".into(),
        shielded_address: "0zk1abc".into(),
    };
    upsert_wallet_record(&mut manifest, "main", wallet);
    assert_eq!(manifest.wallets.len(), 1);
    assert_eq!(manifest.wallets[0].label, "main");
    assert_eq!(manifest.wallets[0].wallet_id, "w1");
    assert_eq!(manifest.wallets[0].shielded_address, "0zk1abc");
    let r = record(
        "x",
        LoadedWallet {
            wallet_id: "w2".into(),
            shielded_address: "0zk2".into(),
        },
    );
    assert_eq!(r.label, "x");
    assert_eq!(r.wallet_id, "w2");
}
