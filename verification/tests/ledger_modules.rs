use clips_nft::blacklist::{add_wallet, is_blacklisted, remove_wallet};
use clips_nft::collection_supply::{get_collection_supply, increment_collection_supply};
use clips_nft::config::{
    get_config, set_config, Config, ConfigService, CONTRACT_VERSION, MAX_BATCH_MINT_SIZE,
    MAX_COLLECTION_SIZE,
};
use clips_nft::config_guard::require_config_admin;
use clips_nft::config_validator::{
    validate_address_present, validate_collection_limit, validate_config, validate_fee,
    validate_royalty_bps, validate_uri, MAX_COLLECTION_LIMIT,
};
use clips_nft::creator_storage::{get_creator, set_creator};
use clips_nft::default_royalty::{
    get_default_royalty_bps, set_default_royalty_bps, DEFAULT_ROYALTY_BPS, MAX_ROYALTY_BPS,
};
use clips_nft::errors::Error;
use clips_nft::frozen_token::{freeze_token, is_frozen, unfreeze_token};
use clips_nft::ledger::Ledger;
use clips_nft::minted_clip_index::{add_clip, clip_exists};
use clips_nft::operator_approval::{is_operator, remove_operator, save_operator};
use clips_nft::pause_state::{get_pause_state, save_pause_state};
use clips_nft::payment_currency::{add_currency, get_currencies, is_supported, remove_currency};
use clips_nft::platform_fee::{get_platform_fee, set_platform_fee, MAX_PLATFORM_FEE_BPS};
use clips_nft::platform_revenue::{get_platform_revenue, save_platform_revenue, update_platform_revenue};
use clips_nft::royalty_history::{get_royalty_history, record_royalty_payment};
use clips_nft::royalty_recipient::{get_royalty_recipient, set_royalty_recipient};
use clips_nft::royalty_storage::{get_royalty, save_royalty, update_royalty};
use clips_nft::storage::keys::StorageKey;
use clips_nft::token_approval::{get_approval, remove_approval, save_approval};
use clips_nft::token_metadata_storage::{get_metadata, save_metadata, update_metadata};
use clips_nft::token_storage;
use clips_nft::token_uri_storage;
use clips_nft::types::{Address, Attribute, Royalty, RoyaltyRecipient, TokenData};
use clips_nft::wallet_token_index::{add_token_to_wallet, get_wallet_tokens, remove_token_from_wallet};

fn addr(n: u32) -> Address {
    Address::from_strkey(format!("G{:055}", n))
}

fn royalty(recipient: &Address, bps: u32) -> Royalty {
    Royalty {
        recipients: vec![RoyaltyRecipient { recipient: recipient.clone(), basis_points: bps }],
        asset_address: None,
    }
}

fn token(owner: &Address, clip_id: u32) -> TokenData {
    TokenData {
        owner: owner.clone(),
        clip_id,
        is_soulbound: false,
        metadata_uri: format!("ipfs://QmClip{}", clip_id),
        image: Some("https://img".to_string()),
        animation_url: None,
        description: Some("a clip".to_string()),
        external_url: None,
        attributes: vec![Attribute { trait_type: "game".to_string(), value: "chess".to_string() }],
        royalty: royalty(owner, 500),
        is_locked: false,
    }
}

fn full_config(owner: &Address) -> Config {
    Config {
        owner: owner.clone(),
        version: CONTRACT_VERSION,
        platform_fee_bps: 100,
        default_royalty_bps: 500,
        paused: false,
        max_batch_mint_size: MAX_BATCH_MINT_SIZE,
        max_collection_size: MAX_COLLECTION_SIZE,
    }
}

// ── addresses ────────────────────────────────────────────────────────────────

#[test]
fn address_keeps_its_strkey() {
    let a = Address::from_strkey("GABC".to_string());
    assert_eq!(a.strkey(), "GABC");
}

// ── blacklist ────────────────────────────────────────────────────────────────

#[test]
fn blacklist_add_remove_roundtrip() {
    let mut l = Ledger::new();
    let w = addr(1);
    let other = addr(2);
    assert!(!is_blacklisted(&l, &w));
    add_wallet(&mut l, &w);
    assert!(is_blacklisted(&l, &w));
    assert!(!is_blacklisted(&l, &other));
    add_wallet(&mut l, &w);
    assert!(is_blacklisted(&l, &w));
    remove_wallet(&mut l, &w);
    assert!(!is_blacklisted(&l, &w));
    remove_wallet(&mut l, &w);
    assert!(!is_blacklisted(&l, &w));
}

// ── collection supply ────────────────────────────────────────────────────────

#[test]
fn collection_supply_counts_per_collection() {
    let mut l = Ledger::new();
    assert_eq!(get_collection_supply(&l, 7), 0);
    increment_collection_supply(&mut l, 7);
    increment_collection_supply(&mut l, 7);
    increment_collection_supply(&mut l, 8);
    assert_eq!(get_collection_supply(&l, 7), 2);
    assert_eq!(get_collection_supply(&l, 8), 1);
    assert_eq!(get_collection_supply(&l, 9), 0);
}

// ── configuration ────────────────────────────────────────────────────────────

#[test]
fn config_constants() {
    assert_eq!(CONTRACT_VERSION, 1);
    assert_eq!(MAX_BATCH_MINT_SIZE, 50);
    assert_eq!(MAX_COLLECTION_SIZE, 10_000);
    assert_eq!(MAX_PLATFORM_FEE_BPS, 1_000);
    assert_eq!(MAX_ROYALTY_BPS, 10_000);
    assert_eq!(DEFAULT_ROYALTY_BPS, 500);
    assert_eq!(MAX_COLLECTION_LIMIT, 100_000);
}

#[test]
fn config_first_set_reports_no_events_and_is_read_back() {
    let mut l = Ledger::new();
    let owner = addr(1);
    assert!(get_config(&l).is_none());
    let events = set_config(&mut l, full_config(&owner), owner.clone()).unwrap();
    assert!(events.is_empty());
    assert_eq!(get_config(&l), Some(full_config(&owner)));
    assert_eq!(ConfigService::read_config(&l), Some(full_config(&owner)));
}

#[test]
fn config_update_reports_each_changed_setting_in_order() {
    let mut l = Ledger::new();
    let owner = addr(1);
    let updater = addr(2);
    set_config(&mut l, full_config(&owner), owner.clone()).unwrap();
    let mut next = full_config(&owner);
    next.platform_fee_bps = 250;
    next.max_collection_size = 20_000;
    next.paused = true;
    let events = set_config(&mut l, next.clone(), updater.clone()).unwrap();
    assert_eq!(events.len(), 2);
    assert_eq!(events[0].key, "platform_fee_bps");
    assert_eq!(events[0].old_value, 100);
    assert_eq!(events[0].new_value, 250);
    assert_eq!(events[0].updater, updater);
    assert_eq!(events[1].key, "max_collection_size");
    assert_eq!(events[1].old_value, 10_000);
    assert_eq!(events[1].new_value, 20_000);
    assert_eq!(get_config(&l), Some(next.clone()));
    // storing the same configuration again reports nothing
    let again = set_config(&mut l, next, updater).unwrap();
    assert!(again.is_empty());
}

#[test]
fn config_update_reports_all_four_settings() {
    let mut l = Ledger::new();
    let owner = addr(1);
    set_config(&mut l, full_config(&owner), owner.clone()).unwrap();
    let next = Config {
        owner: owner.clone(),
        version: 2,
        platform_fee_bps: 1,
        default_royalty_bps: 2,
        paused: false,
        max_batch_mint_size: 3,
        max_collection_size: 4,
    };
    let events = set_config(&mut l, next, owner).unwrap();
    let keys: Vec<&str> = events.iter().map(|e| e.key.as_str()).collect();
    assert_eq!(
        keys,
        vec!["platform_fee_bps", "default_royalty_bps", "max_batch_mint_size", "max_collection_size"]
    );
    assert_eq!(events[1].old_value, 500);
    assert_eq!(events[1].new_value, 2);
    assert_eq!(events[2].old_value, 50);
    assert_eq!(events[2].new_value, 3);
}

#[test]
fn config_rejections_leave_ledger_unchanged() {
    let owner = addr(1);
    let cases: Vec<(Config, Error)> = vec![
        (Config { platform_fee_bps: 1_001, ..full_config(&owner) }, Error::InvalidBasisPoints),
        (Config { default_royalty_bps: 10_001, ..full_config(&owner) }, Error::InvalidBasisPoints),
        (Config { max_batch_mint_size: 0, ..full_config(&owner) }, Error::InvalidConfig),
        (Config { max_batch_mint_size: 101, ..full_config(&owner) }, Error::InvalidConfig),
        (Config { max_collection_size: 0, ..full_config(&owner) }, Error::InvalidConfig),
        (Config { max_collection_size: 100_001, ..full_config(&owner) }, Error::InvalidConfig),
    ];
    for (cfg, err) in cases {
        let mut l = Ledger::new();
        set_config(&mut l, full_config(&owner), owner.clone()).unwrap();
        assert_eq!(ConfigService::validate_update(&cfg), Err(err));
        assert_eq!(set_config(&mut l, cfg.clone(), owner.clone()), Err(err));
        assert_eq!(ConfigService::update_config(&mut l, cfg, owner.clone()), Err(err));
        assert_eq!(get_config(&l), Some(full_config(&owner)));
    }
}

#[test]
fn config_limits_accept_boundaries() {
    let owner = addr(1);
    let cfg = Config {
        platform_fee_bps: 1_000,
        default_royalty_bps: 10_000,
        max_batch_mint_size: 100,
        max_collection_size: 100_000,
        ..full_config(&owner)
    };
    assert_eq!(ConfigService::validate_update(&cfg), Ok(()));
    let low = Config { max_batch_mint_size: 1, max_collection_size: 1, ..full_config(&owner) };
    let mut l = Ledger::new();
    assert!(ConfigService::update_config(&mut l, low.clone(), owner).unwrap().is_empty());
    assert_eq!(get_config(&l), Some(low));
}

#[test]
fn config_guard_outcomes() {
    let mut l = Ledger::new();
    let admin = addr(1);
    assert_eq!(require_config_admin(&l, &admin), Err(Error::NotInitialized));
    l.admin = Some(admin.clone());
    assert_eq!(require_config_admin(&l, &admin), Ok(()));
    assert_eq!(require_config_admin(&l, &addr(2)), Err(Error::UnauthorizedConfigurationUpdate));
}

#[test]
fn validators_report_their_errors() {
    assert_eq!(validate_fee(1_000), Ok(()));
    assert_eq!(validate_fee(1_001), Err(Error::InvalidFee));
    assert_eq!(validate_royalty_bps(10_000), Ok(()));
    assert_eq!(validate_royalty_bps(10_001), Err(Error::InvalidBasisPoints));
    assert_eq!(validate_address_present(&None), Err(Error::InvalidAddress));
    assert_eq!(validate_address_present(&Some(addr(1))), Ok(()));
    assert_eq!(validate_uri(&String::new()), Err(Error::InvalidURI));
    assert_eq!(validate_uri(&"ipfs://x".to_string()), Ok(()));
    assert_eq!(validate_collection_limit(0), Err(Error::InvalidLimit));
    assert_eq!(validate_collection_limit(1), Ok(()));
    assert_eq!(validate_collection_limit(100_000), Ok(()));
    assert_eq!(validate_collection_limit(100_001), Err(Error::InvalidLimit));
}

#[test]
fn validate_config_checks_fee_royalty_then_version() {
    let owner = addr(1);
    assert_eq!(validate_config(&full_config(&owner)), Ok(()));
    let both = Config { platform_fee_bps: 1_001, default_royalty_bps: 10_001, ..full_config(&owner) };
    assert_eq!(validate_config(&both), Err(Error::InvalidFee));
    let royalty_and_version = Config { default_royalty_bps: 10_001, version: 0, ..full_config(&owner) };
    assert_eq!(validate_config(&royalty_and_version), Err(Error::InvalidBasisPoints));
    let version = Config { version: 0, ..full_config(&owner) };
    assert_eq!(validate_config(&version), Err(Error::InvalidLimit));
}

#[test]
fn storage_key_variants_are_distinct() {
    assert_ne!(StorageKey::Token(1), StorageKey::Metadata(1));
    assert_ne!(StorageKey::Royalty(1), StorageKey::Royalty(2));
    assert_eq!(StorageKey::ClipIdMinted(3), StorageKey::ClipIdMinted(3));
    assert_ne!(StorageKey::Config, StorageKey::NextTokenId);
    assert_ne!(StorageKey::Paused, StorageKey::Signer);
}

// ── creators ─────────────────────────────────────────────────────────────────

#[test]
fn creator_roundtrip_and_missing() {
    let mut l = Ledger::new();
    assert_eq!(get_creator(&l, 1), Err(Error::TokenNotFound));
    set_creator(&mut l, 1, &addr(4));
    assert_eq!(get_creator(&l, 1), Ok(addr(4)));
    set_creator(&mut l, 1, &addr(5));
    assert_eq!(get_creator(&l, 1), Ok(addr(5)));
    assert_eq!(get_creator(&l, 2), Err(Error::TokenNotFound));
}

// ── default royalty and platform fee ─────────────────────────────────────────

#[test]
fn default_royalty_defaults_and_bounds() {
    let mut l = Ledger::new();
    assert_eq!(get_default_royalty_bps(&l), 500);
    assert_eq!(set_default_royalty_bps(&mut l, 10_001), Err(Error::InvalidBasisPoints));
    assert_eq!(get_default_royalty_bps(&l), 500);
    assert_eq!(set_default_royalty_bps(&mut l, 0), Ok(()));
    assert_eq!(get_default_royalty_bps(&l), 0);
    assert_eq!(set_default_royalty_bps(&mut l, 10_000), Ok(()));
    assert_eq!(get_default_royalty_bps(&l), 10_000);
}

#[test]
fn platform_fee_defaults_and_bounds() {
    let mut l = Ledger::new();
    assert_eq!(get_platform_fee(&l), 0);
    assert_eq!(set_platform_fee(&mut l, 1_001), Err(Error::InvalidBasisPoints));
    assert_eq!(get_platform_fee(&l), 0);
    assert_eq!(set_platform_fee(&mut l, 1_000), Ok(()));
    assert_eq!(get_platform_fee(&l), 1_000);
}

// ── frozen tokens ────────────────────────────────────────────────────────────

#[test]
fn freeze_and_unfreeze() {
    let mut l = Ledger::new();
    assert!(!is_frozen(&l, 3));
    freeze_token(&mut l, 3);
    assert!(is_frozen(&l, 3));
    assert!(!is_frozen(&l, 4));
    unfreeze_token(&mut l, 3);
    assert!(!is_frozen(&l, 3));
}

// ── minted clip index ────────────────────────────────────────────────────────

#[test]
fn clip_registered_only_once() {
    let mut l = Ledger::new();
    assert!(!clip_exists(&l, 42));
    assert_eq!(add_clip(&mut l, 42), Ok(()));
    assert!(clip_exists(&l, 42));
    assert_eq!(add_clip(&mut l, 42), Err(Error::ClipAlreadyMinted));
    assert!(clip_exists(&l, 42));
    assert!(!clip_exists(&l, 43));
}

// ── operator approvals ───────────────────────────────────────────────────────

#[test]
fn operator_approval_is_per_pair() {
    let mut l = Ledger::new();
    let (owner, op, other) = (addr(1), addr(2), addr(3));
    assert!(!is_operator(&l, &owner, &op));
    save_operator(&mut l, &owner, &op);
    assert!(is_operator(&l, &owner, &op));
    assert!(!is_operator(&l, &op, &owner));
    assert!(!is_operator(&l, &owner, &other));
    remove_operator(&mut l, &owner, &op);
    assert!(!is_operator(&l, &owner, &op));
}

// ── pause state ──────────────────────────────────────────────────────────────

#[test]
fn pause_state_roundtrip() {
    let mut l = Ledger::new();
    assert!(!get_pause_state(&l));
    save_pause_state(&mut l, true);
    assert!(get_pause_state(&l));
    save_pause_state(&mut l, false);
    assert!(!get_pause_state(&l));
}

// ── payment currencies ───────────────────────────────────────────────────────

#[test]
fn currencies_keep_order_and_refuse_repeats() {
    let mut l = Ledger::new();
    let (a, b, c) = (addr(1), addr(2), addr(3));
    add_currency(&mut l, a.clone()).unwrap();
    add_currency(&mut l, b.clone()).unwrap();
    add_currency(&mut l, c.clone()).unwrap();
    assert_eq!(add_currency(&mut l, b.clone()), Err(Error::DuplicateCurrency));
    assert_eq!(get_currencies(&l), vec![a.clone(), b.clone(), c.clone()]);
    remove_currency(&mut l, &b).unwrap();
    assert_eq!(get_currencies(&l), vec![a.clone(), c.clone()]);
    assert_eq!(remove_currency(&mut l, &b), Err(Error::CurrencyNotFound));
    assert!(!is_supported(&l, &b));
    assert!(is_supported(&l, &a));
    // adding then removing a new currency gives the list back
    let d = addr(4);
    add_currency(&mut l, d.clone()).unwrap();
    remove_currency(&mut l, &d).unwrap();
    assert_eq!(get_currencies(&l), vec![a, c]);
}

// ── platform revenue ─────────────────────────────────────────────────────────

#[test]
fn platform_revenue_accumulates() {
    let mut l = Ledger::new();
    assert_eq!(get_platform_revenue(&l), 0);
    update_platform_revenue(&mut l, 150);
    update_platform_revenue(&mut l, -50);
    assert_eq!(get_platform_revenue(&l), 100);
    save_platform_revenue(&mut l, 7);
    assert_eq!(get_platform_revenue(&l), 7);
    update_platform_revenue(&mut l, 3);
    assert_eq!(get_platform_revenue(&l), 10);
}

// ── royalty history ──────────────────────────────────────────────────────────

#[test]
fn royalty_history_appends_in_order() {
    let mut l = Ledger::new();
    assert!(get_royalty_history(&l, 1).is_empty());
    record_royalty_payment(&mut l, 1, addr(1), 100, 1_000);
    record_royalty_payment(&mut l, 1, addr(2), 250, 2_000);
    record_royalty_payment(&mut l, 2, addr(3), 5, 3_000);
    let h = get_royalty_history(&l, 1);
    assert_eq!(h.len(), 2);
    assert_eq!(h[0].recipient, addr(1));
    assert_eq!(h[0].amount, 100);
    assert_eq!(h[1].token_id, 1);
    assert_eq!(h[1].amount, 250);
    assert_eq!(h[1].timestamp, 2_000);
    assert_eq!(get_royalty_history(&l, 2).len(), 1);
}

// ── royalty recipient ────────────────────────────────────────────────────────

#[test]
fn royalty_recipient_requires_token() {
    let mut l = Ledger::new();
    assert_eq!(set_royalty_recipient(&mut l, 1, addr(2)), Err(Error::TokenNotFound));
    assert_eq!(get_royalty_recipient(&l, 1), None);
    token_storage::set_token(&mut l, 1, &token(&addr(1), 10));
    assert_eq!(set_royalty_recipient(&mut l, 1, addr(2)), Ok(()));
    assert_eq!(get_royalty_recipient(&l, 1), Some(addr(2)));
}

// ── royalty storage ──────────────────────────────────────────────────────────

#[test]
fn royalty_save_get_update() {
    let mut l = Ledger::new();
    let r1 = royalty(&addr(1), 500);
    let r2 = royalty(&addr(2), 750);
    assert_eq!(get_royalty(&l, 5), Err(Error::TokenNotFound));
    assert_eq!(update_royalty(&mut l, 5, &r1), Err(Error::TokenNotFound));
    assert_eq!(get_royalty(&l, 5), Err(Error::TokenNotFound));
    save_royalty(&mut l, 5, &r1);
    assert_eq!(get_royalty(&l, 5), Ok(r1.clone()));
    assert_eq!(update_royalty(&mut l, 5, &r2), Ok(()));
    assert_eq!(get_royalty(&l, 5), Ok(r2.clone()));
    // the token repository reads the same entry
    assert_eq!(token_storage::get_royalty(&l, 5), Ok(r2));
}

// ── token approvals ──────────────────────────────────────────────────────────

#[test]
fn token_approval_roundtrip() {
    let mut l = Ledger::new();
    assert_eq!(get_approval(&l, 1), None);
    save_approval(&mut l, 1, &addr(9));
    assert_eq!(get_approval(&l, 1), Some(addr(9)));
    assert_eq!(get_approval(&l, 2), None);
    remove_approval(&mut l, 1);
    assert_eq!(get_approval(&l, 1), None);
}

// ── token metadata ───────────────────────────────────────────────────────────

#[test]
fn metadata_save_get_update() {
    let mut l = Ledger::new();
    let u1 = "ipfs://one".to_string();
    let u2 = "ipfs://two".to_string();
    assert_eq!(update_metadata(&mut l, 3, &u1), Err(Error::TokenNotFound));
    assert_eq!(get_metadata(&l, 3), Err(Error::TokenNotFound));
    save_metadata(&mut l, 3, &u1);
    assert_eq!(get_metadata(&l, 3), Ok(u1));
    assert_eq!(update_metadata(&mut l, 3, &u2), Ok(()));
    assert_eq!(token_storage::get_metadata(&l, 3), Ok(u2));
}

// ── token storage ────────────────────────────────────────────────────────────

#[test]
fn token_storage_roundtrip_and_remove() {
    let mut l = Ledger::new();
    let owner = addr(1);
    let data = token(&owner, 77);
    assert!(!token_storage::token_exists(&l, 0));
    assert_eq!(token_storage::get_token(&l, 0), Err(Error::TokenNotFound));
    token_storage::set_token(&mut l, 0, &data);
    token_storage::set_metadata(&mut l, 0, &"ipfs://QmClip77".to_string());
    token_storage::set_royalty(&mut l, 0, &royalty(&owner, 300));
    token_storage::set_token(&mut l, 1, &token(&owner, 78));
    assert!(token_storage::token_exists(&l, 0));
    assert_eq!(token_storage::get_token(&l, 0), Ok(data));
    assert_eq!(get_metadata(&l, 0), Ok("ipfs://QmClip77".to_string()));
    token_storage::remove_token(&mut l, 0);
    assert!(!token_storage::token_exists(&l, 0));
    assert_eq!(token_storage::get_metadata(&l, 0), Err(Error::TokenNotFound));
    assert_eq!(token_storage::get_royalty(&l, 0), Err(Error::TokenNotFound));
    assert!(token_storage::token_exists(&l, 1));
}

// ── token URIs ───────────────────────────────────────────────────────────────

#[test]
fn token_uri_rejects_empty_and_roundtrips() {
    let mut l = Ledger::new();
    assert_eq!(token_uri_storage::validate_uri(&String::new()), Err(Error::InvalidURI));
    assert_eq!(token_uri_storage::set_token_uri(&mut l, 1, &String::new()), Err(Error::InvalidURI));
    assert_eq!(token_uri_storage::get_token_uri(&l, 1), Err(Error::TokenNotFound));
    let uri = "ipfs://QmClip1000".to_string();
    assert_eq!(token_uri_storage::set_token_uri(&mut l, 1, &uri), Ok(()));
    assert_eq!(token_uri_storage::get_token_uri(&l, 1), Ok(uri));
}

// ── wallet token index ───────────────────────────────────────────────────────

#[test]
fn wallet_index_add_and_remove() {
    let mut l = Ledger::new();
    let w = addr(1);
    let other = addr(2);
    assert!(get_wallet_tokens(&l, &w).is_empty());
    add_token_to_wallet(&mut l, &w, 10);
    add_token_to_wallet(&mut l, &w, 11);
    add_token_to_wallet(&mut l, &w, 12);
    add_token_to_wallet(&mut l, &other, 11);
    assert_eq!(get_wallet_tokens(&l, &w), vec![10, 11, 12]);
    remove_token_from_wallet(&mut l, &w, 11);
    assert_eq!(get_wallet_tokens(&l, &w), vec![10, 12]);
    assert_eq!(get_wallet_tokens(&l, &other), vec![11]);
    // removing an absent token leaves the list as it is
    remove_token_from_wallet(&mut l, &w, 99);
    assert_eq!(get_wallet_tokens(&l, &w), vec![10, 12]);
    // adding a token the wallet did not list and removing it restores the list
    add_token_to_wallet(&mut l, &w, 55);
    remove_token_from_wallet(&mut l, &w, 55);
    assert_eq!(get_wallet_tokens(&l, &w), vec![10, 12]);
    // every copy of a token is removed
    add_token_to_wallet(&mut l, &w, 10);
    remove_token_from_wallet(&mut l, &w, 10);
    assert_eq!(get_wallet_tokens(&l, &w), vec![12]);
}
